use dispatcher_store::viewer_sessions::{DwgViewerSessionRegistry, DwgViewerSessionState};

fn state(id: &str, ws: &str, path: &str, active: bool, visible: bool, updated_at: u64) -> DwgViewerSessionState {
    DwgViewerSessionState {
        session_id: id.to_string(),
        workspace_id: ws.to_string(),
        file_path: path.to_string(),
        active,
        visible,
        updated_at,
    }
}

#[test]
fn registered_session_is_found_and_replaced_by_id() {
    let mut reg = DwgViewerSessionRegistry::new();
    let r = reg.register_session(state("s1", "ws", "/a.dwg", false, true, 1));
    assert_eq!(r.session_id, "s1");
    assert_eq!(reg.get_session("s1").unwrap().updated_at, 1);
    reg.update_state(state("s1", "ws", "/a.dwg", true, true, 5));
    let got = reg.get_session("s1").unwrap();
    assert!(got.active);
    assert_eq!(got.updated_at, 5);
    assert_eq!(reg.list_file_sessions("ws", "/a.dwg").len(), 1);
}

#[test]
fn unregistered_session_is_gone() {
    let mut reg = DwgViewerSessionRegistry::new();
    reg.register_session(state("s1", "ws", "/a.dwg", false, true, 1));
    reg.register_session(state("s2", "ws", "/b.dwg", false, true, 1));
    reg.unregister_session("s1");
    assert!(reg.get_session("s1").is_none());
    assert!(reg.get_session("s2").is_some());
    reg.unregister_session("missing");
    assert!(reg.get_session("s2").is_some());
}

#[test]
fn best_session_prefers_active_then_visible_then_latest() {
    let mut reg = DwgViewerSessionRegistry::new();
    reg.register_session(state("old-visible", "ws", "/a.dwg", false, true, 9));
    reg.register_session(state("hidden", "ws", "/a.dwg", false, false, 50));
    reg.register_session(state("other-file", "ws", "/b.dwg", true, true, 99));
    reg.register_session(state("other-ws", "ws2", "/a.dwg", true, true, 99));
    assert_eq!(reg.best_session_for_file("ws", "/a.dwg").unwrap().session_id, "old-visible");
    reg.register_session(state("active", "ws", "/a.dwg", true, false, 1));
    assert_eq!(reg.best_session_for_file("ws", "/a.dwg").unwrap().session_id, "active");
    reg.register_session(state("active-newer", "ws", "/a.dwg", true, false, 2));
    assert_eq!(reg.best_session_for_file("ws", "/a.dwg").unwrap().session_id, "active-newer");
    assert!(reg.best_session_for_file("ws", "/c.dwg").is_none());
    assert_eq!(reg.list_file_sessions("ws", "/a.dwg").len(), 4);
}
