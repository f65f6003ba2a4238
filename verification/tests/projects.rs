use dispatcher_store::projects::{plan_save_projects, project_not_found, Project};

fn sample_project(id: &str, path: &str) -> Project {
    Project {
        id: id.to_string(),
        name: format!("项目 {id}"),
        path: path.to_string(),
        branch: Some("main".to_string()),
        last_opened_at: 1_700_000_000,
    }
}

fn ids(existing: &[&str]) -> Vec<String> {
    existing.iter().map(|s| s.to_string()).collect()
}

#[test]
fn save_projects_all_replaces_whole_list_and_keeps_order() {
    let first = plan_save_projects(&ids(&[]), &vec![sample_project("a", "/tmp/a"), sample_project("b", "/tmp/b")])
        .unwrap();
    let stored: Vec<String> = first.iter().map(|r| r.project.id.clone()).collect();
    let rows = plan_save_projects(
        &stored,
        &vec![
            sample_project("b", "/tmp/b"),
            sample_project("a", "/tmp/a"),
            sample_project("c", "/tmp/c"),
        ],
    )
    .unwrap();
    let mut sorted: Vec<(i64, &str)> = rows.iter().map(|r| (r.sort_order, r.project.id.as_str())).collect();
    sorted.sort();
    let ids: Vec<&str> = sorted.iter().map(|(_, id)| *id).collect();
    assert_eq!(ids, vec!["b", "a", "c"]);
    assert_eq!(rows[1].project.path, "/tmp/a");
    assert_eq!(rows[1].project.branch.as_deref(), Some("main"));
}

#[test]
fn save_projects_all_rejects_removal_and_rolls_back() {
    let error = plan_save_projects(&ids(&["a", "b"]), &vec![sample_project("b", "/tmp/b")])
        .err()
        .expect("leaving out a stored project is refused");
    assert!(error.contains("project_delete"));
    assert!(error.ends_with("缺失项目 a"));
}

#[test]
fn deleting_a_missing_project_is_reported() {
    assert_eq!(project_not_found("missing"), "project not found: missing");
}

#[test]
fn reordering_and_adding_is_accepted() {
    let rows = plan_save_projects(&ids(&["a"]), &vec![sample_project("z", "/z"), sample_project("a", "/a")]).unwrap();
    assert_eq!(rows.len(), 2);
    assert_eq!(rows[0].sort_order, 0);
    assert_eq!(rows[1].sort_order, 1);
}
