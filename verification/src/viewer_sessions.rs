//! The registry of open DWG viewer sessions: each session is known by its
//! id, and a drawing is served by the best of the sessions showing it.
//! File paths arrive already normalised by the caller.
use vstd::prelude::*;
use crate::text::str_eq;

verus! {

/// What the bridge knows of one viewer session.
#[derive(Debug)]
pub struct DwgViewerSessionState {
    pub session_id: String,
    pub workspace_id: String,
    pub file_path: String,
    pub active: bool,
    pub visible: bool,
    pub updated_at: u64,
}

/// The mathematical value of a viewer session.
pub struct ViewerSessionView {
    pub session_id: Seq<char>,
    pub workspace_id: Seq<char>,
    pub file_path: Seq<char>,
    pub active: bool,
    pub visible: bool,
    pub updated_at: u64,
}

impl View for DwgViewerSessionState {
    type V = ViewerSessionView;

    open spec fn view(&self) -> ViewerSessionView {
        ViewerSessionView {
            session_id: self.session_id@,
            workspace_id: self.workspace_id@,
            file_path: self.file_path@,
            active: self.active,
            visible: self.visible,
            updated_at: self.updated_at,
        }
    }
}

impl DwgViewerSessionState {
    /// A copy of the session.
    pub fn copy(&self) -> (r: Self)
        ensures
            r@ == self@,
    {
        DwgViewerSessionState {
            session_id: self.session_id.clone(),
            workspace_id: self.workspace_id.clone(),
            file_path: self.file_path.clone(),
            active: self.active,
            visible: self.visible,
            updated_at: self.updated_at,
        }
    }
}

/// Whether every session id occurs once.
pub open spec fn ids_distinct(s: Seq<ViewerSessionView>) -> bool {
    forall|i: int, j: int|
        0 <= i < s.len() && 0 <= j < s.len() && i != j ==> s[i].session_id != s[j].session_id
}

/// Whether some session has the id.
pub open spec fn has_session(s: Seq<ViewerSessionView>, id: Seq<char>) -> bool {
    exists|i: int| 0 <= i < s.len() && #[trigger] s[i].session_id == id
}

/// The position of the session with the id, when there is one.
pub open spec fn session_index(s: Seq<ViewerSessionView>, id: Seq<char>) -> int {
    choose|i: int| 0 <= i < s.len() && #[trigger] s[i].session_id == id
}

/// The session with the id.
pub open spec fn lookup(s: Seq<ViewerSessionView>, id: Seq<char>) -> Option<ViewerSessionView> {
    if has_session(s, id) {
        Some(s[session_index(s, id)])
    } else {
        None
    }
}

/// The sessions after recording `st`: it replaces the session with its id,
/// or joins the others.
pub open spec fn upserted(s: Seq<ViewerSessionView>, st: ViewerSessionView) -> Seq<
    ViewerSessionView,
> {
    if has_session(s, st.session_id) {
        s.update(session_index(s, st.session_id), st)
    } else {
        s.push(st)
    }
}

/// The sessions after forgetting the one with the id.
pub open spec fn without_session(s: Seq<ViewerSessionView>, id: Seq<char>) -> Seq<
    ViewerSessionView,
> {
    if has_session(s, id) {
        s.remove(session_index(s, id))
    } else {
        s
    }
}

/// Whether a session shows the file of the workspace.
pub open spec fn shows_file(v: ViewerSessionView, workspace_id: Seq<char>, file_path: Seq<char>) -> bool {
    v.workspace_id == workspace_id && v.file_path == file_path
}

/// Whether `a` is to be preferred to `b`: an active session first, then a
/// visible one, then the one updated last.
pub open spec fn ranks_above(a: ViewerSessionView, b: ViewerSessionView) -> bool {
    (a.active && !b.active) || (a.active == b.active && ((a.visible && !b.visible) || (a.visible
        == b.visible && a.updated_at > b.updated_at)))
}

pub open spec fn session_views(s: Seq<DwgViewerSessionState>) -> Seq<ViewerSessionView> {
    s.map_values(|v: DwgViewerSessionState| v@)
}

/// The open viewer sessions.
pub struct DwgViewerSessionRegistry {
    sessions: Vec<DwgViewerSessionState>,
}

impl View for DwgViewerSessionRegistry {
    type V = Seq<ViewerSessionView>;

    closed spec fn view(&self) -> Seq<ViewerSessionView> {
        session_views(self.sessions@)
    }
}

proof fn lemma_index_unique(s: Seq<ViewerSessionView>, id: Seq<char>, i: int)
    requires
        ids_distinct(s),
        0 <= i < s.len(),
        s[i].session_id == id,
    ensures
        has_session(s, id),
        session_index(s, id) == i,
{
    assert(s[i].session_id == id);
}

impl DwgViewerSessionRegistry {
    /// Whether no two sessions share an id.
    pub closed spec fn wf(&self) -> bool {
        ids_distinct(self@)
    }

    /// A registry with no session.
    pub fn new() -> (r: Self)
        ensures
            r.wf(),
            r@ == Seq::<ViewerSessionView>::empty(),
    {
        let r = DwgViewerSessionRegistry { sessions: Vec::new() };
        proof {
            assert(r@ =~= Seq::<ViewerSessionView>::empty());
        }
        r
    }

    fn position(&self, session_id: &str) -> (r: Option<usize>)
        requires
            self.wf(),
        ensures
            match r {
                Some(i) => has_session(self@, session_id@) && session_index(self@, session_id@)
                    == i as int && (i as int) < self@.len(),
                None => !has_session(self@, session_id@),
            },
    {
        let n = self.sessions.len();
        for i in 0..n
            invariant
                n == self.sessions@.len(),
                self@ == session_views(self.sessions@),
                ids_distinct(self@),
                forall|k: int| 0 <= k < i ==> self@[k].session_id != session_id@,
        {
            if str_eq(self.sessions[i].session_id.as_str(), session_id) {
                proof {
                    lemma_index_unique(self@, session_id@, i as int);
                }
                return Some(i);
            }
        }
        None
    }

    fn upsert(&mut self, state: DwgViewerSessionState) -> (r: DwgViewerSessionState)
        requires
            old(self).wf(),
        ensures
            final(self).wf(),
            final(self)@ == upserted(old(self)@, state@),
            r@ == state@,
    {
        let r = state.copy();
        match self.position(state.session_id.as_str()) {
            Some(i) => {
                self.sessions.set(i, state);
                proof {
                    assert(self@ =~= old(self)@.update(i as int, r@));
                    assert forall|a: int, b: int|
                        0 <= a < self@.len() && 0 <= b < self@.len() && a != b implies self@[a].session_id
                        != self@[b].session_id by {
                        assert(old(self)@[a].session_id != old(self)@[b].session_id);
                    }
                }
            },
            None => {
                self.sessions.push(state);
                proof {
                    assert(self@ =~= old(self)@.push(r@));
                    assert forall|a: int, b: int|
                        0 <= a < self@.len() && 0 <= b < self@.len() && a != b implies self@[a].session_id
                        != self@[b].session_id by {
                        if a < old(self)@.len() && b < old(self)@.len() {
                            assert(old(self)@[a].session_id != old(self)@[b].session_id);
                        } else if a < old(self)@.len() {
                            assert(old(self)@[a].session_id != r@.session_id);
                        } else {
                            assert(old(self)@[b].session_id != r@.session_id);
                        }
                    }
                }
            },
        }
        r
    }

    /// Records a newly opened session, replacing any with its id, and
    /// returns it.
    pub fn register_session(&mut self, state: DwgViewerSessionState) -> (r: DwgViewerSessionState)
        requires
            old(self).wf(),
        ensures
            final(self).wf(),
            final(self)@ == upserted(old(self)@, state@),
            r@ == state@,
    {
        self.upsert(state)
    }

    /// Records the new state of a session, replacing any with its id, and
    /// returns it.
    pub fn update_state(&mut self, state: DwgViewerSessionState) -> (r: DwgViewerSessionState)
        requires
            old(self).wf(),
        ensures
            final(self).wf(),
            final(self)@ == upserted(old(self)@, state@),
            r@ == state@,
    {
        self.upsert(state)
    }

    /// Forgets the session with the id, if there is one.
    pub fn unregister_session(&mut self, session_id: &str)
        requires
            old(self).wf(),
        ensures
            final(self).wf(),
            final(self)@ == without_session(old(self)@, session_id@),
    {
        match self.position(session_id) {
            Some(i) => {
                self.sessions.remove(i);
                proof {
                    assert(self@ =~= old(self)@.remove(i as int));
                    assert forall|a: int, b: int|
                        0 <= a < self@.len() && 0 <= b < self@.len() && a != b implies self@[a].session_id
                        != self@[b].session_id by {
                        let a2 = if a < i { a } else { a + 1 };
                        let b2 = if b < i { b } else { b + 1 };
                        assert(old(self)@[a2].session_id != old(self)@[b2].session_id);
                    }
                }
            },
            None => {},
        }
    }

    /// The session with the id.
    pub fn get_session(&self, session_id: &str) -> (r: Option<DwgViewerSessionState>)
        requires
            self.wf(),
        ensures
            match r {
                Some(s) => lookup(self@, session_id@) == Some(s@),
                None => lookup(self@, session_id@) is None,
            },
    {
        match self.position(session_id) {
            Some(i) => Some(self.sessions[i].copy()),
            None => None,
        }
    }

    /// The sessions showing the file of the workspace, in registry order.
    pub fn list_file_sessions(&self, workspace_id: &str, file_path: &str) -> (r: Vec<
        DwgViewerSessionState,
    >)
        ensures
            session_views(r@) == self@.filter(
                |v: ViewerSessionView| shows_file(v, workspace_id@, file_path@),
            ),
    {
        let mut out: Vec<DwgViewerSessionState> = Vec::new();
        let n = self.sessions.len();
        let ghost all = self@;
        proof {
            reveal(Seq::filter);
            assert(all.take(0) =~= Seq::<ViewerSessionView>::empty());
            assert(session_views(out@) =~= all.take(0).filter(
                |v: ViewerSessionView| shows_file(v, workspace_id@, file_path@),
            ));
        }
        for i in 0..n
            invariant
                n == self.sessions@.len(),
                all == self@,
                all == session_views(self.sessions@),
                session_views(out@) == all.take(i as int).filter(
                    |v: ViewerSessionView| shows_file(v, workspace_id@, file_path@),
                ),
        {
            proof {
                reveal(Seq::filter);
                assert(all.take(i + 1).drop_last() =~= all.take(i as int));
                assert(all.take(i + 1).last() == self.sessions@[i as int]@);
            }
            let s = &self.sessions[i];
            let ghost before = out@;
            if str_eq(s.workspace_id.as_str(), workspace_id) && str_eq(
                s.file_path.as_str(),
                file_path,
            ) {
                out.push(s.copy());
                proof {
                    assert(session_views(out@) =~= session_views(before).push(s@));
                }
            } else {
                proof {
                    assert(session_views(out@) =~= session_views(before));
                }
            }
        }
        proof {
            assert(all.take(n as int) =~= all);
        }
        out
    }

    /// The session that serves the file of the workspace: among those showing
    /// it, an active one before an inactive one, then a visible one, then the
    /// one updated last. `None` when no session shows the file.
    pub fn best_session_for_file(&self, workspace_id: &str, file_path: &str) -> (r: Option<
        DwgViewerSessionState,
    >)
        ensures
            match r {
                Some(best) => {
                    &&& self@.contains(best@)
                    &&& shows_file(best@, workspace_id@, file_path@)
                    &&& forall|k: int|
                        0 <= k < self@.len() && shows_file(self@[k], workspace_id@, file_path@)
                            ==> !ranks_above(self@[k], best@)
                },
                None => forall|k: int|
                    0 <= k < self@.len() ==> !shows_file(self@[k], workspace_id@, file_path@),
            },
    {
        let mut best: Option<usize> = None;
        let n = self.sessions.len();
        for i in 0..n
            invariant
                n == self.sessions@.len(),
                self@ == session_views(self.sessions@),
                match best {
                    Some(b) => {
                        &&& b < i
                        &&& shows_file(self@[b as int], workspace_id@, file_path@)
                        &&& forall|k: int|
                            0 <= k < i && shows_file(self@[k], workspace_id@, file_path@)
                                ==> !ranks_above(self@[k], self@[b as int])
                    },
                    None => forall|k: int|
                        0 <= k < i ==> !shows_file(self@[k], workspace_id@, file_path@),
                },
        {
            let s = &self.sessions[i];
            if str_eq(s.workspace_id.as_str(), workspace_id) && str_eq(
                s.file_path.as_str(),
                file_path,
            ) {
                match best {
                    None => {
                        best = Some(i);
                    },
                    Some(b) => {
                        let c = &self.sessions[b];
                        let better = (s.active && !c.active) || (s.active == c.active && ((
                        s.visible && !c.visible) || (s.visible == c.visible && s.updated_at
                            > c.updated_at)));
                        if better {
                            best = Some(i);
                        }
                    },
                }
            }
        }
        match best {
            Some(b) => {
                proof {
                    assert(self@[b as int] == self@[b as int]);
                    assert(self@.contains(self.sessions@[b as int]@));
                }
                Some(self.sessions[b].copy())
            },
            None => None,
        }
    }
}

/// Recording a session makes it the one found under its id, leaves every
/// other id's session as it was, and keeps ids distinct.
pub proof fn law_registered_session_is_found(
    s: Seq<ViewerSessionView>,
    st: ViewerSessionView,
    other: Seq<char>,
)
    requires
        ids_distinct(s),
        other != st.session_id,
    ensures
        ids_distinct(upserted(s, st)),
        lookup(upserted(s, st), st.session_id) == Some(st),
        lookup(upserted(s, st), other) == lookup(s, other),
{
    let u = upserted(s, st);
    if has_session(s, st.session_id) {
        let i = session_index(s, st.session_id);
        assert(u[i] == st);
        assert forall|a: int, b: int|
            0 <= a < u.len() && 0 <= b < u.len() && a != b implies u[a].session_id
            != u[b].session_id by {
            assert(s[a].session_id != s[b].session_id);
        }
        lemma_index_unique(u, st.session_id, i);
        if has_session(s, other) {
            let j = session_index(s, other);
            assert(u[j] == s[j]);
            lemma_index_unique(u, other, j);
        } else {
            assert forall|k: int| 0 <= k < u.len() implies u[k].session_id != other by {
                if k != i {
                    assert(u[k] == s[k]);
                }
            }
        }
    } else {
        let i = s.len() as int;
        assert(u[i] == st);
        assert forall|a: int, b: int|
            0 <= a < u.len() && 0 <= b < u.len() && a != b implies u[a].session_id
            != u[b].session_id by {
            if a < s.len() && b < s.len() {
                assert(s[a].session_id != s[b].session_id);
            } else if a < s.len() {
                assert(u[a] == s[a]);
            } else {
                assert(u[b] == s[b]);
            }
        }
        lemma_index_unique(u, st.session_id, i);
        if has_session(s, other) {
            let j = session_index(s, other);
            assert(u[j] == s[j]);
            lemma_index_unique(u, other, j);
        } else {
            assert forall|k: int| 0 <= k < u.len() implies u[k].session_id != other by {
                if k < s.len() {
                    assert(u[k] == s[k]);
                }
            }
        }
    }
}

/// Forgetting a session leaves none under its id and every other id's
/// session as it was.
pub proof fn law_unregistered_session_is_gone(
    s: Seq<ViewerSessionView>,
    id: Seq<char>,
    other: Seq<char>,
)
    requires
        ids_distinct(s),
        other != id,
    ensures
        ids_distinct(without_session(s, id)),
        lookup(without_session(s, id), id) is None,
        lookup(without_session(s, id), other) == lookup(s, other),
{
    let w = without_session(s, id);
    if has_session(s, id) {
        let i = session_index(s, id);
        assert forall|a: int, b: int|
            0 <= a < w.len() && 0 <= b < w.len() && a != b implies w[a].session_id
            != w[b].session_id by {
            let a2 = if a < i { a } else { a + 1 };
            let b2 = if b < i { b } else { b + 1 };
            assert(s[a2].session_id != s[b2].session_id);
        }
        assert forall|k: int| 0 <= k < w.len() implies w[k].session_id != id by {
            let k2 = if k < i { k } else { k + 1 };
            assert(s[k2].session_id != s[i].session_id);
        }
        if has_session(s, other) {
            let j = session_index(s, other);
            assert(j != i);
            let j2 = if j < i { j } else { j - 1 };
            assert(w[j2] == s[j]);
            lemma_index_unique(w, other, j2);
        } else {
            assert forall|k: int| 0 <= k < w.len() implies w[k].session_id != other by {
                let k2 = if k < i { k } else { k + 1 };
                assert(w[k] == s[k2]);
            }
        }
    }
}

} // verus!
