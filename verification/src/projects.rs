//! The managed project list: saving it whole, in order, without silently
//! dropping a project (a project leaves only through its cascading delete).
use vstd::prelude::*;
use crate::text::{clone_opt, opt_view, str_eq, string_views};

verus! {

broadcast use vstd::string::group_string_axioms;

/// A managed project.
#[derive(Debug)]
pub struct Project {
    pub id: String,
    pub name: String,
    pub path: String,
    pub branch: Option<String>,
    pub last_opened_at: i64,
}

/// The mathematical value of a project.
pub struct ProjectView {
    pub id: Seq<char>,
    pub name: Seq<char>,
    pub path: Seq<char>,
    pub branch: Option<Seq<char>>,
    pub last_opened_at: i64,
}

impl View for Project {
    type V = ProjectView;

    open spec fn view(&self) -> ProjectView {
        ProjectView {
            id: self.id@,
            name: self.name@,
            path: self.path@,
            branch: opt_view(self.branch),
            last_opened_at: self.last_opened_at,
        }
    }
}

impl Project {
    /// A copy of the project.
    pub fn copy(&self) -> (r: Self)
        ensures
            r@ == self@,
    {
        Project {
            id: self.id.clone(),
            name: self.name.clone(),
            path: self.path.clone(),
            branch: clone_opt(&self.branch),
            last_opened_at: self.last_opened_at,
        }
    }
}

/// A project as stored, with its place in the list.
#[derive(Debug)]
pub struct ProjectRow {
    pub project: Project,
    pub sort_order: i64,
}

pub open spec fn project_ids(projects: Seq<Project>) -> Seq<Seq<char>> {
    projects.map_values(|p: Project| p.id@)
}

/// The first stored project id that the new list leaves out, if any.
pub open spec fn first_missing(existing: Seq<Seq<char>>, kept: Seq<Seq<char>>) -> Option<Seq<char>>
    decreases existing.len(),
{
    if existing.len() == 0 {
        None
    } else if !kept.contains(existing[0]) {
        Some(existing[0])
    } else {
        first_missing(existing.drop_first(), kept)
    }
}

proof fn lemma_first_missing(existing: Seq<Seq<char>>, kept: Seq<Seq<char>>)
    ensures
        first_missing(existing, kept) is None <==> forall|i: int|
            0 <= i < existing.len() ==> kept.contains(#[trigger] existing[i]),
        first_missing(existing, kept) matches Some(m) ==> existing.contains(m) && !kept.contains(m),
    decreases existing.len(),
{
    if existing.len() > 0 {
        let rest = existing.drop_first();
        lemma_first_missing(rest, kept);
        if kept.contains(existing[0]) {
            assert forall|i: int| 0 <= i < existing.len() && i > 0 implies existing[i] == rest[i - 1] by {}
            if first_missing(rest, kept) is Some {
                let m = first_missing(rest, kept)->Some_0;
                let k = choose|k: int| 0 <= k < rest.len() && rest[k] == m;
                assert(existing[k + 1] == m);
            }
        } else {
            assert(existing[0] == existing[0]);
        }
    }
}

/// The message refusing a list that leaves out a stored project.
pub open spec fn removal_refused(missing: Seq<char>) -> Seq<char> {
    "不允许通过 save_projects 移除项目（会绕过级联清理），请使用 project_delete：缺失项目 "@ + missing
}

fn holds_id(projects: &Vec<Project>, id: &str) -> (r: bool)
    ensures
        r == project_ids(projects@).contains(id@),
{
    let n = projects.len();
    for i in 0..n
        invariant
            n == projects@.len(),
            forall|k: int| 0 <= k < i ==> projects@[k].id@ != id@,
    {
        if str_eq(projects[i].id.as_str(), id) {
            proof {
                assert(project_ids(projects@)[i as int] == id@);
            }
            return true;
        }
    }
    proof {
        if project_ids(projects@).contains(id@) {
            let k = choose|k: int| 0 <= k < project_ids(projects@).len() && project_ids(projects@)[k] == id@;
            assert(projects@[k].id@ == id@);
        }
    }
    false
}

/// Checks a new project list against the stored ids: every stored project
/// must still be in it. Otherwise the first one left out is named, and
/// nothing is saved.
pub fn check_projects_payload(existing_ids: &Vec<String>, projects: &Vec<Project>) -> (r: Result<
    (),
    String,
>)
    ensures
        match first_missing(string_views(existing_ids@), project_ids(projects@)) {
            Some(m) => r is Err && r->Err_0@ == removal_refused(m),
            None => r is Ok,
        },
{
    let n = existing_ids.len();
    let ghost ex = string_views(existing_ids@);
    let ghost kept = project_ids(projects@);
    proof {
        assert(ex.skip(0) =~= ex);
    }
    for i in 0..n
        invariant
            n == existing_ids@.len(),
            ex == string_views(existing_ids@),
            kept == project_ids(projects@),
            first_missing(ex, kept) == first_missing(ex.skip(i as int), kept),
    {
        let id = existing_ids[i].as_str();
        proof {
            assert(ex.skip(i as int)[0] == id@);
            assert(ex.skip(i as int).drop_first() =~= ex.skip(i + 1));
        }
        if !holds_id(projects, id) {
            let mut msg = String::from_str(
                "不允许通过 save_projects 移除项目（会绕过级联清理），请使用 project_delete：缺失项目 ",
            );
            msg.append(id);
            return Err(msg);
        }
    }
    proof {
        assert(ex.skip(n as int) =~= Seq::<Seq<char>>::empty());
    }
    Ok(())
}

/// Saves a project list whole: refused, as [`check_projects_payload`] says,
/// when it leaves out a stored project; otherwise the rows to store, each
/// project with its position as its sort order, so that the list reads back
/// in the order given.
pub fn plan_save_projects(existing_ids: &Vec<String>, projects: &Vec<Project>) -> (r: Result<
    Vec<ProjectRow>,
    String,
>)
    requires
        projects@.len() <= i64::MAX,
    ensures
        match first_missing(string_views(existing_ids@), project_ids(projects@)) {
            Some(m) => r is Err && r->Err_0@ == removal_refused(m),
            None => r matches Ok(rows) && rows@.len() == projects@.len() && forall|i: int|
                0 <= i < rows@.len() ==> (#[trigger] rows@[i]).project@ == projects@[i]@
                    && rows@[i].sort_order == i,
        },
{
    match check_projects_payload(existing_ids, projects) {
        Err(e) => return Err(e),
        Ok(()) => {},
    }
    let mut rows: Vec<ProjectRow> = Vec::new();
    let n = projects.len();
    for i in 0..n
        invariant
            n == projects@.len(),
            n <= i64::MAX,
            rows@.len() == i,
            forall|k: int|
                0 <= k < i ==> (#[trigger] rows@[k]).project@ == projects@[k]@ && rows@[k].sort_order
                    == k,
    {
        rows.push(ProjectRow { project: projects[i].copy(), sort_order: i as i64 });
    }
    Ok(rows)
}

/// A saved list never loses a stored project, and reads back in the order
/// given: the sort orders rise with the position.
pub proof fn law_saved_projects_keep_stored_ids_and_order(
    existing: Seq<Seq<char>>,
    projects: Seq<Project>,
    rows: Seq<ProjectRow>,
)
    requires
        first_missing(existing, project_ids(projects)) is None,
        rows.len() == projects.len(),
        forall|i: int|
            0 <= i < rows.len() ==> (#[trigger] rows[i]).project@ == projects[i]@ && rows[i].sort_order
                == i,
    ensures
        forall|k: int| 0 <= k < existing.len() ==> project_ids(projects).contains(#[trigger] existing[k]),
        forall|i: int, j: int| 0 <= i < j < rows.len() ==> rows[i].sort_order < rows[j].sort_order,
{
    lemma_first_missing(existing, project_ids(projects));
    assert forall|i: int, j: int| 0 <= i < j < rows.len() implies rows[i].sort_order
        < rows[j].sort_order by {
        assert(rows[i].sort_order == i);
        assert(rows[j].sort_order == j);
    }
}

/// The message for deleting a project that does not exist.
pub fn project_not_found(project_id: &str) -> (r: String)
    ensures
        r@ == "project not found: "@ + project_id@,
{
    let mut r = String::from_str("project not found: ");
    r.append(project_id);
    r
}

} // verus!
