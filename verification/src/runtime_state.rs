//! A session's runtime state: its mode, its checklist plan and the plan
//! interaction it waits on; how a dispatched sub-task attaches to a checklist
//! step and how it is cleared again.
use vstd::prelude::*;
use vstd::string::StringExecFns;
use crate::sessions::DispatcherMode;
use crate::text::{clone_opt, opt_is, opt_view, str_eq, trim, trim_str};

verus! {

broadcast use vstd::string::group_string_axioms;

#[derive(Debug, Clone, Copy, PartialEq, Eq, Structural)]
pub enum ChecklistStepStatus {
    Pending,
    InProgress,
    Completed,
}

impl ChecklistStepStatus {
    /// Reads a step status (trimmed).
    pub fn from_wire(value: &str) -> (r: Result<Self, String>)
        ensures
            trim(value@) == "pending"@ ==> r == Ok::<Self, String>(ChecklistStepStatus::Pending),
            trim(value@) == "in_progress"@ ==> r == Ok::<Self, String>(
                ChecklistStepStatus::InProgress,
            ),
            trim(value@) == "completed"@ ==> r == Ok::<Self, String>(
                ChecklistStepStatus::Completed,
            ),
            (trim(value@) != "pending"@ && trim(value@) != "in_progress"@ && trim(value@)
                != "completed"@) ==> r is Err && r->Err_0@ == "invalid checklist step status: "@
                + trim(value@),
    {
        proof {
            reveal_strlit("pending");
            reveal_strlit("in_progress");
            reveal_strlit("completed");
            assert("pending"@[0] != "in_progress"@[0]);
            assert("pending"@[0] != "completed"@[0]);
            assert("in_progress"@[0] != "completed"@[0]);
        }
        let t = trim_str(value);
        if str_eq(t, "pending") {
            Ok(ChecklistStepStatus::Pending)
        } else if str_eq(t, "in_progress") {
            Ok(ChecklistStepStatus::InProgress)
        } else if str_eq(t, "completed") {
            Ok(ChecklistStepStatus::Completed)
        } else {
            let mut message = String::from_str("invalid checklist step status: ");
            message.append(t);
            Err(message)
        }
    }
}

#[derive(Debug, Clone)]
pub struct ChecklistPlanItem {
    pub id: Option<String>,
    pub step: String,
    pub status: ChecklistStepStatus,
    pub agent: Option<String>,
    pub dispatch_id: Option<String>,
    pub subprocess_task_id: Option<String>,
    pub detail: Option<String>,
}

/// The mathematical value of a checklist step.
pub struct ChecklistItemView {
    pub id: Option<Seq<char>>,
    pub step: Seq<char>,
    pub status: ChecklistStepStatus,
    pub agent: Option<Seq<char>>,
    pub dispatch_id: Option<Seq<char>>,
    pub subprocess_task_id: Option<Seq<char>>,
    pub detail: Option<Seq<char>>,
}

impl View for ChecklistPlanItem {
    type V = ChecklistItemView;

    open spec fn view(&self) -> ChecklistItemView {
        ChecklistItemView {
            id: opt_view(self.id),
            step: self.step@,
            status: self.status,
            agent: opt_view(self.agent),
            dispatch_id: opt_view(self.dispatch_id),
            subprocess_task_id: opt_view(self.subprocess_task_id),
            detail: opt_view(self.detail),
        }
    }
}

pub open spec fn item_views(s: Seq<ChecklistPlanItem>) -> Seq<ChecklistItemView> {
    s.map_values(|i: ChecklistPlanItem| i@)
}

#[derive(Debug, Clone)]
pub struct ChecklistPlanState {
    pub explanation: Option<String>,
    pub items: Vec<ChecklistPlanItem>,
    pub updated_at: String,
}

#[derive(Debug, Clone)]
pub struct PlanQuestionOption {
    pub id: String,
    pub label: String,
    pub description: String,
}

#[derive(Debug, Clone)]
pub enum PlanInteraction {
    Question { id: String, question: String, options: Vec<PlanQuestionOption> },
    Ready { plan_path: String, title: String, summary: String },
}

#[derive(Debug, Clone)]
pub struct DispatcherSessionRuntimeState {
    pub mode: DispatcherMode,
    pub checklist: Option<ChecklistPlanState>,
    pub plan_interaction: Option<PlanInteraction>,
    pub active_plan_path: Option<String>,
}

/// The runtime state a stored session row stands for.
pub fn runtime_state_from_row(
    mode: String,
    active_plan_path: Option<String>,
    checklist: Option<ChecklistPlanState>,
    plan_interaction: Option<PlanInteraction>,
) -> (r: DispatcherSessionRuntimeState)
    ensures
        r.mode == (if mode@ == "plan"@ {
            DispatcherMode::Plan
        } else {
            DispatcherMode::Default
        }),
        r.active_plan_path == active_plan_path,
        r.checklist == checklist,
        r.plan_interaction == plan_interaction,
{
    DispatcherSessionRuntimeState {
        mode: DispatcherMode::from_sql_value(mode),
        checklist,
        plan_interaction,
        active_plan_path,
    }
}

/// Index of the first step bound to `dispatch`, or the length when none is.
pub open spec fn first_bound(s: Seq<ChecklistItemView>, dispatch: Seq<char>) -> int
    decreases s.len(),
{
    if s.len() == 0 {
        0
    } else if s[0].dispatch_id == Some(dispatch) {
        0
    } else {
        1 + first_bound(s.drop_first(), dispatch)
    }
}

proof fn lemma_first_bound_is(s: Seq<ChecklistItemView>, dispatch: Seq<char>, i: int)
    requires
        0 <= i <= s.len(),
        forall|k: int| 0 <= k < i ==> (#[trigger] s[k]).dispatch_id != Some(dispatch),
        i < s.len() ==> s[i].dispatch_id == Some(dispatch),
    ensures
        first_bound(s, dispatch) == i,
    decreases i,
{
    if i > 0 {
        let t = s.drop_first();
        assert forall|k: int| 0 <= k < i - 1 implies (#[trigger] t[k]).dispatch_id != Some(
            dispatch,
        ) by {
            assert(t[k] == s[k + 1]);
        }
        if i < s.len() {
            assert(t[i - 1] == s[i]);
        }
        lemma_first_bound_is(t, dispatch, i - 1);
    }
}

/// The step once sub-task `task` runs it: in progress, bound to the task.
pub open spec fn attached(item: ChecklistItemView, task: Seq<char>) -> ChecklistItemView {
    ChecklistItemView {
        status: ChecklistStepStatus::InProgress,
        subprocess_task_id: Some(task),
        ..item
    }
}

/// Records that sub-task `task_id` runs the first step bound to `dispatch_id`:
/// that step is in progress and names the task, the plan's time is
/// `updated_at`, and every other step is unchanged. Returns whether a step was
/// bound to the dispatch; when none is, the plan is left as it was.
pub fn attach_checklist_subprocess(
    checklist: &mut ChecklistPlanState,
    dispatch_id: &str,
    task_id: &str,
    updated_at: String,
) -> (changed: bool)
    ensures
        ({
            let before = item_views(old(checklist).items@);
            let i = first_bound(before, dispatch_id@);
            &&& changed == (i < before.len())
            &&& changed ==> item_views(final(checklist).items@) == before.update(
                i,
                attached(before[i], task_id@),
            ) && final(checklist).updated_at == updated_at && final(checklist).explanation == old(
                checklist,
            ).explanation
            &&& !changed ==> *final(checklist) == *old(checklist)
        }),
{
    let ghost before = item_views(checklist.items@);
    let n = checklist.items.len();
    let mut i: usize = 0;
    while i < n
        invariant
            n == checklist.items@.len(),
            before == item_views(checklist.items@),
            *checklist == *old(checklist),
            i <= n,
            forall|k: int| 0 <= k < i ==> (#[trigger] before[k]).dispatch_id != Some(dispatch_id@),
        decreases n - i,
    {
        assert(before[i as int] == checklist.items@[i as int]@);
        if opt_is(&checklist.items[i].dispatch_id, dispatch_id) {
            proof {
                lemma_first_bound_is(before, dispatch_id@, i as int);
            }
            let item = &checklist.items[i];
            let updated = ChecklistPlanItem {
                id: clone_opt(&item.id),
                step: item.step.clone(),
                status: ChecklistStepStatus::InProgress,
                agent: clone_opt(&item.agent),
                dispatch_id: clone_opt(&item.dispatch_id),
                subprocess_task_id: Some(String::from_str(task_id)),
                detail: clone_opt(&item.detail),
            };
            checklist.items.set(i, updated);
            checklist.updated_at = updated_at;
            proof {
                assert(item_views(checklist.items@) =~= before.update(
                    i as int,
                    attached(before[i as int], task_id@),
                ));
            }
            return true;
        }
        i = i + 1;
    }
    proof {
        lemma_first_bound_is(before, dispatch_id@, n as int);
    }
    false
}

/// The step once its dispatch is cleared: no dispatch, task, agent or detail,
/// and back to pending if it was in progress.
pub open spec fn released(item: ChecklistItemView) -> ChecklistItemView {
    ChecklistItemView {
        dispatch_id: None,
        subprocess_task_id: None,
        agent: None,
        detail: None,
        status: if item.status == ChecklistStepStatus::InProgress {
            ChecklistStepStatus::Pending
        } else {
            item.status
        },
        ..item
    }
}

/// Every step bound to `dispatch` released, the others unchanged.
pub open spec fn release_dispatch(s: Seq<ChecklistItemView>, dispatch: Seq<char>) -> Seq<
    ChecklistItemView,
> {
    s.map_values(
        |item: ChecklistItemView|
            if item.dispatch_id == Some(dispatch) {
                released(item)
            } else {
                item
            },
    )
}

/// Releases every step bound to `dispatch_id` and, when there was one, sets
/// the plan's time to `updated_at`. Returns whether any step was bound.
pub fn clear_checklist_dispatch(
    checklist: &mut ChecklistPlanState,
    dispatch_id: &str,
    updated_at: String,
) -> (changed: bool)
    ensures
        ({
            let before = item_views(old(checklist).items@);
            &&& changed == (exists|k: int|
                0 <= k < before.len() && (#[trigger] before[k]).dispatch_id == Some(dispatch_id@))
            &&& item_views(final(checklist).items@) == release_dispatch(before, dispatch_id@)
            &&& final(checklist).explanation == old(checklist).explanation
            &&& final(checklist).updated_at == (if changed {
                updated_at
            } else {
                old(checklist).updated_at
            })
        }),
{
    let ghost before = item_views(checklist.items@);
    let n = checklist.items.len();
    let mut changed = false;
    for i in 0..n
        invariant
            n == checklist.items@.len(),
            checklist.explanation == old(checklist).explanation,
            checklist.updated_at == old(checklist).updated_at,
            before == item_views(old(checklist).items@),
            before.len() == n,
            forall|k: int|
                0 <= k < i ==> (#[trigger] item_views(checklist.items@)[k]) == release_dispatch(
                    before,
                    dispatch_id@,
                )[k],
            forall|k: int| i <= k < n ==> (#[trigger] item_views(checklist.items@)[k]) == before[k],
            changed == (exists|k: int|
                0 <= k < i && (#[trigger] before[k]).dispatch_id == Some(dispatch_id@)),
    {
        let ghost prev = item_views(checklist.items@);
        assert(prev[i as int] == before[i as int]);
        if opt_is(&checklist.items[i].dispatch_id, dispatch_id) {
            let item = &checklist.items[i];
            let status = if item.status == ChecklistStepStatus::InProgress {
                ChecklistStepStatus::Pending
            } else {
                item.status
            };
            let updated = ChecklistPlanItem {
                id: clone_opt(&item.id),
                step: item.step.clone(),
                status,
                agent: None,
                dispatch_id: None,
                subprocess_task_id: None,
                detail: None,
            };
            checklist.items.set(i, updated);
            changed = true;
        }
        proof {
            let cur = item_views(checklist.items@);
            assert forall|k: int| 0 <= k < n && k != i implies #[trigger] cur[k] == prev[k] by {
                assert(cur[k] == checklist.items@[k]@);
            }
            assert(cur[i as int] == release_dispatch(before, dispatch_id@)[i as int]);
        }
    }
    if changed {
        checklist.updated_at = updated_at;
    }
    proof {
        assert(item_views(checklist.items@) =~= release_dispatch(before, dispatch_id@));
    }
    changed
}

/// After a dispatch is cleared no step refers to it any more, and clearing it
/// again changes nothing.
pub proof fn law_cleared_dispatch_is_gone(s: Seq<ChecklistItemView>, dispatch: Seq<char>)
    ensures
        forall|k: int|
            0 <= k < s.len() ==> (#[trigger] release_dispatch(s, dispatch)[k]).dispatch_id != Some(
                dispatch,
            ),
        release_dispatch(release_dispatch(s, dispatch), dispatch) == release_dispatch(s, dispatch),
{
    let r = release_dispatch(s, dispatch);
    assert(release_dispatch(r, dispatch) =~= r);
}

/// Clearing a dispatch right after a sub-task attached to it leaves the step
/// pending, with no dispatch, task, agent or detail, and its text unchanged.
pub proof fn law_clear_after_attach(s: Seq<ChecklistItemView>, dispatch: Seq<char>, task: Seq<char>)
    requires
        first_bound(s, dispatch) < s.len(),
    ensures
        ({
            let i = first_bound(s, dispatch);
            let after = release_dispatch(s.update(i, attached(s[i], task)), dispatch)[i];
            &&& after.status == ChecklistStepStatus::Pending
            &&& after.dispatch_id is None && after.subprocess_task_id is None
            &&& after.step == s[i].step && after.id == s[i].id
        }),
{
    lemma_first_bound_range(s, dispatch);
}

proof fn lemma_first_bound_range(s: Seq<ChecklistItemView>, dispatch: Seq<char>)
    ensures
        0 <= first_bound(s, dispatch) <= s.len(),
        first_bound(s, dispatch) < s.len() ==> s[first_bound(s, dispatch)].dispatch_id == Some(
            dispatch,
        ),
    decreases s.len(),
{
    if s.len() > 0 && s[0].dispatch_id != Some(dispatch) {
        lemma_first_bound_range(s.drop_first(), dispatch);
    }
}

} // verus!
