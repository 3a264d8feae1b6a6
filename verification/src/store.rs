//! What the schedulers ask of the store. A scheduler never writes by
//! itself: it hands out the writes of a decision as one commit, to be
//! carried out in order and given up at the first that fails.

use crate::agent_activity::AgentAction;
use crate::project_requirements::{AnalysisResult, AnalysisResultView, GenerationStatus};
use crate::review_automation::ReviewAction;
use crate::task::{CreateTask, CreateTaskView, TaskStatus, TaskView};
use vstd::prelude::*;
use vstd::string::*;

verus! {

/// A message for the operator.
#[derive(Debug, PartialEq, Eq)]
pub struct Notification {
    pub title: String,
    pub message: String,
}

/// The mathematical value of a [`Notification`].
#[verifier::ext_equal]
pub struct NotificationView {
    pub title: Seq<char>,
    pub message: Seq<char>,
}

impl DeepView for Notification {
    type V = NotificationView;

    open spec fn deep_view(&self) -> NotificationView {
        NotificationView { title: self.title@, message: self.message@ }
    }
}

impl View for Notification {
    type V = NotificationView;

    open spec fn view(&self) -> NotificationView {
        self.deep_view()
    }
}

/// One write to the store.
#[allow(inconsistent_fields)]
#[derive(Debug, PartialEq, Eq)]
pub enum StoreWrite {
    /// Insert a task under a fresh identifier.
    CreateTask(CreateTask),
    /// Set the status of a task, and its stage timer with it.
    SetStatus { task_id: u128, status: TaskStatus },
    /// Record the complexity score of a task.
    SaveComplexity { task_id: u128, score: i32 },
    /// Append a row to the selector's audit log.
    AgentLog { project_id: u128, task_id: Option<u128>, action: AgentAction, reasoning: Option<String> },
    /// Append a row to the review engine's audit log.
    ReviewLog {
        task_id: u128,
        workspace_id: u128,
        action: ReviewAction,
        output: Option<String>,
        error_message: Option<String>,
    },
    /// Archive a workspace.
    ArchiveWorkspace { workspace_id: u128 },
    /// Record that a workspace's branch was merged into a target branch.
    RecordMerge { workspace_id: u128, repo_id: u128, target_branch: String, merge_commit: String },
    /// Mark every running execution under the task's workspaces as killed.
    KillRunningProcesses { task_id: u128 },
    /// Set how far the analysis of requirements has come, and the message
    /// of the error that stopped it, if one did.
    SetGenerationStatus {
        requirements_id: u128,
        status: GenerationStatus,
        error_message: Option<String>,
    },
    /// Store what the analysis of requirements found.
    SaveAnalysis { requirements_id: u128, analysis: AnalysisResult },
}

/// The mathematical value of a [`StoreWrite`].
#[verifier::ext_equal]
#[allow(inconsistent_fields)]
pub enum StoreWriteView {
    CreateTask(CreateTaskView),
    SetStatus { task_id: u128, status: TaskStatus },
    SaveComplexity { task_id: u128, score: i32 },
    AgentLog {
        project_id: u128,
        task_id: Option<u128>,
        action: AgentAction,
        reasoning: Option<Seq<char>>,
    },
    ReviewLog {
        task_id: u128,
        workspace_id: u128,
        action: ReviewAction,
        output: Option<Seq<char>>,
        error_message: Option<Seq<char>>,
    },
    ArchiveWorkspace { workspace_id: u128 },
    RecordMerge {
        workspace_id: u128,
        repo_id: u128,
        target_branch: Seq<char>,
        merge_commit: Seq<char>,
    },
    KillRunningProcesses { task_id: u128 },
    SetGenerationStatus {
        requirements_id: u128,
        status: GenerationStatus,
        error_message: Option<Seq<char>>,
    },
    SaveAnalysis { requirements_id: u128, analysis: AnalysisResultView },
}

impl DeepView for StoreWrite {
    type V = StoreWriteView;

    open spec fn deep_view(&self) -> StoreWriteView {
        match self {
            StoreWrite::CreateTask(c) => StoreWriteView::CreateTask(c@),
            StoreWrite::SetStatus { task_id, status } => StoreWriteView::SetStatus {
                task_id: *task_id,
                status: *status,
            },
            StoreWrite::SaveComplexity { task_id, score } => StoreWriteView::SaveComplexity {
                task_id: *task_id,
                score: *score,
            },
            StoreWrite::AgentLog { project_id, task_id, action, reasoning } => StoreWriteView::AgentLog {
                project_id: *project_id,
                task_id: *task_id,
                action: *action,
                reasoning: reasoning.deep_view(),
            },
            StoreWrite::ReviewLog { task_id, workspace_id, action, output, error_message } => StoreWriteView::ReviewLog {
                task_id: *task_id,
                workspace_id: *workspace_id,
                action: *action,
                output: output.deep_view(),
                error_message: error_message.deep_view(),
            },
            StoreWrite::ArchiveWorkspace { workspace_id } => StoreWriteView::ArchiveWorkspace {
                workspace_id: *workspace_id,
            },
            StoreWrite::RecordMerge { workspace_id, repo_id, target_branch, merge_commit } => StoreWriteView::RecordMerge {
                workspace_id: *workspace_id,
                repo_id: *repo_id,
                target_branch: target_branch@,
                merge_commit: merge_commit@,
            },
            StoreWrite::KillRunningProcesses { task_id } => StoreWriteView::KillRunningProcesses {
                task_id: *task_id,
            },
            StoreWrite::SetGenerationStatus { requirements_id, status, error_message } => StoreWriteView::SetGenerationStatus {
                requirements_id: *requirements_id,
                status: *status,
                error_message: error_message.deep_view(),
            },
            StoreWrite::SaveAnalysis { requirements_id, analysis } => StoreWriteView::SaveAnalysis {
                requirements_id: *requirements_id,
                analysis: analysis@,
            },
        }
    }
}

impl View for StoreWrite {
    type V = StoreWriteView;

    open spec fn view(&self) -> StoreWriteView {
        self.deep_view()
    }
}

impl Clone for Notification {
    fn clone(&self) -> (r: Self)
        ensures
            r@ == self@,
    {
        Notification { title: self.title.clone(), message: self.message.clone() }
    }
}

impl Clone for StoreWrite {
    fn clone(&self) -> (r: Self)
        ensures
            r@ == self@,
    {
        match self {
            StoreWrite::CreateTask(c) => StoreWrite::CreateTask(c.clone()),
            StoreWrite::SetStatus { task_id, status } => StoreWrite::SetStatus {
                task_id: *task_id,
                status: *status,
            },
            StoreWrite::SaveComplexity { task_id, score } => StoreWrite::SaveComplexity {
                task_id: *task_id,
                score: *score,
            },
            StoreWrite::AgentLog { project_id, task_id, action, reasoning } => StoreWrite::AgentLog {
                project_id: *project_id,
                task_id: *task_id,
                action: *action,
                reasoning: reasoning.clone(),
            },
            StoreWrite::ReviewLog { task_id, workspace_id, action, output, error_message } => StoreWrite::ReviewLog {
                task_id: *task_id,
                workspace_id: *workspace_id,
                action: *action,
                output: output.clone(),
                error_message: error_message.clone(),
            },
            StoreWrite::ArchiveWorkspace { workspace_id } => StoreWrite::ArchiveWorkspace {
                workspace_id: *workspace_id,
            },
            StoreWrite::RecordMerge { workspace_id, repo_id, target_branch, merge_commit } => StoreWrite::RecordMerge {
                workspace_id: *workspace_id,
                repo_id: *repo_id,
                target_branch: target_branch.clone(),
                merge_commit: merge_commit.clone(),
            },
            StoreWrite::KillRunningProcesses { task_id } => StoreWrite::KillRunningProcesses {
                task_id: *task_id,
            },
            StoreWrite::SetGenerationStatus { requirements_id, status, error_message } => StoreWrite::SetGenerationStatus {
                requirements_id: *requirements_id,
                status: *status,
                error_message: error_message.clone(),
            },
            StoreWrite::SaveAnalysis { requirements_id, analysis } => StoreWrite::SaveAnalysis {
                requirements_id: *requirements_id,
                analysis: analysis.clone(),
            },
        }
    }
}

/// What a scheduler reports where it is handed an answer to something
/// that it did not ask.
pub open spec fn out_of_turn() -> Seq<char> {
    "an answer arrived that was not asked for"@
}

/// What a scheduler reports where it is handed an answer to something
/// that it did not ask.
pub fn out_of_turn_message() -> (r: String)
    ensures
        r@ == out_of_turn(),
{
    String::from_str("an answer arrived that was not asked for")
}

/// One write for each task to create, in order.
pub open spec fn creations(tasks: Seq<CreateTaskView>) -> Seq<StoreWriteView> {
    tasks.map_values(|c: CreateTaskView| StoreWriteView::CreateTask(c))
}

/// Turns planned tasks into the writes that create them.
pub fn creation_writes(tasks: Vec<CreateTask>) -> (r: Vec<StoreWrite>)
    ensures
        r.deep_view() == creations(tasks.deep_view()),
{
    let mut out: Vec<StoreWrite> = Vec::new();
    let ghost planned = tasks.deep_view();
    let mut rest = tasks;
    let mut taken: Vec<CreateTask> = Vec::new();
    // Tasks are moved out from the back and the result is reversed.
    while rest.len() > 0
        invariant
            rest.deep_view() + taken.deep_view().reverse() == planned,
        decreases rest.len(),
    {
        let ghost before_rest = rest.deep_view();
        let ghost before_taken = taken.deep_view();
        let c = rest.pop().unwrap();
        taken.push(c);
        proof {
            assert(rest.deep_view() =~= before_rest.drop_last());
            assert(taken.deep_view() =~= before_taken.push(before_rest.last()));
            assert(rest.deep_view() + taken.deep_view().reverse() =~= before_rest
                + before_taken.reverse());
        }
    }
    proof {
        assert(taken.deep_view().reverse() =~= planned);
    }
    while taken.len() > 0
        invariant
            out.deep_view() + creations(taken.deep_view().reverse()) == creations(planned),
        decreases taken.len(),
    {
        let ghost before_out = out.deep_view();
        let ghost before_taken = taken.deep_view();
        let c = taken.pop().unwrap();
        out.push(StoreWrite::CreateTask(c));
        proof {
            assert(taken.deep_view() =~= before_taken.drop_last());
            assert(out.deep_view() =~= before_out.push(
                StoreWriteView::CreateTask(before_taken.last()),
            ));
            assert(out.deep_view() + creations(taken.deep_view().reverse()) =~= before_out
                + creations(before_taken.reverse()));
        }
    }
    proof {
        assert(out.deep_view() =~= creations(planned));
    }
    out
}

/// The tasks of the store after the status of `task_id` was set at `now`.
pub open spec fn with_status(tasks: Seq<TaskView>, task_id: u128, status: TaskStatus, now: i64) -> Seq<
    TaskView,
> {
    tasks.map_values(
        |t: TaskView|
            if t.id == task_id {
                t.with_status(status, now)
            } else {
                t
            },
    )
}

/// The tasks of the store after `write` was carried out at `now`, a task
/// that it creates getting the identifier `fresh`.
pub open spec fn after_write(tasks: Seq<TaskView>, write: StoreWriteView, now: i64, fresh: u128) -> Seq<
    TaskView,
> {
    match write {
        StoreWriteView::CreateTask(c) => tasks.push(c.created(fresh, now)),
        StoreWriteView::SetStatus { task_id, status } => with_status(tasks, task_id, status, now),
        StoreWriteView::SaveComplexity { task_id, score } => tasks.map_values(
            |t: TaskView|
                if t.id == task_id {
                    t.with_complexity(score, now)
                } else {
                    t
                },
        ),
        _ => tasks,
    }
}

/// The tasks of the store after all of `writes` were carried out in order
/// at `now`, the `k`-th write drawing the identifier `fresh(k)`.
pub open spec fn after_writes(
    tasks: Seq<TaskView>,
    writes: Seq<StoreWriteView>,
    now: i64,
    fresh: spec_fn(int) -> u128,
) -> Seq<TaskView>
    decreases writes.len(),
{
    if writes.len() == 0 {
        tasks
    } else {
        after_write(
            after_writes(tasks, writes.drop_last(), now, fresh),
            writes.last(),
            now,
            fresh(writes.len() - 1),
        )
    }
}

} // verus!
