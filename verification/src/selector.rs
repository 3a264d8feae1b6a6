//! One cycle of the task selector, as a machine: it is told what the store
//! and the advisor answered, and says what to ask or write next. It makes
//! every decision of the cycle and performs none of its effects.

use crate::agent_activity::{
    candidates, select_candidates, AgentAction, AgentActivityError, AgentActivityErrorView,
    AgentActivityLog, AgentActivityStatus, AgentActivityStatusView, AgentTriggerResponse,
    AgentTriggerResponseView, ProjectAgentSettings, DEFAULT_INTERVAL_SECONDS,
};
use crate::breakdown::{
    fullstack_subtasks, plan_fullstack_subtasks, plan_subtasks, subtasks, ComplexityAnalysisResponse,
    ComplexityAnalysisResponseView,
};
use crate::claude_api::{ClaudeApiError, ClaudeApiErrorView};
use crate::ident::{hyphenated, id_text, parse_id, uuid_parse};
use crate::store::{
    creation_writes, creations, out_of_turn, out_of_turn_message, Notification, NotificationView,
    StoreWrite, StoreWriteView,
};
use crate::task::{Task, TaskLayer, TaskStatus, TaskView};
use crate::text::{decimal, push_decimal};
use crate::workspace::{CreateWorkspaceRepo, CreateWorkspaceRepoView, Repo, RepoView};
use vstd::prelude::*;
use vstd::string::*;

verus! {

/// The advisor's choice of the next task.
#[derive(Debug, PartialEq, Eq)]
pub struct TaskSelectionResponse {
    pub task_id: String,
    pub reasoning: String,
}

/// The mathematical value of a [`TaskSelectionResponse`].
#[verifier::ext_equal]
pub struct TaskSelectionResponseView {
    pub task_id: Seq<char>,
    pub reasoning: Seq<char>,
}

impl DeepView for TaskSelectionResponse {
    type V = TaskSelectionResponseView;

    open spec fn deep_view(&self) -> TaskSelectionResponseView {
        TaskSelectionResponseView { task_id: self.task_id@, reasoning: self.reasoning@ }
    }
}

impl View for TaskSelectionResponse {
    type V = TaskSelectionResponseView;

    open spec fn view(&self) -> TaskSelectionResponseView {
        self.deep_view()
    }
}

/// What the advisor is told of a candidate.
#[derive(Debug, PartialEq, Eq)]
pub struct TaskInfo {
    pub id: String,
    pub title: String,
    pub description: Option<String>,
    pub layer: Option<String>,
    pub task_type: Option<String>,
    pub sequence: Option<i32>,
}

/// The mathematical value of a [`TaskInfo`].
#[verifier::ext_equal]
pub struct TaskInfoView {
    pub id: Seq<char>,
    pub title: Seq<char>,
    pub description: Option<Seq<char>>,
    pub layer: Option<Seq<char>>,
    pub task_type: Option<Seq<char>>,
    pub sequence: Option<i32>,
}

impl DeepView for TaskInfo {
    type V = TaskInfoView;

    open spec fn deep_view(&self) -> TaskInfoView {
        TaskInfoView {
            id: self.id@,
            title: self.title@,
            description: self.description.deep_view(),
            layer: self.layer.deep_view(),
            task_type: self.task_type.deep_view(),
            sequence: self.sequence,
        }
    }
}

impl View for TaskInfo {
    type V = TaskInfoView;

    open spec fn view(&self) -> TaskInfoView {
        self.deep_view()
    }
}

/// What the advisor is told of `t`.
pub open spec fn task_info(t: TaskView) -> TaskInfoView {
    TaskInfoView {
        id: hyphenated(t.id),
        title: t.title,
        description: t.description,
        layer: match t.layer {
            Some(l) => Some(l.name()),
            None => None,
        },
        task_type: match t.task_type {
            Some(k) => Some(k.name()),
            None => None,
        },
        sequence: t.sequence,
    }
}

/// What the advisor is told of the candidates, in order.
pub open spec fn task_infos(tasks: Seq<TaskView>) -> Seq<TaskInfoView> {
    tasks.map_values(|t: TaskView| task_info(t))
}

/// The identifiers of the tasks, in order.
pub open spec fn ids_of(tasks: Seq<TaskView>) -> Seq<u128> {
    tasks.map_values(|t: TaskView| t.id)
}

/// Describes the candidates for the advisor.
pub fn describe_candidates(tasks: &Vec<Task>) -> (r: Vec<TaskInfo>)
    ensures
        r.deep_view() == task_infos(tasks.deep_view()),
{
    let mut out: Vec<TaskInfo> = Vec::new();
    let mut i: usize = 0;
    while i < tasks.len()
        invariant
            i <= tasks.len(),
            out.deep_view() == task_infos(tasks.deep_view()).take(i as int),
        decreases tasks.len() - i,
    {
        let t = &tasks[i];
        let ghost before = out.deep_view();
        let info = TaskInfo {
            id: id_text(t.id),
            title: t.title.clone(),
            description: t.description.clone(),
            layer: match t.layer {
                Some(l) => Some(String::from_str(l.as_str())),
                None => None,
            },
            task_type: match t.task_type {
                Some(k) => Some(String::from_str(k.as_str())),
                None => None,
            },
            sequence: t.sequence,
        };
        proof {
            assert(tasks.deep_view()[i as int] == t@);
            assert(info@ == task_info(t@));
        }
        out.push(info);
        proof {
            let all = task_infos(tasks.deep_view());
            assert(out.deep_view() =~= before.push(all[i as int]));
            assert(all.take(i + 1) =~= all.take(i as int).push(all[i as int]));
        }
        i = i + 1;
    }
    proof {
        let all = task_infos(tasks.deep_view());
        assert(all.take(tasks.len() as int) =~= all);
    }
    out
}

/// The identifiers of the tasks, in order.
pub fn task_ids(tasks: &Vec<Task>) -> (r: Vec<u128>)
    ensures
        r@ == ids_of(tasks.deep_view()),
{
    let mut out: Vec<u128> = Vec::new();
    let mut i: usize = 0;
    while i < tasks.len()
        invariant
            i <= tasks.len(),
            out@ == ids_of(tasks.deep_view()).take(i as int),
        decreases tasks.len() - i,
    {
        proof {
            let all = ids_of(tasks.deep_view());
            assert(all.take(i + 1) =~= all.take(i as int).push(all[i as int]));
            assert(tasks.deep_view()[i as int] == tasks@[i as int]@);
        }
        out.push(tasks[i].id);
        i = i + 1;
    }
    proof {
        let all = ids_of(tasks.deep_view());
        assert(all.take(tasks.len() as int) =~= all);
    }
    out
}

/// The verdict on the advisor's choice, when `parsed` is what its text
/// denotes: the choice stands if it names a candidate, and is an error if
/// it names no task at all or a task that was not offered.
pub open spec fn checked_selection(candidate_ids: Seq<u128>, text: Seq<char>, parsed: Option<u128>) -> Result<
    u128,
    ClaudeApiErrorView,
> {
    match parsed {
        None => Err(ClaudeApiErrorView::Serde("Invalid task ID from AI: "@ + text)),
        Some(id) => if candidate_ids.contains(id) {
            Ok(id)
        } else {
            Err(ClaudeApiErrorView::Serde("AI selected invalid task ID: "@ + hyphenated(id)))
        },
    }
}

fn contains_id(ids: &Vec<u128>, id: u128) -> (r: bool)
    ensures
        r == ids@.contains(id),
{
    let mut i: usize = 0;
    while i < ids.len()
        invariant
            i <= ids.len(),
            forall|k: int| 0 <= k < i ==> ids@[k] != id,
        decreases ids.len() - i,
    {
        if ids[i] == id {
            return true;
        }
        i = i + 1;
    }
    false
}

/// Checks the advisor's choice against the candidates, given what the
/// text of the choice denotes.
pub fn check_selection(candidate_ids: &Vec<u128>, text: &str, parsed: Option<u128>) -> (r: Result<
    u128,
    ClaudeApiError,
>)
    ensures
        match r {
            Ok(id) => checked_selection(candidate_ids@, text@, parsed) == Ok::<
                u128,
                ClaudeApiErrorView,
            >(id),
            Err(e) => checked_selection(candidate_ids@, text@, parsed) == Err::<
                u128,
                ClaudeApiErrorView,
            >(e@),
        },
{
    match parsed {
        None => Err(
            ClaudeApiError::Serde(String::from_str("Invalid task ID from AI: ").concat(text)),
        ),
        Some(id) => {
            if contains_id(candidate_ids, id) {
                Ok(id)
            } else {
                let shown = id_text(id);
                Err(
                    ClaudeApiError::Serde(
                        String::from_str("AI selected invalid task ID: ").concat(shown.as_str()),
                    ),
                )
            }
        },
    }
}

/// Reads the advisor's choice and checks it against the candidates: an
/// unvalidated choice never becomes state.
pub fn validate_selection(candidate_ids: &Vec<u128>, response: &TaskSelectionResponse) -> (r: Result<
    u128,
    ClaudeApiError,
>)
    ensures
        match r {
            Ok(id) => checked_selection(
                candidate_ids@,
                response.task_id@,
                uuid_parse(response.task_id@),
            ) == Ok::<u128, ClaudeApiErrorView>(id),
            Err(e) => checked_selection(
                candidate_ids@,
                response.task_id@,
                uuid_parse(response.task_id@),
            ) == Err::<u128, ClaudeApiErrorView>(e@),
        },
{
    let parsed = parse_id(response.task_id.as_str());
    check_selection(candidate_ids, response.task_id.as_str(), parsed)
}


/// How a cycle ends: with a decision, or with the reason for none.
pub type Outcome = Result<AgentTriggerResponse, AgentActivityError>;

/// The mathematical value of an [`Outcome`].
pub type OutcomeView = Result<AgentTriggerResponseView, AgentActivityErrorView>;

/// The mathematical value of an outcome.
pub open spec fn outcome_view(o: Outcome) -> OutcomeView {
    match o {
        Ok(r) => Ok(r@),
        Err(e) => Err(e@),
    }
}

/// Where a cycle stands: what it has asked for and is waiting on.
#[derive(Debug, PartialEq, Eq)]
pub enum SelectorPhase {
    /// Waiting for the tasks of the project.
    LoadingTasks,
    /// Waiting for a commit, after which the cycle ends with `outcome`.
    Committing { outcome: Outcome },
    /// Waiting for the advisor to choose among the candidates.
    Selecting { candidates: Vec<u128> },
    /// Waiting for the chosen task as the store holds it now.
    LoadingTask { task_id: u128, reasoning: String },
    /// Waiting for the advisor's view of the task's complexity.
    Analyzing { task: Task, reasoning: String },
    /// Waiting for the commit that starts the task.
    Starting { task: Task, reasoning: String },
    /// Waiting for the attempt to start a workspace.
    StartingWorkspace { task_id: u128, reasoning: String },
    /// The cycle is over.
    Finished,
}

/// The mathematical value of a [`SelectorPhase`].
#[verifier::ext_equal]
pub enum SelectorPhaseView {
    LoadingTasks,
    Committing { outcome: OutcomeView },
    Selecting { candidates: Seq<u128> },
    LoadingTask { task_id: u128, reasoning: Seq<char> },
    Analyzing { task: TaskView, reasoning: Seq<char> },
    Starting { task: TaskView, reasoning: Seq<char> },
    StartingWorkspace { task_id: u128, reasoning: Seq<char> },
    Finished,
}

impl DeepView for SelectorPhase {
    type V = SelectorPhaseView;

    open spec fn deep_view(&self) -> SelectorPhaseView {
        match self {
            SelectorPhase::LoadingTasks => SelectorPhaseView::LoadingTasks,
            SelectorPhase::Committing { outcome } => SelectorPhaseView::Committing {
                outcome: outcome_view(*outcome),
            },
            SelectorPhase::Selecting { candidates } => SelectorPhaseView::Selecting {
                candidates: candidates@,
            },
            SelectorPhase::LoadingTask { task_id, reasoning } => SelectorPhaseView::LoadingTask {
                task_id: *task_id,
                reasoning: reasoning@,
            },
            SelectorPhase::Analyzing { task, reasoning } => SelectorPhaseView::Analyzing {
                task: task@,
                reasoning: reasoning@,
            },
            SelectorPhase::Starting { task, reasoning } => SelectorPhaseView::Starting {
                task: task@,
                reasoning: reasoning@,
            },
            SelectorPhase::StartingWorkspace { task_id, reasoning } => SelectorPhaseView::StartingWorkspace {
                task_id: *task_id,
                reasoning: reasoning@,
            },
            SelectorPhase::Finished => SelectorPhaseView::Finished,
        }
    }
}

impl View for SelectorPhase {
    type V = SelectorPhaseView;

    open spec fn view(&self) -> SelectorPhaseView {
        self.deep_view()
    }
}

/// The state of one cycle of the selector for one project.
#[derive(Debug, PartialEq, Eq)]
pub struct SelectorState {
    pub project_id: u128,
    /// Whether a workspace is started for the task that is selected. A
    /// cycle that an operator triggers by hand never starts one.
    pub auto_attempt: bool,
    pub phase: SelectorPhase,
}

/// The mathematical value of a [`SelectorState`].
#[verifier::ext_equal]
pub struct SelectorStateView {
    pub project_id: u128,
    pub auto_attempt: bool,
    pub phase: SelectorPhaseView,
}

impl DeepView for SelectorState {
    type V = SelectorStateView;

    open spec fn deep_view(&self) -> SelectorStateView {
        SelectorStateView {
            project_id: self.project_id,
            auto_attempt: self.auto_attempt,
            phase: self.phase@,
        }
    }
}

impl View for SelectorState {
    type V = SelectorStateView;

    open spec fn view(&self) -> SelectorStateView {
        self.deep_view()
    }
}

/// What the store or the advisor answered.
#[derive(Debug, PartialEq, Eq)]
pub enum SelectorEvent {
    /// The tasks of the project.
    Tasks(Vec<Task>),
    /// The task that was asked for, if the store still holds it.
    Task(Option<Task>),
    /// Every write of the commit was carried out.
    Committed,
    /// The store failed; the text is its message.
    StoreFailed(String),
    /// The advisor's choice, or why it made none.
    Selection(Result<TaskSelectionResponse, ClaudeApiError>),
    /// The advisor's view of the task's complexity, or why it gave none.
    Complexity(Result<ComplexityAnalysisResponse, ClaudeApiError>),
    /// The attempt to start a workspace is over, however it went.
    WorkspaceStarted,
}

/// The mathematical value of a [`SelectorEvent`].
#[verifier::ext_equal]
pub enum SelectorEventView {
    Tasks(Seq<TaskView>),
    Task(Option<TaskView>),
    Committed,
    StoreFailed(Seq<char>),
    Selection(Result<TaskSelectionResponseView, ClaudeApiErrorView>),
    Complexity(Result<ComplexityAnalysisResponseView, ClaudeApiErrorView>),
    WorkspaceStarted,
}

impl DeepView for SelectorEvent {
    type V = SelectorEventView;

    open spec fn deep_view(&self) -> SelectorEventView {
        match self {
            SelectorEvent::Tasks(tasks) => SelectorEventView::Tasks(tasks.deep_view()),
            SelectorEvent::Task(task) => SelectorEventView::Task(task.deep_view()),
            SelectorEvent::Committed => SelectorEventView::Committed,
            SelectorEvent::StoreFailed(m) => SelectorEventView::StoreFailed(m@),
            SelectorEvent::Selection(answer) => SelectorEventView::Selection(
                match answer {
                    Ok(r) => Ok(r@),
                    Err(e) => Err(e@),
                },
            ),
            SelectorEvent::Complexity(answer) => SelectorEventView::Complexity(
                match answer {
                    Ok(r) => Ok(r@),
                    Err(e) => Err(e@),
                },
            ),
            SelectorEvent::WorkspaceStarted => SelectorEventView::WorkspaceStarted,
        }
    }
}

impl View for SelectorEvent {
    type V = SelectorEventView;

    open spec fn view(&self) -> SelectorEventView {
        self.deep_view()
    }
}

/// What the cycle asks for next.
#[derive(Debug, PartialEq, Eq)]
pub enum SelectorAction {
    /// Read all tasks of the project.
    LoadTasks { project_id: u128 },
    /// Read one task.
    LoadTask { task_id: u128 },
    /// Carry out the writes in order; if all succeed, send the notification.
    Commit { writes: Vec<StoreWrite>, notification: Option<Notification> },
    /// Ask the advisor to choose one of the candidates.
    AskSelection { candidates: Vec<TaskInfo> },
    /// Ask the advisor how complex the task is.
    AskComplexity { task: Task },
    /// Provision and start a workspace for the task.
    StartWorkspace { task: Task },
    /// The cycle is over, with this outcome.
    Finish(Outcome),
}

/// The mathematical value of a [`SelectorAction`].
#[verifier::ext_equal]
pub enum SelectorActionView {
    LoadTasks { project_id: u128 },
    LoadTask { task_id: u128 },
    Commit { writes: Seq<StoreWriteView>, notification: Option<NotificationView> },
    AskSelection { candidates: Seq<TaskInfoView> },
    AskComplexity { task: TaskView },
    StartWorkspace { task: TaskView },
    Finish(OutcomeView),
}

impl DeepView for SelectorAction {
    type V = SelectorActionView;

    open spec fn deep_view(&self) -> SelectorActionView {
        match self {
            SelectorAction::LoadTasks { project_id } => SelectorActionView::LoadTasks {
                project_id: *project_id,
            },
            SelectorAction::LoadTask { task_id } => SelectorActionView::LoadTask {
                task_id: *task_id,
            },
            SelectorAction::Commit { writes, notification } => SelectorActionView::Commit {
                writes: writes.deep_view(),
                notification: notification.deep_view(),
            },
            SelectorAction::AskSelection { candidates } => SelectorActionView::AskSelection {
                candidates: candidates.deep_view(),
            },
            SelectorAction::AskComplexity { task } => SelectorActionView::AskComplexity {
                task: task@,
            },
            SelectorAction::StartWorkspace { task } => SelectorActionView::StartWorkspace {
                task: task@,
            },
            SelectorAction::Finish(outcome) => SelectorActionView::Finish(outcome_view(*outcome)),
        }
    }
}

impl View for SelectorAction {
    type V = SelectorActionView;

    open spec fn view(&self) -> SelectorActionView {
        self.deep_view()
    }
}

/// The task is to do and spans the whole stack: it is split by layer and
/// never worked on as it is.
pub open spec fn is_fullstack_todo(t: TaskView) -> bool {
    t.status == TaskStatus::Todo && t.layer == Some(TaskLayer::Fullstack)
}

/// The index of the first task that is to do and spans the whole stack.
pub open spec fn first_fullstack_todo(tasks: Seq<TaskView>) -> Option<int>
    decreases tasks.len(),
{
    if tasks.len() == 0 {
        None
    } else {
        match first_fullstack_todo(tasks.drop_last()) {
            Some(k) => Some(k),
            None => if is_fullstack_todo(tasks.last()) {
                Some(tasks.len() - 1)
            } else {
                None
            },
        }
    }
}

/// `first_fullstack_todo` finds the least index of such a task, and none
/// only where there is no such task.
pub proof fn lemma_first_fullstack_todo(tasks: Seq<TaskView>)
    ensures
        match first_fullstack_todo(tasks) {
            Some(k) => 0 <= k < tasks.len() && is_fullstack_todo(tasks[k]) && forall|j: int|
                0 <= j < k ==> !is_fullstack_todo(#[trigger] tasks[j]),
            None => forall|j: int| 0 <= j < tasks.len() ==> !is_fullstack_todo(#[trigger] tasks[j]),
        },
    decreases tasks.len(),
{
    if tasks.len() > 0 {
        lemma_first_fullstack_todo(tasks.drop_last());
        assert forall|j: int| 0 <= j < tasks.len() - 1 implies tasks.drop_last()[j]
            == tasks[j] by {}
        match first_fullstack_todo(tasks.drop_last()) {
            Some(k) => {
                assert(tasks.drop_last()[k] == tasks[k]);
                assert forall|j: int| 0 <= j < k implies !is_fullstack_todo(
                    #[trigger] tasks[j],
                ) by {
                    assert(tasks.drop_last()[j] == tasks[j]);
                }
            },
            None => {
                assert forall|j: int| 0 <= j < tasks.len() - 1 implies !is_fullstack_todo(
                    #[trigger] tasks[j],
                ) by {
                    assert(tasks.drop_last()[j] == tasks[j]);
                }
            },
        }
    }
}

/// The entry of the audit log for a decision of the selector.
pub open spec fn agent_log(
    project_id: u128,
    task_id: Option<u128>,
    action: AgentAction,
    reasoning: Seq<char>,
) -> StoreWriteView {
    StoreWriteView::AgentLog { project_id, task_id, action, reasoning: Some(reasoning) }
}

/// The write that sets a task's status.
pub open spec fn set_status(task_id: u128, status: TaskStatus) -> StoreWriteView {
    StoreWriteView::SetStatus { task_id, status }
}

/// The phase and the action with which a cycle ends.
pub open spec fn finish(s: SelectorStateView, outcome: OutcomeView) -> (
    SelectorStateView,
    SelectorActionView,
) {
    (SelectorStateView { phase: SelectorPhaseView::Finished, ..s }, SelectorActionView::Finish(outcome))
}

/// The rationale logged when a full-stack task was split into `n`.
pub open spec fn fullstack_rationale(n: int) -> Seq<char> {
    "Fullstack task broken into "@ + decimal(n) + " layer-specific subtasks"@
}

/// The notification sent when a full-stack task was split into `n`.
pub open spec fn fullstack_notice(title: Seq<char>, n: int) -> NotificationView {
    NotificationView {
        title: "Task Breakdown"@,
        message: "Fullstack task '"@ + title + "' split into "@ + decimal(n) + " subtasks"@,
    }
}

/// Replaces a full-stack task by its layer subtasks: they are created, the
/// task is cancelled, and the replacement is logged and announced. Nothing
/// is selected in the same cycle.
pub open spec fn replace_fullstack(s: SelectorStateView, parent: TaskView) -> (
    SelectorStateView,
    SelectorActionView,
) {
    let planned = fullstack_subtasks(parent);
    let rationale = fullstack_rationale(planned.len() as int);
    (
        SelectorStateView {
            phase: SelectorPhaseView::Committing {
                outcome: Ok(
                    AgentTriggerResponseView {
                        action: AgentAction::Replaced,
                        task_id: Some(parent.id),
                        reasoning: Some(rationale),
                    },
                ),
            },
            ..s
        },
        SelectorActionView::Commit {
            writes: creations(planned) + seq![
                set_status(parent.id, TaskStatus::Cancelled),
                agent_log(s.project_id, Some(parent.id), AgentAction::Replaced, rationale),
            ],
            notification: Some(fullstack_notice(parent.title, planned.len() as int)),
        },
    )
}

/// The rationale logged when nothing is eligible.
pub open spec fn nothing_eligible() -> Seq<char> {
    "No eligible tasks available"@
}

/// The cycle once the tasks are known: the first full-stack task to do is
/// split; else, where the project is blocked, the cycle ends; else the
/// advisor is asked to choose among the candidates, or, where there are
/// none, that is logged.
pub open spec fn on_tasks(s: SelectorStateView, tasks: Seq<TaskView>) -> (
    SelectorStateView,
    SelectorActionView,
) {
    match first_fullstack_todo(tasks) {
        Some(k) => replace_fullstack(s, tasks[k]),
        None => match candidates(tasks) {
            None => finish(s, Err(AgentActivityErrorView::TaskAlreadyInProgress)),
            Some(c) => if c.len() == 0 {
                (
                    SelectorStateView {
                        phase: SelectorPhaseView::Committing {
                            outcome: Ok(
                                AgentTriggerResponseView {
                                    action: AgentAction::Skipped,
                                    task_id: None,
                                    reasoning: Some(nothing_eligible()),
                                },
                            ),
                        },
                        ..s
                    },
                    SelectorActionView::Commit {
                        writes: seq![
                            agent_log(s.project_id, None, AgentAction::Skipped, nothing_eligible()),
                        ],
                        notification: None,
                    },
                )
            } else {
                (
                    SelectorStateView {
                        phase: SelectorPhaseView::Selecting { candidates: ids_of(c) },
                        ..s
                    },
                    SelectorActionView::AskSelection { candidates: task_infos(c) },
                )
            },
        },
    }
}

/// The cycle after the advisor failed to choose, or chose what was not
/// offered: the error is logged, and the cycle ends with it.
pub open spec fn selection_failed(s: SelectorStateView, e: ClaudeApiErrorView) -> (
    SelectorStateView,
    SelectorActionView,
) {
    let error = AgentActivityErrorView::ClaudeApi(e);
    (
        SelectorStateView { phase: SelectorPhaseView::Committing { outcome: Err(error) }, ..s },
        SelectorActionView::Commit {
            writes: seq![agent_log(s.project_id, None, AgentAction::Error, error.message())],
            notification: None,
        },
    )
}

/// The cycle once the advisor has answered: a choice that names a
/// candidate is read again from the store; anything else is an error.
pub open spec fn on_selection(
    s: SelectorStateView,
    candidate_ids: Seq<u128>,
    answer: Result<TaskSelectionResponseView, ClaudeApiErrorView>,
) -> (SelectorStateView, SelectorActionView) {
    match answer {
        Err(e) => selection_failed(s, e),
        Ok(response) => match checked_selection(
            candidate_ids,
            response.task_id,
            uuid_parse(response.task_id),
        ) {
            Err(e) => selection_failed(s, e),
            Ok(id) => (
                SelectorStateView {
                    phase: SelectorPhaseView::LoadingTask {
                        task_id: id,
                        reasoning: response.reasoning,
                    },
                    ..s
                },
                SelectorActionView::LoadTask { task_id: id },
            ),
        },
    }
}

/// The notification sent when a task is started.
pub open spec fn selected_notice(title: Seq<char>) -> NotificationView {
    NotificationView { title: "Task Selected"@, message: "Starting: "@ + title }
}

/// Starts a task: its complexity is recorded if it was just found, its
/// status becomes in progress, and the selection is logged and announced.
pub open spec fn start_task(
    s: SelectorStateView,
    task: TaskView,
    reasoning: Seq<char>,
    score: Option<i32>,
) -> (SelectorStateView, SelectorActionView) {
    let record = match score {
        Some(n) => seq![StoreWriteView::SaveComplexity { task_id: task.id, score: n }],
        None => Seq::empty(),
    };
    (
        SelectorStateView { phase: SelectorPhaseView::Starting { task, reasoning }, ..s },
        SelectorActionView::Commit {
            writes: record + seq![
                set_status(task.id, TaskStatus::InProgress),
                agent_log(s.project_id, Some(task.id), AgentAction::Selected, reasoning),
            ],
            notification: Some(selected_notice(task.title)),
        },
    )
}

/// The cycle once the chosen task was read again: a task that is gone, or
/// another task in its place, ends the cycle; one that is due for
/// complexity analysis is analysed first; any other is started.
pub open spec fn on_task(
    s: SelectorStateView,
    task_id: u128,
    reasoning: Seq<char>,
    found: Option<TaskView>,
) -> (SelectorStateView, SelectorActionView) {
    match found {
        None => finish(s, Err(AgentActivityErrorView::NoTasksAvailable)),
        Some(task) => if task.id != task_id {
            finish(s, Err(AgentActivityErrorView::NoTasksAvailable))
        } else if task.needs_complexity_analysis() {
            (
                SelectorStateView { phase: SelectorPhaseView::Analyzing { task, reasoning }, ..s },
                SelectorActionView::AskComplexity { task },
            )
        } else {
            start_task(s, task, reasoning, None)
        },
    }
}

/// The rationale logged when a complex task was split.
pub open spec fn complexity_rationale(score: i32, n: int, reasoning: Seq<char>) -> Seq<char> {
    "Complex task (score "@ + decimal(score as int) + ") broken into "@ + decimal(n)
        + " subtasks: "@ + reasoning
}

/// The notification sent when a complex task was split.
pub open spec fn complexity_notice(title: Seq<char>, n: int) -> NotificationView {
    NotificationView {
        title: "Task Breakdown"@,
        message: "Complex task '"@ + title + "' split into "@ + decimal(n) + " subtasks"@,
    }
}

/// The rationale reported when a complex task was split.
pub open spec fn complexity_summary(n: int) -> Seq<char> {
    "Complex task broken into "@ + decimal(n) + " subtasks"@
}

/// Replaces a complex task by the suggested subtasks: the score is
/// recorded, the subtasks are created, the task is cancelled, and the
/// replacement is logged and announced.
pub open spec fn replace_complex(
    s: SelectorStateView,
    task: TaskView,
    analysis: ComplexityAnalysisResponseView,
) -> (SelectorStateView, SelectorActionView) {
    let planned = subtasks(task, analysis.suggestions());
    let n = planned.len() as int;
    (
        SelectorStateView {
            phase: SelectorPhaseView::Committing {
                outcome: Ok(
                    AgentTriggerResponseView {
                        action: AgentAction::Replaced,
                        task_id: Some(task.id),
                        reasoning: Some(complexity_summary(n)),
                    },
                ),
            },
            ..s
        },
        SelectorActionView::Commit {
            writes: seq![
                StoreWriteView::SaveComplexity { task_id: task.id, score: analysis.complexity_score },
            ] + creations(planned) + seq![
                set_status(task.id, TaskStatus::Cancelled),
                agent_log(
                    s.project_id,
                    Some(task.id),
                    AgentAction::Replaced,
                    complexity_rationale(analysis.complexity_score, n, analysis.reasoning),
                ),
            ],
            notification: Some(complexity_notice(task.title, n)),
        },
    )
}

/// The cycle once the advisor has judged the task's complexity. Analysis
/// is advisory: where the advisor fails, the task is started as it is.
/// Where the answer calls for a breakdown the task is replaced; else it is
/// started with its score recorded.
pub open spec fn on_complexity(
    s: SelectorStateView,
    task: TaskView,
    reasoning: Seq<char>,
    answer: Result<ComplexityAnalysisResponseView, ClaudeApiErrorView>,
) -> (SelectorStateView, SelectorActionView) {
    match answer {
        Err(_) => start_task(s, task, reasoning, None),
        Ok(analysis) => if analysis.should_break_down() {
            replace_complex(s, task, analysis)
        } else {
            start_task(s, task, reasoning, Some(analysis.complexity_score))
        },
    }
}

/// The decision that a task was selected.
pub open spec fn selected(task_id: u128, reasoning: Seq<char>) -> OutcomeView {
    Ok(
        AgentTriggerResponseView {
            action: AgentAction::Selected,
            task_id: Some(task_id),
            reasoning: Some(reasoning),
        },
    )
}

/// `event` answers what a cycle in `phase` is waiting on.
pub open spec fn expects(phase: SelectorPhaseView, event: SelectorEventView) -> bool {
    match phase {
        SelectorPhaseView::LoadingTasks => event is Tasks || event is StoreFailed,
        SelectorPhaseView::Committing { .. } => event is Committed || event is StoreFailed,
        SelectorPhaseView::Selecting { .. } => event is Selection,
        SelectorPhaseView::LoadingTask { .. } => event is Task || event is StoreFailed,
        SelectorPhaseView::Analyzing { .. } => event is Complexity,
        SelectorPhaseView::Starting { .. } => event is Committed || event is StoreFailed,
        SelectorPhaseView::StartingWorkspace { .. } => event is WorkspaceStarted,
        SelectorPhaseView::Finished => false,
    }
}

/// The end of a cycle that is handed an answer to something that it did
/// not ask.
pub open spec fn unexpected(s: SelectorStateView) -> (SelectorStateView, SelectorActionView) {
    finish(s, Err(AgentActivityErrorView::Database(out_of_turn())))
}

/// One step of a cycle: the next state and what to do next, given the
/// answer to what was asked last. A failure of the store ends the cycle,
/// and so does an answer to something that was not asked.
pub open spec fn selector_step(s: SelectorStateView, event: SelectorEventView) -> (
    SelectorStateView,
    SelectorActionView,
) {
    match event {
        SelectorEventView::StoreFailed(m) => finish(s, Err(AgentActivityErrorView::Database(m))),
        SelectorEventView::Tasks(tasks) => match s.phase {
            SelectorPhaseView::LoadingTasks => on_tasks(s, tasks),
            _ => unexpected(s),
        },
        SelectorEventView::Selection(answer) => match s.phase {
            SelectorPhaseView::Selecting { candidates } => on_selection(s, candidates, answer),
            _ => unexpected(s),
        },
        SelectorEventView::Task(found) => match s.phase {
            SelectorPhaseView::LoadingTask { task_id, reasoning } => on_task(
                s,
                task_id,
                reasoning,
                found,
            ),
            _ => unexpected(s),
        },
        SelectorEventView::Complexity(answer) => match s.phase {
            SelectorPhaseView::Analyzing { task, reasoning } => on_complexity(
                s,
                task,
                reasoning,
                answer,
            ),
            _ => unexpected(s),
        },
        SelectorEventView::Committed => match s.phase {
            SelectorPhaseView::Committing { outcome } => finish(s, outcome),
            SelectorPhaseView::Starting { task, reasoning } => if s.auto_attempt {
                (
                    SelectorStateView {
                        phase: SelectorPhaseView::StartingWorkspace { task_id: task.id, reasoning },
                        ..s
                    },
                    SelectorActionView::StartWorkspace { task },
                )
            } else {
                finish(s, selected(task.id, reasoning))
            },
            _ => unexpected(s),
        },
        SelectorEventView::WorkspaceStarted => match s.phase {
            SelectorPhaseView::StartingWorkspace { task_id, reasoning } => finish(
                s,
                selected(task_id, reasoning),
            ),
            _ => unexpected(s),
        },
    }
}

fn find_fullstack_todo(tasks: &Vec<Task>) -> (r: Option<usize>)
    ensures
        match r {
            Some(k) => k < tasks.len() && first_fullstack_todo(tasks.deep_view()) == Some(k as int),
            None => first_fullstack_todo(tasks.deep_view()).is_none(),
        },
{
    let mut i: usize = 0;
    let ghost all = tasks.deep_view();
    proof {
        assert(all.take(0) =~= Seq::<TaskView>::empty());
    }
    while i < tasks.len()
        invariant
            i <= tasks.len(),
            all == tasks.deep_view(),
            first_fullstack_todo(all.take(i as int)).is_none(),
        decreases tasks.len() - i,
    {
        proof {
            assert(all.take(i + 1).drop_last() =~= all.take(i as int));
            assert(all.take(i + 1).last() == tasks@[i as int]@);
        }
        if matches!(tasks[i].status, TaskStatus::Todo) && matches!(
            tasks[i].layer,
            Some(TaskLayer::Fullstack)
        ) {
            proof {
                lemma_fullstack_prefix(all, i as int + 1);
            }
            return Some(i);
        }
        i = i + 1;
    }
    proof {
        assert(all.take(tasks.len() as int) =~= all);
    }
    None
}

/// What is found in a prefix of the tasks is found in all of them.
proof fn lemma_fullstack_prefix(tasks: Seq<TaskView>, n: int)
    requires
        0 <= n <= tasks.len(),
        first_fullstack_todo(tasks.take(n)).is_some(),
    ensures
        first_fullstack_todo(tasks) == first_fullstack_todo(tasks.take(n)),
    decreases tasks.len() - n,
{
    if n < tasks.len() {
        assert(tasks.take(n + 1).drop_last() =~= tasks.take(n));
        lemma_fullstack_prefix(tasks, n + 1);
    } else {
        assert(tasks.take(n) =~= tasks);
    }
}

fn finished(state: SelectorState, outcome: Outcome) -> (r: (SelectorState, SelectorAction))
    ensures
        (r.0@, r.1@) == finish(state@, outcome_view(outcome)),
{
    (
        SelectorState {
            project_id: state.project_id,
            auto_attempt: state.auto_attempt,
            phase: SelectorPhase::Finished,
        },
        SelectorAction::Finish(outcome),
    )
}

fn log_write(project_id: u128, task_id: Option<u128>, action: AgentAction, reasoning: String) -> (r:
    StoreWrite)
    ensures
        r@ == agent_log(project_id, task_id, action, reasoning@),
{
    StoreWrite::AgentLog { project_id, task_id, action, reasoning: Some(reasoning) }
}

fn status_write(task_id: u128, status: TaskStatus) -> (r: StoreWrite)
    ensures
        r@ == set_status(task_id, status),
{
    StoreWrite::SetStatus { task_id, status }
}

fn replace_fullstack_task(state: SelectorState, parent: &Task) -> (r: (SelectorState, SelectorAction))
    ensures
        (r.0@, r.1@) == replace_fullstack(state@, parent@),
{
    let planned = plan_fullstack_subtasks(parent);
    let n = planned.len();
    proof {
        assert(planned.deep_view().len() == n);
    }
    let mut rationale = String::from_str("Fullstack task broken into ");
    push_decimal(&mut rationale, n as i128);
    rationale.append(" layer-specific subtasks");
    let mut message = String::from_str("Fullstack task '");
    message.append(parent.title.as_str());
    message.append("' split into ");
    push_decimal(&mut message, n as i128);
    message.append(" subtasks");
    let mut writes = creation_writes(planned);
    let ghost created = writes.deep_view();
    writes.push(status_write(parent.id, TaskStatus::Cancelled));
    writes.push(
        log_write(state.project_id, Some(parent.id), AgentAction::Replaced, rationale.clone()),
    );
    proof {
        assert(writes.deep_view() =~= created + seq![
            set_status(parent.id, TaskStatus::Cancelled),
            agent_log(state.project_id, Some(parent.id), AgentAction::Replaced, rationale@),
        ]);
    }
    (
        SelectorState {
            project_id: state.project_id,
            auto_attempt: state.auto_attempt,
            phase: SelectorPhase::Committing {
                outcome: Ok(
                    AgentTriggerResponse {
                        action: AgentAction::Replaced,
                        task_id: Some(parent.id),
                        reasoning: Some(rationale),
                    },
                ),
            },
        },
        SelectorAction::Commit {
            writes,
            notification: Some(Notification { title: String::from_str("Task Breakdown"), message }),
        },
    )
}

fn handle_tasks(state: SelectorState, tasks: Vec<Task>) -> (r: (SelectorState, SelectorAction))
    ensures
        (r.0@, r.1@) == on_tasks(state@, tasks.deep_view()),
{
    match find_fullstack_todo(&tasks) {
        Some(k) => {
            assert(tasks.deep_view()[k as int] == tasks@[k as int]@);
            replace_fullstack_task(state, &tasks[k])
        },
        None => match select_candidates(&tasks) {
            Err(e) => finished(state, Err(e)),
            Ok(found) => {
                assert(found.deep_view().len() == found@.len());
                if found.len() == 0 {
                    let mut writes: Vec<StoreWrite> = Vec::new();
                    writes.push(
                        log_write(
                            state.project_id,
                            None,
                            AgentAction::Skipped,
                            String::from_str("No eligible tasks available"),
                        ),
                    );
                    proof {
                        assert(writes.deep_view() =~= seq![
                            agent_log(
                                state.project_id,
                                None,
                                AgentAction::Skipped,
                                nothing_eligible(),
                            ),
                        ]);
                    }
                    (
                        SelectorState {
                            project_id: state.project_id,
                            auto_attempt: state.auto_attempt,
                            phase: SelectorPhase::Committing {
                                outcome: Ok(
                                    AgentTriggerResponse {
                                        action: AgentAction::Skipped,
                                        task_id: None,
                                        reasoning: Some(
                                            String::from_str("No eligible tasks available"),
                                        ),
                                    },
                                ),
                            },
                        },
                        SelectorAction::Commit { writes, notification: None },
                    )
                } else {
                    let ids = task_ids(&found);
                    let infos = describe_candidates(&found);
                    (
                        SelectorState {
                            project_id: state.project_id,
                            auto_attempt: state.auto_attempt,
                            phase: SelectorPhase::Selecting { candidates: ids },
                        },
                        SelectorAction::AskSelection { candidates: infos },
                    )
                }
            },
        },
    }
}

fn fail_selection(state: SelectorState, e: ClaudeApiError) -> (r: (SelectorState, SelectorAction))
    ensures
        (r.0@, r.1@) == selection_failed(state@, e@),
{
    let error = AgentActivityError::ClaudeApi(e);
    let mut writes: Vec<StoreWrite> = Vec::new();
    writes.push(log_write(state.project_id, None, AgentAction::Error, error.message()));
    proof {
        assert(writes.deep_view() =~= seq![
            agent_log(state.project_id, None, AgentAction::Error, error@.message()),
        ]);
    }
    (
        SelectorState {
            project_id: state.project_id,
            auto_attempt: state.auto_attempt,
            phase: SelectorPhase::Committing { outcome: Err(error) },
        },
        SelectorAction::Commit { writes, notification: None },
    )
}

fn handle_selection(
    state: SelectorState,
    candidate_ids: &Vec<u128>,
    answer: Result<TaskSelectionResponse, ClaudeApiError>,
) -> (r: (SelectorState, SelectorAction))
    ensures
        (r.0@, r.1@) == on_selection(
            state@,
            candidate_ids@,
            match answer {
                Ok(a) => Ok(a@),
                Err(e) => Err(e@),
            },
        ),
{
    match answer {
        Err(e) => fail_selection(state, e),
        Ok(response) => match validate_selection(candidate_ids, &response) {
            Err(e) => fail_selection(state, e),
            Ok(id) => (
                SelectorState {
                    project_id: state.project_id,
                    auto_attempt: state.auto_attempt,
                    phase: SelectorPhase::LoadingTask { task_id: id, reasoning: response.reasoning },
                },
                SelectorAction::LoadTask { task_id: id },
            ),
        },
    }
}

fn start(state: SelectorState, task: Task, reasoning: String, score: Option<i32>) -> (r: (
    SelectorState,
    SelectorAction,
))
    ensures
        (r.0@, r.1@) == start_task(state@, task@, reasoning@, score),
{
    let mut writes: Vec<StoreWrite> = Vec::new();
    match score {
        Some(n) => {
            writes.push(StoreWrite::SaveComplexity { task_id: task.id, score: n });
        },
        None => {},
    }
    let ghost record = writes.deep_view();
    proof {
        assert(record =~= match score {
            Some(n) => seq![StoreWriteView::SaveComplexity { task_id: task.id, score: n }],
            None => Seq::empty(),
        });
    }
    writes.push(status_write(task.id, TaskStatus::InProgress));
    writes.push(
        log_write(state.project_id, Some(task.id), AgentAction::Selected, reasoning.clone()),
    );
    proof {
        assert(writes.deep_view() =~= record + seq![
            set_status(task.id, TaskStatus::InProgress),
            agent_log(state.project_id, Some(task.id), AgentAction::Selected, reasoning@),
        ]);
    }
    let message = String::from_str("Starting: ").concat(task.title.as_str());
    (
        SelectorState {
            project_id: state.project_id,
            auto_attempt: state.auto_attempt,
            phase: SelectorPhase::Starting { task, reasoning },
        },
        SelectorAction::Commit {
            writes,
            notification: Some(Notification { title: String::from_str("Task Selected"), message }),
        },
    )
}

fn handle_task(state: SelectorState, task_id: u128, reasoning: String, found: Option<Task>) -> (r: (
    SelectorState,
    SelectorAction,
))
    ensures
        (r.0@, r.1@) == on_task(state@, task_id, reasoning@, found.deep_view()),
{
    match found {
        None => finished(state, Err(AgentActivityError::NoTasksAvailable)),
        Some(task) => {
            if task.id != task_id {
                finished(state, Err(AgentActivityError::NoTasksAvailable))
            } else if task.needs_complexity_analysis() {
                let asked = task.clone();
                (
                    SelectorState {
                        project_id: state.project_id,
                        auto_attempt: state.auto_attempt,
                        phase: SelectorPhase::Analyzing { task, reasoning },
                    },
                    SelectorAction::AskComplexity { task: asked },
                )
            } else {
                start(state, task, reasoning, None)
            }
        },
    }
}

fn replace_complex_task(state: SelectorState, task: &Task, analysis: ComplexityAnalysisResponse) -> (r: (
    SelectorState,
    SelectorAction,
))
    requires
        analysis@.should_break_down(),
    ensures
        (r.0@, r.1@) == replace_complex(state@, task@, analysis@),
{
    let planned = match &analysis.subtasks {
        Some(suggestions) => plan_subtasks(task, suggestions),
        None => Vec::new(),
    };
    let n = planned.len();
    proof {
        assert(planned.deep_view() =~= subtasks(task@, analysis@.suggestions()));
        assert(planned.deep_view().len() == n);
    }
    let mut rationale = String::from_str("Complex task (score ");
    push_decimal(&mut rationale, analysis.complexity_score as i128);
    rationale.append(") broken into ");
    push_decimal(&mut rationale, n as i128);
    rationale.append(" subtasks: ");
    rationale.append(analysis.reasoning.as_str());
    let mut message = String::from_str("Complex task '");
    message.append(task.title.as_str());
    message.append("' split into ");
    push_decimal(&mut message, n as i128);
    message.append(" subtasks");
    let mut summary = String::from_str("Complex task broken into ");
    push_decimal(&mut summary, n as i128);
    summary.append(" subtasks");
    let mut writes: Vec<StoreWrite> = Vec::new();
    writes.push(StoreWrite::SaveComplexity { task_id: task.id, score: analysis.complexity_score });
    let mut created = creation_writes(planned);
    let ghost created_view = created.deep_view();
    writes.append(&mut created);
    writes.push(status_write(task.id, TaskStatus::Cancelled));
    writes.push(log_write(state.project_id, Some(task.id), AgentAction::Replaced, rationale));
    proof {
        assert(writes.deep_view() =~= seq![
            StoreWriteView::SaveComplexity { task_id: task.id, score: analysis.complexity_score },
        ] + created_view + seq![
            set_status(task.id, TaskStatus::Cancelled),
            agent_log(
                state.project_id,
                Some(task.id),
                AgentAction::Replaced,
                complexity_rationale(analysis.complexity_score, n as int, analysis.reasoning@),
            ),
        ]);
    }
    (
        SelectorState {
            project_id: state.project_id,
            auto_attempt: state.auto_attempt,
            phase: SelectorPhase::Committing {
                outcome: Ok(
                    AgentTriggerResponse {
                        action: AgentAction::Replaced,
                        task_id: Some(task.id),
                        reasoning: Some(summary),
                    },
                ),
            },
        },
        SelectorAction::Commit {
            writes,
            notification: Some(Notification { title: String::from_str("Task Breakdown"), message }),
        },
    )
}

fn handle_complexity(
    state: SelectorState,
    task: Task,
    reasoning: String,
    answer: Result<ComplexityAnalysisResponse, ClaudeApiError>,
) -> (r: (SelectorState, SelectorAction))
    ensures
        (r.0@, r.1@) == on_complexity(
            state@,
            task@,
            reasoning@,
            match answer {
                Ok(a) => Ok(a@),
                Err(e) => Err(e@),
            },
        ),
{
    match answer {
        Err(_) => start(state, task, reasoning, None),
        Ok(analysis) => {
            if analysis.should_break_down() {
                replace_complex_task(state, &task, analysis)
            } else {
                let score = analysis.complexity_score;
                start(state, task, reasoning, Some(score))
            }
        },
    }
}

fn selected_outcome(task_id: u128, reasoning: String) -> (r: Outcome)
    ensures
        outcome_view(r) == selected(task_id, reasoning@),
{
    Ok(
        AgentTriggerResponse {
            action: AgentAction::Selected,
            task_id: Some(task_id),
            reasoning: Some(reasoning),
        },
    )
}

/// The background service for autonomous task selection.
#[derive(Debug, PartialEq, Eq)]
pub struct AgentActivityService {
    /// Seconds between two passes over the projects.
    pub poll_interval_secs: u64,
    /// Whether a workspace is started for each task that is selected.
    pub auto_attempt: bool,
}

impl SelectorState {
    /// Whether `event` answers what this cycle is waiting on.
    pub fn expects(&self, event: &SelectorEvent) -> (r: bool)
        ensures
            r == expects(self@.phase, event@),
    {
        match &self.phase {
            SelectorPhase::LoadingTasks => matches!(
                event,
                SelectorEvent::Tasks(_) | SelectorEvent::StoreFailed(_)
            ),
            SelectorPhase::Committing { .. } => matches!(
                event,
                SelectorEvent::Committed | SelectorEvent::StoreFailed(_)
            ),
            SelectorPhase::Selecting { .. } => matches!(event, SelectorEvent::Selection(_)),
            SelectorPhase::LoadingTask { .. } => matches!(
                event,
                SelectorEvent::Task(_) | SelectorEvent::StoreFailed(_)
            ),
            SelectorPhase::Analyzing { .. } => matches!(event, SelectorEvent::Complexity(_)),
            SelectorPhase::Starting { .. } => matches!(
                event,
                SelectorEvent::Committed | SelectorEvent::StoreFailed(_)
            ),
            SelectorPhase::StartingWorkspace { .. } => matches!(
                event,
                SelectorEvent::WorkspaceStarted
            ),
            SelectorPhase::Finished => false,
        }
    }

    /// Whether the cycle is over.
    pub fn is_finished(&self) -> (r: bool)
        ensures
            r == (self@.phase is Finished),
    {
        matches!(self.phase, SelectorPhase::Finished)
    }
}

impl AgentActivityService {
    /// The service as it is spawned: it looks at the projects every ten
    /// seconds.
    pub fn new(auto_attempt: bool) -> (r: Self)
        ensures
            r.poll_interval_secs == 10,
            r.auto_attempt == auto_attempt,
    {
        AgentActivityService { poll_interval_secs: 10, auto_attempt }
    }

    /// Main entry point: begins a cycle for a project. The cycle first
    /// asks for the tasks of the project; `step` takes it on from there.
    pub fn check_and_select_next_task(project_id: u128, auto_attempt: bool) -> (r: (
        SelectorState,
        SelectorAction,
    ))
        ensures
            r.0@ == (SelectorStateView {
                project_id,
                auto_attempt,
                phase: SelectorPhaseView::LoadingTasks,
            }),
            r.1@ == (SelectorActionView::LoadTasks { project_id }),
    {
        (
            SelectorState { project_id, auto_attempt, phase: SelectorPhase::LoadingTasks },
            SelectorAction::LoadTasks { project_id },
        )
    }

    /// Takes a cycle one step on: given the answer to what it asked last,
    /// says what it asks next.
    pub fn step(state: SelectorState, event: SelectorEvent) -> (r: (SelectorState, SelectorAction))
        ensures
            (r.0@, r.1@) == selector_step(state@, event@),
    {
        let SelectorState { project_id, auto_attempt, phase } = state;
        let rest = SelectorState { project_id, auto_attempt, phase: SelectorPhase::Finished };
        match event {
            SelectorEvent::StoreFailed(m) => finished(rest, Err(AgentActivityError::Database(m))),
            SelectorEvent::Tasks(tasks) => match phase {
                SelectorPhase::LoadingTasks => handle_tasks(rest, tasks),
                _ => out_of_turn_end(rest),
            },
            SelectorEvent::Selection(answer) => match phase {
                SelectorPhase::Selecting { candidates } => handle_selection(
                    rest,
                    &candidates,
                    answer,
                ),
                _ => out_of_turn_end(rest),
            },
            SelectorEvent::Task(found) => match phase {
                SelectorPhase::LoadingTask { task_id, reasoning } => handle_task(
                    rest,
                    task_id,
                    reasoning,
                    found,
                ),
                _ => out_of_turn_end(rest),
            },
            SelectorEvent::Complexity(answer) => match phase {
                SelectorPhase::Analyzing { task, reasoning } => handle_complexity(
                    rest,
                    task,
                    reasoning,
                    answer,
                ),
                _ => out_of_turn_end(rest),
            },
            SelectorEvent::Committed => match phase {
                SelectorPhase::Committing { outcome } => finished(rest, outcome),
                SelectorPhase::Starting { task, reasoning } => {
                    if auto_attempt {
                        (
                            SelectorState {
                                project_id,
                                auto_attempt,
                                phase: SelectorPhase::StartingWorkspace {
                                    task_id: task.id,
                                    reasoning,
                                },
                            },
                            SelectorAction::StartWorkspace { task },
                        )
                    } else {
                        let outcome = selected_outcome(task.id, reasoning);
                        finished(rest, outcome)
                    }
                },
                _ => out_of_turn_end(rest),
            },
            SelectorEvent::WorkspaceStarted => match phase {
                SelectorPhase::StartingWorkspace { task_id, reasoning } => {
                    let outcome = selected_outcome(task_id, reasoning);
                    finished(rest, outcome)
                },
                _ => out_of_turn_end(rest),
            },
        }
    }
}

fn out_of_turn_end(state: SelectorState) -> (r: (SelectorState, SelectorAction))
    ensures
        (r.0@, r.1@) == unexpected(state@),
{
    finished(state, Err(AgentActivityError::Database(out_of_turn_message())))
}

/// The action starts the task `id`: it sets its status to in progress.
pub open spec fn starts(action: SelectorActionView, id: u128) -> bool {
    match action {
        SelectorActionView::Commit { writes, notification } => exists|i: int|
            0 <= i < writes.len() && #[trigger] writes[i] == set_status(id, TaskStatus::InProgress),
        _ => false,
    }
}

/// The actions of a cycle that receives `events` in order.
pub open spec fn run(s: SelectorStateView, events: Seq<SelectorEventView>) -> Seq<
    SelectorActionView,
>
    decreases events.len(),
{
    if events.len() == 0 {
        Seq::empty()
    } else {
        seq![selector_step(s, events[0]).1] + run(
            selector_step(s, events[0]).0,
            events.drop_first(),
        )
    }
}

/// The cycle is bound to the candidates `offered`: the task it is about to
/// start, if any, is one of them.
pub open spec fn bound_to(phase: SelectorPhaseView, offered: Seq<u128>) -> bool {
    match phase {
        SelectorPhaseView::LoadingTasks => false,
        SelectorPhaseView::Committing { outcome } => true,
        SelectorPhaseView::Selecting { candidates } => candidates == offered,
        SelectorPhaseView::LoadingTask { task_id, reasoning } => offered.contains(task_id),
        SelectorPhaseView::Analyzing { task, reasoning } => offered.contains(task.id),
        SelectorPhaseView::Starting { task, reasoning } => offered.contains(task.id),
        SelectorPhaseView::StartingWorkspace { task_id, reasoning } => offered.contains(task_id),
        SelectorPhaseView::Finished => true,
    }
}

/// The writes that create tasks start none.
proof fn lemma_creations_start_nothing(planned: Seq<crate::task::CreateTaskView>, i: int, id: u128)
    requires
        0 <= i < planned.len(),
    ensures
        creations(planned)[i] != set_status(id, TaskStatus::InProgress),
{
}

/// What a cycle does once the tasks are known: it starts nothing in this
/// step, and it goes on to a selection only where no full-stack task is
/// to do and the rules of admission leave candidates, to which it is then
/// bound.
pub proof fn lemma_on_tasks(s: SelectorStateView, tasks: Seq<TaskView>, id: u128)
    ensures
        !starts(on_tasks(s, tasks).1, id),
        on_tasks(s, tasks).0.phase is Selecting ==> first_fullstack_todo(tasks).is_none()
            && candidates(tasks).is_some() && bound_to(
            on_tasks(s, tasks).0.phase,
            ids_of(candidates(tasks).unwrap()),
        ),
        !(on_tasks(s, tasks).0.phase is Selecting) ==> on_tasks(s, tasks).0.phase is Committing
            || on_tasks(s, tasks).0.phase is Finished,
{
    match first_fullstack_todo(tasks) {
        Some(k) => {
            let planned = fullstack_subtasks(tasks[k]);
            let writes = on_tasks(s, tasks).1->Commit_writes;
            assert forall|i: int| 0 <= i < writes.len() implies #[trigger] writes[i] != set_status(
                id,
                TaskStatus::InProgress,
            ) by {
                if i < planned.len() {
                    lemma_creations_start_nothing(planned, i, id);
                    assert(writes[i] == creations(planned)[i]);
                }
            }
        },
        None => {},
    }
}

/// One step of a cycle that is bound to the candidates `offered` keeps it
/// bound to them, and starts no task but one of them.
pub proof fn lemma_step_keeps_binding(
    s: SelectorStateView,
    event: SelectorEventView,
    offered: Seq<u128>,
    id: u128,
)
    requires
        bound_to(s.phase, offered),
    ensures
        bound_to(selector_step(s, event).0.phase, offered),
        starts(selector_step(s, event).1, id) ==> offered.contains(id),
{
    let action = selector_step(s, event).1;
    match s.phase {
        SelectorPhaseView::Analyzing { task, reasoning } => {
            match event {
                SelectorEventView::Complexity(Ok(analysis)) => {
                    if analysis.should_break_down() {
                        let planned = subtasks(task, analysis.suggestions());
                        let writes = action->Commit_writes;
                        assert forall|i: int| 0 <= i < writes.len() implies #[trigger] writes[i]
                            != set_status(id, TaskStatus::InProgress) by {
                            if 1 <= i < 1 + planned.len() {
                                lemma_creations_start_nothing(planned, i - 1, id);
                                assert(writes[i] == creations(planned)[i - 1]);
                            }
                        }
                    }
                },
                _ => {},
            }
        },
        _ => {},
    }
}

/// A cycle that is bound to the candidates `offered` starts no task but
/// one of them, whatever it is answered from then on.
pub proof fn lemma_only_candidates_start(
    s: SelectorStateView,
    events: Seq<SelectorEventView>,
    offered: Seq<u128>,
    n: int,
    id: u128,
)
    requires
        bound_to(s.phase, offered),
        0 <= n < run(s, events).len(),
        starts(run(s, events)[n], id),
    ensures
        offered.contains(id),
    decreases events.len(),
{
    if events.len() > 0 {
        lemma_step_keeps_binding(s, events[0], offered, id);
        if n > 0 {
            let next = selector_step(s, events[0]).0;
            assert(run(s, events)[n] == run(next, events.drop_first())[n - 1]);
            lemma_only_candidates_start(next, events.drop_first(), offered, n - 1, id);
        }
    }
}

/// Admission control: a cycle that finds an integration task in progress
/// or in review, or a full-stack task to do, starts no task, whatever it is
/// answered from then on.
pub proof fn lemma_blocked_cycle_starts_nothing(
    s: SelectorStateView,
    tasks: Seq<TaskView>,
    events: Seq<SelectorEventView>,
    n: int,
    id: u128,
)
    requires
        crate::agent_activity::has_active_integration(tasks) || first_fullstack_todo(
            tasks,
        ).is_some(),
        0 <= n < run(on_tasks(s, tasks).0, events).len(),
    ensures
        !starts(on_tasks(s, tasks).1, id),
        !starts(run(on_tasks(s, tasks).0, events)[n], id),
{
    lemma_on_tasks(s, tasks, id);
    let next = on_tasks(s, tasks).0;
    assert(!(next.phase is Selecting));
    let nothing = Seq::<u128>::empty();
    assert(bound_to(next.phase, nothing));
    if starts(run(next, events)[n], id) {
        lemma_only_candidates_start(next, events, nothing, n, id);
    }
}


/// The branch that a repository is on, as far as it could be found out.
#[derive(Debug, PartialEq, Eq)]
pub struct RepoBranch {
    pub repo_id: u128,
    pub current_branch: Option<String>,
}

/// The mathematical value of a [`RepoBranch`].
#[verifier::ext_equal]
pub struct RepoBranchView {
    pub repo_id: u128,
    pub current_branch: Option<Seq<char>>,
}

impl DeepView for RepoBranch {
    type V = RepoBranchView;

    open spec fn deep_view(&self) -> RepoBranchView {
        RepoBranchView { repo_id: self.repo_id, current_branch: self.current_branch.deep_view() }
    }
}

impl View for RepoBranch {
    type V = RepoBranchView;

    open spec fn view(&self) -> RepoBranchView {
        self.deep_view()
    }
}

/// The branch that a workspace's branch is merged into where the
/// repository does not say which branch it is on.
pub open spec fn default_target_branch() -> Seq<char> {
    "main"@
}

/// The binding of a repository to a new workspace: the target is the
/// branch the repository is on.
pub open spec fn binding(found: RepoBranchView) -> CreateWorkspaceRepoView {
    CreateWorkspaceRepoView {
        repo_id: found.repo_id,
        target_branch: match found.current_branch {
            Some(b) => b,
            None => default_target_branch(),
        },
    }
}

/// The directory in which the agent works: the repository's, where the
/// project has exactly one; the root of the workspace otherwise.
pub open spec fn working_dir(repos: Seq<RepoView>) -> Option<Seq<char>> {
    if repos.len() == 1 {
        Some(repos[0].name)
    } else {
        None
    }
}

impl AgentActivityService {
    /// Get the current agent activity status for a project, from its
    /// settings and its latest log entry.
    pub fn get_status(settings: Option<ProjectAgentSettings>, latest_log: Option<AgentActivityLog>) -> (r:
        AgentActivityStatus)
        ensures
            r@ == AgentActivityStatusView::of(settings, latest_log.deep_view()),
    {
        let enabled = match settings {
            Some(s) => s.enabled,
            None => false,
        };
        let interval_seconds = match settings {
            Some(s) => s.interval_seconds,
            None => DEFAULT_INTERVAL_SECONDS,
        };
        match latest_log {
            Some(l) => AgentActivityStatus {
                enabled,
                interval_seconds,
                last_run: Some(l.created_at),
                last_selected_task_id: if matches!(l.action, AgentAction::Selected) {
                    l.task_id
                } else {
                    None
                },
                last_reasoning: l.reasoning,
            },
            None => AgentActivityStatus {
                enabled,
                interval_seconds,
                last_run: None,
                last_selected_task_id: None,
                last_reasoning: None,
            },
        }
    }

    /// Enable agent activity for a project: the settings row to store.
    pub fn enable(existing: Option<ProjectAgentSettings>, id: u128, project_id: u128, now: i64) -> (r:
        ProjectAgentSettings)
        ensures
            r == ProjectAgentSettings::upserted(
                existing,
                id,
                project_id,
                true,
                DEFAULT_INTERVAL_SECONDS,
                now,
            ),
    {
        ProjectAgentSettings::set_enabled(existing, id, project_id, true, now)
    }

    /// Disable agent activity for a project: the settings row to store.
    pub fn disable(existing: Option<ProjectAgentSettings>, id: u128, project_id: u128, now: i64) -> (r:
        ProjectAgentSettings)
        ensures
            r == ProjectAgentSettings::upserted(
                existing,
                id,
                project_id,
                false,
                DEFAULT_INTERVAL_SECONDS,
                now,
            ),
    {
        ProjectAgentSettings::set_enabled(existing, id, project_id, false, now)
    }

    /// Decides whether an attempt can be started by itself, and where its
    /// agent works: a project without repositories gets no attempt; with
    /// exactly one repository the agent works in it, otherwise at the root
    /// of the workspace.
    pub fn auto_start_attempt(repos: &Vec<Repo>) -> (r: Result<Option<String>, AgentActivityError>)
        ensures
            match r {
                Ok(dir) => repos@.len() > 0 && dir.deep_view() == working_dir(repos.deep_view()),
                Err(e) => repos@.len() == 0 && e@ == AgentActivityErrorView::NoRepositories,
            },
    {
        if repos.len() == 0 {
            return Err(AgentActivityError::NoRepositories);
        }
        if repos.len() == 1 {
            assert(repos.deep_view()[0] == repos@[0]@);
            Ok(Some(repos[0].name.clone()))
        } else {
            Ok(None)
        }
    }

    /// Binds the repositories to the new workspace, each with the branch it
    /// is on as target.
    pub fn bind_repos(found: &Vec<RepoBranch>) -> (r: Vec<CreateWorkspaceRepo>)
        ensures
            r.deep_view() == found.deep_view().map_values(|f: RepoBranchView| binding(f)),
    {
        let mut out: Vec<CreateWorkspaceRepo> = Vec::new();
        let ghost all = found.deep_view().map_values(|f: RepoBranchView| binding(f));
        let mut i: usize = 0;
        while i < found.len()
            invariant
                i <= found.len(),
                all == found.deep_view().map_values(|f: RepoBranchView| binding(f)),
                out.deep_view() == all.take(i as int),
            decreases found.len() - i,
        {
            let ghost before = out.deep_view();
            let f = &found[i];
            let target_branch = match &f.current_branch {
                Some(b) => b.clone(),
                None => String::from_str("main"),
            };
            let bound = CreateWorkspaceRepo { repo_id: f.repo_id, target_branch };
            proof {
                assert(found.deep_view()[i as int] == f@);
                assert(bound@ == binding(f@));
            }
            out.push(bound);
            proof {
                assert(out.deep_view() =~= before.push(all[i as int]));
                assert(all.take(i + 1) =~= all.take(i as int).push(all[i as int]));
            }
            i = i + 1;
        }
        proof {
            assert(all.take(found.len() as int) =~= all);
        }
        out
    }
}


/// Breakdown conservation: where the advisor's answer calls for a
/// breakdown, the task is replaced in one commit that records the score,
/// creates one subtask for each suggestion, at least two, cancels the task
/// and logs the replacement; each subtask names the task as its parent and
/// is barred from breakdown, so that it is never analysed itself; and the
/// cycle starts nothing.
pub proof fn lemma_breakdown_conservation(
    s: SelectorStateView,
    task: TaskView,
    reasoning: Seq<char>,
    analysis: ComplexityAnalysisResponseView,
    i: int,
    id: u128,
    now: i64,
)
    requires
        analysis.should_break_down(),
        0 <= i < analysis.suggestions().len(),
    ensures
        on_complexity(s, task, reasoning, Ok(analysis)) == replace_complex(s, task, analysis),
        replace_complex(s, task, analysis).1 is Commit,
        analysis.suggestions().len() >= 2,
        replace_complex(s, task, analysis).1->Commit_writes.len() == analysis.suggestions().len()
            + 3,
        replace_complex(s, task, analysis).1->Commit_writes[i + 1] == StoreWriteView::CreateTask(
            subtasks(task, analysis.suggestions())[i],
        ),
        subtasks(task, analysis.suggestions())[i].parent_task_id == Some(task.id),
        subtasks(task, analysis.suggestions())[i].prevent_breakdown == Some(true),
        !subtasks(task, analysis.suggestions())[i].created(id, now).needs_complexity_analysis(),
        replace_complex(s, task, analysis).1->Commit_writes[analysis.suggestions().len() as int
            + 1] == set_status(task.id, TaskStatus::Cancelled),
        !starts(replace_complex(s, task, analysis).1, id),
{
    let planned = subtasks(task, analysis.suggestions());
    let writes = replace_complex(s, task, analysis).1->Commit_writes;
    assert(writes[i + 1] == creations(planned)[i]);
    assert forall|k: int| 0 <= k < writes.len() implies #[trigger] writes[k] != set_status(
        id,
        TaskStatus::InProgress,
    ) by {
        if 1 <= k < 1 + planned.len() {
            assert(writes[k] == creations(planned)[k - 1]);
        }
    }
}

/// A cycle that an operator triggers by hand never asks for a workspace
/// to be started.
pub proof fn lemma_manual_trigger_starts_no_workspace(
    s: SelectorStateView,
    events: Seq<SelectorEventView>,
    n: int,
)
    requires
        !s.auto_attempt,
        0 <= n < run(s, events).len(),
    ensures
        !(run(s, events)[n] is StartWorkspace),
    decreases events.len(),
{
    if events.len() > 0 {
        let next = selector_step(s, events[0]);
        assert(next.0.auto_attempt == s.auto_attempt);
        assert(!(next.1 is StartWorkspace));
        if n > 0 {
            assert(run(s, events)[n] == run(next.0, events.drop_first())[n - 1]);
            lemma_manual_trigger_starts_no_workspace(next.0, events.drop_first(), n - 1);
        }
    }
}


/// An answer to something that the cycle did not ask ends the cycle, unless
/// it reports a failure of the store, which ends it in any phase.
pub proof fn lemma_out_of_turn(s: SelectorStateView, event: SelectorEventView)
    requires
        !expects(s.phase, event),
    ensures
        selector_step(s, event) == if event is StoreFailed {
            finish(s, Err(AgentActivityErrorView::Database(event->StoreFailed_0)))
        } else {
            unexpected(s)
        },
{
}


/// Complexity is analysed only where it is due: the advisor is asked
/// about a task only if the task has no score yet, was not split from
/// another, and is not barred from breakdown. A task is therefore analysed
/// at most once, and a subtask never.
pub proof fn lemma_analysis_only_when_due(s: SelectorStateView, event: SelectorEventView)
    requires
        selector_step(s, event).1 is AskComplexity,
    ensures
        selector_step(s, event).1->AskComplexity_task.needs_complexity_analysis(),
        selector_step(s, event).1->AskComplexity_task.complexity_score.is_none(),
        selector_step(s, event).1->AskComplexity_task.parent_task_id.is_none(),
        !selector_step(s, event).1->AskComplexity_task.prevent_breakdown,
{
}

} // verus!
