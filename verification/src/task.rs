//! The task: the unit of work that the schedulers move through its
//! lifecycle.
//!
//! Timestamps are whole seconds since the Unix epoch.

use crate::text::{blank, is_blank, str_eq};
use vstd::prelude::*;
use vstd::string::*;

verus! {

/// Lifecycle state of a task.
#[derive(Debug, Clone, Copy, PartialEq, Eq, Structural)]
pub enum TaskStatus {
    Todo,
    InProgress,
    InReview,
    Done,
    Cancelled,
}

impl TaskStatus {
    /// The name under which the value is stored and shown.
    pub open spec fn name(self) -> Seq<char> {
        match self {
            TaskStatus::Todo => "todo"@,
            TaskStatus::InProgress => "inprogress"@,
            TaskStatus::InReview => "inreview"@,
            TaskStatus::Done => "done"@,
            TaskStatus::Cancelled => "cancelled"@,
        }
    }

    /// The task occupies an agent: it is being worked on or reviewed.
    pub open spec fn is_active(self) -> bool {
        self == TaskStatus::InProgress || self == TaskStatus::InReview
    }

    /// No transition leaves this state.
    pub open spec fn is_terminal(self) -> bool {
        self == TaskStatus::Done || self == TaskStatus::Cancelled
    }

    /// The name under which the value is stored and shown.
    pub fn as_str(&self) -> (r: &'static str)
        ensures
            r@ == self.name(),
    {
        match self {
            TaskStatus::Todo => "todo",
            TaskStatus::InProgress => "inprogress",
            TaskStatus::InReview => "inreview",
            TaskStatus::Done => "done",
            TaskStatus::Cancelled => "cancelled",
        }
    }

    /// The status whose name is exactly `name`.
    pub open spec fn from_name(name: Seq<char>) -> Option<TaskStatus> {
        if name == "todo"@ {
            Some(TaskStatus::Todo)
        } else if name == "inprogress"@ {
            Some(TaskStatus::InProgress)
        } else if name == "inreview"@ {
            Some(TaskStatus::InReview)
        } else if name == "done"@ {
            Some(TaskStatus::Done)
        } else if name == "cancelled"@ {
            Some(TaskStatus::Cancelled)
        } else {
            None
        }
    }

    /// Reads a status from its exact lower-case name.
    pub fn parse(name: &str) -> (r: Option<TaskStatus>)
        ensures
            r == TaskStatus::from_name(name@),
    {
        if str_eq(name, "todo") {
            Some(TaskStatus::Todo)
        } else if str_eq(name, "inprogress") {
            Some(TaskStatus::InProgress)
        } else if str_eq(name, "inreview") {
            Some(TaskStatus::InReview)
        } else if str_eq(name, "done") {
            Some(TaskStatus::Done)
        } else if str_eq(name, "cancelled") {
            Some(TaskStatus::Cancelled)
        } else {
            None
        }
    }

    /// Whether the task occupies an agent.
    pub fn active(&self) -> (r: bool)
        ensures
            r == self.is_active(),
    {
        matches!(self, TaskStatus::InProgress | TaskStatus::InReview)
    }

    /// Whether no transition leaves the state.
    pub fn terminal(&self) -> (r: bool)
        ensures
            r == self.is_terminal(),
    {
        matches!(self, TaskStatus::Done | TaskStatus::Cancelled)
    }
}

impl Default for TaskStatus {
    fn default() -> (r: Self)
        ensures
            r == TaskStatus::Todo,
    {
        TaskStatus::Todo
    }
}

/// Source of task creation.
#[derive(Debug, Clone, Copy, PartialEq, Eq, Structural)]
pub enum TaskSource {
    Manual,
    AiGenerated,
}

impl TaskSource {
    /// The name under which the value is stored and shown.
    pub open spec fn name(self) -> Seq<char> {
        match self {
            TaskSource::Manual => "manual"@,
            TaskSource::AiGenerated => "ai_generated"@,
        }
    }

    /// The name under which the value is stored and shown.
    pub fn as_str(&self) -> (r: &'static str)
        ensures
            r@ == self.name(),
    {
        match self {
            TaskSource::Manual => "manual",
            TaskSource::AiGenerated => "ai_generated",
        }
    }
}

impl TaskSource {
    /// The source whose name is exactly `name`.
    pub open spec fn from_name(name: Seq<char>) -> Option<TaskSource> {
        if name == "manual"@ {
            Some(TaskSource::Manual)
        } else if name == "ai_generated"@ {
            Some(TaskSource::AiGenerated)
        } else {
            None
        }
    }

    /// Reads a source from its exact name.
    pub fn parse(name: &str) -> (r: Option<TaskSource>)
        ensures
            r == TaskSource::from_name(name@),
    {
        if str_eq(name, "manual") {
            Some(TaskSource::Manual)
        } else if str_eq(name, "ai_generated") {
            Some(TaskSource::AiGenerated)
        } else {
            None
        }
    }
}

impl Default for TaskSource {
    fn default() -> (r: Self)
        ensures
            r == TaskSource::Manual,
    {
        TaskSource::Manual
    }
}

/// Layer/domain the task belongs to.
#[derive(Debug, Clone, Copy, PartialEq, Eq, Structural)]
pub enum TaskLayer {
    Data,
    Backend,
    Frontend,
    Fullstack,
    Devops,
    Testing,
}

impl TaskLayer {
    /// The name under which the value is stored and shown.
    pub open spec fn name(self) -> Seq<char> {
        match self {
            TaskLayer::Data => "data"@,
            TaskLayer::Backend => "backend"@,
            TaskLayer::Frontend => "frontend"@,
            TaskLayer::Fullstack => "fullstack"@,
            TaskLayer::Devops => "devops"@,
            TaskLayer::Testing => "testing"@,
        }
    }

    /// The layer whose name is exactly `name`.
    pub open spec fn from_name(name: Seq<char>) -> Option<TaskLayer> {
        if name == "data"@ {
            Some(TaskLayer::Data)
        } else if name == "backend"@ {
            Some(TaskLayer::Backend)
        } else if name == "frontend"@ {
            Some(TaskLayer::Frontend)
        } else if name == "fullstack"@ {
            Some(TaskLayer::Fullstack)
        } else if name == "devops"@ {
            Some(TaskLayer::Devops)
        } else if name == "testing"@ {
            Some(TaskLayer::Testing)
        } else {
            None
        }
    }

    /// The name under which the value is stored and shown.
    pub fn as_str(&self) -> (r: &'static str)
        ensures
            r@ == self.name(),
    {
        match self {
            TaskLayer::Data => "data",
            TaskLayer::Backend => "backend",
            TaskLayer::Frontend => "frontend",
            TaskLayer::Fullstack => "fullstack",
            TaskLayer::Devops => "devops",
            TaskLayer::Testing => "testing",
        }
    }

    /// Reads a layer from its exact lower-case name.
    pub fn parse(name: &str) -> (r: Option<TaskLayer>)
        ensures
            r == TaskLayer::from_name(name@),
    {
        if str_eq(name, "data") {
            Some(TaskLayer::Data)
        } else if str_eq(name, "backend") {
            Some(TaskLayer::Backend)
        } else if str_eq(name, "frontend") {
            Some(TaskLayer::Frontend)
        } else if str_eq(name, "fullstack") {
            Some(TaskLayer::Fullstack)
        } else if str_eq(name, "devops") {
            Some(TaskLayer::Devops)
        } else if str_eq(name, "testing") {
            Some(TaskLayer::Testing)
        } else {
            None
        }
    }
}

/// Type of task in the architecture-first approach.
#[derive(Debug, Clone, Copy, PartialEq, Eq, Structural)]
pub enum TaskType {
    /// Data models, API contracts, schemas.
    Architecture,
    /// Actual feature implementation.
    Implementation,
    /// Wires all layers together.
    Integration,
}

impl TaskType {
    /// The name under which the value is stored and shown.
    pub open spec fn name(self) -> Seq<char> {
        match self {
            TaskType::Architecture => "architecture"@,
            TaskType::Implementation => "implementation"@,
            TaskType::Integration => "integration"@,
        }
    }

    /// The task type whose name is exactly `name`.
    pub open spec fn from_name(name: Seq<char>) -> Option<TaskType> {
        if name == "architecture"@ {
            Some(TaskType::Architecture)
        } else if name == "implementation"@ {
            Some(TaskType::Implementation)
        } else if name == "integration"@ {
            Some(TaskType::Integration)
        } else {
            None
        }
    }

    /// The name under which the value is stored and shown.
    pub fn as_str(&self) -> (r: &'static str)
        ensures
            r@ == self.name(),
    {
        match self {
            TaskType::Architecture => "architecture",
            TaskType::Implementation => "implementation",
            TaskType::Integration => "integration",
        }
    }

    /// Reads a task type from its exact lower-case name.
    pub fn parse(name: &str) -> (r: Option<TaskType>)
        ensures
            r == TaskType::from_name(name@),
    {
        if str_eq(name, "architecture") {
            Some(TaskType::Architecture)
        } else if str_eq(name, "implementation") {
            Some(TaskType::Implementation)
        } else if str_eq(name, "integration") {
            Some(TaskType::Integration)
        } else {
            None
        }
    }
}

impl Default for TaskType {
    fn default() -> (r: Self)
        ensures
            r == TaskType::Implementation,
    {
        TaskType::Implementation
    }
}

/// The stage timer that goes with a status: set on entry to `InProgress` or
/// `InReview`, cleared otherwise.
pub open spec fn stage_timer(status: TaskStatus, now: i64) -> Option<i64> {
    if status.is_active() {
        Some(now)
    } else {
        None
    }
}

/// The unit of work.
#[derive(Debug, PartialEq, Eq)]
pub struct Task {
    pub id: u128,
    pub project_id: u128,
    pub title: String,
    pub description: Option<String>,
    pub status: TaskStatus,
    pub parent_workspace_id: Option<u128>,
    pub source: TaskSource,
    pub layer: Option<TaskLayer>,
    pub task_type: Option<TaskType>,
    pub sequence: Option<i32>,
    pub testing_criteria: Option<String>,
    /// When the task entered its current stage: the timeout clock.
    pub stage_started_at: Option<i64>,
    /// Complexity found by analysis, 1 to 10; `None` until analysed.
    pub complexity_score: Option<i32>,
    /// The task this one was split from.
    pub parent_task_id: Option<u128>,
    /// Stops a generated subtask from being broken down again.
    pub prevent_breakdown: bool,
    pub post_task_actions: Option<String>,
    pub created_at: i64,
    pub updated_at: i64,
}

/// The mathematical value of a [`Task`].
#[verifier::ext_equal]
pub struct TaskView {
    pub id: u128,
    pub project_id: u128,
    pub title: Seq<char>,
    pub description: Option<Seq<char>>,
    pub status: TaskStatus,
    pub parent_workspace_id: Option<u128>,
    pub source: TaskSource,
    pub layer: Option<TaskLayer>,
    pub task_type: Option<TaskType>,
    pub sequence: Option<i32>,
    pub testing_criteria: Option<Seq<char>>,
    pub stage_started_at: Option<i64>,
    pub complexity_score: Option<i32>,
    pub parent_task_id: Option<u128>,
    pub prevent_breakdown: bool,
    pub post_task_actions: Option<Seq<char>>,
    pub created_at: i64,
    pub updated_at: i64,
}

impl TaskView {
    /// The task after a status update at time `now`: the status and its
    /// stage timer change together.
    pub open spec fn with_status(self, status: TaskStatus, now: i64) -> TaskView {
        TaskView {
            status,
            stage_started_at: stage_timer(status, now),
            updated_at: now,
            ..self
        }
    }

    /// The task with its complexity score recorded.
    pub open spec fn with_complexity(self, score: i32, now: i64) -> TaskView {
        TaskView { complexity_score: Some(score), updated_at: now, ..self }
    }

    /// The text handed to an agent: the title, then the description if it
    /// says anything.
    pub open spec fn prompt(self) -> Seq<char> {
        match self.description {
            Some(d) => if is_blank(d) {
                self.title
            } else {
                self.title + "\n\n"@ + d
            },
            None => self.title,
        }
    }

    /// Complexity analysis is due: the task has no score yet, was not split
    /// from another, and may be broken down.
    pub open spec fn needs_complexity_analysis(self) -> bool {
        self.complexity_score.is_none() && self.parent_task_id.is_none()
            && !self.prevent_breakdown
    }
}

impl DeepView for Task {
    type V = TaskView;

    open spec fn deep_view(&self) -> TaskView {
        TaskView {
            id: self.id,
            project_id: self.project_id,
            title: self.title@,
            description: self.description.deep_view(),
            status: self.status,
            parent_workspace_id: self.parent_workspace_id,
            source: self.source,
            layer: self.layer,
            task_type: self.task_type,
            sequence: self.sequence,
            testing_criteria: self.testing_criteria.deep_view(),
            stage_started_at: self.stage_started_at,
            complexity_score: self.complexity_score,
            parent_task_id: self.parent_task_id,
            prevent_breakdown: self.prevent_breakdown,
            post_task_actions: self.post_task_actions.deep_view(),
            created_at: self.created_at,
            updated_at: self.updated_at,
        }
    }
}

impl View for Task {
    type V = TaskView;

    open spec fn view(&self) -> TaskView {
        self.deep_view()
    }
}

impl Clone for Task {
    fn clone(&self) -> (r: Self)
        ensures
            r@ == self@,
    {
        Task {
            id: self.id,
            project_id: self.project_id,
            title: self.title.clone(),
            description: self.description.clone(),
            status: self.status,
            parent_workspace_id: self.parent_workspace_id,
            source: self.source,
            layer: self.layer,
            task_type: self.task_type,
            sequence: self.sequence,
            testing_criteria: self.testing_criteria.clone(),
            stage_started_at: self.stage_started_at,
            complexity_score: self.complexity_score,
            parent_task_id: self.parent_task_id,
            prevent_breakdown: self.prevent_breakdown,
            post_task_actions: self.post_task_actions.clone(),
            created_at: self.created_at,
            updated_at: self.updated_at,
        }
    }
}

impl Task {
    /// The text handed to an agent.
    pub fn to_prompt(&self) -> (r: String)
        ensures
            r@ == self@.prompt(),
    {
        match &self.description {
            Some(d) => {
                if blank(d.as_str()) {
                    self.title.clone()
                } else {
                    let mut out = self.title.clone();
                    out.append("\n\n");
                    out.append(d.as_str());
                    out
                }
            },
            None => self.title.clone(),
        }
    }

    /// The task as the store holds it after a status update at `now`.
    pub fn with_status(&self, status: TaskStatus, now: i64) -> (r: Task)
        ensures
            r@ == self@.with_status(status, now),
    {
        let mut r = self.clone();
        r.status = status;
        r.stage_started_at = if status.active() {
            Some(now)
        } else {
            None
        };
        r.updated_at = now;
        r
    }

    /// The task as the store holds it after its complexity was recorded.
    pub fn with_complexity(&self, score: i32, now: i64) -> (r: Task)
        ensures
            r@ == self@.with_complexity(score, now),
    {
        let mut r = self.clone();
        r.complexity_score = Some(score);
        r.updated_at = now;
        r
    }

    /// Whether complexity analysis is due.
    pub fn needs_complexity_analysis(&self) -> (r: bool)
        ensures
            r == self@.needs_complexity_analysis(),
    {
        self.complexity_score.is_none() && self.parent_task_id.is_none() && !self.prevent_breakdown
    }
}


/// A task together with what its attempts are doing.
#[derive(Debug, PartialEq, Eq)]
pub struct TaskWithAttemptStatus {
    pub task: Task,
    pub has_in_progress_attempt: bool,
    pub last_attempt_failed: bool,
    pub executor: String,
}

/// The mathematical value of a [`TaskWithAttemptStatus`].
#[verifier::ext_equal]
pub struct TaskWithAttemptStatusView {
    pub task: TaskView,
    pub has_in_progress_attempt: bool,
    pub last_attempt_failed: bool,
    pub executor: Seq<char>,
}

impl DeepView for TaskWithAttemptStatus {
    type V = TaskWithAttemptStatusView;

    open spec fn deep_view(&self) -> TaskWithAttemptStatusView {
        TaskWithAttemptStatusView {
            task: self.task@,
            has_in_progress_attempt: self.has_in_progress_attempt,
            last_attempt_failed: self.last_attempt_failed,
            executor: self.executor@,
        }
    }
}

impl View for TaskWithAttemptStatus {
    type V = TaskWithAttemptStatusView;

    open spec fn view(&self) -> TaskWithAttemptStatusView {
        self.deep_view()
    }
}

impl Clone for TaskWithAttemptStatus {
    fn clone(&self) -> (r: Self)
        ensures
            r@ == self@,
    {
        TaskWithAttemptStatus {
            task: self.task.clone(),
            has_in_progress_attempt: self.has_in_progress_attempt,
            last_attempt_failed: self.last_attempt_failed,
            executor: self.executor.clone(),
        }
    }
}

/// What it takes to create a task.
#[derive(Debug, PartialEq, Eq)]
pub struct CreateTask {
    pub project_id: u128,
    pub title: String,
    pub description: Option<String>,
    pub status: Option<TaskStatus>,
    pub parent_workspace_id: Option<u128>,
    pub image_ids: Option<Vec<u128>>,
    pub source: Option<TaskSource>,
    pub layer: Option<TaskLayer>,
    pub task_type: Option<TaskType>,
    pub sequence: Option<i32>,
    pub testing_criteria: Option<String>,
    pub parent_task_id: Option<u128>,
    pub prevent_breakdown: Option<bool>,
    pub post_task_actions: Option<String>,
}

/// The mathematical value of a [`CreateTask`].
#[verifier::ext_equal]
pub struct CreateTaskView {
    pub project_id: u128,
    pub title: Seq<char>,
    pub description: Option<Seq<char>>,
    pub status: Option<TaskStatus>,
    pub parent_workspace_id: Option<u128>,
    pub image_ids: Option<Seq<u128>>,
    pub source: Option<TaskSource>,
    pub layer: Option<TaskLayer>,
    pub task_type: Option<TaskType>,
    pub sequence: Option<i32>,
    pub testing_criteria: Option<Seq<char>>,
    pub parent_task_id: Option<u128>,
    pub prevent_breakdown: Option<bool>,
    pub post_task_actions: Option<Seq<char>>,
}

impl CreateTaskView {
    /// A plain task with a title and a description.
    pub open spec fn from_title_description(
        project_id: u128,
        title: Seq<char>,
        description: Option<Seq<char>>,
    ) -> CreateTaskView {
        CreateTaskView {
            project_id,
            title,
            description,
            status: Some(TaskStatus::Todo),
            parent_workspace_id: None,
            image_ids: None,
            source: None,
            layer: None,
            task_type: None,
            sequence: None,
            testing_criteria: None,
            parent_task_id: None,
            prevent_breakdown: None,
            post_task_actions: None,
        }
    }

    /// A task generated from requirements.
    pub open spec fn ai_generated(
        project_id: u128,
        title: Seq<char>,
        description: Option<Seq<char>>,
        layer: Option<TaskLayer>,
        task_type: Option<TaskType>,
        sequence: i32,
        testing_criteria: Option<Seq<char>>,
        post_task_actions: Option<Seq<char>>,
    ) -> CreateTaskView {
        CreateTaskView {
            project_id,
            title,
            description,
            status: Some(TaskStatus::Todo),
            parent_workspace_id: None,
            image_ids: None,
            source: Some(TaskSource::AiGenerated),
            layer,
            task_type,
            sequence: Some(sequence),
            testing_criteria,
            parent_task_id: None,
            prevent_breakdown: None,
            post_task_actions,
        }
    }

    /// A subtask split from `parent_task_id`; it is never broken down again.
    pub open spec fn subtask_of(
        project_id: u128,
        title: Seq<char>,
        description: Option<Seq<char>>,
        layer: Option<TaskLayer>,
        task_type: Option<TaskType>,
        sequence: i32,
        testing_criteria: Option<Seq<char>>,
        post_task_actions: Option<Seq<char>>,
        parent_task_id: u128,
    ) -> CreateTaskView {
        CreateTaskView {
            project_id,
            title,
            description,
            status: Some(TaskStatus::Todo),
            parent_workspace_id: None,
            image_ids: None,
            source: Some(TaskSource::AiGenerated),
            layer,
            task_type,
            sequence: Some(sequence),
            testing_criteria,
            parent_task_id: Some(parent_task_id),
            prevent_breakdown: Some(true),
            post_task_actions,
        }
    }

    /// The task that the store holds once this was created under `id` at
    /// `now`.
    pub open spec fn created(self, id: u128, now: i64) -> TaskView {
        TaskView {
            id,
            project_id: self.project_id,
            title: self.title,
            description: self.description,
            status: match self.status {
                Some(s) => s,
                None => TaskStatus::Todo,
            },
            parent_workspace_id: self.parent_workspace_id,
            source: match self.source {
                Some(s) => s,
                None => TaskSource::Manual,
            },
            layer: self.layer,
            task_type: self.task_type,
            sequence: self.sequence,
            testing_criteria: self.testing_criteria,
            stage_started_at: None,
            complexity_score: None,
            parent_task_id: self.parent_task_id,
            prevent_breakdown: match self.prevent_breakdown {
                Some(b) => b,
                None => false,
            },
            post_task_actions: self.post_task_actions,
            created_at: now,
            updated_at: now,
        }
    }
}

impl DeepView for CreateTask {
    type V = CreateTaskView;

    open spec fn deep_view(&self) -> CreateTaskView {
        CreateTaskView {
            project_id: self.project_id,
            title: self.title@,
            description: self.description.deep_view(),
            status: self.status,
            parent_workspace_id: self.parent_workspace_id,
            image_ids: self.image_ids.deep_view(),
            source: self.source,
            layer: self.layer,
            task_type: self.task_type,
            sequence: self.sequence,
            testing_criteria: self.testing_criteria.deep_view(),
            parent_task_id: self.parent_task_id,
            prevent_breakdown: self.prevent_breakdown,
            post_task_actions: self.post_task_actions.deep_view(),
        }
    }
}

impl View for CreateTask {
    type V = CreateTaskView;

    open spec fn view(&self) -> CreateTaskView {
        self.deep_view()
    }
}

fn clone_ids(ids: &Option<Vec<u128>>) -> (r: Option<Vec<u128>>)
    ensures
        r.deep_view() == ids.deep_view(),
{
    match ids {
        Some(v) => {
            let mut out: Vec<u128> = Vec::new();
            let mut i: usize = 0;
            while i < v.len()
                invariant
                    i <= v.len(),
                    out@ == v@.take(i as int),
                decreases v.len() - i,
            {
                out.push(v[i]);
                i = i + 1;
            }
            proof {
                assert(out@ =~= v@);
                assert(out.deep_view() =~= v.deep_view());
            }
            Some(out)
        },
        None => None,
    }
}

impl Clone for CreateTask {
    fn clone(&self) -> (r: Self)
        ensures
            r@ == self@,
    {
        CreateTask {
            project_id: self.project_id,
            title: self.title.clone(),
            description: self.description.clone(),
            status: self.status,
            parent_workspace_id: self.parent_workspace_id,
            image_ids: clone_ids(&self.image_ids),
            source: self.source,
            layer: self.layer,
            task_type: self.task_type,
            sequence: self.sequence,
            testing_criteria: self.testing_criteria.clone(),
            parent_task_id: self.parent_task_id,
            prevent_breakdown: self.prevent_breakdown,
            post_task_actions: self.post_task_actions.clone(),
        }
    }
}

impl CreateTask {
    /// A plain task with a title and a description.
    pub fn from_title_description(project_id: u128, title: String, description: Option<String>) -> (r:
        Self)
        ensures
            r@ == CreateTaskView::from_title_description(
                project_id,
                title@,
                description.deep_view(),
            ),
    {
        CreateTask {
            project_id,
            title,
            description,
            status: Some(TaskStatus::Todo),
            parent_workspace_id: None,
            image_ids: None,
            source: None,
            layer: None,
            task_type: None,
            sequence: None,
            testing_criteria: None,
            parent_task_id: None,
            prevent_breakdown: None,
            post_task_actions: None,
        }
    }

    /// Create a task that was generated from requirements.
    pub fn ai_generated(
        project_id: u128,
        title: String,
        description: Option<String>,
        layer: Option<TaskLayer>,
        task_type: Option<TaskType>,
        sequence: i32,
        testing_criteria: Option<String>,
        post_task_actions: Option<String>,
    ) -> (r: Self)
        ensures
            r@ == CreateTaskView::ai_generated(
                project_id,
                title@,
                description.deep_view(),
                layer,
                task_type,
                sequence,
                testing_criteria.deep_view(),
                post_task_actions.deep_view(),
            ),
    {
        CreateTask {
            project_id,
            title,
            description,
            status: Some(TaskStatus::Todo),
            parent_workspace_id: None,
            image_ids: None,
            source: Some(TaskSource::AiGenerated),
            layer,
            task_type,
            sequence: Some(sequence),
            testing_criteria,
            parent_task_id: None,
            prevent_breakdown: None,
            post_task_actions,
        }
    }

    /// Create a subtask broken down from a parent task. Subtasks have
    /// `prevent_breakdown` set, so that breakdown never recurses.
    pub fn subtask_of(
        project_id: u128,
        title: String,
        description: Option<String>,
        layer: Option<TaskLayer>,
        task_type: Option<TaskType>,
        sequence: i32,
        testing_criteria: Option<String>,
        post_task_actions: Option<String>,
        parent_task_id: u128,
    ) -> (r: Self)
        ensures
            r@ == CreateTaskView::subtask_of(
                project_id,
                title@,
                description.deep_view(),
                layer,
                task_type,
                sequence,
                testing_criteria.deep_view(),
                post_task_actions.deep_view(),
                parent_task_id,
            ),
    {
        CreateTask {
            project_id,
            title,
            description,
            status: Some(TaskStatus::Todo),
            parent_workspace_id: None,
            image_ids: None,
            source: Some(TaskSource::AiGenerated),
            layer,
            task_type,
            sequence: Some(sequence),
            testing_criteria,
            parent_task_id: Some(parent_task_id),
            prevent_breakdown: Some(true),
            post_task_actions,
        }
    }

    /// The task that the store holds once this was created under `id` at
    /// `now`.
    pub fn created(&self, id: u128, now: i64) -> (r: Task)
        ensures
            r@ == self@.created(id, now),
    {
        Task {
            id,
            project_id: self.project_id,
            title: self.title.clone(),
            description: self.description.clone(),
            status: match self.status {
                Some(s) => s,
                None => TaskStatus::Todo,
            },
            parent_workspace_id: self.parent_workspace_id,
            source: match self.source {
                Some(s) => s,
                None => TaskSource::Manual,
            },
            layer: self.layer,
            task_type: self.task_type,
            sequence: self.sequence,
            testing_criteria: self.testing_criteria.clone(),
            stage_started_at: None,
            complexity_score: None,
            parent_task_id: self.parent_task_id,
            prevent_breakdown: match self.prevent_breakdown {
                Some(b) => b,
                None => false,
            },
            post_task_actions: self.post_task_actions.clone(),
            created_at: now,
            updated_at: now,
        }
    }
}

/// The fields of a task that an edit may change.
#[derive(Debug, PartialEq, Eq)]
pub struct UpdateTask {
    pub title: Option<String>,
    pub description: Option<String>,
    pub status: Option<TaskStatus>,
    pub parent_workspace_id: Option<u128>,
    pub image_ids: Option<Vec<u128>>,
}

/// The mathematical value of an [`UpdateTask`].
#[verifier::ext_equal]
pub struct UpdateTaskView {
    pub title: Option<Seq<char>>,
    pub description: Option<Seq<char>>,
    pub status: Option<TaskStatus>,
    pub parent_workspace_id: Option<u128>,
    pub image_ids: Option<Seq<u128>>,
}

impl DeepView for UpdateTask {
    type V = UpdateTaskView;

    open spec fn deep_view(&self) -> UpdateTaskView {
        UpdateTaskView {
            title: self.title.deep_view(),
            description: self.description.deep_view(),
            status: self.status,
            parent_workspace_id: self.parent_workspace_id,
            image_ids: self.image_ids.deep_view(),
        }
    }
}

impl View for UpdateTask {
    type V = UpdateTaskView;

    open spec fn view(&self) -> UpdateTaskView {
        self.deep_view()
    }
}

} // verus!
