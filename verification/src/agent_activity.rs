//! The task selector: each tick it decides, for one project, whether to
//! split a task, start one, or leave things as they are.
//!
//! The rules of admission stand here as functions of a snapshot of the
//! project's tasks.

use crate::claude_api::{ClaudeApiError, ClaudeApiErrorView};
use crate::task::{Task, TaskLayer, TaskStatus, TaskType, TaskView};
use crate::text::str_eq;
use vstd::prelude::*;
use vstd::string::*;

verus! {

/// The task occupies its layer: it is active and not an integration task.
pub open spec fn occupies_layer(t: TaskView) -> bool {
    t.task_type != Some(TaskType::Integration) && t.status.is_active()
}

/// The layers in which a non-integration task is in progress or in review.
pub open spec fn active_layers(tasks: Seq<TaskView>) -> Set<TaskLayer> {
    Set::new(
        |l: TaskLayer|
            exists|i: int|
                0 <= i < tasks.len() && occupies_layer(#[trigger] tasks[i]) && tasks[i].layer
                    == Some(l),
    )
}

/// An integration task is in progress or in review.
pub open spec fn has_active_integration(tasks: Seq<TaskView>) -> bool {
    exists|i: int|
        0 <= i < tasks.len() && (#[trigger] tasks[i]).task_type == Some(TaskType::Integration)
            && tasks[i].status.is_active()
}

/// Some task is in progress or in review.
pub open spec fn has_any_active(tasks: Seq<TaskView>) -> bool {
    exists|i: int| 0 <= i < tasks.len() && (#[trigger] tasks[i]).status.is_active()
}

/// A rule by which tasks are kept as candidates.
#[derive(Debug, Clone, Copy, PartialEq, Eq, Structural)]
pub enum Rule {
    /// To do, not an integration task, and in a layer that no task occupies.
    FreeLayer,
    /// To do.
    Todo,
    /// Project initialisation: sequence 1.
    Initialization,
    /// An architecture task.
    Architecture,
    /// An implementation task.
    Implementation,
}

/// `rule` keeps `t` when `busy` are the occupied layers.
pub open spec fn admits(rule: Rule, busy: Set<TaskLayer>, t: TaskView) -> bool {
    match rule {
        Rule::FreeLayer => t.status == TaskStatus::Todo && t.task_type != Some(
            TaskType::Integration,
        ) && t.layer.is_some() && !busy.contains(t.layer.unwrap()),
        Rule::Todo => t.status == TaskStatus::Todo,
        Rule::Initialization => t.sequence == Some(1i32),
        Rule::Architecture => t.task_type == Some(TaskType::Architecture),
        Rule::Implementation => t.task_type == Some(TaskType::Implementation),
    }
}

/// The tasks that `rule` keeps, in their order.
pub open spec fn keep(tasks: Seq<TaskView>, rule: Rule, busy: Set<TaskLayer>) -> Seq<TaskView> {
    tasks.filter(|t: TaskView| admits(rule, busy, t))
}

/// `rule` keeps at least one of the tasks.
pub open spec fn any(tasks: Seq<TaskView>, rule: Rule, busy: Set<TaskLayer>) -> bool {
    exists|i: int| 0 <= i < tasks.len() && admits(rule, busy, #[trigger] tasks[i])
}

/// The tasks that `rule` keeps if it keeps any, else all of them.
pub open spec fn prefer(tasks: Seq<TaskView>, rule: Rule) -> Seq<TaskView> {
    if any(tasks, rule, Set::empty()) {
        keep(tasks, rule, Set::empty())
    } else {
        tasks
    }
}

/// The highest priority class among tasks to do that is not empty:
/// initialisation, then architecture, then implementation, then the rest.
pub open spec fn highest_class(todo: Seq<TaskView>) -> Seq<TaskView> {
    if any(todo, Rule::Initialization, Set::empty()) {
        keep(todo, Rule::Initialization, Set::empty())
    } else if any(todo, Rule::Architecture, Set::empty()) {
        keep(todo, Rule::Architecture, Set::empty())
    } else if any(todo, Rule::Implementation, Set::empty()) {
        keep(todo, Rule::Implementation, Set::empty())
    } else {
        todo
    }
}

/// The most layers that may be occupied at once.
pub const MAX_ACTIVE_LAYERS: usize = 3;

/// A task can start beside those that are active: one is to do in a free
/// layer, and fewer than `MAX_ACTIVE_LAYERS` layers are occupied.
pub open spec fn layer_is_open(tasks: Seq<TaskView>) -> bool {
    any(tasks, Rule::FreeLayer, active_layers(tasks)) && active_layers(tasks).len()
        < MAX_ACTIVE_LAYERS
}

/// The tasks among which the next one to start is chosen, or `None` where
/// the project is blocked: an integration task is active, or some task is
/// active and no further layer may start.
pub open spec fn candidates(tasks: Seq<TaskView>) -> Option<Seq<TaskView>> {
    if has_active_integration(tasks) {
        None
    } else if layer_is_open(tasks) {
        Some(prefer(keep(tasks, Rule::FreeLayer, active_layers(tasks)), Rule::Architecture))
    } else if has_any_active(tasks) {
        None
    } else {
        Some(highest_class(keep(tasks, Rule::Todo, Set::empty())))
    }
}

/// The occupied layers after one more task joins the list.
pub proof fn lemma_active_layers_push(tasks: Seq<TaskView>, t: TaskView)
    ensures
        active_layers(tasks.push(t)) == if occupies_layer(t) && t.layer.is_some() {
            active_layers(tasks).insert(t.layer.unwrap())
        } else {
            active_layers(tasks)
        },
{
    let more = tasks.push(t);
    let expected = if occupies_layer(t) && t.layer.is_some() {
        active_layers(tasks).insert(t.layer.unwrap())
    } else {
        active_layers(tasks)
    };
    assert forall|l: TaskLayer| active_layers(more).contains(l) implies expected.contains(l) by {
        let i = choose|i: int|
            0 <= i < more.len() && occupies_layer(#[trigger] more[i]) && more[i].layer == Some(l);
        if i < tasks.len() {
            assert(more[i] == tasks[i]);
        }
    }
    assert forall|l: TaskLayer| expected.contains(l) implies active_layers(more).contains(l) by {
        if active_layers(tasks).contains(l) {
            let i = choose|i: int|
                0 <= i < tasks.len() && occupies_layer(#[trigger] tasks[i]) && tasks[i].layer
                    == Some(l);
            assert(more[i] == tasks[i]);
        } else {
            assert(more[tasks.len() as int] == t);
        }
    }
    assert(active_layers(more) =~= expected);
}

/// No layer is occupied where there is no task.
pub proof fn lemma_active_layers_empty()
    ensures
        active_layers(Seq::<TaskView>::empty()) == Set::<TaskLayer>::empty(),
{
    assert(active_layers(Seq::<TaskView>::empty()) =~= Set::<TaskLayer>::empty());
}

/// The members of a sequence with one more element.
proof fn lemma_to_set_push(s: Seq<TaskLayer>, l: TaskLayer)
    ensures
        s.push(l).to_set() == s.to_set().insert(l),
{
    let more = s.push(l);
    assert forall|x: TaskLayer| more.to_set().contains(x) <==> s.to_set().insert(l).contains(
        x,
    ) by {
        if more.contains(x) {
            let k = choose|k: int| 0 <= k < more.len() && more[k] == x;
            if k < s.len() {
                assert(s[k] == x);
            }
        }
        if s.contains(x) {
            let k = choose|k: int| 0 <= k < s.len() && s[k] == x;
            assert(more[k] == x);
        }
        if x == l {
            assert(more[s.len() as int] == l);
        }
    }
    assert(more.to_set() =~= s.to_set().insert(l));
}

fn contains_layer(layers: &Vec<TaskLayer>, l: TaskLayer) -> (r: bool)
    ensures
        r == layers@.contains(l),
{
    let mut i: usize = 0;
    while i < layers.len()
        invariant
            i <= layers.len(),
            forall|k: int| 0 <= k < i ==> layers@[k] != l,
        decreases layers.len() - i,
    {
        if layers[i] == l {
            return true;
        }
        i = i + 1;
    }
    false
}

/// The layers that already have running non-integration tasks, each once,
/// in the order in which the tasks name them.
pub fn get_active_layers(tasks: &Vec<Task>) -> (r: Vec<TaskLayer>)
    ensures
        r@.no_duplicates(),
        r@.to_set() == active_layers(tasks.deep_view()),
        r@.len() == active_layers(tasks.deep_view()).len(),
{
    let mut out: Vec<TaskLayer> = Vec::new();
    let mut i: usize = 0;
    proof {
        lemma_active_layers_empty();
        assert(tasks.deep_view().take(0) =~= Seq::<TaskView>::empty());
        assert(out@.to_set() =~= Set::<TaskLayer>::empty());
    }
    while i < tasks.len()
        invariant
            i <= tasks.len(),
            out@.no_duplicates(),
            out@.to_set() == active_layers(tasks.deep_view().take(i as int)),
        decreases tasks.len() - i,
    {
        let t = &tasks[i];
        let ghost all = tasks.deep_view();
        let ghost before = out@;
        proof {
            assert(all.take(i + 1) =~= all.take(i as int).push(all[i as int]));
            lemma_active_layers_push(all.take(i as int), all[i as int]);
            assert(all[i as int] == t@);
        }
        let occupies = !matches!(t.task_type, Some(TaskType::Integration)) && t.status.active();
        assert(occupies == occupies_layer(t@));
        if occupies {
            if let Some(l) = t.layer {
                if !contains_layer(&out, l) {
                    out.push(l);
                    proof {
                        assert(out@ =~= before.push(l));
                        lemma_to_set_push(before, l);
                    }
                } else {
                    proof {
                        assert(before.to_set().insert(l) =~= before.to_set());
                    }
                }
            }
        }
        i = i + 1;
    }
    proof {
        assert(tasks.deep_view().take(tasks.len() as int) =~= tasks.deep_view());
        out@.unique_seq_to_set();
    }
    out
}

/// Whether an integration task is in progress or in review.
pub fn has_active_integration_task(tasks: &Vec<Task>) -> (r: bool)
    ensures
        r == has_active_integration(tasks.deep_view()),
{
    let mut i: usize = 0;
    while i < tasks.len()
        invariant
            i <= tasks.len(),
            forall|k: int|
                0 <= k < i ==> !((#[trigger] tasks.deep_view()[k]).task_type == Some(
                    TaskType::Integration,
                ) && tasks.deep_view()[k].status.is_active()),
        decreases tasks.len() - i,
    {
        if matches!(tasks[i].task_type, Some(TaskType::Integration)) && tasks[i].status.active() {
            assert(tasks.deep_view()[i as int].task_type == Some(TaskType::Integration));
            return true;
        }
        i = i + 1;
    }
    false
}

/// Whether some task is in progress or in review.
pub fn has_any_active_task(tasks: &Vec<Task>) -> (r: bool)
    ensures
        r == has_any_active(tasks.deep_view()),
{
    let mut i: usize = 0;
    while i < tasks.len()
        invariant
            i <= tasks.len(),
            forall|k: int| 0 <= k < i ==> !(#[trigger] tasks.deep_view()[k]).status.is_active(),
        decreases tasks.len() - i,
    {
        if tasks[i].status.active() {
            assert(tasks.deep_view()[i as int].status.is_active());
            return true;
        }
        i = i + 1;
    }
    false
}


/// Why a selector cycle did not end in a decision.
#[derive(Debug, PartialEq, Eq)]
pub enum AgentActivityError {
    /// The store failed; the text is its message.
    Database(String),
    ClaudeApi(ClaudeApiError),
    NoTasksAvailable,
    TaskAlreadyInProgress,
    NotEnabled,
    WorkspaceCreation(String),
    NoRepositories,
}

/// The mathematical value of an [`AgentActivityError`].
#[verifier::ext_equal]
pub enum AgentActivityErrorView {
    Database(Seq<char>),
    ClaudeApi(ClaudeApiErrorView),
    NoTasksAvailable,
    TaskAlreadyInProgress,
    NotEnabled,
    WorkspaceCreation(Seq<char>),
    NoRepositories,
}

impl AgentActivityErrorView {
    /// The error as a line of text.
    pub open spec fn message(self) -> Seq<char> {
        match self {
            AgentActivityErrorView::Database(m) => "database error: "@ + m,
            AgentActivityErrorView::ClaudeApi(e) => "advisor api error: "@ + e.message(),
            AgentActivityErrorView::NoTasksAvailable => "no tasks available"@,
            AgentActivityErrorView::TaskAlreadyInProgress => "task already in progress"@,
            AgentActivityErrorView::NotEnabled => "agent activity not enabled"@,
            AgentActivityErrorView::WorkspaceCreation(m) => "workspace creation failed: "@ + m,
            AgentActivityErrorView::NoRepositories => "no repositories for project"@,
        }
    }

    /// The outcome is part of normal operation, not a failure to report:
    /// nothing is eligible, or the project is blocked.
    pub open spec fn is_routine(self) -> bool {
        self == AgentActivityErrorView::TaskAlreadyInProgress || self
            == AgentActivityErrorView::NoTasksAvailable
    }
}

impl DeepView for AgentActivityError {
    type V = AgentActivityErrorView;

    open spec fn deep_view(&self) -> AgentActivityErrorView {
        match self {
            AgentActivityError::Database(m) => AgentActivityErrorView::Database(m@),
            AgentActivityError::ClaudeApi(e) => AgentActivityErrorView::ClaudeApi(e@),
            AgentActivityError::NoTasksAvailable => AgentActivityErrorView::NoTasksAvailable,
            AgentActivityError::TaskAlreadyInProgress => AgentActivityErrorView::TaskAlreadyInProgress,
            AgentActivityError::NotEnabled => AgentActivityErrorView::NotEnabled,
            AgentActivityError::WorkspaceCreation(m) => AgentActivityErrorView::WorkspaceCreation(
                m@,
            ),
            AgentActivityError::NoRepositories => AgentActivityErrorView::NoRepositories,
        }
    }
}

impl View for AgentActivityError {
    type V = AgentActivityErrorView;

    open spec fn view(&self) -> AgentActivityErrorView {
        self.deep_view()
    }
}

impl Clone for AgentActivityError {
    fn clone(&self) -> (r: Self)
        ensures
            r@ == self@,
    {
        match self {
            AgentActivityError::Database(m) => AgentActivityError::Database(m.clone()),
            AgentActivityError::ClaudeApi(e) => AgentActivityError::ClaudeApi(e.clone()),
            AgentActivityError::NoTasksAvailable => AgentActivityError::NoTasksAvailable,
            AgentActivityError::TaskAlreadyInProgress => AgentActivityError::TaskAlreadyInProgress,
            AgentActivityError::NotEnabled => AgentActivityError::NotEnabled,
            AgentActivityError::WorkspaceCreation(m) => AgentActivityError::WorkspaceCreation(
                m.clone(),
            ),
            AgentActivityError::NoRepositories => AgentActivityError::NoRepositories,
        }
    }
}

impl AgentActivityError {
    /// The error as a line of text.
    pub fn message(&self) -> (r: String)
        ensures
            r@ == self@.message(),
    {
        match self {
            AgentActivityError::Database(m) => String::from_str("database error: ").concat(
                m.as_str(),
            ),
            AgentActivityError::ClaudeApi(e) => {
                let inner = e.message();
                String::from_str("advisor api error: ").concat(inner.as_str())
            },
            AgentActivityError::NoTasksAvailable => String::from_str("no tasks available"),
            AgentActivityError::TaskAlreadyInProgress => String::from_str("task already in progress"),
            AgentActivityError::NotEnabled => String::from_str("agent activity not enabled"),
            AgentActivityError::WorkspaceCreation(m) => String::from_str(
                "workspace creation failed: ",
            ).concat(m.as_str()),
            AgentActivityError::NoRepositories => String::from_str("no repositories for project"),
        }
    }

    /// Whether the outcome is part of normal operation.
    pub fn is_routine(&self) -> (r: bool)
        ensures
            r == self@.is_routine(),
    {
        matches!(self, AgentActivityError::TaskAlreadyInProgress | AgentActivityError::NoTasksAvailable)
    }
}

/// What `rule` keeps of a list with one more task.
pub proof fn lemma_keep_push(tasks: Seq<TaskView>, t: TaskView, rule: Rule, busy: Set<TaskLayer>)
    ensures
        keep(tasks.push(t), rule, busy) == if admits(rule, busy, t) {
            keep(tasks, rule, busy).push(t)
        } else {
            keep(tasks, rule, busy)
        },
        any(tasks.push(t), rule, busy) == (any(tasks, rule, busy) || admits(rule, busy, t)),
{
    reveal(Seq::filter);
    let more = tasks.push(t);
    assert(more.drop_last() =~= tasks);
    assert(more.last() == t);
    if any(tasks, rule, busy) {
        let i = choose|i: int| 0 <= i < tasks.len() && admits(rule, busy, #[trigger] tasks[i]);
        assert(more[i] == tasks[i]);
    }
    if admits(rule, busy, t) {
        assert(more[tasks.len() as int] == t);
    }
    if any(more, rule, busy) {
        let i = choose|i: int| 0 <= i < more.len() && admits(rule, busy, #[trigger] more[i]);
        if i < tasks.len() {
            assert(more[i] == tasks[i]);
        }
    }
}

fn rule_admits(rule: Rule, busy: &Vec<TaskLayer>, t: &Task) -> (r: bool)
    ensures
        r == admits(rule, busy@.to_set(), t@),
{
    match rule {
        Rule::FreeLayer => {
            if matches!(t.status, TaskStatus::Todo) && !matches!(
                t.task_type,
                Some(TaskType::Integration)
            ) {
                match t.layer {
                    Some(l) => !contains_layer(busy, l),
                    None => false,
                }
            } else {
                false
            }
        },
        Rule::Todo => matches!(t.status, TaskStatus::Todo),
        Rule::Initialization => match t.sequence {
            Some(n) => n == 1,
            None => false,
        },
        Rule::Architecture => matches!(t.task_type, Some(TaskType::Architecture)),
        Rule::Implementation => matches!(t.task_type, Some(TaskType::Implementation)),
    }
}

/// The tasks that `rule` keeps, in their order, when `busy` holds the
/// occupied layers.
pub fn keep_tasks(tasks: &Vec<Task>, rule: Rule, busy: &Vec<TaskLayer>) -> (r: Vec<Task>)
    ensures
        r.deep_view() == keep(tasks.deep_view(), rule, busy@.to_set()),
{
    let mut out: Vec<Task> = Vec::new();
    let mut i: usize = 0;
    let ghost all = tasks.deep_view();
    proof {
        reveal(Seq::filter);
        assert(all.take(0) =~= Seq::<TaskView>::empty());
        assert(out.deep_view() =~= Seq::<TaskView>::empty());
    }
    while i < tasks.len()
        invariant
            i <= tasks.len(),
            all == tasks.deep_view(),
            out.deep_view() == keep(all.take(i as int), rule, busy@.to_set()),
        decreases tasks.len() - i,
    {
        let ghost before = out.deep_view();
        proof {
            assert(all.take(i + 1) =~= all.take(i as int).push(all[i as int]));
            lemma_keep_push(all.take(i as int), all[i as int], rule, busy@.to_set());
            assert(all[i as int] == tasks@[i as int]@);
        }
        if rule_admits(rule, busy, &tasks[i]) {
            out.push(tasks[i].clone());
            proof {
                assert(out.deep_view() =~= before.push(all[i as int]));
            }
        }
        i = i + 1;
    }
    proof {
        assert(all.take(tasks.len() as int) =~= all);
    }
    out
}

/// Whether `rule` keeps any of the tasks.
pub fn any_task(tasks: &Vec<Task>, rule: Rule, busy: &Vec<TaskLayer>) -> (r: bool)
    ensures
        r == any(tasks.deep_view(), rule, busy@.to_set()),
{
    let mut i: usize = 0;
    while i < tasks.len()
        invariant
            i <= tasks.len(),
            forall|k: int|
                0 <= k < i ==> !admits(rule, busy@.to_set(), #[trigger] tasks.deep_view()[k]),
        decreases tasks.len() - i,
    {
        if rule_admits(rule, busy, &tasks[i]) {
            assert(admits(rule, busy@.to_set(), tasks.deep_view()[i as int]));
            return true;
        }
        i = i + 1;
    }
    false
}

fn prefer_tasks(tasks: Vec<Task>, rule: Rule) -> (r: Vec<Task>)
    ensures
        r.deep_view() == prefer(tasks.deep_view(), rule),
{
    let none: Vec<TaskLayer> = Vec::new();
    proof {
        assert(none@.to_set() =~= Set::<TaskLayer>::empty());
    }
    if any_task(&tasks, rule, &none) {
        keep_tasks(&tasks, rule, &none)
    } else {
        tasks
    }
}

/// Admission control: the tasks among which the next one is chosen, or the
/// refusal where the project is blocked.
pub fn select_candidates(tasks: &Vec<Task>) -> (r: Result<Vec<Task>, AgentActivityError>)
    ensures
        match r {
            Ok(c) => candidates(tasks.deep_view()) == Some(c.deep_view()),
            Err(e) => candidates(tasks.deep_view()).is_none() && e@
                == AgentActivityErrorView::TaskAlreadyInProgress,
        },
{
    if has_active_integration_task(tasks) {
        return Err(AgentActivityError::TaskAlreadyInProgress);
    }
    let busy = get_active_layers(tasks);
    if any_task(tasks, Rule::FreeLayer, &busy) && busy.len() < MAX_ACTIVE_LAYERS {
        let eligible = keep_tasks(tasks, Rule::FreeLayer, &busy);
        return Ok(prefer_tasks(eligible, Rule::Architecture));
    }
    if has_any_active_task(tasks) {
        return Err(AgentActivityError::TaskAlreadyInProgress);
    }
    let none: Vec<TaskLayer> = Vec::new();
    proof {
        assert(none@.to_set() =~= Set::<TaskLayer>::empty());
    }
    let todo = keep_tasks(tasks, Rule::Todo, &none);
    if any_task(&todo, Rule::Initialization, &none) {
        Ok(keep_tasks(&todo, Rule::Initialization, &none))
    } else if any_task(&todo, Rule::Architecture, &none) {
        Ok(keep_tasks(&todo, Rule::Architecture, &none))
    } else if any_task(&todo, Rule::Implementation, &none) {
        Ok(keep_tasks(&todo, Rule::Implementation, &none))
    } else {
        Ok(todo)
    }
}


/// Action taken by the selector, as the audit log records it.
#[derive(Debug, Clone, Copy, PartialEq, Eq, Structural)]
pub enum AgentAction {
    Selected,
    Skipped,
    Error,
    Replaced,
    Timeout,
}

impl AgentAction {
    /// The name under which the value is stored and shown.
    pub open spec fn name(self) -> Seq<char> {
        match self {
            AgentAction::Selected => "selected"@,
            AgentAction::Skipped => "skipped"@,
            AgentAction::Error => "error"@,
            AgentAction::Replaced => "replaced"@,
            AgentAction::Timeout => "timeout"@,
        }
    }

    /// The action whose name is exactly `name`.
    pub open spec fn from_name(name: Seq<char>) -> Option<AgentAction> {
        if name == "selected"@ {
            Some(AgentAction::Selected)
        } else if name == "skipped"@ {
            Some(AgentAction::Skipped)
        } else if name == "error"@ {
            Some(AgentAction::Error)
        } else if name == "replaced"@ {
            Some(AgentAction::Replaced)
        } else if name == "timeout"@ {
            Some(AgentAction::Timeout)
        } else {
            None
        }
    }

    /// The name under which the value is stored and shown.
    pub fn as_str(&self) -> (r: &'static str)
        ensures
            r@ == self.name(),
    {
        match self {
            AgentAction::Selected => "selected",
            AgentAction::Skipped => "skipped",
            AgentAction::Error => "error",
            AgentAction::Replaced => "replaced",
            AgentAction::Timeout => "timeout",
        }
    }

    /// Reads the value from its exact name.
    pub fn parse(name: &str) -> (r: Option<AgentAction>)
        ensures
            r == AgentAction::from_name(name@),
    {
        if str_eq(name, "selected") {
            Some(AgentAction::Selected)
        } else if str_eq(name, "skipped") {
            Some(AgentAction::Skipped)
        } else if str_eq(name, "error") {
            Some(AgentAction::Error)
        } else if str_eq(name, "replaced") {
            Some(AgentAction::Replaced)
        } else if str_eq(name, "timeout") {
            Some(AgentAction::Timeout)
        } else {
            None
        }
    }
}

/// The interval, in seconds, of a project for which none was given.
pub const DEFAULT_INTERVAL_SECONDS: i32 = 60;

/// Agent activity settings for a project.
#[derive(Debug, Clone, Copy, PartialEq, Eq, Structural)]
pub struct ProjectAgentSettings {
    pub id: u128,
    pub project_id: u128,
    pub enabled: bool,
    pub interval_seconds: i32,
    pub created_at: i64,
    pub updated_at: i64,
}

impl ProjectAgentSettings {
    /// The row of a project after an upsert at `now`: a fresh one under
    /// `id` where there was none, else the old one with the new values.
    pub open spec fn upserted(
        existing: Option<ProjectAgentSettings>,
        id: u128,
        project_id: u128,
        enabled: bool,
        interval_seconds: i32,
        now: i64,
    ) -> ProjectAgentSettings {
        match existing {
            Some(old) => ProjectAgentSettings { enabled, interval_seconds, updated_at: now, ..old },
            None => ProjectAgentSettings {
                id,
                project_id,
                enabled,
                interval_seconds,
                created_at: now,
                updated_at: now,
            },
        }
    }

    /// The row of a project after an upsert.
    pub fn create_or_update(
        existing: Option<ProjectAgentSettings>,
        id: u128,
        project_id: u128,
        enabled: bool,
        interval_seconds: i32,
        now: i64,
    ) -> (r: Self)
        ensures
            r == Self::upserted(existing, id, project_id, enabled, interval_seconds, now),
    {
        match existing {
            Some(old) => ProjectAgentSettings {
                id: old.id,
                project_id: old.project_id,
                enabled,
                interval_seconds,
                created_at: old.created_at,
                updated_at: now,
            },
            None => ProjectAgentSettings {
                id,
                project_id,
                enabled,
                interval_seconds,
                created_at: now,
                updated_at: now,
            },
        }
    }

    /// Switches the selector on or off, at the default interval.
    pub fn set_enabled(
        existing: Option<ProjectAgentSettings>,
        id: u128,
        project_id: u128,
        enabled: bool,
        now: i64,
    ) -> (r: Self)
        ensures
            r == Self::upserted(existing, id, project_id, enabled, DEFAULT_INTERVAL_SECONDS, now),
    {
        Self::create_or_update(existing, id, project_id, enabled, DEFAULT_INTERVAL_SECONDS, now)
    }
}

/// Log entry for agent activity.
#[derive(Debug, PartialEq, Eq)]
pub struct AgentActivityLog {
    pub id: u128,
    pub project_id: u128,
    pub task_id: Option<u128>,
    pub action: AgentAction,
    pub reasoning: Option<String>,
    pub created_at: i64,
}

/// The mathematical value of an [`AgentActivityLog`].
#[verifier::ext_equal]
pub struct AgentActivityLogView {
    pub id: u128,
    pub project_id: u128,
    pub task_id: Option<u128>,
    pub action: AgentAction,
    pub reasoning: Option<Seq<char>>,
    pub created_at: i64,
}

impl DeepView for AgentActivityLog {
    type V = AgentActivityLogView;

    open spec fn deep_view(&self) -> AgentActivityLogView {
        AgentActivityLogView {
            id: self.id,
            project_id: self.project_id,
            task_id: self.task_id,
            action: self.action,
            reasoning: self.reasoning.deep_view(),
            created_at: self.created_at,
        }
    }
}

impl View for AgentActivityLog {
    type V = AgentActivityLogView;

    open spec fn view(&self) -> AgentActivityLogView {
        self.deep_view()
    }
}

/// Response for agent activity status.
#[derive(Debug, PartialEq, Eq)]
pub struct AgentActivityStatus {
    pub enabled: bool,
    pub interval_seconds: i32,
    pub last_run: Option<i64>,
    pub last_selected_task_id: Option<u128>,
    pub last_reasoning: Option<String>,
}

/// The mathematical value of an [`AgentActivityStatus`].
#[verifier::ext_equal]
pub struct AgentActivityStatusView {
    pub enabled: bool,
    pub interval_seconds: i32,
    pub last_run: Option<i64>,
    pub last_selected_task_id: Option<u128>,
    pub last_reasoning: Option<Seq<char>>,
}

impl AgentActivityStatusView {
    /// The status of a project with these settings and this latest log
    /// entry: the task last selected is named only where the latest entry
    /// is a selection.
    pub open spec fn of(
        settings: Option<ProjectAgentSettings>,
        latest: Option<AgentActivityLogView>,
    ) -> AgentActivityStatusView {
        AgentActivityStatusView {
            enabled: match settings {
                Some(s) => s.enabled,
                None => false,
            },
            interval_seconds: match settings {
                Some(s) => s.interval_seconds,
                None => DEFAULT_INTERVAL_SECONDS,
            },
            last_run: match latest {
                Some(l) => Some(l.created_at),
                None => None,
            },
            last_selected_task_id: match latest {
                Some(l) => if l.action == AgentAction::Selected {
                    l.task_id
                } else {
                    None
                },
                None => None,
            },
            last_reasoning: match latest {
                Some(l) => l.reasoning,
                None => None,
            },
        }
    }
}

impl DeepView for AgentActivityStatus {
    type V = AgentActivityStatusView;

    open spec fn deep_view(&self) -> AgentActivityStatusView {
        AgentActivityStatusView {
            enabled: self.enabled,
            interval_seconds: self.interval_seconds,
            last_run: self.last_run,
            last_selected_task_id: self.last_selected_task_id,
            last_reasoning: self.last_reasoning.deep_view(),
        }
    }
}

impl View for AgentActivityStatus {
    type V = AgentActivityStatusView;

    open spec fn view(&self) -> AgentActivityStatusView {
        self.deep_view()
    }
}

/// Response for agent trigger action.
#[derive(Debug, PartialEq, Eq)]
pub struct AgentTriggerResponse {
    pub action: AgentAction,
    pub task_id: Option<u128>,
    pub reasoning: Option<String>,
}

/// The mathematical value of an [`AgentTriggerResponse`].
#[verifier::ext_equal]
pub struct AgentTriggerResponseView {
    pub action: AgentAction,
    pub task_id: Option<u128>,
    pub reasoning: Option<Seq<char>>,
}

impl DeepView for AgentTriggerResponse {
    type V = AgentTriggerResponseView;

    open spec fn deep_view(&self) -> AgentTriggerResponseView {
        AgentTriggerResponseView {
            action: self.action,
            task_id: self.task_id,
            reasoning: self.reasoning.deep_view(),
        }
    }
}

impl View for AgentTriggerResponse {
    type V = AgentTriggerResponseView;

    open spec fn view(&self) -> AgentTriggerResponseView {
        self.deep_view()
    }
}

impl Clone for AgentTriggerResponse {
    fn clone(&self) -> (r: Self)
        ensures
            r@ == self@,
    {
        AgentTriggerResponse {
            action: self.action,
            task_id: self.task_id,
            reasoning: self.reasoning.clone(),
        }
    }
}

/// Response for enable/disable operations.
#[derive(Debug, Clone, Copy, PartialEq, Eq, Structural)]
pub struct AgentActivitySettingsResponse {
    pub enabled: bool,
    pub interval_seconds: i32,
}

impl From<ProjectAgentSettings> for AgentActivitySettingsResponse {
    fn from(settings: ProjectAgentSettings) -> (r: Self) {
        AgentActivitySettingsResponse {
            enabled: settings.enabled,
            interval_seconds: settings.interval_seconds,
        }
    }
}

impl vstd::std_specs::convert::FromSpecImpl<ProjectAgentSettings> for AgentActivitySettingsResponse {
    open spec fn obeys_from_spec() -> bool {
        true
    }

    open spec fn from_spec(settings: ProjectAgentSettings) -> Self {
        AgentActivitySettingsResponse {
            enabled: settings.enabled,
            interval_seconds: settings.interval_seconds,
        }
    }
}

} // verus!
