//! The timeout monitor: it finds tasks that have stayed in a stage for too
//! long and cancels them. It looks at nothing but the stage timer.

use crate::agent_activity::AgentAction;
use crate::store::{
    out_of_turn, out_of_turn_message, Notification, NotificationView, StoreWrite, StoreWriteView,
};
use crate::task::{Task, TaskStatus, TaskView};
use crate::text::{decimal, push_decimal};
use vstd::prelude::*;
use vstd::string::*;

verus! {

/// Why a pass of the monitor could not be made.
#[derive(Debug, PartialEq, Eq)]
pub enum TaskTimeoutError {
    /// The store failed; the text is its message.
    Database(String),
}

/// The mathematical value of a [`TaskTimeoutError`].
#[verifier::ext_equal]
pub enum TaskTimeoutErrorView {
    Database(Seq<char>),
}

impl TaskTimeoutErrorView {
    /// The error as a line of text.
    pub open spec fn message(self) -> Seq<char> {
        match self {
            TaskTimeoutErrorView::Database(m) => "database error: "@ + m,
        }
    }
}

impl DeepView for TaskTimeoutError {
    type V = TaskTimeoutErrorView;

    open spec fn deep_view(&self) -> TaskTimeoutErrorView {
        match self {
            TaskTimeoutError::Database(m) => TaskTimeoutErrorView::Database(m@),
        }
    }
}

impl View for TaskTimeoutError {
    type V = TaskTimeoutErrorView;

    open spec fn view(&self) -> TaskTimeoutErrorView {
        self.deep_view()
    }
}

impl TaskTimeoutError {
    /// The error as a line of text.
    pub fn message(&self) -> (r: String)
        ensures
            r@ == self@.message(),
    {
        match self {
            TaskTimeoutError::Database(m) => String::from_str("database error: ").concat(
                m.as_str(),
            ),
        }
    }
}

/// The background service for detecting and handling stalled tasks.
#[derive(Debug, Clone, Copy, PartialEq, Eq, Structural)]
pub struct TaskTimeoutService {
    /// Seconds between two passes.
    pub poll_interval_secs: u64,
    /// Minutes that a task may stay in progress.
    pub in_progress_timeout_minutes: i64,
    /// Minutes that a task may stay in review.
    pub in_review_timeout_minutes: i64,
}

/// The seconds of a minute.
pub open spec fn seconds_per_minute() -> int {
    60
}

/// The stage of the task began more than `timeout_minutes` before `now`.
/// A task without a stage timer is never stalled, and neither is one whose
/// timer stands exactly at the boundary.
pub open spec fn is_stalled(t: TaskView, status: TaskStatus, now: i64, timeout_minutes: i64) -> bool {
    t.status == status && match t.stage_started_at {
        Some(started) => started < now - seconds_per_minute() * timeout_minutes,
        None => false,
    }
}

/// The tasks of the project that are stalled in `status`, in their order.
pub open spec fn stalled_tasks(
    tasks: Seq<TaskView>,
    project_id: u128,
    status: TaskStatus,
    now: i64,
    timeout_minutes: i64,
) -> Seq<TaskView> {
    tasks.filter(
        |t: TaskView| t.project_id == project_id && is_stalled(t, status, now, timeout_minutes),
    )
}

/// When the stage of a task began, for the order of stalled tasks.
pub open spec fn stage_time(t: TaskView) -> int {
    match t.stage_started_at {
        Some(started) => started as int,
        None => 0,
    }
}

/// `sorted` with `t` put in after every task whose stage began no later.
pub open spec fn insert_by_age(sorted: Seq<TaskView>, t: TaskView) -> Seq<TaskView>
    decreases sorted.len(),
{
    if sorted.len() == 0 {
        seq![t]
    } else if stage_time(sorted.last()) <= stage_time(t) {
        sorted.push(t)
    } else {
        insert_by_age(sorted.drop_last(), t).push(sorted.last())
    }
}

/// The tasks by the age of their stage, oldest first; tasks of the same
/// age keep their order.
pub open spec fn oldest_first(tasks: Seq<TaskView>) -> Seq<TaskView>
    decreases tasks.len(),
{
    if tasks.len() == 0 {
        tasks
    } else {
        insert_by_age(oldest_first(tasks.drop_last()), tasks.last())
    }
}

/// The tasks are in the order of their stage times.
pub open spec fn by_age(tasks: Seq<TaskView>) -> bool {
    forall|i: int, j: int|
        0 <= i < j < tasks.len() ==> stage_time(#[trigger] tasks[i]) <= stage_time(
            #[trigger] tasks[j],
        )
}

/// Putting a task in by its age keeps the order, and adds the task and
/// nothing else.
pub proof fn lemma_insert_by_age(sorted: Seq<TaskView>, t: TaskView)
    requires
        by_age(sorted),
    ensures
        by_age(insert_by_age(sorted, t)),
        insert_by_age(sorted, t).len() == sorted.len() + 1,
        forall|x: TaskView|
            #![trigger insert_by_age(sorted, t).contains(x)]
            #![trigger sorted.contains(x)]
            insert_by_age(sorted, t).contains(x) <==> (x == t || sorted.contains(x)),
    decreases sorted.len(),
{
    let after = insert_by_age(sorted, t);
    if sorted.len() == 0 {
        assert(after[0] == t);
    } else if stage_time(sorted.last()) <= stage_time(t) {
        assert(after[sorted.len() as int] == t);
        assert forall|x: TaskView| after.contains(x) implies (x == t || sorted.contains(x)) by {
            let k = choose|k: int| 0 <= k < after.len() && after[k] == x;
            if k < sorted.len() {
                assert(sorted[k] == x);
            }
        }
        assert forall|x: TaskView| (x == t || sorted.contains(x)) implies after.contains(x) by {
            if sorted.contains(x) {
                let k = choose|k: int| 0 <= k < sorted.len() && sorted[k] == x;
                assert(after[k] == x);
            }
        }
    } else {
        let shorter = sorted.drop_last();
        assert(by_age(shorter)) by {
            assert forall|i: int, j: int| 0 <= i < j < shorter.len() implies stage_time(
                #[trigger] shorter[i],
            ) <= stage_time(#[trigger] shorter[j]) by {
                assert(shorter[i] == sorted[i] && shorter[j] == sorted[j]);
            }
        }
        lemma_insert_by_age(shorter, t);
        let inner = insert_by_age(shorter, t);
        assert(after == inner.push(sorted.last()));
        assert forall|i: int, j: int| 0 <= i < j < after.len() implies stage_time(
            #[trigger] after[i],
        ) <= stage_time(#[trigger] after[j]) by {
            if j < inner.len() {
                assert(after[i] == inner[i] && after[j] == inner[j]);
            } else {
                assert(after[i] == inner[i]);
                assert(inner.contains(inner[i]));
                if inner[i] != t {
                    assert(shorter.contains(inner[i]));
                    let k = choose|k: int| 0 <= k < shorter.len() && shorter[k] == inner[i];
                    assert(sorted[k] == inner[i]);
                    assert(stage_time(sorted[k]) <= stage_time(sorted[sorted.len() - 1]));
                }
            }
        }
        assert forall|x: TaskView| after.contains(x) implies (x == t || sorted.contains(x)) by {
            let k = choose|k: int| 0 <= k < after.len() && after[k] == x;
            if k < inner.len() {
                assert(inner[k] == x);
                assert(inner.contains(x));
                if x != t {
                    let m = choose|m: int| 0 <= m < shorter.len() && shorter[m] == x;
                    assert(sorted[m] == x);
                }
            } else {
                assert(sorted[sorted.len() - 1] == x);
            }
        }
        assert forall|x: TaskView| (x == t || sorted.contains(x)) implies after.contains(x) by {
            if x == t {
                assert(inner.contains(t));
                let m = choose|m: int| 0 <= m < inner.len() && inner[m] == t;
                assert(after[m] == t);
            } else {
                let k = choose|k: int| 0 <= k < sorted.len() && sorted[k] == x;
                if k < shorter.len() {
                    assert(shorter[k] == x);
                    assert(shorter.contains(x));
                    assert(inner.contains(x));
                    let m = choose|m: int| 0 <= m < inner.len() && inner[m] == x;
                    assert(after[m] == x);
                } else {
                    assert(after[after.len() - 1] == x);
                }
            }
        }
    }
}

/// `oldest_first` puts the tasks in the order of their stage times, and
/// holds the same tasks as before, as many.
pub proof fn lemma_oldest_first(tasks: Seq<TaskView>)
    ensures
        by_age(oldest_first(tasks)),
        oldest_first(tasks).len() == tasks.len(),
        forall|x: TaskView|
            #![trigger oldest_first(tasks).contains(x)]
            #![trigger tasks.contains(x)]
            oldest_first(tasks).contains(x) <==> tasks.contains(x),
    decreases tasks.len(),
{
    if tasks.len() > 0 {
        let shorter = tasks.drop_last();
        lemma_oldest_first(shorter);
        lemma_insert_by_age(oldest_first(shorter), tasks.last());
        assert forall|x: TaskView| oldest_first(tasks).contains(x) <==> tasks.contains(x) by {
            if tasks.contains(x) {
                let k = choose|k: int| 0 <= k < tasks.len() && tasks[k] == x;
                if k < shorter.len() {
                    assert(shorter[k] == x);
                    assert(shorter.contains(x));
                }
            }
            if shorter.contains(x) {
                let k = choose|k: int| 0 <= k < shorter.len() && shorter[k] == x;
                assert(tasks[k] == x);
            }
            assert(tasks[tasks.len() - 1] == tasks.last());
        }
    }
}

/// Where the tasks after `p` began their stage later than `t`, and the
/// task before `p` no later, `t` is put in at `p`.
proof fn lemma_insert_at(sorted: Seq<TaskView>, t: TaskView, p: int)
    requires
        0 <= p <= sorted.len(),
        forall|j: int| p <= j < sorted.len() ==> stage_time(#[trigger] sorted[j]) > stage_time(t),
        p > 0 ==> stage_time(sorted[p - 1]) <= stage_time(t),
    ensures
        insert_by_age(sorted, t) == sorted.insert(p, t),
    decreases sorted.len(),
{
    if sorted.len() == 0 {
        assert(sorted.insert(p, t) =~= seq![t]);
    } else if p == sorted.len() {
        assert(sorted.insert(p, t) =~= sorted.push(t));
    } else {
        let shorter = sorted.drop_last();
        assert(stage_time(sorted[sorted.len() - 1]) > stage_time(t));
        assert forall|j: int| p <= j < shorter.len() implies stage_time(#[trigger] shorter[j])
            > stage_time(t) by {
            assert(shorter[j] == sorted[j]);
        }
        if p > 0 {
            assert(shorter[p - 1] == sorted[p - 1]);
        }
        lemma_insert_at(shorter, t, p);
        assert(shorter.insert(p, t).push(sorted.last()) =~= sorted.insert(p, t));
    }
}

/// The tasks of the project that are stalled in `status`, oldest stage
/// first.
pub open spec fn stalled_oldest_first(
    tasks: Seq<TaskView>,
    project_id: u128,
    status: TaskStatus,
    now: i64,
    timeout_minutes: i64,
) -> Seq<TaskView> {
    oldest_first(stalled_tasks(tasks, project_id, status, now, timeout_minutes))
}

/// The stalled tasks come oldest stage first, in whatever order the
/// tasks were given, and they are the tasks of the project that are
/// stalled in the status, no more and no fewer.
pub proof fn lemma_stalled_oldest_first(
    tasks: Seq<TaskView>,
    project_id: u128,
    status: TaskStatus,
    now: i64,
    timeout_minutes: i64,
)
    ensures
        by_age(stalled_oldest_first(tasks, project_id, status, now, timeout_minutes)),
        stalled_oldest_first(tasks, project_id, status, now, timeout_minutes).len()
            == stalled_tasks(tasks, project_id, status, now, timeout_minutes).len(),
        forall|t: TaskView|
            #![trigger stalled_oldest_first(tasks, project_id, status, now, timeout_minutes).contains(t)]
            stalled_oldest_first(tasks, project_id, status, now, timeout_minutes).contains(t) <==> (
            tasks.contains(t) && t.project_id == project_id && is_stalled(
                t,
                status,
                now,
                timeout_minutes,
            )),
{
    let found = stalled_tasks(tasks, project_id, status, now, timeout_minutes);
    lemma_oldest_first(found);
    let pred = |t: TaskView|
        t.project_id == project_id && is_stalled(t, status, now, timeout_minutes);
    assert forall|t: TaskView| found.contains(t) <==> (tasks.contains(t) && pred(t)) by {
        if found.contains(t) {
            let k = choose|k: int| 0 <= k < found.len() && found[k] == t;
            tasks.lemma_filter_pred(pred, k);
            tasks.lemma_filter_contains_rev(pred, t);
        }
        if tasks.contains(t) && pred(t) {
            let k = choose|k: int| 0 <= k < tasks.len() && tasks[k] == t;
            tasks.lemma_filter_contains(pred, k);
        }
    }
}

/// Timeout determinism: a task whose stage began exactly `timeout_minutes`
/// ago is not yet stalled; one second more, and it is.
pub proof fn lemma_timeout_boundary(t: TaskView, now: i64, timeout_minutes: i64)
    requires
        t.stage_started_at.is_some(),
    ensures
        t.stage_started_at.unwrap() == now - seconds_per_minute() * timeout_minutes ==> !is_stalled(
            t,
            t.status,
            now,
            timeout_minutes,
        ),
        t.stage_started_at.unwrap() == now - seconds_per_minute() * timeout_minutes - 1
            ==> is_stalled(t, t.status, now, timeout_minutes),
        is_stalled(t, t.status, now, timeout_minutes) <==> now - t.stage_started_at.unwrap()
            > seconds_per_minute() * timeout_minutes,
{
}

fn stalled(t: &Task, status: TaskStatus, now: i64, timeout_minutes: i64) -> (r: bool)
    ensures
        r == is_stalled(t@, status, now, timeout_minutes),
{
    if t.status == status {
        match t.stage_started_at {
            Some(started) => {
                let bound: i128 = (now as i128) - 60 * (timeout_minutes as i128);
                (started as i128) < bound
            },
            None => false,
        }
    } else {
        false
    }
}

fn filter_stalled(
    tasks: &Vec<Task>,
    project_id: u128,
    status: TaskStatus,
    now: i64,
    timeout_minutes: i64,
) -> (r: Vec<Task>)
    ensures
        r.deep_view() == stalled_tasks(tasks.deep_view(), project_id, status, now, timeout_minutes),
{
    let mut out: Vec<Task> = Vec::new();
    let mut i: usize = 0;
    let ghost all = tasks.deep_view();
    let ghost pred = |t: TaskView|
        t.project_id == project_id && is_stalled(t, status, now, timeout_minutes);
    proof {
        reveal(Seq::filter);
        assert(all.take(0) =~= Seq::<TaskView>::empty());
        assert(out.deep_view() =~= all.take(0).filter(pred));
    }
    while i < tasks.len()
        invariant
            i <= tasks.len(),
            all == tasks.deep_view(),
            pred == |t: TaskView|
                t.project_id == project_id && is_stalled(t, status, now, timeout_minutes),
            out.deep_view() == all.take(i as int).filter(pred),
        decreases tasks.len() - i,
    {
        let ghost before = out.deep_view();
        proof {
            reveal(Seq::filter);
            assert(all.take(i + 1).drop_last() =~= all.take(i as int));
            assert(all.take(i + 1).last() == tasks@[i as int]@);
        }
        if tasks[i].project_id == project_id && stalled(&tasks[i], status, now, timeout_minutes) {
            out.push(tasks[i].clone());
            proof {
                assert(out.deep_view() =~= before.push(tasks@[i as int]@));
            }
        }
        i = i + 1;
    }
    proof {
        assert(all.take(tasks.len() as int) =~= all);
    }
    out
}

fn stage_of(t: &Task) -> (r: i64)
    ensures
        r == stage_time(t@),
{
    match t.stage_started_at {
        Some(started) => started,
        None => 0,
    }
}

impl Task {
    /// Find tasks that have been stalled in a given status for longer than
    /// the timeout, oldest stage first.
    pub fn find_stalled_tasks(
        tasks: &Vec<Task>,
        project_id: u128,
        status: TaskStatus,
        now: i64,
        timeout_minutes: i64,
    ) -> (r: Vec<Task>)
        ensures
            r.deep_view() == stalled_oldest_first(
                tasks.deep_view(),
                project_id,
                status,
                now,
                timeout_minutes,
            ),
    {
        let found = filter_stalled(tasks, project_id, status, now, timeout_minutes);
        let ghost all = found.deep_view();
        let mut out: Vec<Task> = Vec::new();
        let mut i: usize = 0;
        proof {
            assert(all.take(0) =~= Seq::<TaskView>::empty());
            assert(out.deep_view() =~= oldest_first(all.take(0)));
        }
        while i < found.len()
            invariant
                i <= found.len(),
                all == found.deep_view(),
                out.deep_view() == oldest_first(all.take(i as int)),
                out@.len() == i,
            decreases found.len() - i,
        {
            let t = found[i].clone();
            let time = stage_of(&t);
            let mut p: usize = out.len();
            while p > 0 && stage_of(&out[p - 1]) > time
                invariant
                    p <= out@.len(),
                    time == stage_time(t@),
                    forall|j: int|
                        p <= j < out@.len() ==> stage_time(#[trigger] out.deep_view()[j]) > time,
                decreases p,
            {
                assert(out.deep_view()[p - 1] == out@[p - 1]@);
                p = p - 1;
            }
            let ghost before = out.deep_view();
            proof {
                assert(before.len() == out@.len());
                if p > 0 {
                    assert(before[p - 1] == out@[p - 1]@);
                }
                lemma_insert_at(before, t@, p as int);
                assert(all.take(i + 1).drop_last() =~= all.take(i as int));
                assert(all.take(i + 1).last() == found@[i as int]@);
            }
            out.insert(p, t);
            proof {
                assert(out.deep_view() =~= before.insert(p as int, t@));
            }
            i = i + 1;
        }
        proof {
            assert(all.take(found.len() as int) =~= all);
        }
        out
    }
}

/// How a pass of the monitor ends.
pub type TimeoutOutcome = Result<(), TaskTimeoutError>;

/// The mathematical value of a [`TimeoutOutcome`].
pub type TimeoutOutcomeView = Result<(), TaskTimeoutErrorView>;

/// The mathematical value of an outcome.
pub open spec fn timeout_outcome_view(o: TimeoutOutcome) -> TimeoutOutcomeView {
    match o {
        Ok(u) => Ok(()),
        Err(e) => Err(e@),
    }
}

/// Where a pass stands: what it has asked for and is waiting on.
#[derive(Debug, PartialEq, Eq)]
pub enum TimeoutPhase {
    /// Waiting for the projects that have active tasks with a stage timer.
    FindingProjects,
    /// Waiting for the tasks of the project at `index`, and the time.
    LoadingTasks { projects: Vec<u128>, index: usize },
    /// Waiting for the commit that cancels a stalled task of the project at
    /// `index`: the one at `position` among those stalled in progress, or,
    /// with `in_review`, among those stalled in review.
    Cancelling {
        projects: Vec<u128>,
        index: usize,
        stalled_in_progress: Vec<Task>,
        stalled_in_review: Vec<Task>,
        position: usize,
        in_review: bool,
    },
    /// The pass is over.
    Finished,
}

/// The mathematical value of a [`TimeoutPhase`].
#[verifier::ext_equal]
#[allow(inconsistent_fields)]
pub enum TimeoutPhaseView {
    FindingProjects,
    LoadingTasks { projects: Seq<u128>, index: usize },
    Cancelling {
        projects: Seq<u128>,
        index: usize,
        stalled_in_progress: Seq<TaskView>,
        stalled_in_review: Seq<TaskView>,
        position: usize,
        in_review: bool,
    },
    Finished,
}

impl TimeoutPhaseView {
    /// The project and the task that the phase names are there.
    pub open spec fn wf(self) -> bool {
        match self {
            TimeoutPhaseView::LoadingTasks { projects, index } => index < projects.len(),
            TimeoutPhaseView::Cancelling {
                projects,
                index,
                stalled_in_progress,
                stalled_in_review,
                position,
                in_review,
            } => index < projects.len() && if in_review {
                position < stalled_in_review.len()
            } else {
                position < stalled_in_progress.len()
            },
            _ => true,
        }
    }
}

impl DeepView for TimeoutPhase {
    type V = TimeoutPhaseView;

    open spec fn deep_view(&self) -> TimeoutPhaseView {
        match self {
            TimeoutPhase::FindingProjects => TimeoutPhaseView::FindingProjects,
            TimeoutPhase::LoadingTasks { projects, index } => TimeoutPhaseView::LoadingTasks {
                projects: projects@,
                index: *index,
            },
            TimeoutPhase::Cancelling {
                projects,
                index,
                stalled_in_progress,
                stalled_in_review,
                position,
                in_review,
            } => TimeoutPhaseView::Cancelling {
                projects: projects@,
                index: *index,
                stalled_in_progress: stalled_in_progress.deep_view(),
                stalled_in_review: stalled_in_review.deep_view(),
                position: *position,
                in_review: *in_review,
            },
            TimeoutPhase::Finished => TimeoutPhaseView::Finished,
        }
    }
}

impl View for TimeoutPhase {
    type V = TimeoutPhaseView;

    open spec fn view(&self) -> TimeoutPhaseView {
        self.deep_view()
    }
}

/// The state of one pass of the monitor.
#[derive(Debug, PartialEq, Eq)]
pub struct TimeoutState {
    pub service: TaskTimeoutService,
    pub phase: TimeoutPhase,
}

/// The mathematical value of a [`TimeoutState`].
#[verifier::ext_equal]
pub struct TimeoutStateView {
    pub service: TaskTimeoutService,
    pub phase: TimeoutPhaseView,
}

impl DeepView for TimeoutState {
    type V = TimeoutStateView;

    open spec fn deep_view(&self) -> TimeoutStateView {
        TimeoutStateView { service: self.service, phase: self.phase@ }
    }
}

impl View for TimeoutState {
    type V = TimeoutStateView;

    open spec fn view(&self) -> TimeoutStateView {
        self.deep_view()
    }
}

/// What the store answered.
#[derive(Debug, PartialEq, Eq)]
pub enum TimeoutEvent {
    /// The projects that have a task in progress or in review with a stage
    /// timer.
    Projects(Vec<u128>),
    /// The tasks of the project, oldest stage first, and the time now.
    Tasks { tasks: Vec<Task>, now: i64 },
    /// Every write of the commit was carried out.
    Committed,
    /// The store failed; the text is its message.
    StoreFailed(String),
}

/// The mathematical value of a [`TimeoutEvent`].
#[verifier::ext_equal]
pub enum TimeoutEventView {
    Projects(Seq<u128>),
    Tasks { tasks: Seq<TaskView>, now: i64 },
    Committed,
    StoreFailed(Seq<char>),
}

impl DeepView for TimeoutEvent {
    type V = TimeoutEventView;

    open spec fn deep_view(&self) -> TimeoutEventView {
        match self {
            TimeoutEvent::Projects(ids) => TimeoutEventView::Projects(ids@),
            TimeoutEvent::Tasks { tasks, now } => TimeoutEventView::Tasks {
                tasks: tasks.deep_view(),
                now: *now,
            },
            TimeoutEvent::Committed => TimeoutEventView::Committed,
            TimeoutEvent::StoreFailed(m) => TimeoutEventView::StoreFailed(m@),
        }
    }
}

impl View for TimeoutEvent {
    type V = TimeoutEventView;

    open spec fn view(&self) -> TimeoutEventView {
        self.deep_view()
    }
}

/// What the pass asks for next.
#[derive(Debug, PartialEq, Eq)]
pub enum TimeoutCommand {
    /// Find the projects that have a task in progress or in review with a
    /// stage timer.
    FindActiveProjects,
    /// Read the tasks of the project, oldest stage first, and the clock.
    LoadTasks { project_id: u128 },
    /// Carry out the writes in order; if all succeed, send the notification.
    Commit { writes: Vec<StoreWrite>, notification: Option<Notification> },
    /// The pass is over.
    Finish(TimeoutOutcome),
}

/// The mathematical value of a [`TimeoutCommand`].
#[verifier::ext_equal]
pub enum TimeoutCommandView {
    FindActiveProjects,
    LoadTasks { project_id: u128 },
    Commit { writes: Seq<StoreWriteView>, notification: Option<NotificationView> },
    Finish(TimeoutOutcomeView),
}

impl DeepView for TimeoutCommand {
    type V = TimeoutCommandView;

    open spec fn deep_view(&self) -> TimeoutCommandView {
        match self {
            TimeoutCommand::FindActiveProjects => TimeoutCommandView::FindActiveProjects,
            TimeoutCommand::LoadTasks { project_id } => TimeoutCommandView::LoadTasks {
                project_id: *project_id,
            },
            TimeoutCommand::Commit { writes, notification } => TimeoutCommandView::Commit {
                writes: writes.deep_view(),
                notification: notification.deep_view(),
            },
            TimeoutCommand::Finish(outcome) => TimeoutCommandView::Finish(
                timeout_outcome_view(*outcome),
            ),
        }
    }
}

impl View for TimeoutCommand {
    type V = TimeoutCommandView;

    open spec fn view(&self) -> TimeoutCommandView {
        self.deep_view()
    }
}

/// What the audit log says of a task that timed out.
pub open spec fn timeout_record(timeout_minutes: i64, status: TaskStatus) -> Seq<char> {
    "Task cancelled due to "@ + decimal(timeout_minutes as int) + " minute timeout in "@
        + status.name() + " status"@
}

/// What is announced of a task that timed out.
pub open spec fn timeout_notice(title: Seq<char>, timeout_minutes: i64, status: TaskStatus) -> NotificationView {
    NotificationView {
        title: "Task Timeout"@,
        message: "Task '"@ + title + "' cancelled due to timeout ("@ + decimal(
            timeout_minutes as int,
        ) + "+ minutes in "@ + status.name() + " status)"@,
    }
}

/// The commit that cancels a stalled task: its running executions are
/// marked as killed, the task is cancelled, which clears its stage timer,
/// and the timeout is logged and announced.
pub open spec fn cancel_stalled(task: TaskView, timeout_minutes: i64, status: TaskStatus) -> TimeoutCommandView {
    TimeoutCommandView::Commit {
        writes: seq![
            StoreWriteView::KillRunningProcesses { task_id: task.id },
            StoreWriteView::SetStatus { task_id: task.id, status: TaskStatus::Cancelled },
            StoreWriteView::AgentLog {
                project_id: task.project_id,
                task_id: Some(task.id),
                action: AgentAction::Timeout,
                reasoning: Some(timeout_record(timeout_minutes, status)),
            },
        ],
        notification: Some(timeout_notice(task.title, timeout_minutes, status)),
    }
}

/// The state and the command with which a pass ends.
pub open spec fn finish(s: TimeoutStateView, outcome: TimeoutOutcomeView) -> (
    TimeoutStateView,
    TimeoutCommandView,
) {
    (TimeoutStateView { phase: TimeoutPhaseView::Finished, ..s }, TimeoutCommandView::Finish(outcome))
}

/// Goes on with the project at `index`, or ends the pass where none is
/// left.
pub open spec fn next_project(s: TimeoutStateView, projects: Seq<u128>, index: int) -> (
    TimeoutStateView,
    TimeoutCommandView,
) {
    if 0 <= index < projects.len() {
        (
            TimeoutStateView {
                phase: TimeoutPhaseView::LoadingTasks { projects, index: index as usize },
                ..s
            },
            TimeoutCommandView::LoadTasks { project_id: projects[index] },
        )
    } else {
        finish(s, Ok(()))
    }
}

/// Goes on with the stalled tasks of a project: first those in progress
/// from `position`, then those in review, then the next project.
pub open spec fn next_task(
    s: TimeoutStateView,
    projects: Seq<u128>,
    index: int,
    stalled_in_progress: Seq<TaskView>,
    stalled_in_review: Seq<TaskView>,
    position: int,
    in_review: bool,
) -> (TimeoutStateView, TimeoutCommandView) {
    if !in_review && 0 <= position < stalled_in_progress.len() {
        (
            TimeoutStateView {
                phase: TimeoutPhaseView::Cancelling {
                    projects,
                    index: index as usize,
                    stalled_in_progress,
                    stalled_in_review,
                    position: position as usize,
                    in_review: false,
                },
                ..s
            },
            cancel_stalled(
                stalled_in_progress[position],
                s.service.in_progress_timeout_minutes,
                TaskStatus::InProgress,
            ),
        )
    } else {
        let at = if in_review {
            position
        } else {
            0
        };
        if 0 <= at < stalled_in_review.len() {
            (
                TimeoutStateView {
                    phase: TimeoutPhaseView::Cancelling {
                        projects,
                        index: index as usize,
                        stalled_in_progress,
                        stalled_in_review,
                        position: at as usize,
                        in_review: true,
                    },
                    ..s
                },
                cancel_stalled(
                    stalled_in_review[at],
                    s.service.in_review_timeout_minutes,
                    TaskStatus::InReview,
                ),
            )
        } else {
            next_project(s, projects, index + 1)
        }
    }
}

/// `event` answers what a pass in `phase` is waiting on.
pub open spec fn expects(phase: TimeoutPhaseView, event: TimeoutEventView) -> bool {
    match phase {
        TimeoutPhaseView::FindingProjects => event is Projects || event is StoreFailed,
        TimeoutPhaseView::LoadingTasks { .. } => event is Tasks || event is StoreFailed,
        TimeoutPhaseView::Cancelling { .. } => event is Committed || event is StoreFailed,
        TimeoutPhaseView::Finished => false,
    }
}

/// The end of a pass that is handed an answer to something that it did
/// not ask, or that stands in a state that no pass can be in.
pub open spec fn unexpected(s: TimeoutStateView) -> (TimeoutStateView, TimeoutCommandView) {
    finish(s, Err(TaskTimeoutErrorView::Database(out_of_turn())))
}

/// One step of a pass. The stalled tasks of a project are cancelled one
/// by one, those in progress before those in review. A failure of the
/// store gives up the tasks of the same status that are still waiting and
/// no others; only where the projects cannot be found does the pass fail.
pub open spec fn timeout_step(s: TimeoutStateView, event: TimeoutEventView) -> (
    TimeoutStateView,
    TimeoutCommandView,
) {
    if !s.phase.wf() {
        unexpected(s)
    } else {
        match s.phase {
            TimeoutPhaseView::FindingProjects => match event {
                TimeoutEventView::Projects(projects) => next_project(s, projects, 0),
                TimeoutEventView::StoreFailed(m) => finish(
                    s,
                    Err(TaskTimeoutErrorView::Database(m)),
                ),
                _ => unexpected(s),
            },
            TimeoutPhaseView::LoadingTasks { projects, index } => match event {
                TimeoutEventView::Tasks { tasks, now } => next_task(
                    s,
                    projects,
                    index as int,
                    stalled_oldest_first(
                        tasks,
                        projects[index as int],
                        TaskStatus::InProgress,
                        now,
                        s.service.in_progress_timeout_minutes,
                    ),
                    stalled_oldest_first(
                        tasks,
                        projects[index as int],
                        TaskStatus::InReview,
                        now,
                        s.service.in_review_timeout_minutes,
                    ),
                    0,
                    false,
                ),
                TimeoutEventView::StoreFailed(_) => next_project(s, projects, index + 1),
                _ => unexpected(s),
            },
            TimeoutPhaseView::Cancelling {
                projects,
                index,
                stalled_in_progress,
                stalled_in_review,
                position,
                in_review,
            } => match event {
                TimeoutEventView::Committed => next_task(
                    s,
                    projects,
                    index as int,
                    stalled_in_progress,
                    stalled_in_review,
                    position + 1,
                    in_review,
                ),
                TimeoutEventView::StoreFailed(_) => if in_review {
                    next_project(s, projects, index + 1)
                } else {
                    next_task(
                        s,
                        projects,
                        index as int,
                        stalled_in_progress,
                        stalled_in_review,
                        0,
                        true,
                    )
                },
                _ => unexpected(s),
            },
            TimeoutPhaseView::Finished => unexpected(s),
        }
    }
}

fn finished(service: TaskTimeoutService, outcome: TimeoutOutcome) -> (r: (
    TimeoutState,
    TimeoutCommand,
))
    ensures
        forall|s: TimeoutStateView|
            s.service == service ==> (r.0@, r.1@) == #[trigger] finish(
                s,
                timeout_outcome_view(outcome),
            ),
        r.0@.phase.wf(),
{
    (TimeoutState { service, phase: TimeoutPhase::Finished }, TimeoutCommand::Finish(outcome))
}

fn to_project(service: TaskTimeoutService, projects: Vec<u128>, index: usize) -> (r: (
    TimeoutState,
    TimeoutCommand,
))
    ensures
        forall|s: TimeoutStateView|
            s.service == service ==> (r.0@, r.1@) == #[trigger] next_project(
                s,
                projects@,
                index as int,
            ),
        r.0@.phase.wf(),
{
    if index < projects.len() {
        let project_id = projects[index];
        (
            TimeoutState { service, phase: TimeoutPhase::LoadingTasks { projects, index } },
            TimeoutCommand::LoadTasks { project_id },
        )
    } else {
        finished(service, Ok(()))
    }
}

fn cancel_command(task: &Task, timeout_minutes: i64, status: TaskStatus) -> (r: TimeoutCommand)
    ensures
        r@ == cancel_stalled(task@, timeout_minutes, status),
{
    let mut record = String::from_str("Task cancelled due to ");
    push_decimal(&mut record, timeout_minutes as i128);
    record.append(" minute timeout in ");
    record.append(status.as_str());
    record.append(" status");
    let mut message = String::from_str("Task '");
    message.append(task.title.as_str());
    message.append("' cancelled due to timeout (");
    push_decimal(&mut message, timeout_minutes as i128);
    message.append("+ minutes in ");
    message.append(status.as_str());
    message.append(" status)");
    let mut writes: Vec<StoreWrite> = Vec::new();
    writes.push(StoreWrite::KillRunningProcesses { task_id: task.id });
    writes.push(StoreWrite::SetStatus { task_id: task.id, status: TaskStatus::Cancelled });
    writes.push(
        StoreWrite::AgentLog {
            project_id: task.project_id,
            task_id: Some(task.id),
            action: AgentAction::Timeout,
            reasoning: Some(record),
        },
    );
    proof {
        assert(writes.deep_view() =~= cancel_stalled(
            task@,
            timeout_minutes,
            status,
        )->Commit_writes);
    }
    TimeoutCommand::Commit {
        writes,
        notification: Some(Notification { title: String::from_str("Task Timeout"), message }),
    }
}

fn to_task(
    service: TaskTimeoutService,
    projects: Vec<u128>,
    index: usize,
    stalled_in_progress: Vec<Task>,
    stalled_in_review: Vec<Task>,
    position: usize,
    in_review: bool,
) -> (r: (TimeoutState, TimeoutCommand))
    requires
        index < projects@.len(),
    ensures
        forall|s: TimeoutStateView|
            s.service == service ==> (r.0@, r.1@) == #[trigger] next_task(
                s,
                projects@,
                index as int,
                stalled_in_progress.deep_view(),
                stalled_in_review.deep_view(),
                position as int,
                in_review,
            ),
        r.0@.phase.wf(),
{
    assert(stalled_in_progress.deep_view().len() == stalled_in_progress@.len());
    assert(stalled_in_review.deep_view().len() == stalled_in_review@.len());
    if !in_review && position < stalled_in_progress.len() {
        assert(stalled_in_progress.deep_view()[position as int]
            == stalled_in_progress@[position as int]@);
        let command = cancel_command(
            &stalled_in_progress[position],
            service.in_progress_timeout_minutes,
            TaskStatus::InProgress,
        );
        (
            TimeoutState {
                service,
                phase: TimeoutPhase::Cancelling {
                    projects,
                    index,
                    stalled_in_progress,
                    stalled_in_review,
                    position,
                    in_review: false,
                },
            },
            command,
        )
    } else {
        let at = if in_review {
            position
        } else {
            0
        };
        if at < stalled_in_review.len() {
            assert(stalled_in_review.deep_view()[at as int] == stalled_in_review@[at as int]@);
            let command = cancel_command(
                &stalled_in_review[at],
                service.in_review_timeout_minutes,
                TaskStatus::InReview,
            );
            (
                TimeoutState {
                    service,
                    phase: TimeoutPhase::Cancelling {
                        projects,
                        index,
                        stalled_in_progress,
                        stalled_in_review,
                        position: at,
                        in_review: true,
                    },
                },
                command,
            )
        } else {
            let n = projects.len();
            to_project(service, projects, index + 1)
        }
    }
}

impl TimeoutState {
    /// Whether `event` answers what this pass is waiting on.
    pub fn expects(&self, event: &TimeoutEvent) -> (r: bool)
        ensures
            r == expects(self@.phase, event@),
    {
        match &self.phase {
            TimeoutPhase::FindingProjects => matches!(
                event,
                TimeoutEvent::Projects(_) | TimeoutEvent::StoreFailed(_)
            ),
            TimeoutPhase::LoadingTasks { .. } => matches!(
                event,
                TimeoutEvent::Tasks { .. } | TimeoutEvent::StoreFailed(_)
            ),
            TimeoutPhase::Cancelling { .. } => matches!(
                event,
                TimeoutEvent::Committed | TimeoutEvent::StoreFailed(_)
            ),
            TimeoutPhase::Finished => false,
        }
    }

    /// Whether the pass is over.
    pub fn is_finished(&self) -> (r: bool)
        ensures
            r == (self@.phase is Finished),
    {
        matches!(self.phase, TimeoutPhase::Finished)
    }

    /// Whether the state is one that a pass can be in: the project and the
    /// task that it names are there.
    pub fn is_well_formed(&self) -> (r: bool)
        ensures
            r == self@.phase.wf(),
    {
        match &self.phase {
            TimeoutPhase::LoadingTasks { projects, index } => *index < projects.len(),
            TimeoutPhase::Cancelling {
                projects,
                index,
                stalled_in_progress,
                stalled_in_review,
                position,
                in_review,
            } => {
                assert(stalled_in_progress.deep_view().len() == stalled_in_progress@.len());
                assert(stalled_in_review.deep_view().len() == stalled_in_review@.len());
                *index < projects.len() && if *in_review {
                    *position < stalled_in_review.len()
                } else {
                    *position < stalled_in_progress.len()
                }
            },
            _ => true,
        }
    }
}

impl TaskTimeoutService {
    /// The service as it is spawned: it looks every ten seconds, and gives
    /// a task twenty minutes in progress and twenty in review.
    pub fn new() -> (r: Self)
        ensures
            r == (TaskTimeoutService {
                poll_interval_secs: 10,
                in_progress_timeout_minutes: 20,
                in_review_timeout_minutes: 20,
            }),
    {
        TaskTimeoutService {
            poll_interval_secs: 10,
            in_progress_timeout_minutes: 20,
            in_review_timeout_minutes: 20,
        }
    }

    /// Begins a pass over all projects: it first asks which projects have
    /// active tasks; `process_stalled_tasks` takes it on from there.
    pub fn check_for_stalled_tasks(&self) -> (r: (TimeoutState, TimeoutCommand))
        ensures
            r.0@ == (TimeoutStateView { service: *self, phase: TimeoutPhaseView::FindingProjects }),
            r.1@ == TimeoutCommandView::FindActiveProjects,
    {
        (
            TimeoutState { service: *self, phase: TimeoutPhase::FindingProjects },
            TimeoutCommand::FindActiveProjects,
        )
    }

    /// Takes a pass one step on: given the answer to what it asked last,
    /// says what it asks next.
    pub fn process_stalled_tasks(state: TimeoutState, event: TimeoutEvent) -> (r: (
        TimeoutState,
        TimeoutCommand,
    ))
        ensures
            (r.0@, r.1@) == timeout_step(state@, event@),
            r.0@.phase.wf(),
    {
        if !state.is_well_formed() {
            return finished(state.service, Err(TaskTimeoutError::Database(out_of_turn_message())));
        }
        let TimeoutState { service, phase } = state;
        match phase {
            TimeoutPhase::FindingProjects => match event {
                TimeoutEvent::Projects(projects) => to_project(service, projects, 0),
                TimeoutEvent::StoreFailed(m) => finished(
                    service,
                    Err(TaskTimeoutError::Database(m)),
                ),
                _ => finished(service, Err(TaskTimeoutError::Database(out_of_turn_message()))),
            },
            TimeoutPhase::LoadingTasks { projects, index } => match event {
                TimeoutEvent::Tasks { tasks, now } => {
                    let project_id = projects[index];
                    let stalled_in_progress = Task::find_stalled_tasks(
                        &tasks,
                        project_id,
                        TaskStatus::InProgress,
                        now,
                        service.in_progress_timeout_minutes,
                    );
                    let stalled_in_review = Task::find_stalled_tasks(
                        &tasks,
                        project_id,
                        TaskStatus::InReview,
                        now,
                        service.in_review_timeout_minutes,
                    );
                    to_task(
                        service,
                        projects,
                        index,
                        stalled_in_progress,
                        stalled_in_review,
                        0,
                        false,
                    )
                },
                TimeoutEvent::StoreFailed(_) => {
                    let n = projects.len();
                    to_project(service, projects, index + 1)
                },
                _ => finished(service, Err(TaskTimeoutError::Database(out_of_turn_message()))),
            },
            TimeoutPhase::Cancelling {
                projects,
                index,
                stalled_in_progress,
                stalled_in_review,
                position,
                in_review,
            } => {
                assert(stalled_in_progress.deep_view().len() == stalled_in_progress@.len());
                assert(stalled_in_review.deep_view().len() == stalled_in_review@.len());
                let n = projects.len();
                let a = stalled_in_progress.len();
                let b = stalled_in_review.len();
                match event {
                    TimeoutEvent::Committed => to_task(
                        service,
                        projects,
                        index,
                        stalled_in_progress,
                        stalled_in_review,
                        position + 1,
                        in_review,
                    ),
                    TimeoutEvent::StoreFailed(_) => {
                        if in_review {
                            to_project(service, projects, index + 1)
                        } else {
                            to_task(
                                service,
                                projects,
                                index,
                                stalled_in_progress,
                                stalled_in_review,
                                0,
                                true,
                            )
                        }
                    },
                    _ => finished(service, Err(TaskTimeoutError::Database(out_of_turn_message()))),
                }
            },
            TimeoutPhase::Finished => finished(
                service,
                Err(TaskTimeoutError::Database(out_of_turn_message())),
            ),
        }
    }
}


/// An answer to something that the pass did not ask ends the pass.
pub proof fn lemma_out_of_turn(s: TimeoutStateView, event: TimeoutEventView)
    requires
        !expects(s.phase, event),
    ensures
        timeout_step(s, event) == unexpected(s),
{
}

} // verus!
