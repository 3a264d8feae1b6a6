//! What holds of a project's tasks whatever the schedulers do: the bound
//! on occupied layers, and that no layer holds two active tasks.

use crate::agent_activity::{
    active_layers, admits, any, candidates, has_active_integration, has_any_active, keep,
    layer_is_open, occupies_layer, Rule, MAX_ACTIVE_LAYERS,
};
use crate::breakdown::{fullstack_subtasks, subtasks, ComplexityAnalysisResponseView};
use crate::review::{conflict_plan, review_step, ReviewEventView, ReviewPhaseView, ReviewStateView};
use crate::review_automation::{conflict_count, MAX_MERGE_CONFLICT_ATTEMPTS};
use crate::selector::{
    ids_of, is_fullstack_todo, lemma_first_fullstack_todo, lemma_on_tasks,
    lemma_only_candidates_start, on_tasks, replace_complex, replace_fullstack, run, starts,
    SelectorEventView, SelectorStateView,
};
use crate::store::{after_write, after_writes, creations, with_status, StoreWriteView};
use crate::task::{CreateTaskView, TaskLayer, TaskStatus, TaskType, TaskView};
use crate::task_timeout::cancel_stalled;
use vstd::prelude::*;
use vstd::set_lib::lemma_len_subset;

verus! {

/// No two tasks share an identifier.
pub open spec fn unique_ids(tasks: Seq<TaskView>) -> bool {
    forall|i: int, j: int|
        0 <= i < tasks.len() && 0 <= j < tasks.len() && i != j ==> (#[trigger] tasks[i]).id != (
        #[trigger] tasks[j]).id
}

/// No layer holds two tasks that are in progress or in review.
pub open spec fn layers_exclusive(tasks: Seq<TaskView>) -> bool {
    forall|i: int, j: int|
        0 <= i < tasks.len() && 0 <= j < tasks.len() && i != j && (
        #[trigger] tasks[i]).status.is_active() && (#[trigger] tasks[j]).status.is_active()
            && tasks[i].layer.is_some() ==> tasks[i].layer != tasks[j].layer
}

/// The selector may start the task at `k`: it is a candidate under the
/// rules of admission.
pub open spec fn may_start(tasks: Seq<TaskView>, k: int) -> bool {
    &&& 0 <= k < tasks.len()
    &&& tasks[k].status == TaskStatus::Todo
    &&& !has_active_integration(tasks)
    &&& (admits(Rule::FreeLayer, active_layers(tasks), tasks[k]) && active_layers(tasks).len()
        < MAX_ACTIVE_LAYERS) || !has_any_active(tasks)
}

/// What a filter keeps was there before, and satisfies the filter.
pub proof fn lemma_filter_member(s: Seq<TaskView>, pred: spec_fn(TaskView) -> bool, x: TaskView)
    requires
        s.filter(pred).contains(x),
    ensures
        s.contains(x),
        pred(x),
    decreases s.len(),
{
    reveal(Seq::filter);
    if s.len() > 0 {
        let rest = s.drop_last().filter(pred);
        if pred(s.last()) && x == s.last() {
            assert(s[s.len() - 1] == x);
        } else {
            let i = choose|i: int| 0 <= i < s.filter(pred).len() && s.filter(pred)[i] == x;
            if pred(s.last()) {
                assert(s.filter(pred) == rest.push(s.last()));
                assert(i < rest.len());
                assert(rest[i] == x);
            } else {
                assert(rest[i] == x);
            }
            lemma_filter_member(s.drop_last(), pred, x);
            let j = choose|j: int| 0 <= j < s.drop_last().len() && s.drop_last()[j] == x;
            assert(s[j] == x);
        }
    }
}

/// Every candidate may be started: the rules of admission hold of it.
pub proof fn lemma_candidates_may_start(tasks: Seq<TaskView>, id: u128)
    requires
        candidates(tasks).is_some(),
        ids_of(candidates(tasks).unwrap()).contains(id),
    ensures
        exists|k: int| may_start(tasks, k) && tasks[k].id == id,
{
    let c = candidates(tasks).unwrap();
    let n = choose|n: int| 0 <= n < ids_of(c).len() && ids_of(c)[n] == id;
    let x = c[n];
    assert(c.contains(x));
    let busy = active_layers(tasks);
    let none = Set::<TaskLayer>::empty();
    if layer_is_open(tasks) {
        let eligible = keep(tasks, Rule::FreeLayer, busy);
        if any(eligible, Rule::Architecture, none) {
            lemma_filter_member(eligible, |t: TaskView| admits(Rule::Architecture, none, t), x);
        }
        lemma_filter_member(tasks, |t: TaskView| admits(Rule::FreeLayer, busy, t), x);
        let k = choose|k: int| 0 <= k < tasks.len() && tasks[k] == x;
        assert(may_start(tasks, k) && tasks[k].id == id);
    } else {
        let todo = keep(tasks, Rule::Todo, none);
        if any(todo, Rule::Initialization, none) {
            lemma_filter_member(todo, |t: TaskView| admits(Rule::Initialization, none, t), x);
        } else if any(todo, Rule::Architecture, none) {
            lemma_filter_member(todo, |t: TaskView| admits(Rule::Architecture, none, t), x);
        } else if any(todo, Rule::Implementation, none) {
            lemma_filter_member(todo, |t: TaskView| admits(Rule::Implementation, none, t), x);
        }
        lemma_filter_member(tasks, |t: TaskView| admits(Rule::Todo, none, t), x);
        let k = choose|k: int| 0 <= k < tasks.len() && tasks[k] == x;
        assert(may_start(tasks, k) && tasks[k].id == id);
    }
}

/// Admission control: while an integration task is in progress or in
/// review, the project has no candidates.
pub proof fn lemma_integration_blocks(tasks: Seq<TaskView>)
    requires
        has_active_integration(tasks),
    ensures
        candidates(tasks).is_none(),
        forall|k: int| !may_start(tasks, k),
{
}

/// The layers are six, so the occupied ones are finitely many.
pub proof fn lemma_active_layers_finite(tasks: Seq<TaskView>)
    ensures
        active_layers(tasks).finite(),
        active_layers(tasks).len() <= 6,
{
    let all = set![
        TaskLayer::Data,
        TaskLayer::Backend,
        TaskLayer::Frontend,
        TaskLayer::Fullstack,
        TaskLayer::Devops,
        TaskLayer::Testing,
    ];
    assert(all.finite());
    assert(all.len() <= 6) by {
        let a = set![TaskLayer::Data];
        let b = a.insert(TaskLayer::Backend);
        let c = b.insert(TaskLayer::Frontend);
        let d = c.insert(TaskLayer::Fullstack);
        let e = d.insert(TaskLayer::Devops);
        let f = e.insert(TaskLayer::Testing);
        assert(a.len() <= 1);
        assert(b.len() <= 2);
        assert(c.len() <= 3);
        assert(d.len() <= 4);
        assert(e.len() <= 5);
        assert(f.len() <= 6);
        assert(f =~= all);
    }
    assert(active_layers(tasks).subset_of(all)) by {
        assert forall|l: TaskLayer| active_layers(tasks).contains(l) implies all.contains(l) by {
            match l {
                TaskLayer::Data => {},
                TaskLayer::Backend => {},
                TaskLayer::Frontend => {},
                TaskLayer::Fullstack => {},
                TaskLayer::Devops => {},
                TaskLayer::Testing => {},
            }
        }
    }
    lemma_len_subset(active_layers(tasks), all);
}

/// The task at `k` after a status update, the others as they were.
proof fn lemma_with_status_at(tasks: Seq<TaskView>, k: int, status: TaskStatus, now: i64)
    requires
        unique_ids(tasks),
        0 <= k < tasks.len(),
    ensures
        with_status(tasks, tasks[k].id, status, now).len() == tasks.len(),
        with_status(tasks, tasks[k].id, status, now)[k] == tasks[k].with_status(status, now),
        forall|j: int|
            0 <= j < tasks.len() && j != k ==> #[trigger] with_status(
                tasks,
                tasks[k].id,
                status,
                now,
            )[j] == tasks[j],
{
    let after = with_status(tasks, tasks[k].id, status, now);
    assert forall|j: int| 0 <= j < tasks.len() && j != k implies #[trigger] after[j]
        == tasks[j] by {
        assert(tasks[j].id != tasks[k].id);
    }
}

/// Layer concurrency bound: whichever candidate the selector starts, at
/// most three layers are occupied afterwards.
pub proof fn lemma_layer_bound(tasks: Seq<TaskView>, k: int, now: i64)
    requires
        unique_ids(tasks),
        may_start(tasks, k),
    ensures
        active_layers(with_status(tasks, tasks[k].id, TaskStatus::InProgress, now)).len()
            <= MAX_ACTIVE_LAYERS,
{
    let after = with_status(tasks, tasks[k].id, TaskStatus::InProgress, now);
    lemma_with_status_at(tasks, k, TaskStatus::InProgress, now);
    lemma_active_layers_finite(tasks);
    lemma_active_layers_finite(after);
    let before_set = active_layers(tasks);
    let after_set = active_layers(after);
    match tasks[k].layer {
        Some(l) => {
            assert(after_set.subset_of(before_set.insert(l))) by {
                assert forall|x: TaskLayer| after_set.contains(x) implies before_set.insert(
                    l,
                ).contains(x) by {
                    let i = choose|i: int|
                        0 <= i < after.len() && occupies_layer(#[trigger] after[i])
                            && after[i].layer == Some(x);
                    if i != k {
                        assert(after[i] == tasks[i]);
                        assert(occupies_layer(tasks[i]));
                    }
                }
            }
            lemma_len_subset(after_set, before_set.insert(l));
            if !has_any_active(tasks) {
                assert(before_set =~= Set::<TaskLayer>::empty()) by {
                    assert forall|x: TaskLayer| !before_set.contains(x) by {
                        if before_set.contains(x) {
                            let i = choose|i: int|
                                0 <= i < tasks.len() && occupies_layer(#[trigger] tasks[i])
                                    && tasks[i].layer == Some(x);
                            assert(tasks[i].status.is_active());
                        }
                    }
                }
            }
        },
        None => {
            assert(!admits(Rule::FreeLayer, before_set, tasks[k]));
            assert(after_set.subset_of(before_set)) by {
                assert forall|x: TaskLayer| after_set.contains(x) implies before_set.contains(
                    x,
                ) by {
                    let i = choose|i: int|
                        0 <= i < after.len() && occupies_layer(#[trigger] after[i])
                            && after[i].layer == Some(x);
                    if i != k {
                        assert(after[i] == tasks[i]);
                        assert(occupies_layer(tasks[i]));
                    }
                }
            }
            lemma_len_subset(after_set, before_set);
            assert(before_set =~= Set::<TaskLayer>::empty()) by {
                assert forall|x: TaskLayer| !before_set.contains(x) by {
                    if before_set.contains(x) {
                        let i = choose|i: int|
                            0 <= i < tasks.len() && occupies_layer(#[trigger] tasks[i])
                                && tasks[i].layer == Some(x);
                        assert(tasks[i].status.is_active());
                    }
                }
            }
        },
    }
}

/// Exclusivity: where no layer holds two active tasks, none does after the
/// selector has started a candidate.
pub proof fn lemma_exclusivity(tasks: Seq<TaskView>, k: int, now: i64)
    requires
        unique_ids(tasks),
        layers_exclusive(tasks),
        may_start(tasks, k),
    ensures
        layers_exclusive(with_status(tasks, tasks[k].id, TaskStatus::InProgress, now)),
{
    let after = with_status(tasks, tasks[k].id, TaskStatus::InProgress, now);
    lemma_with_status_at(tasks, k, TaskStatus::InProgress, now);
    assert forall|i: int, j: int|
        0 <= i < after.len() && 0 <= j < after.len() && i != j && (
        #[trigger] after[i]).status.is_active() && (#[trigger] after[j]).status.is_active()
            && after[i].layer.is_some() implies after[i].layer != after[j].layer by {
        if i != k && j != k {
            assert(after[i] == tasks[i]);
            assert(after[j] == tasks[j]);
        } else {
            let other = if i == k {
                j
            } else {
                i
            };
            assert(after[other] == tasks[other]);
            assert(tasks[other].status.is_active());
            assert(has_any_active(tasks));
            // The candidate runs in a free layer, and the other task occupies its own.
            assert(tasks[other].task_type != Some(TaskType::Integration));
            assert(occupies_layer(tasks[other]));
            if tasks[other].layer.is_some() {
                assert(active_layers(tasks).contains(tasks[other].layer.unwrap()));
            }
        }
    }
}

/// Whatever the store and the advisor answer in the course of a cycle, a
/// task that the cycle starts was a candidate in the snapshot that the
/// cycle began with, so that starting it keeps the bound on occupied layers
/// and keeps the layers exclusive.
pub proof fn lemma_cycle_keeps_invariants(
    s: SelectorStateView,
    tasks: Seq<TaskView>,
    events: Seq<SelectorEventView>,
    n: int,
    id: u128,
    now: i64,
)
    requires
        unique_ids(tasks),
        0 <= n < run(on_tasks(s, tasks).0, events).len(),
        starts(run(on_tasks(s, tasks).0, events)[n], id),
    ensures
        !has_active_integration(tasks),
        active_layers(with_status(tasks, id, TaskStatus::InProgress, now)).len()
            <= MAX_ACTIVE_LAYERS,
        layers_exclusive(tasks) ==> layers_exclusive(
            with_status(tasks, id, TaskStatus::InProgress, now),
        ),
{
    lemma_on_tasks(s, tasks, id);
    let next = on_tasks(s, tasks).0;
    if next.phase is Selecting {
        let offered = ids_of(candidates(tasks).unwrap());
        lemma_only_candidates_start(next, events, offered, n, id);
        lemma_candidates_may_start(tasks, id);
        let k = choose|k: int| may_start(tasks, k) && tasks[k].id == id;
        lemma_layer_bound(tasks, k, now);
        if layers_exclusive(tasks) {
            lemma_exclusivity(tasks, k, now);
        }
    } else {
        let nothing = Seq::<u128>::empty();
        lemma_only_candidates_start(next, events, nothing, n, id);
    }
}


/// The write makes no task active: it creates a task that is to do, ends
/// or cancels a task, or does not touch the status of any.
pub open spec fn activates_nothing(write: StoreWriteView) -> bool {
    match write {
        StoreWriteView::CreateTask(c) => c.status == Some(TaskStatus::Todo) || c.status.is_none(),
        StoreWriteView::SetStatus { task_id, status } => !status.is_active(),
        _ => true,
    }
}

/// `after` holds the tasks of `before` with their layers and types, and
/// perhaps more tasks; no task is active in `after` that was not active in
/// `before`.
pub open spec fn calmer(before: Seq<TaskView>, after: Seq<TaskView>) -> bool {
    &&& before.len() <= after.len()
    &&& forall|i: int|
        0 <= i < before.len() ==> (#[trigger] after[i]).layer == before[i].layer
            && after[i].task_type == before[i].task_type && (after[i].status.is_active()
            ==> before[i].status.is_active())
    &&& forall|i: int| before.len() <= i < after.len() ==> !(#[trigger] after[i]).status.is_active()
}

/// Where no task becomes active, no further layer is occupied and the
/// layers stay exclusive.
pub proof fn lemma_calmer_keeps_invariants(before: Seq<TaskView>, after: Seq<TaskView>)
    requires
        calmer(before, after),
    ensures
        active_layers(after).subset_of(active_layers(before)),
        active_layers(after).len() <= active_layers(before).len(),
        layers_exclusive(before) ==> layers_exclusive(after),
{
    lemma_active_layers_finite(before);
    assert(active_layers(after).subset_of(active_layers(before))) by {
        assert forall|x: TaskLayer| active_layers(after).contains(x) implies active_layers(
            before,
        ).contains(x) by {
            let i = choose|i: int|
                0 <= i < after.len() && occupies_layer(#[trigger] after[i]) && after[i].layer
                    == Some(x);
            assert(i < before.len());
            assert(occupies_layer(before[i]));
        }
    }
    lemma_len_subset(active_layers(after), active_layers(before));
    if layers_exclusive(before) {
        assert forall|i: int, j: int|
            0 <= i < after.len() && 0 <= j < after.len() && i != j && (
            #[trigger] after[i]).status.is_active() && (#[trigger] after[j]).status.is_active()
                && after[i].layer.is_some() implies after[i].layer != after[j].layer by {
            assert(i < before.len() && j < before.len());
            assert(before[i].status.is_active());
            assert(before[j].status.is_active());
        }
    }
}

/// A write that makes no task active leaves the tasks calmer.
pub proof fn lemma_write_activates_nothing(
    tasks: Seq<TaskView>,
    write: StoreWriteView,
    now: i64,
    fresh: u128,
)
    requires
        activates_nothing(write),
    ensures
        calmer(tasks, after_write(tasks, write, now, fresh)),
{
    let after = after_write(tasks, write, now, fresh);
    match write {
        StoreWriteView::CreateTask(c) => {
            assert forall|i: int| 0 <= i < tasks.len() implies (#[trigger] after[i]) == tasks[i] by {}
        },
        _ => {},
    }
}

/// A commit of writes that make no task active occupies no further layer
/// and keeps the layers exclusive.
pub proof fn lemma_commit_activates_nothing(
    tasks: Seq<TaskView>,
    writes: Seq<StoreWriteView>,
    now: i64,
    fresh: spec_fn(int) -> u128,
)
    requires
        forall|k: int| 0 <= k < writes.len() ==> activates_nothing(#[trigger] writes[k]),
    ensures
        calmer(tasks, after_writes(tasks, writes, now, fresh)),
        active_layers(after_writes(tasks, writes, now, fresh)).len() <= active_layers(tasks).len(),
        layers_exclusive(tasks) ==> layers_exclusive(after_writes(tasks, writes, now, fresh)),
    decreases writes.len(),
{
    if writes.len() > 0 {
        let earlier = after_writes(tasks, writes.drop_last(), now, fresh);
        assert forall|k: int| 0 <= k < writes.drop_last().len() implies activates_nothing(
            #[trigger] writes.drop_last()[k],
        ) by {
            assert(writes.drop_last()[k] == writes[k]);
        }
        lemma_commit_activates_nothing(tasks, writes.drop_last(), now, fresh);
        assert(activates_nothing(writes[writes.len() - 1]));
        lemma_write_activates_nothing(earlier, writes.last(), now, fresh(writes.len() - 1));
        let after = after_writes(tasks, writes, now, fresh);
        assert(calmer(tasks, after)) by {
            assert forall|i: int| 0 <= i < tasks.len() implies (#[trigger] after[i]).layer
                == tasks[i].layer && after[i].task_type == tasks[i].task_type && (
            after[i].status.is_active() ==> tasks[i].status.is_active()) by {
                assert(earlier[i].layer == tasks[i].layer);
            }
            assert forall|i: int| tasks.len() <= i < after.len() implies !(
            #[trigger] after[i]).status.is_active() by {
                if i < earlier.len() {
                    assert(!earlier[i].status.is_active());
                }
            }
        }
    }
    lemma_calmer_keeps_invariants(tasks, after_writes(tasks, writes, now, fresh));
}

/// Returning a task to work that is in review makes no task active that
/// was not: no further layer is occupied, and the layers stay exclusive.
pub proof fn lemma_return_to_work(tasks: Seq<TaskView>, task_id: u128, now: i64)
    requires
        forall|i: int|
            0 <= i < tasks.len() && (#[trigger] tasks[i]).id == task_id
                ==> tasks[i].status.is_active(),
    ensures
        calmer(tasks, with_status(tasks, task_id, TaskStatus::InProgress, now)),
        active_layers(with_status(tasks, task_id, TaskStatus::InProgress, now)).len()
            <= active_layers(tasks).len(),
        layers_exclusive(tasks) ==> layers_exclusive(
            with_status(tasks, task_id, TaskStatus::InProgress, now),
        ),
{
    lemma_calmer_keeps_invariants(tasks, with_status(tasks, task_id, TaskStatus::InProgress, now));
}


/// The subtasks of a breakdown are to do, so that creating them makes no
/// task active.
pub proof fn lemma_creations_activate_nothing(planned: Seq<CreateTaskView>, k: int)
    requires
        0 <= k < planned.len(),
        forall|i: int|
            0 <= i < planned.len() ==> (#[trigger] planned[i]).status == Some(TaskStatus::Todo),
    ensures
        activates_nothing(creations(planned)[k]),
{
}

/// Every commit with which the selector replaces a task makes no task
/// active: of all that the selector writes, only the start of a candidate
/// does.
pub proof fn lemma_replacements_activate_nothing(
    s: SelectorStateView,
    task: TaskView,
    analysis: ComplexityAnalysisResponseView,
    k: int,
)
    ensures
        0 <= k < replace_fullstack(s, task).1->Commit_writes.len()
            ==> activates_nothing(replace_fullstack(s, task).1->Commit_writes[k]),
        0 <= k < replace_complex(s, task, analysis).1->Commit_writes.len()
            ==> activates_nothing(
            replace_complex(s, task, analysis).1->Commit_writes[k],
        ),
{
    let by_layer = fullstack_subtasks(task);
    let first = replace_fullstack(s, task).1->Commit_writes;
    if 0 <= k < first.len() {
        if k < by_layer.len() {
            lemma_creations_activate_nothing(by_layer, k);
            assert(first[k] == creations(by_layer)[k]);
        }
    }
    let suggested = subtasks(task, analysis.suggestions());
    let second = replace_complex(s, task, analysis).1->Commit_writes;
    if 0 <= k < second.len() {
        if 1 <= k < 1 + suggested.len() {
            lemma_creations_activate_nothing(suggested, k - 1);
            assert(second[k] == creations(suggested)[k - 1]);
        }
    }
}

/// The commit with which the timeout monitor cancels a stalled task makes
/// no task active.
pub proof fn lemma_timeouts_activate_nothing(
    task: TaskView,
    timeout_minutes: i64,
    status: TaskStatus,
    k: int,
)
    requires
        0 <= k < cancel_stalled(
            task,
            timeout_minutes,
            status,
        )->Commit_writes.len(),
    ensures
        activates_nothing(
            cancel_stalled(task, timeout_minutes, status)->Commit_writes[k],
        ),
{
}


/// The one step of the review engine that sets a task in progress: below
/// the ceiling of conflicts, the task under review goes back to work.
pub open spec fn returns_to_work(
    s: ReviewStateView,
    event: ReviewEventView,
) -> bool {
    match (s.phase, event) {
        (
            ReviewPhaseView::CountingConflicts { job, detail },
            ReviewEventView::ConflictLogs(logs),
        ) => conflict_count(logs, job.task.id)
            < MAX_MERGE_CONFLICT_ATTEMPTS,
        _ => false,
    }
}

/// Every commit of the review engine makes no task active, but for the
/// one that returns the task under review to work; that commit writes
/// nothing else, and the task that it sets in progress was in review.
pub proof fn lemma_review_activates_only_by_return(
    s: ReviewStateView,
    event: ReviewEventView,
    k: int,
)
    requires
        review_step(s, event).1 is Commit,
        0 <= k < review_step(s, event).1->Commit_writes.len(),
    ensures
        !returns_to_work(s, event) ==> activates_nothing(
            review_step(s, event).1->Commit_writes[k],
        ),
        returns_to_work(s, event) ==> review_step(s, event).1->Commit_writes
            == seq![
            StoreWriteView::SetStatus {
                task_id: s.phase->CountingConflicts_job.task.id,
                status: TaskStatus::InProgress,
            },
        ],
{
    let writes = review_step(s, event).1->Commit_writes;
    match (s.phase, event) {
        (
            ReviewPhaseView::BreakingDown { job, count },
            ReviewEventView::Breakdown(answer),
        ) => {
            match conflict_plan(job.task, answer) {
                Ok(planned) => {
                    if k < planned.len() {
                        lemma_creations_activate_nothing(planned, k);
                        assert(writes[k] == creations(planned)[k]);
                    }
                },
                Err(_) => {},
            }
        },
        _ => {},
    }
}


/// Exclusive layers hold no two tasks in progress: this is what
/// exclusivity says of the tasks that are worked on.
pub proof fn lemma_no_two_in_progress(tasks: Seq<TaskView>, i: int, j: int)
    requires
        layers_exclusive(tasks),
        0 <= i < tasks.len(),
        0 <= j < tasks.len(),
        i != j,
        tasks[i].status == TaskStatus::InProgress,
        tasks[j].status == TaskStatus::InProgress,
        tasks[i].layer.is_some(),
    ensures
        tasks[i].layer != tasks[j].layer,
{
}


/// A full-stack task is never worked on as it is: a task that a cycle
/// starts was to do in the snapshot that the cycle began with, and does
/// not span the whole stack.
pub proof fn lemma_fullstack_never_starts(
    s: SelectorStateView,
    tasks: Seq<TaskView>,
    events: Seq<SelectorEventView>,
    n: int,
    id: u128,
)
    requires
        0 <= n < run(on_tasks(s, tasks).0, events).len(),
        starts(run(on_tasks(s, tasks).0, events)[n], id),
    ensures
        exists|k: int|
            0 <= k < tasks.len() && (#[trigger] tasks[k]).id == id && tasks[k].status
                == TaskStatus::Todo && tasks[k].layer != Some(TaskLayer::Fullstack),
{
    lemma_on_tasks(s, tasks, id);
    let next = on_tasks(s, tasks).0;
    if next.phase is Selecting {
        let offered = ids_of(candidates(tasks).unwrap());
        lemma_only_candidates_start(next, events, offered, n, id);
        lemma_candidates_may_start(tasks, id);
        let k = choose|k: int| may_start(tasks, k) && tasks[k].id == id;
        lemma_first_fullstack_todo(tasks);
        assert(!is_fullstack_todo(tasks[k]));
    } else {
        let nothing = Seq::<u128>::empty();
        lemma_only_candidates_start(next, events, nothing, n, id);
    }
}

} // verus!
