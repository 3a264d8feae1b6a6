use task_orchestrator::agent_activity::AgentAction;
use task_orchestrator::store::{Notification, StoreWrite};
use task_orchestrator::task::{Task, TaskSource, TaskStatus};
use task_orchestrator::task_timeout::{
    TaskTimeoutError, TaskTimeoutService, TimeoutCommand, TimeoutEvent, TimeoutPhase, TimeoutState,
};

const T0: i64 = 1_700_000_000;
const MINUTE: i64 = 60;

fn task(id: u128, project_id: u128, status: TaskStatus, stage_started_at: Option<i64>) -> Task {
    Task {
        id,
        project_id,
        title: format!("task {}", id),
        description: None,
        status,
        parent_workspace_id: None,
        source: TaskSource::Manual,
        layer: None,
        task_type: None,
        sequence: None,
        testing_criteria: None,
        stage_started_at,
        complexity_score: None,
        parent_task_id: None,
        prevent_breakdown: false,
        post_task_actions: None,
        created_at: 0,
        updated_at: 0,
    }
}

fn step(state: TimeoutState, event: TimeoutEvent) -> (TimeoutState, TimeoutCommand) {
    assert!(state.is_well_formed());
    assert!(state.expects(&event), "the event does not answer the state");
    let (next, command) = TaskTimeoutService::process_stalled_tasks(state, event);
    assert!(next.is_well_formed());
    (next, command)
}

fn begin(projects: Vec<u128>) -> (TimeoutState, TimeoutCommand) {
    let (state, command) = TaskTimeoutService::new().check_for_stalled_tasks();
    assert_eq!(command, TimeoutCommand::FindActiveProjects);
    assert_eq!(state.phase, TimeoutPhase::FindingProjects);
    step(state, TimeoutEvent::Projects(projects))
}

fn cancel(id: u128, project_id: u128, status: &str) -> TimeoutCommand {
    TimeoutCommand::Commit {
        writes: vec![
            StoreWrite::KillRunningProcesses { task_id: id },
            StoreWrite::SetStatus { task_id: id, status: TaskStatus::Cancelled },
            StoreWrite::AgentLog {
                project_id,
                task_id: Some(id),
                action: AgentAction::Timeout,
                reasoning: Some(format!(
                    "Task cancelled due to 20 minute timeout in {} status",
                    status
                )),
            },
        ],
        notification: Some(Notification {
            title: "Task Timeout".to_string(),
            message: format!(
                "Task 'task {}' cancelled due to timeout (20+ minutes in {} status)",
                id, status
            ),
        }),
    }
}

#[test]
fn the_service_as_spawned() {
    assert_eq!(
        TaskTimeoutService::new(),
        TaskTimeoutService {
            poll_interval_secs: 10,
            in_progress_timeout_minutes: 20,
            in_review_timeout_minutes: 20,
        }
    );
}

#[test]
fn the_boundary_of_the_timeout() {
    let at = |started: i64| {
        let tasks = vec![task(1, 1, TaskStatus::InProgress, Some(started))];
        Task::find_stalled_tasks(&tasks, 1, TaskStatus::InProgress, T0 + 20 * MINUTE, 20).len()
    };
    // Exactly twenty minutes: not yet stalled. One second more: stalled.
    assert_eq!(at(T0), 0);
    assert_eq!(at(T0 - 1), 1);
    assert_eq!(at(T0 + 1), 0);
    assert_eq!(at(T0 - 20 * MINUTE), 1);
}

#[test]
fn stalled_tasks_are_found_by_project_status_and_timer() {
    let now = T0 + 21 * MINUTE;
    let tasks = vec![
        task(1, 1, TaskStatus::InProgress, Some(T0)),
        task(2, 1, TaskStatus::InReview, Some(T0)),
        task(3, 2, TaskStatus::InProgress, Some(T0)),
        task(4, 1, TaskStatus::InProgress, None),
        task(5, 1, TaskStatus::InProgress, Some(T0 + 2 * MINUTE)),
        task(6, 1, TaskStatus::Todo, Some(T0)),
        task(7, 1, TaskStatus::InProgress, Some(T0 - 5)),
    ];
    let ids = |status, timeout| {
        Task::find_stalled_tasks(&tasks, 1, status, now, timeout)
            .iter()
            .map(|t| t.id)
            .collect::<Vec<_>>()
    };
    // Oldest stage first, whatever the order of the rows.
    assert_eq!(ids(TaskStatus::InProgress, 20), vec![7, 1]);
    assert_eq!(ids(TaskStatus::InReview, 20), vec![2]);
    assert_eq!(ids(TaskStatus::InProgress, 21), vec![7]);
    assert_eq!(ids(TaskStatus::InProgress, 22), Vec::<u128>::new());
    assert_eq!(ids(TaskStatus::InProgress, 0), vec![7, 1, 5]);
    assert_eq!(ids(TaskStatus::Done, 20), Vec::<u128>::new());
}

#[test]
fn stalled_tasks_come_oldest_stage_first_and_equal_ages_keep_their_order() {
    let tasks = vec![
        task(1, 1, TaskStatus::InProgress, Some(T0 + 30)),
        task(2, 1, TaskStatus::InProgress, Some(T0 + 10)),
        task(3, 1, TaskStatus::InProgress, Some(T0 + 20)),
        task(4, 1, TaskStatus::InProgress, Some(T0 + 10)),
        task(5, 1, TaskStatus::InProgress, Some(T0)),
        task(6, 1, TaskStatus::InProgress, Some(T0 + 30)),
    ];
    let found = Task::find_stalled_tasks(&tasks, 1, TaskStatus::InProgress, T0 + 60 * MINUTE, 20);
    assert_eq!(found.iter().map(|t| t.id).collect::<Vec<_>>(), vec![5, 2, 4, 3, 1, 6]);
    let sorted = vec![found[0].clone(), found[1].clone(), found[2].clone()];
    let again = Task::find_stalled_tasks(&sorted, 1, TaskStatus::InProgress, T0 + 60 * MINUTE, 20);
    assert_eq!(again.iter().map(|t| t.id).collect::<Vec<_>>(), vec![5, 2, 4]);
}

#[test]
fn extreme_clocks_and_timeouts_do_not_overflow() {
    let tasks = vec![task(1, 1, TaskStatus::InProgress, Some(i64::MIN))];
    assert_eq!(Task::find_stalled_tasks(&tasks, 1, TaskStatus::InProgress, i64::MAX, i64::MAX).len(), 0);
    assert_eq!(Task::find_stalled_tasks(&tasks, 1, TaskStatus::InProgress, i64::MAX, 0).len(), 1);
    let late = vec![task(1, 1, TaskStatus::InProgress, Some(i64::MAX))];
    assert_eq!(Task::find_stalled_tasks(&late, 1, TaskStatus::InProgress, i64::MIN, i64::MIN).len(), 1);
}

#[test]
fn a_task_is_cancelled_after_twenty_one_minutes_and_not_after_nineteen() {
    let stuck = task(1, 9, TaskStatus::InProgress, Some(T0));
    // At nineteen minutes the task is not touched.
    let (state, command) = begin(vec![9]);
    assert_eq!(command, TimeoutCommand::LoadTasks { project_id: 9 });
    let (state, command) =
        step(state, TimeoutEvent::Tasks { tasks: vec![stuck.clone()], now: T0 + 19 * MINUTE });
    assert_eq!(command, TimeoutCommand::Finish(Ok(())));
    assert!(state.is_finished());
    // At twenty-one minutes it is cancelled.
    let (state, _) = begin(vec![9]);
    let (state, command) =
        step(state, TimeoutEvent::Tasks { tasks: vec![stuck], now: T0 + 21 * MINUTE });
    assert_eq!(command, cancel(1, 9, "inprogress"));
    let (state, command) = step(state, TimeoutEvent::Committed);
    assert_eq!(command, TimeoutCommand::Finish(Ok(())));
    assert!(state.is_finished());
}

#[test]
fn no_project_ends_the_pass() {
    let (state, command) = begin(vec![]);
    assert_eq!(command, TimeoutCommand::Finish(Ok(())));
    assert!(state.is_finished());
    let (state, _) = TaskTimeoutService::new().check_for_stalled_tasks();
    let (_, command) = step(state, TimeoutEvent::StoreFailed("down".to_string()));
    assert_eq!(
        command,
        TimeoutCommand::Finish(Err(TaskTimeoutError::Database("down".to_string())))
    );
    assert_eq!(TaskTimeoutError::Database("down".to_string()).message(), "database error: down");
}

#[test]
fn tasks_in_progress_come_before_tasks_in_review_and_projects_in_order() {
    let now = T0 + 30 * MINUTE;
    let first = vec![
        task(1, 9, TaskStatus::InReview, Some(T0)),
        task(2, 9, TaskStatus::InProgress, Some(T0)),
        task(3, 9, TaskStatus::InProgress, Some(T0 + MINUTE)),
    ];
    let second = vec![task(4, 8, TaskStatus::InReview, Some(T0))];
    let (state, command) = begin(vec![9, 8]);
    assert_eq!(command, TimeoutCommand::LoadTasks { project_id: 9 });
    let (state, command) = step(state, TimeoutEvent::Tasks { tasks: first, now });
    assert_eq!(command, cancel(2, 9, "inprogress"));
    let (state, command) = step(state, TimeoutEvent::Committed);
    assert_eq!(command, cancel(3, 9, "inprogress"));
    let (state, command) = step(state, TimeoutEvent::Committed);
    assert_eq!(command, cancel(1, 9, "inreview"));
    let (state, command) = step(state, TimeoutEvent::Committed);
    assert_eq!(command, TimeoutCommand::LoadTasks { project_id: 8 });
    let (state, command) = step(state, TimeoutEvent::Tasks { tasks: second, now });
    assert_eq!(command, cancel(4, 8, "inreview"));
    let (state, command) = step(state, TimeoutEvent::Committed);
    assert_eq!(command, TimeoutCommand::Finish(Ok(())));
    assert!(state.is_finished());
}

#[test]
fn a_store_failure_gives_up_the_tasks_of_the_same_status_only() {
    let now = T0 + 30 * MINUTE;
    let tasks = vec![
        task(1, 9, TaskStatus::InProgress, Some(T0)),
        task(2, 9, TaskStatus::InProgress, Some(T0)),
        task(3, 9, TaskStatus::InReview, Some(T0)),
        task(4, 9, TaskStatus::InReview, Some(T0)),
    ];
    let (state, _) = begin(vec![9, 8]);
    let (state, command) = step(state, TimeoutEvent::Tasks { tasks, now });
    assert_eq!(command, cancel(1, 9, "inprogress"));
    let (state, command) = step(state, TimeoutEvent::StoreFailed("locked".to_string()));
    assert_eq!(command, cancel(3, 9, "inreview"));
    let (state, command) = step(state, TimeoutEvent::StoreFailed("locked".to_string()));
    assert_eq!(command, TimeoutCommand::LoadTasks { project_id: 8 });
    let (state, command) = step(state, TimeoutEvent::StoreFailed("locked".to_string()));
    assert_eq!(command, TimeoutCommand::Finish(Ok(())));
    assert!(state.is_finished());
}

#[test]
fn an_answer_out_of_turn_ends_the_pass() {
    let out_of_turn = || {
        TimeoutCommand::Finish(Err(TaskTimeoutError::Database(
            "an answer arrived that was not asked for".to_string(),
        )))
    };
    let (state, _) = TaskTimeoutService::new().check_for_stalled_tasks();
    let (state, command) = TaskTimeoutService::process_stalled_tasks(state, TimeoutEvent::Committed);
    assert_eq!(command, out_of_turn());
    assert!(state.is_finished());
    let (_, command) =
        TaskTimeoutService::process_stalled_tasks(state, TimeoutEvent::Projects(vec![1]));
    assert_eq!(command, out_of_turn());
    let broken = TimeoutState {
        service: TaskTimeoutService::new(),
        phase: TimeoutPhase::LoadingTasks { projects: vec![], index: 0 },
    };
    assert!(!broken.is_well_formed());
    let (_, command) = TaskTimeoutService::process_stalled_tasks(
        broken,
        TimeoutEvent::Tasks { tasks: vec![], now: 0 },
    );
    assert_eq!(command, out_of_turn());
}
