use task_orchestrator::agent_activity::{
    any_task, get_active_layers, has_active_integration_task, has_any_active_task, keep_tasks,
    select_candidates, AgentAction, AgentActivityError, AgentActivityLog,
    AgentActivitySettingsResponse, ProjectAgentSettings, Rule,
};
use task_orchestrator::claude_api::ClaudeApiError;
use task_orchestrator::selector::AgentActivityService;
use task_orchestrator::task::{Task, TaskLayer, TaskSource, TaskStatus, TaskType};

fn task(
    id: u128,
    status: TaskStatus,
    layer: Option<TaskLayer>,
    task_type: Option<TaskType>,
    sequence: Option<i32>,
) -> Task {
    Task {
        id,
        project_id: 1,
        title: format!("task {}", id),
        description: None,
        status,
        parent_workspace_id: None,
        source: TaskSource::Manual,
        layer,
        task_type,
        sequence,
        testing_criteria: None,
        stage_started_at: if status.active() { Some(0) } else { None },
        complexity_score: None,
        parent_task_id: None,
        prevent_breakdown: false,
        post_task_actions: None,
        created_at: 0,
        updated_at: 0,
    }
}

fn ids(tasks: &Vec<Task>) -> Vec<u128> {
    tasks.iter().map(|t| t.id).collect()
}

use TaskLayer::{Backend, Data, Devops, Frontend, Testing};
use TaskStatus::{Cancelled, Done, InProgress, InReview, Todo};
use TaskType::{Architecture, Implementation, Integration};

#[test]
fn active_layers_are_counted_once() {
    let tasks = vec![
        task(1, InProgress, Some(Backend), Some(Implementation), None),
        task(2, InReview, Some(Backend), None, None),
        task(3, InReview, Some(Data), Some(Architecture), None),
        task(4, InProgress, Some(Frontend), Some(Integration), None),
        task(5, Todo, Some(Devops), None, None),
        task(6, Done, Some(Testing), None, None),
        task(7, InProgress, None, None, None),
        task(8, Cancelled, Some(Testing), None, None),
    ];
    assert_eq!(get_active_layers(&tasks), vec![Backend, Data]);
    assert!(has_active_integration_task(&tasks));
    assert!(has_any_active_task(&tasks));
    assert_eq!(get_active_layers(&vec![]), vec![]);
    assert!(!has_active_integration_task(&vec![]));
    assert!(!has_any_active_task(&vec![]));
}

#[test]
fn an_active_integration_task_blocks_the_project() {
    let tasks = vec![
        task(1, InReview, Some(Backend), Some(Integration), None),
        task(2, Todo, Some(Data), Some(Implementation), Some(1)),
        task(3, Todo, Some(Frontend), Some(Architecture), None),
    ];
    assert_eq!(select_candidates(&tasks), Err(AgentActivityError::TaskAlreadyInProgress));
    let in_progress = vec![
        task(1, InProgress, None, Some(Integration), None),
        task(2, Todo, Some(Data), Some(Implementation), Some(1)),
    ];
    assert_eq!(select_candidates(&in_progress), Err(AgentActivityError::TaskAlreadyInProgress));
}

#[test]
fn a_free_layer_may_start_beside_active_ones() {
    let tasks = vec![
        task(1, InProgress, Some(Backend), Some(Implementation), None),
        task(2, Todo, Some(Backend), Some(Implementation), None),
        task(3, Todo, Some(Data), Some(Implementation), None),
        task(4, Todo, Some(Frontend), Some(Implementation), None),
        task(5, Todo, Some(Frontend), Some(Integration), None),
        task(6, Todo, None, Some(Implementation), None),
    ];
    let found = select_candidates(&tasks).unwrap();
    assert_eq!(ids(&found), vec![3, 4]);
}

#[test]
fn architecture_comes_first_within_free_layers() {
    let tasks = vec![
        task(1, InReview, Some(Backend), Some(Implementation), None),
        task(2, Todo, Some(Data), Some(Implementation), Some(1)),
        task(3, Todo, Some(Frontend), Some(Architecture), None),
        task(4, Todo, Some(Devops), Some(Architecture), None),
        task(5, Todo, Some(Backend), Some(Architecture), None),
    ];
    let found = select_candidates(&tasks).unwrap();
    assert_eq!(ids(&found), vec![3, 4]);
}

#[test]
fn three_occupied_layers_admit_no_fourth() {
    let tasks = vec![
        task(1, InProgress, Some(Backend), Some(Implementation), None),
        task(2, InProgress, Some(Data), Some(Implementation), None),
        task(3, InReview, Some(Frontend), Some(Implementation), None),
        task(4, Todo, Some(Devops), Some(Implementation), None),
    ];
    assert_eq!(select_candidates(&tasks), Err(AgentActivityError::TaskAlreadyInProgress));
    // Two tasks in one layer occupy one layer: a third layer may start.
    let two_layers = vec![
        task(1, InProgress, Some(Backend), Some(Implementation), None),
        task(2, InProgress, Some(Backend), Some(Implementation), None),
        task(3, InReview, Some(Frontend), Some(Implementation), None),
        task(4, Todo, Some(Devops), Some(Implementation), None),
    ];
    assert_eq!(ids(&select_candidates(&two_layers).unwrap()), vec![4]);
}

#[test]
fn an_active_task_blocks_what_has_no_free_layer() {
    let tasks = vec![
        task(1, InProgress, Some(Backend), Some(Implementation), None),
        task(2, Todo, Some(Backend), Some(Implementation), Some(1)),
        task(3, Todo, None, Some(Architecture), None),
        task(4, Todo, Some(Data), Some(Integration), None),
    ];
    assert_eq!(select_candidates(&tasks), Err(AgentActivityError::TaskAlreadyInProgress));
    // An active task without a layer occupies none, but still blocks.
    let unlayered = vec![
        task(1, InProgress, None, Some(Implementation), None),
        task(2, Todo, None, Some(Implementation), None),
    ];
    assert_eq!(select_candidates(&unlayered), Err(AgentActivityError::TaskAlreadyInProgress));
}

#[test]
fn with_nothing_active_the_highest_class_is_chosen() {
    let all = vec![
        task(1, Todo, None, Some(Integration), None),
        task(2, Todo, Some(Backend), Some(Implementation), None),
        task(3, Todo, None, Some(Architecture), None),
        task(4, Todo, None, Some(Integration), Some(1)),
        task(5, Todo, None, None, Some(1)),
        task(6, Done, None, Some(Architecture), Some(1)),
    ];
    // A task in a layer is to do: the layered rule applies first.
    assert_eq!(ids(&select_candidates(&all).unwrap()), vec![2]);
    let unlayered = vec![
        task(1, Todo, None, Some(Integration), None),
        task(2, Todo, None, Some(Implementation), None),
        task(3, Todo, None, Some(Architecture), None),
        task(4, Todo, None, Some(Integration), Some(1)),
        task(5, Todo, None, None, Some(1)),
        task(6, Done, None, Some(Architecture), Some(1)),
    ];
    assert_eq!(ids(&select_candidates(&unlayered).unwrap()), vec![4, 5]);
    let no_init = vec![
        task(1, Todo, None, Some(Integration), None),
        task(2, Todo, None, Some(Implementation), Some(2)),
        task(3, Todo, None, Some(Architecture), None),
        task(7, Todo, None, Some(Architecture), Some(3)),
    ];
    assert_eq!(ids(&select_candidates(&no_init).unwrap()), vec![3, 7]);
    let no_arch = vec![
        task(1, Todo, None, Some(Integration), None),
        task(2, Todo, None, Some(Implementation), Some(2)),
        task(8, Todo, None, None, None),
    ];
    assert_eq!(ids(&select_candidates(&no_arch).unwrap()), vec![2]);
    let rest = vec![
        task(1, Todo, None, Some(Integration), None),
        task(8, Todo, None, None, None),
        task(9, Cancelled, None, Some(Implementation), None),
    ];
    assert_eq!(ids(&select_candidates(&rest).unwrap()), vec![1, 8]);
}

#[test]
fn nothing_to_do_leaves_no_candidates() {
    assert_eq!(select_candidates(&vec![]), Ok(vec![]));
    let settled = vec![
        task(1, Done, Some(Backend), None, None),
        task(2, Cancelled, Some(Data), None, None),
    ];
    assert_eq!(select_candidates(&settled), Ok(vec![]));
}

#[test]
fn starting_any_candidate_keeps_the_layer_bound_and_exclusivity() {
    let tasks = vec![
        task(1, InProgress, Some(Backend), Some(Implementation), None),
        task(2, InReview, Some(Data), Some(Implementation), None),
        task(3, Todo, Some(Frontend), Some(Implementation), None),
        task(4, Todo, Some(Devops), Some(Implementation), None),
        task(5, Todo, Some(Backend), Some(Implementation), None),
    ];
    let found = select_candidates(&tasks).unwrap();
    assert_eq!(ids(&found), vec![3, 4]);
    for chosen in &found {
        let after: Vec<Task> = tasks
            .iter()
            .map(|t| if t.id == chosen.id { t.with_status(InProgress, 10) } else { t.clone() })
            .collect();
        let layers = get_active_layers(&after);
        assert!(layers.len() <= 3);
        let active: Vec<_> = after.iter().filter(|t| t.status.active()).collect();
        for a in &active {
            for b in &active {
                if a.id != b.id {
                    assert_ne!(a.layer, b.layer);
                }
            }
        }
        // With three layers occupied, nothing more may start.
        assert_eq!(select_candidates(&after), Err(AgentActivityError::TaskAlreadyInProgress));
    }
}

#[test]
fn rules_keep_what_they_admit() {
    let tasks = vec![
        task(1, Todo, Some(Backend), Some(Implementation), Some(1)),
        task(2, Todo, Some(Data), Some(Architecture), None),
        task(3, InProgress, Some(Frontend), Some(Integration), Some(1)),
    ];
    let busy = vec![Backend];
    assert_eq!(ids(&keep_tasks(&tasks, Rule::FreeLayer, &busy)), vec![2]);
    assert_eq!(ids(&keep_tasks(&tasks, Rule::Todo, &busy)), vec![1, 2]);
    assert_eq!(ids(&keep_tasks(&tasks, Rule::Initialization, &busy)), vec![1, 3]);
    assert_eq!(ids(&keep_tasks(&tasks, Rule::Architecture, &busy)), vec![2]);
    assert_eq!(ids(&keep_tasks(&tasks, Rule::Implementation, &busy)), vec![1]);
    assert!(any_task(&tasks, Rule::FreeLayer, &busy));
    assert!(!any_task(&tasks, Rule::FreeLayer, &vec![Backend, Data]));
}

#[test]
fn errors_of_the_selector() {
    assert_eq!(AgentActivityError::Database("locked".to_string()).message(), "database error: locked");
    assert_eq!(
        AgentActivityError::ClaudeApi(ClaudeApiError::Timeout).message(),
        "advisor api error: timeout"
    );
    assert_eq!(AgentActivityError::NoTasksAvailable.message(), "no tasks available");
    assert_eq!(AgentActivityError::TaskAlreadyInProgress.message(), "task already in progress");
    assert_eq!(AgentActivityError::NotEnabled.message(), "agent activity not enabled");
    assert_eq!(
        AgentActivityError::WorkspaceCreation("no disk".to_string()).message(),
        "workspace creation failed: no disk"
    );
    assert_eq!(AgentActivityError::NoRepositories.message(), "no repositories for project");
    assert!(AgentActivityError::NoTasksAvailable.is_routine());
    assert!(AgentActivityError::TaskAlreadyInProgress.is_routine());
    assert!(!AgentActivityError::NotEnabled.is_routine());
    assert!(!AgentActivityError::Database(String::new()).is_routine());
    let e = AgentActivityError::ClaudeApi(ClaudeApiError::Serde("x".to_string()));
    assert_eq!(e.clone(), e);
}

#[test]
fn actions_of_the_selector() {
    for action in [
        AgentAction::Selected,
        AgentAction::Skipped,
        AgentAction::Error,
        AgentAction::Replaced,
        AgentAction::Timeout,
    ] {
        assert_eq!(AgentAction::parse(action.as_str()), Some(action));
    }
    assert_eq!(AgentAction::Replaced.as_str(), "replaced");
    assert_eq!(AgentAction::Timeout.as_str(), "timeout");
    assert_eq!(AgentAction::parse("Selected"), None);
}

#[test]
fn enabling_upserts_the_settings() {
    let fresh = AgentActivityService::enable(None, 11, 1, 500);
    assert_eq!(
        fresh,
        ProjectAgentSettings {
            id: 11,
            project_id: 1,
            enabled: true,
            interval_seconds: 60,
            created_at: 500,
            updated_at: 500,
        }
    );
    let custom = ProjectAgentSettings::create_or_update(Some(fresh), 12, 1, true, 15, 550);
    assert_eq!(custom.interval_seconds, 15);
    assert_eq!(custom.id, 11);
    let off = AgentActivityService::disable(Some(custom), 13, 1, 600);
    assert_eq!(
        off,
        ProjectAgentSettings {
            id: 11,
            project_id: 1,
            enabled: false,
            interval_seconds: 60,
            created_at: 500,
            updated_at: 600,
        }
    );
    let response: AgentActivitySettingsResponse = off.into();
    assert_eq!(response, AgentActivitySettingsResponse { enabled: false, interval_seconds: 60 });
}

#[test]
fn status_of_the_selector() {
    let none = AgentActivityService::get_status(None, None);
    assert!(!none.enabled);
    assert_eq!(none.interval_seconds, 60);
    assert_eq!(none.last_run, None);
    assert_eq!(none.last_selected_task_id, None);
    assert_eq!(none.last_reasoning, None);
    let settings = ProjectAgentSettings {
        id: 1,
        project_id: 1,
        enabled: true,
        interval_seconds: 30,
        created_at: 0,
        updated_at: 0,
    };
    let log = |action| AgentActivityLog {
        id: 2,
        project_id: 1,
        task_id: Some(9),
        action,
        reasoning: Some("why".to_string()),
        created_at: 77,
    };
    let selected = AgentActivityService::get_status(Some(settings), Some(log(AgentAction::Selected)));
    assert!(selected.enabled);
    assert_eq!(selected.interval_seconds, 30);
    assert_eq!(selected.last_run, Some(77));
    assert_eq!(selected.last_selected_task_id, Some(9));
    assert_eq!(selected.last_reasoning.as_deref(), Some("why"));
    let replaced = AgentActivityService::get_status(Some(settings), Some(log(AgentAction::Replaced)));
    assert_eq!(replaced.last_selected_task_id, None);
    assert_eq!(replaced.last_run, Some(77));
    assert_eq!(replaced.last_reasoning.as_deref(), Some("why"));
}
