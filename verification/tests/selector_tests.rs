use task_orchestrator::agent_activity::{AgentAction, AgentActivityError, AgentTriggerResponse};
use task_orchestrator::breakdown::{ComplexityAnalysisResponse, SubtaskSuggestion};
use task_orchestrator::claude_api::ClaudeApiError;
use task_orchestrator::ident::id_text;
use task_orchestrator::selector::{
    check_selection, describe_candidates, validate_selection, AgentActivityService, RepoBranch,
    SelectorAction, SelectorEvent, SelectorPhase, SelectorState, TaskInfo, TaskSelectionResponse,
};
use task_orchestrator::store::{Notification, StoreWrite};
use task_orchestrator::task::{CreateTask, Task, TaskLayer, TaskSource, TaskStatus, TaskType};
use task_orchestrator::workspace::{CreateWorkspaceRepo, Repo};

const PROJECT: u128 = 0x1000;

fn task(
    id: u128,
    status: TaskStatus,
    layer: Option<TaskLayer>,
    task_type: Option<TaskType>,
    sequence: Option<i32>,
) -> Task {
    Task {
        id,
        project_id: PROJECT,
        title: format!("task {}", id),
        description: Some(format!("about {}", id)),
        status,
        parent_workspace_id: None,
        source: TaskSource::Manual,
        layer,
        task_type,
        sequence,
        testing_criteria: Some("it works".to_string()),
        stage_started_at: if status.active() { Some(0) } else { None },
        complexity_score: None,
        parent_task_id: None,
        prevent_breakdown: false,
        post_task_actions: None,
        created_at: 0,
        updated_at: 0,
    }
}

fn step(state: SelectorState, event: SelectorEvent) -> (SelectorState, SelectorAction) {
    assert!(state.expects(&event), "the event does not answer the state");
    AgentActivityService::step(state, event)
}

fn begin(auto_attempt: bool, tasks: Vec<Task>) -> (SelectorState, SelectorAction) {
    let (state, action) = AgentActivityService::check_and_select_next_task(PROJECT, auto_attempt);
    assert_eq!(action, SelectorAction::LoadTasks { project_id: PROJECT });
    assert_eq!(state.phase, SelectorPhase::LoadingTasks);
    step(state, SelectorEvent::Tasks(tasks))
}

fn choice(id: u128, reasoning: &str) -> SelectorEvent {
    SelectorEvent::Selection(Ok(TaskSelectionResponse {
        task_id: id_text(id),
        reasoning: reasoning.to_string(),
    }))
}

fn log(task_id: Option<u128>, action: AgentAction, reasoning: &str) -> StoreWrite {
    StoreWrite::AgentLog {
        project_id: PROJECT,
        task_id,
        action,
        reasoning: Some(reasoning.to_string()),
    }
}

fn notification(title: &str, message: &str) -> Option<Notification> {
    Some(Notification { title: title.to_string(), message: message.to_string() })
}

fn simple_analysis(score: i32) -> SelectorEvent {
    SelectorEvent::Complexity(Ok(ComplexityAnalysisResponse {
        complexity_score: score,
        can_be_broken_down: false,
        reasoning: "small".to_string(),
        subtasks: Some(vec![]),
    }))
}

#[test]
fn the_initialisation_task_is_selected() {
    let only = task(1, TaskStatus::Todo, None, Some(TaskType::Implementation), Some(1));
    let (state, action) = begin(false, vec![only.clone()]);
    assert_eq!(
        action,
        SelectorAction::AskSelection {
            candidates: vec![TaskInfo {
                id: "00000000-0000-0000-0000-000000000001".to_string(),
                title: "task 1".to_string(),
                description: Some("about 1".to_string()),
                layer: None,
                task_type: Some("implementation".to_string()),
                sequence: Some(1),
            }],
        }
    );
    let (state, action) = step(state, choice(1, "set the project up first"));
    assert_eq!(action, SelectorAction::LoadTask { task_id: 1 });
    let (state, action) = step(state, SelectorEvent::Task(Some(only.clone())));
    assert_eq!(action, SelectorAction::AskComplexity { task: only.clone() });
    let (state, action) = step(state, simple_analysis(3));
    assert_eq!(
        action,
        SelectorAction::Commit {
            writes: vec![
                StoreWrite::SaveComplexity { task_id: 1, score: 3 },
                StoreWrite::SetStatus { task_id: 1, status: TaskStatus::InProgress },
                log(Some(1), AgentAction::Selected, "set the project up first"),
            ],
            notification: notification("Task Selected", "Starting: task 1"),
        }
    );
    let (state, action) = step(state, SelectorEvent::Committed);
    assert_eq!(
        action,
        SelectorAction::Finish(Ok(AgentTriggerResponse {
            action: AgentAction::Selected,
            task_id: Some(1),
            reasoning: Some("set the project up first".to_string()),
        }))
    );
    assert!(state.is_finished());
    assert!(!state.expects(&SelectorEvent::Committed));
}

#[test]
fn a_fullstack_task_is_replaced_and_nothing_is_selected() {
    let mut full = task(5, TaskStatus::Todo, Some(TaskLayer::Fullstack), None, Some(4));
    full.title = "Shop".to_string();
    full.description = Some("Sell things".to_string());
    let other = task(6, TaskStatus::Todo, Some(TaskLayer::Data), None, Some(1));
    let (state, action) = begin(true, vec![other, full]);
    let subtask = |layer: TaskLayer, name: &str| {
        StoreWrite::CreateTask(CreateTask {
            project_id: PROJECT,
            title: format!("Shop - {} Layer", name),
            description: Some(format!(
                "Sell things\n\n[Auto-generated {} layer subtask from Fullstack task]",
                name
            )),
            status: Some(TaskStatus::Todo),
            parent_workspace_id: None,
            image_ids: None,
            source: Some(TaskSource::AiGenerated),
            layer: Some(layer),
            task_type: None,
            sequence: Some(4),
            testing_criteria: Some("it works".to_string()),
            parent_task_id: Some(5),
            prevent_breakdown: Some(true),
            post_task_actions: None,
        })
    };
    assert_eq!(
        action,
        SelectorAction::Commit {
            writes: vec![
                subtask(TaskLayer::Data, "Data"),
                subtask(TaskLayer::Backend, "Backend"),
                subtask(TaskLayer::Frontend, "Frontend"),
                StoreWrite::SetStatus { task_id: 5, status: TaskStatus::Cancelled },
                log(
                    Some(5),
                    AgentAction::Replaced,
                    "Fullstack task broken into 3 layer-specific subtasks"
                ),
            ],
            notification: notification("Task Breakdown", "Fullstack task 'Shop' split into 3 subtasks"),
        }
    );
    let (state, action) = step(state, SelectorEvent::Committed);
    assert_eq!(
        action,
        SelectorAction::Finish(Ok(AgentTriggerResponse {
            action: AgentAction::Replaced,
            task_id: Some(5),
            reasoning: Some("Fullstack task broken into 3 layer-specific subtasks".to_string()),
        }))
    );
    assert!(state.is_finished());
}

#[test]
fn the_layer_subtasks_of_a_task_without_a_sequence_have_none() {
    let full = task(5, TaskStatus::Todo, Some(TaskLayer::Fullstack), Some(TaskType::Architecture), None);
    let (_, action) = begin(false, vec![full]);
    match action {
        SelectorAction::Commit { writes, .. } => {
            let created: Vec<&CreateTask> = writes
                .iter()
                .filter_map(|w| match w {
                    StoreWrite::CreateTask(c) => Some(c),
                    _ => None,
                })
                .collect();
            assert_eq!(created.len(), 3);
            for c in created {
                assert_eq!(c.sequence, None);
                assert_eq!(c.task_type, Some(TaskType::Architecture));
                assert_eq!(c.testing_criteria.as_deref(), Some("it works"));
                assert_eq!(c.project_id, PROJECT);
            }
        }
        other => panic!("expected a commit, got {:?}", other),
    }
}

#[test]
fn a_fullstack_task_is_replaced_even_while_the_project_is_blocked() {
    let full = task(5, TaskStatus::Todo, Some(TaskLayer::Fullstack), None, None);
    let running = task(6, TaskStatus::InProgress, None, Some(TaskType::Integration), None);
    let (_, action) = begin(false, vec![running, full]);
    match action {
        SelectorAction::Commit { writes, .. } => {
            assert_eq!(writes.len(), 5);
            assert!(!writes.iter().any(|w| matches!(
                w,
                StoreWrite::SetStatus { status: TaskStatus::InProgress, .. }
            )));
        }
        other => panic!("expected a commit, got {:?}", other),
    }
}

#[test]
fn an_active_integration_task_ends_the_cycle() {
    let running = task(6, TaskStatus::InReview, Some(TaskLayer::Backend), Some(TaskType::Integration), None);
    let waiting = task(7, TaskStatus::Todo, Some(TaskLayer::Data), None, Some(1));
    let (state, action) = begin(true, vec![running, waiting]);
    assert_eq!(action, SelectorAction::Finish(Err(AgentActivityError::TaskAlreadyInProgress)));
    assert!(state.is_finished());
}

#[test]
fn nothing_eligible_is_logged_as_skipped() {
    let done = task(1, TaskStatus::Done, None, None, None);
    let (state, action) = begin(true, vec![done]);
    assert_eq!(
        action,
        SelectorAction::Commit {
            writes: vec![log(None, AgentAction::Skipped, "No eligible tasks available")],
            notification: None,
        }
    );
    let (_, action) = step(state, SelectorEvent::Committed);
    assert_eq!(
        action,
        SelectorAction::Finish(Ok(AgentTriggerResponse {
            action: AgentAction::Skipped,
            task_id: None,
            reasoning: Some("No eligible tasks available".to_string()),
        }))
    );
}

#[test]
fn a_choice_that_was_not_offered_is_an_error() {
    let a = task(1, TaskStatus::Todo, None, Some(TaskType::Architecture), None);
    let b = task(2, TaskStatus::Todo, None, Some(TaskType::Implementation), None);
    let (state, action) = begin(true, vec![a, b]);
    match &action {
        SelectorAction::AskSelection { candidates } => assert_eq!(candidates.len(), 1),
        other => panic!("expected a question, got {:?}", other),
    }
    // Task 2 exists, but it was no candidate.
    let (state, action) = step(state, choice(2, "I like it"));
    let error = AgentActivityError::ClaudeApi(ClaudeApiError::Serde(
        "AI selected invalid task ID: 00000000-0000-0000-0000-000000000002".to_string(),
    ));
    assert_eq!(
        action,
        SelectorAction::Commit {
            writes: vec![log(
                None,
                AgentAction::Error,
                "advisor api error: json error: AI selected invalid task ID: 00000000-0000-0000-0000-000000000002"
            )],
            notification: None,
        }
    );
    let (_, action) = step(state, SelectorEvent::Committed);
    assert_eq!(action, SelectorAction::Finish(Err(error)));
}

#[test]
fn a_choice_that_names_no_task_is_an_error() {
    let a = task(1, TaskStatus::Todo, None, None, None);
    let (state, _) = begin(true, vec![a]);
    let (state, action) = step(
        state,
        SelectorEvent::Selection(Ok(TaskSelectionResponse {
            task_id: "the first one".to_string(),
            reasoning: "r".to_string(),
        })),
    );
    assert_eq!(
        action,
        SelectorAction::Commit {
            writes: vec![log(
                None,
                AgentAction::Error,
                "advisor api error: json error: Invalid task ID from AI: the first one"
            )],
            notification: None,
        }
    );
    let (_, action) = step(state, SelectorEvent::StoreFailed("disk full".to_string()));
    assert_eq!(
        action,
        SelectorAction::Finish(Err(AgentActivityError::Database("disk full".to_string())))
    );
}

#[test]
fn a_failure_of_the_advisor_is_logged_and_ends_the_cycle() {
    let a = task(1, TaskStatus::Todo, None, None, None);
    let (state, _) = begin(true, vec![a]);
    let (state, action) = step(state, SelectorEvent::Selection(Err(ClaudeApiError::RateLimited)));
    assert_eq!(
        action,
        SelectorAction::Commit {
            writes: vec![log(None, AgentAction::Error, "advisor api error: rate limited")],
            notification: None,
        }
    );
    let (_, action) = step(state, SelectorEvent::Committed);
    assert_eq!(
        action,
        SelectorAction::Finish(Err(AgentActivityError::ClaudeApi(ClaudeApiError::RateLimited)))
    );
}

#[test]
fn validation_of_a_choice() {
    let ids = vec![3u128, 4];
    let ok = TaskSelectionResponse { task_id: id_text(4), reasoning: String::new() };
    assert_eq!(validate_selection(&ids, &ok), Ok(4));
    let upper = TaskSelectionResponse {
        task_id: "00000000-0000-0000-0000-00000000000" .to_string() + "3",
        reasoning: String::new(),
    };
    assert_eq!(validate_selection(&ids, &upper), Ok(3));
    let other = TaskSelectionResponse { task_id: id_text(5), reasoning: String::new() };
    assert_eq!(
        validate_selection(&ids, &other),
        Err(ClaudeApiError::Serde(
            "AI selected invalid task ID: 00000000-0000-0000-0000-000000000005".to_string()
        ))
    );
    let junk = TaskSelectionResponse { task_id: "4".to_string(), reasoning: String::new() };
    assert_eq!(
        validate_selection(&ids, &junk),
        Err(ClaudeApiError::Serde("Invalid task ID from AI: 4".to_string()))
    );
    assert_eq!(check_selection(&ids, "x", Some(3)), Ok(3));
    assert_eq!(
        check_selection(&ids, "x", None),
        Err(ClaudeApiError::Serde("Invalid task ID from AI: x".to_string()))
    );
    assert_eq!(
        check_selection(&vec![], "x", Some(3)),
        Err(ClaudeApiError::Serde(
            "AI selected invalid task ID: 00000000-0000-0000-0000-000000000003".to_string()
        ))
    );
}

#[test]
fn a_task_that_is_gone_ends_the_cycle() {
    let a = task(1, TaskStatus::Todo, None, None, None);
    let (state, _) = begin(true, vec![a.clone()]);
    let (state, _) = step(state, choice(1, "r"));
    let (_, action) = step(state, SelectorEvent::Task(None));
    assert_eq!(action, SelectorAction::Finish(Err(AgentActivityError::NoTasksAvailable)));
    // Another task in its place is not started either.
    let (state, _) = begin(true, vec![a]);
    let (state, _) = step(state, choice(1, "r"));
    let stranger = task(2, TaskStatus::Todo, None, None, None);
    let (_, action) = step(state, SelectorEvent::Task(Some(stranger)));
    assert_eq!(action, SelectorAction::Finish(Err(AgentActivityError::NoTasksAvailable)));
}

#[test]
fn a_subtask_is_started_without_analysis_and_a_workspace_follows() {
    let mut child = task(9, TaskStatus::Todo, Some(TaskLayer::Data), None, Some(20));
    child.parent_task_id = Some(2);
    child.prevent_breakdown = true;
    let (state, _) = begin(true, vec![child.clone()]);
    let (state, _) = step(state, choice(9, "next"));
    let (state, action) = step(state, SelectorEvent::Task(Some(child.clone())));
    assert_eq!(
        action,
        SelectorAction::Commit {
            writes: vec![
                StoreWrite::SetStatus { task_id: 9, status: TaskStatus::InProgress },
                log(Some(9), AgentAction::Selected, "next"),
            ],
            notification: notification("Task Selected", "Starting: task 9"),
        }
    );
    let (state, action) = step(state, SelectorEvent::Committed);
    assert_eq!(action, SelectorAction::StartWorkspace { task: child });
    let (state, action) = step(state, SelectorEvent::WorkspaceStarted);
    assert_eq!(
        action,
        SelectorAction::Finish(Ok(AgentTriggerResponse {
            action: AgentAction::Selected,
            task_id: Some(9),
            reasoning: Some("next".to_string()),
        }))
    );
    assert!(state.is_finished());
}

#[test]
fn a_manual_trigger_never_starts_a_workspace() {
    let mut scored = task(9, TaskStatus::Todo, None, None, None);
    scored.complexity_score = Some(2);
    let (state, _) = begin(false, vec![scored.clone()]);
    let (state, _) = step(state, choice(9, "go"));
    let (state, _) = step(state, SelectorEvent::Task(Some(scored)));
    let (state, action) = step(state, SelectorEvent::Committed);
    assert!(matches!(action, SelectorAction::Finish(Ok(_))));
    assert!(state.is_finished());
}

#[test]
fn a_store_failure_while_starting_ends_the_cycle() {
    let mut scored = task(9, TaskStatus::Todo, None, None, None);
    scored.complexity_score = Some(2);
    let (state, _) = begin(true, vec![scored.clone()]);
    let (state, _) = step(state, choice(9, "go"));
    let (state, _) = step(state, SelectorEvent::Task(Some(scored)));
    let (state, action) = step(state, SelectorEvent::StoreFailed("locked".to_string()));
    assert_eq!(
        action,
        SelectorAction::Finish(Err(AgentActivityError::Database("locked".to_string())))
    );
    assert!(state.is_finished());
    let (state, _) = AgentActivityService::check_and_select_next_task(PROJECT, true);
    let (_, action) = step(state, SelectorEvent::StoreFailed("down".to_string()));
    assert_eq!(
        action,
        SelectorAction::Finish(Err(AgentActivityError::Database("down".to_string())))
    );
}

#[test]
fn analysis_is_advisory() {
    let a = task(1, TaskStatus::Todo, None, None, None);
    let (state, _) = begin(false, vec![a.clone()]);
    let (state, _) = step(state, choice(1, "r"));
    let (state, _) = step(state, SelectorEvent::Task(Some(a)));
    let (_, action) = step(state, SelectorEvent::Complexity(Err(ClaudeApiError::Timeout)));
    assert_eq!(
        action,
        SelectorAction::Commit {
            writes: vec![
                StoreWrite::SetStatus { task_id: 1, status: TaskStatus::InProgress },
                log(Some(1), AgentAction::Selected, "r"),
            ],
            notification: notification("Task Selected", "Starting: task 1"),
        }
    );
}

fn suggestion(title: &str, layer: Option<&str>) -> SubtaskSuggestion {
    SubtaskSuggestion {
        title: title.to_string(),
        description: format!("do {}", title),
        layer: layer.map(|l| l.to_string()),
    }
}

#[test]
fn a_complex_task_is_replaced_by_its_subtasks() {
    let big = task(3, TaskStatus::Todo, Some(TaskLayer::Backend), Some(TaskType::Implementation), Some(2));
    let (state, _) = begin(true, vec![big.clone()]);
    let (state, _) = step(state, choice(3, "r"));
    let (state, _) = step(state, SelectorEvent::Task(Some(big)));
    let (state, action) = step(
        state,
        SelectorEvent::Complexity(Ok(ComplexityAnalysisResponse {
            complexity_score: 8,
            can_be_broken_down: true,
            reasoning: "two concerns".to_string(),
            subtasks: Some(vec![suggestion("schema", Some("data")), suggestion("api", None)]),
        })),
    );
    let child = |title: &str, layer: TaskLayer, sequence: i32| {
        StoreWrite::CreateTask(CreateTask {
            project_id: PROJECT,
            title: title.to_string(),
            description: Some(format!("do {}", title)),
            status: Some(TaskStatus::Todo),
            parent_workspace_id: None,
            image_ids: None,
            source: Some(TaskSource::AiGenerated),
            layer: Some(layer),
            task_type: Some(TaskType::Implementation),
            sequence: Some(sequence),
            testing_criteria: Some("it works".to_string()),
            parent_task_id: Some(3),
            prevent_breakdown: Some(true),
            post_task_actions: None,
        })
    };
    assert_eq!(
        action,
        SelectorAction::Commit {
            writes: vec![
                StoreWrite::SaveComplexity { task_id: 3, score: 8 },
                child("schema", TaskLayer::Data, 20),
                child("api", TaskLayer::Backend, 21),
                StoreWrite::SetStatus { task_id: 3, status: TaskStatus::Cancelled },
                log(
                    Some(3),
                    AgentAction::Replaced,
                    "Complex task (score 8) broken into 2 subtasks: two concerns"
                ),
            ],
            notification: notification("Task Breakdown", "Complex task 'task 3' split into 2 subtasks"),
        }
    );
    let (state, action) = step(state, SelectorEvent::Committed);
    assert_eq!(
        action,
        SelectorAction::Finish(Ok(AgentTriggerResponse {
            action: AgentAction::Replaced,
            task_id: Some(3),
            reasoning: Some("Complex task broken into 2 subtasks".to_string()),
        }))
    );
    assert!(state.is_finished());
}

#[test]
fn a_complex_task_that_cannot_be_split_is_started() {
    let big = task(3, TaskStatus::Todo, None, None, None);
    for (score, can, count) in [(8, false, 2), (6, true, 2), (9, true, 1), (9, true, 0)] {
        let (state, _) = begin(false, vec![big.clone()]);
        let (state, _) = step(state, choice(3, "r"));
        let (state, _) = step(state, SelectorEvent::Task(Some(big.clone())));
        let subtasks = (0..count).map(|i| suggestion(&format!("s{}", i), None)).collect();
        let (_, action) = step(
            state,
            SelectorEvent::Complexity(Ok(ComplexityAnalysisResponse {
                complexity_score: score,
                can_be_broken_down: can,
                reasoning: String::new(),
                subtasks: Some(subtasks),
            })),
        );
        assert_eq!(
            action,
            SelectorAction::Commit {
                writes: vec![
                    StoreWrite::SaveComplexity { task_id: 3, score },
                    StoreWrite::SetStatus { task_id: 3, status: TaskStatus::InProgress },
                    log(Some(3), AgentAction::Selected, "r"),
                ],
                notification: notification("Task Selected", "Starting: task 3"),
            }
        );
    }
}

#[test]
fn candidates_are_described_to_the_advisor() {
    let t = task(
        0xabcdef,
        TaskStatus::Todo,
        Some(TaskLayer::Frontend),
        Some(TaskType::Architecture),
        None,
    );
    assert_eq!(
        describe_candidates(&vec![t]),
        vec![TaskInfo {
            id: "00000000-0000-0000-0000-000000abcdef".to_string(),
            title: "task 11259375".to_string(),
            description: Some("about 11259375".to_string()),
            layer: Some("frontend".to_string()),
            task_type: Some("architecture".to_string()),
            sequence: None,
        }]
    );
}

#[test]
fn the_workspace_of_an_attempt() {
    let repo = |id: u128, name: &str| Repo { id, name: name.to_string(), path: format!("/r/{}", name) };
    assert_eq!(
        AgentActivityService::auto_start_attempt(&vec![]),
        Err(AgentActivityError::NoRepositories)
    );
    assert_eq!(
        AgentActivityService::auto_start_attempt(&vec![repo(1, "web")]),
        Ok(Some("web".to_string()))
    );
    assert_eq!(
        AgentActivityService::auto_start_attempt(&vec![repo(1, "web"), repo(2, "api")]),
        Ok(None)
    );
    assert_eq!(
        AgentActivityService::bind_repos(&vec![
            RepoBranch { repo_id: 1, current_branch: Some("develop".to_string()) },
            RepoBranch { repo_id: 2, current_branch: None },
        ]),
        vec![
            CreateWorkspaceRepo { repo_id: 1, target_branch: "develop".to_string() },
            CreateWorkspaceRepo { repo_id: 2, target_branch: "main".to_string() },
        ]
    );
    assert_eq!(AgentActivityService::new(true).poll_interval_secs, 10);
}

#[test]
fn an_answer_out_of_turn_ends_the_cycle() {
    let out_of_turn = || {
        SelectorAction::Finish(Err(AgentActivityError::Database(
            "an answer arrived that was not asked for".to_string(),
        )))
    };
    let (state, _) = AgentActivityService::check_and_select_next_task(PROJECT, true);
    assert!(!state.expects(&SelectorEvent::Committed));
    let (state, action) = AgentActivityService::step(state, SelectorEvent::Committed);
    assert_eq!(action, out_of_turn());
    assert!(state.is_finished());
    // A cycle that is over takes no further answer.
    let (state, action) = AgentActivityService::step(state, SelectorEvent::Tasks(vec![]));
    assert_eq!(action, out_of_turn());
    assert!(state.is_finished());
    // Tasks that arrive while the advisor is asked do not restart the cycle.
    let a = task(1, TaskStatus::Todo, None, None, None);
    let (state, _) = begin(true, vec![a.clone()]);
    let (state, action) = AgentActivityService::step(state, SelectorEvent::Tasks(vec![a]));
    assert_eq!(action, out_of_turn());
    assert!(state.is_finished());
}
