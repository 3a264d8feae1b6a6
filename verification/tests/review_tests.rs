use task_orchestrator::breakdown::{ConflictBreakdownResponse, SubtaskSuggestion};
use task_orchestrator::claude_api::ClaudeApiError;
use task_orchestrator::review::{
    breakdown_conflicting_task, run_tests, Execution, ExecutionStatus, GitRequest, MergeResult,
    ReviewCandidate, ReviewCommand, ReviewEvent, ReviewPhase, ReviewState, RunReason, TestRun,
};
use task_orchestrator::review_automation::{
    GitError, ProjectReviewSettings, ProjectStack, ReviewAction, ReviewAutomationError,
    ReviewAutomationLog, ReviewAutomationService, ReviewAutomationSettingsResponse,
    ReviewAutomationStatus,
};
use task_orchestrator::store::{Notification, StoreWrite};
use task_orchestrator::task::{
    CreateTask, Task, TaskLayer, TaskSource, TaskStatus, TaskType, TaskWithAttemptStatus,
};
use task_orchestrator::workspace::{Repo, RepoWithTargetBranch, Workspace};

const PROJECT: u128 = 0x2000;
const TASK: u128 = 0x21;
const WORKSPACE: u128 = 0x22;

fn settings(auto_merge_enabled: bool, run_tests_enabled: bool) -> ProjectReviewSettings {
    ProjectReviewSettings {
        id: 1,
        project_id: PROJECT,
        enabled: true,
        auto_merge_enabled,
        run_tests_enabled,
        created_at: 0,
        updated_at: 0,
    }
}

fn task(testing_criteria: Option<&str>) -> Task {
    Task {
        id: TASK,
        project_id: PROJECT,
        title: "Login".to_string(),
        description: Some("Let users in".to_string()),
        status: TaskStatus::InReview,
        parent_workspace_id: None,
        source: TaskSource::Manual,
        layer: Some(TaskLayer::Backend),
        task_type: Some(TaskType::Implementation),
        sequence: Some(3),
        testing_criteria: testing_criteria.map(|s| s.to_string()),
        stage_started_at: Some(50),
        complexity_score: Some(4),
        parent_task_id: None,
        prevent_breakdown: false,
        post_task_actions: None,
        created_at: 0,
        updated_at: 50,
    }
}

fn workspace(container_ref: Option<&str>) -> Workspace {
    Workspace {
        id: WORKSPACE,
        task_id: TASK,
        container_ref: container_ref.map(|s| s.to_string()),
        branch: "vk/login".to_string(),
        agent_working_dir: None,
        setup_completed_at: None,
        created_at: 0,
        updated_at: 0,
        archived: false,
        pinned: false,
        name: None,
    }
}

fn repo(id: u128, name: &str, target: &str) -> RepoWithTargetBranch {
    RepoWithTargetBranch {
        repo: Repo { id, name: name.to_string(), path: format!("/repos/{}", name) },
        target_branch: target.to_string(),
    }
}

fn request(name: &str, target: &str) -> GitRequest {
    GitRequest {
        repo_path: format!("/repos/{}", name),
        workspace_path: "/ws/1".to_string(),
        repo_name: name.to_string(),
        branch: "vk/login".to_string(),
        target_branch: target.to_string(),
    }
}

fn merge(name: &str, target: &str) -> ReviewCommand {
    ReviewCommand::Merge {
        request: request(name, target),
        commit_message: format!("Merge vk/login into {}\n\nTask: Login", target),
    }
}

fn log(action: ReviewAction, output: Option<&str>, error_message: Option<&str>) -> StoreWrite {
    StoreWrite::ReviewLog {
        task_id: TASK,
        workspace_id: WORKSPACE,
        action,
        output: output.map(|s| s.to_string()),
        error_message: error_message.map(|s| s.to_string()),
    }
}

fn notice(message: &str) -> Option<Notification> {
    Some(Notification { title: "Review Automation".to_string(), message: message.to_string() })
}

fn step(state: ReviewState, event: ReviewEvent) -> (ReviewState, ReviewCommand) {
    assert!(state.is_well_formed());
    assert!(state.expects(&event), "the event does not answer the state");
    let (next, command) = ReviewAutomationService::process_task_review(state, event);
    assert!(next.is_well_formed());
    (next, command)
}

fn begin(
    settings: ProjectReviewSettings,
    found: Option<(Task, Workspace)>,
) -> (ReviewState, ReviewCommand) {
    let (state, command) = ReviewAutomationService::process_project(settings);
    assert_eq!(command, ReviewCommand::FindReviewable { project_id: PROJECT });
    assert_eq!(state.phase, ReviewPhase::Finding);
    step(state, ReviewEvent::Reviewable(found))
}

fn writes_of(command: &ReviewCommand) -> Vec<StoreWrite> {
    match command {
        ReviewCommand::Commit { writes, .. } => writes.clone(),
        other => panic!("expected a commit, got {:?}", other),
    }
}

fn conflict_rows(count: usize) -> Vec<ReviewAutomationLog> {
    let mut rows = vec![
        ReviewAutomationLog {
            id: 900,
            task_id: TASK,
            workspace_id: WORKSPACE,
            action: ReviewAction::TestPassed,
            output: None,
            error_message: None,
            created_at: 1,
        },
        ReviewAutomationLog {
            id: 901,
            task_id: TASK + 1,
            workspace_id: WORKSPACE,
            action: ReviewAction::MergeConflict,
            output: None,
            error_message: None,
            created_at: 2,
        },
    ];
    for i in 0..count {
        rows.push(ReviewAutomationLog {
            id: 1000 + i as u128,
            task_id: TASK,
            workspace_id: WORKSPACE,
            action: ReviewAction::MergeConflict,
            output: None,
            error_message: Some("Merge conflict detected. Details: x".to_string()),
            created_at: 10 + i as i64,
        });
    }
    rows
}

/// Drives a review up to the point where the conflicts are counted.
fn up_to_count(detail: &str) -> ReviewState {
    let (state, _) = begin(settings(true, false), Some((task(None), workspace(Some("/ws/1")))));
    let (state, _) = step(state, ReviewEvent::Repos(vec![repo(5, "api", "main")]));
    let (state, command) = step(
        state,
        ReviewEvent::Merged(MergeResult::Failed(GitError::MergeConflicts(detail.to_string()))),
    );
    assert_eq!(
        command,
        ReviewCommand::Commit {
            writes: vec![log(
                ReviewAction::MergeConflict,
                None,
                Some(&format!("Merge conflict detected. Details: {}", detail))
            )],
            notification: None,
        }
    );
    let (state, command) = step(state, ReviewEvent::Committed);
    assert_eq!(command, ReviewCommand::LoadConflictLogs { task_id: TASK });
    state
}

#[test]
fn no_task_in_review_ends_the_review() {
    let (state, command) = begin(settings(true, true), None);
    assert_eq!(command, ReviewCommand::Finish(Ok(None)));
    assert!(state.is_finished());
}

#[test]
fn a_workspace_without_a_container_is_an_error() {
    let (state, command) = begin(settings(true, true), Some((task(Some("c")), workspace(None))));
    assert_eq!(command, ReviewCommand::Finish(Err(ReviewAutomationError::NoWorkspaceContainer)));
    assert!(state.is_finished());
}

#[test]
fn a_diverged_target_is_rebased_and_merged() {
    let (state, command) =
        begin(settings(true, true), Some((task(None), workspace(Some("/ws/1")))));
    // No testing criteria: the tests are passed over.
    assert_eq!(command, ReviewCommand::LoadRepos { workspace_id: WORKSPACE });
    let (state, command) = step(state, ReviewEvent::Repos(vec![repo(5, "api", "main")]));
    assert_eq!(command, merge("api", "main"));
    let (state, command) = step(
        state,
        ReviewEvent::Merged(MergeResult::Failed(GitError::BranchesDiverged("behind by 2".to_string()))),
    );
    assert_eq!(command, ReviewCommand::FindForkPoint { request: request("api", "main") });
    let (state, command) = step(state, ReviewEvent::ForkPoint(Ok("abc123".to_string())));
    assert_eq!(
        command,
        ReviewCommand::Rebase { request: request("api", "main"), fork_point: "abc123".to_string() }
    );
    let (state, command) = step(state, ReviewEvent::Rebased(Ok("def456".to_string())));
    assert_eq!(command, merge("api", "main"));
    let (state, command) =
        step(state, ReviewEvent::Merged(MergeResult::Merged { commit: "fed789".to_string() }));
    assert_eq!(
        command,
        ReviewCommand::Commit {
            writes: vec![StoreWrite::RecordMerge {
                workspace_id: WORKSPACE,
                repo_id: 5,
                target_branch: "main".to_string(),
                merge_commit: "fed789".to_string(),
            }],
            notification: None,
        }
    );
    let (state, command) = step(state, ReviewEvent::Committed);
    assert_eq!(
        command,
        ReviewCommand::Commit {
            writes: vec![
                log(ReviewAction::MergeCompleted, None, None),
                StoreWrite::SetStatus { task_id: TASK, status: TaskStatus::Done },
                StoreWrite::ArchiveWorkspace { workspace_id: WORKSPACE },
            ],
            notification: notice("Task completed: Login"),
        }
    );
    let completed = writes_of(&command);
    let logged = |action: ReviewAction| {
        completed
            .iter()
            .filter(|w| matches!(w, StoreWrite::ReviewLog { action: a, .. } if *a == action))
            .count()
    };
    assert_eq!(logged(ReviewAction::MergeCompleted), 1);
    assert_eq!(logged(ReviewAction::MergeConflict), 0);
    let (state, command) = step(state, ReviewEvent::Committed);
    assert_eq!(command, ReviewCommand::Finish(Ok(Some(ReviewAction::MergeCompleted))));
    assert!(state.is_finished());
}

#[test]
fn the_fifth_conflict_cancels_the_task() {
    let state = up_to_count("both changed auth.rs");
    let (state, command) = step(state, ReviewEvent::ConflictLogs(conflict_rows(5)));
    assert_eq!(
        command,
        ReviewCommand::Commit {
            writes: vec![
                StoreWrite::SetStatus { task_id: TASK, status: TaskStatus::Cancelled },
                StoreWrite::ArchiveWorkspace { workspace_id: WORKSPACE },
            ],
            notification: None,
        }
    );
    let (state, command) = step(state, ReviewEvent::Committed);
    assert_eq!(
        command,
        ReviewCommand::AskBreakdown {
            task: task(None),
            conflict_details: "both changed auth.rs".to_string(),
        }
    );
    // The advisor suggests a single subtask: no breakdown.
    let (state, command) = step(
        state,
        ReviewEvent::Breakdown(Ok(ConflictBreakdownResponse {
            subtasks: vec![SubtaskSuggestion {
                title: "all of it".to_string(),
                description: "again".to_string(),
                layer: None,
            }],
            reasoning: "cannot split".to_string(),
        })),
    );
    assert_eq!(
        command,
        ReviewCommand::Commit {
            writes: vec![log(
                ReviewAction::Error,
                None,
                Some("command execution failed: AI did not suggest enough subtasks for breakdown")
            )],
            notification: notice(
                "Task 'Login' cancelled after 5 merge conflicts. Manual breakdown required."
            ),
        }
    );
    assert!(!writes_of(&command).iter().any(|w| matches!(w, StoreWrite::CreateTask(_))));
    let (state, command) = step(state, ReviewEvent::Committed);
    assert_eq!(command, ReviewCommand::Finish(Ok(Some(ReviewAction::MergeConflict))));
    assert!(state.is_finished());
}

#[test]
fn a_cancelled_task_is_broken_down() {
    let state = up_to_count("x");
    let (state, _) = step(state, ReviewEvent::ConflictLogs(conflict_rows(6)));
    let (state, _) = step(state, ReviewEvent::Committed);
    let (state, command) = step(
        state,
        ReviewEvent::Breakdown(Ok(ConflictBreakdownResponse {
            subtasks: vec![
                SubtaskSuggestion {
                    title: "session".to_string(),
                    description: "sessions only".to_string(),
                    layer: Some("data".to_string()),
                },
                SubtaskSuggestion {
                    title: "form".to_string(),
                    description: "the form".to_string(),
                    layer: Some("FrontEnd".to_string()),
                },
            ],
            reasoning: "by concern".to_string(),
        })),
    );
    let child = |title: &str, description: &str, layer: TaskLayer, sequence: i32| {
        StoreWrite::CreateTask(CreateTask {
            project_id: PROJECT,
            title: title.to_string(),
            description: Some(description.to_string()),
            status: Some(TaskStatus::Todo),
            parent_workspace_id: None,
            image_ids: None,
            source: Some(TaskSource::AiGenerated),
            layer: Some(layer),
            task_type: Some(TaskType::Implementation),
            sequence: Some(sequence),
            testing_criteria: None,
            parent_task_id: Some(TASK),
            prevent_breakdown: Some(true),
            post_task_actions: None,
        })
    };
    assert_eq!(
        command,
        ReviewCommand::Commit {
            writes: vec![
                child("session", "sessions only", TaskLayer::Data, 30),
                child("form", "the form", TaskLayer::Frontend, 31),
                log(
                    ReviewAction::Error,
                    None,
                    Some("Task cancelled after 6 merge conflicts. Broken down into 2 simpler subtasks.")
                ),
            ],
            notification: notice(
                "Task 'Login' cancelled after 6 merge conflicts. Created 2 simpler subtasks."
            ),
        }
    );
    let (_, command) = step(state, ReviewEvent::Committed);
    assert_eq!(command, ReviewCommand::Finish(Ok(Some(ReviewAction::MergeConflict))));
}

#[test]
fn a_failing_advisor_leaves_the_task_cancelled() {
    let state = up_to_count("x");
    let (state, _) = step(state, ReviewEvent::ConflictLogs(conflict_rows(5)));
    let (state, _) = step(state, ReviewEvent::Committed);
    let (_, command) = step(state, ReviewEvent::Breakdown(Err(ClaudeApiError::MissingApiKey)));
    assert_eq!(
        command,
        ReviewCommand::Commit {
            writes: vec![log(
                ReviewAction::Error,
                None,
                Some("command execution failed: missing api key: ANTHROPIC_API_KEY environment variable not set")
            )],
            notification: notice(
                "Task 'Login' cancelled after 5 merge conflicts. Manual breakdown required."
            ),
        }
    );
}

#[test]
fn conflicts_below_the_ceiling_return_the_task_to_work() {
    for count in 1..5usize {
        let state = up_to_count("x");
        let (state, command) = step(state, ReviewEvent::ConflictLogs(conflict_rows(count)));
        assert_eq!(
            command,
            ReviewCommand::Commit {
                writes: vec![StoreWrite::SetStatus { task_id: TASK, status: TaskStatus::InProgress }],
                notification: notice(&format!(
                    "Merge conflict #{} for 'Login'. Task moved back to InProgress for conflict resolution. ({} attempts remaining)",
                    count,
                    5 - count
                )),
            }
        );
        let (state, command) = step(state, ReviewEvent::Committed);
        assert_eq!(command, ReviewCommand::Finish(Ok(Some(ReviewAction::MergeConflict))));
        assert!(state.is_finished());
    }
}

#[test]
fn conflicts_are_counted_from_the_rows_of_the_task() {
    assert_eq!(ReviewAutomationLog::count_merge_conflicts(&vec![], TASK), 0);
    let rows = conflict_rows(3);
    assert_eq!(ReviewAutomationLog::count_merge_conflicts(&rows, TASK), 3);
    assert_eq!(ReviewAutomationLog::count_merge_conflicts(&rows, TASK), 3);
    assert_eq!(ReviewAutomationLog::count_merge_conflicts(&rows, TASK + 1), 1);
    assert_eq!(ReviewAutomationLog::count_merge_conflicts(&rows, 0), 0);
}

#[test]
fn passed_tests_are_logged_and_the_merge_follows() {
    let (state, command) =
        begin(settings(true, true), Some((task(Some("logs in")), workspace(Some("/ws/1")))));
    assert_eq!(
        command,
        ReviewCommand::ProbeManifests {
            directory: "/ws/1".to_string(),
            names: vec![
                "package.json".to_string(),
                "Cargo.toml".to_string(),
                "pyproject.toml".to_string(),
                "setup.py".to_string(),
                "pytest.ini".to_string(),
                "go.mod".to_string(),
            ],
        }
    );
    let (state, command) =
        step(state, ReviewEvent::Manifests(vec!["go.mod".to_string(), "Cargo.toml".to_string()]));
    assert_eq!(
        command,
        ReviewCommand::RunTests {
            program: "cargo".to_string(),
            arguments: vec!["test".to_string()],
            directory: "/ws/1".to_string(),
        }
    );
    let (state, command) = step(
        state,
        ReviewEvent::TestsRan(Ok(TestRun {
            success: true,
            stdout: "ok".to_string(),
            stderr: "warn".to_string(),
        })),
    );
    assert_eq!(
        command,
        ReviewCommand::Commit {
            writes: vec![log(ReviewAction::TestPassed, Some("STDOUT:\nok\n\nSTDERR:\nwarn"), None)],
            notification: None,
        }
    );
    let (_, command) = step(state, ReviewEvent::Committed);
    assert_eq!(command, ReviewCommand::LoadRepos { workspace_id: WORKSPACE });
}

#[test]
fn failed_tests_stop_the_review() {
    let (state, _) =
        begin(settings(true, true), Some((task(Some("logs in")), workspace(Some("/ws/1")))));
    let (state, command) = step(state, ReviewEvent::Manifests(vec!["package.json".to_string()]));
    assert_eq!(
        command,
        ReviewCommand::RunTests {
            program: "npm".to_string(),
            arguments: vec!["test".to_string()],
            directory: "/ws/1".to_string(),
        }
    );
    let (state, command) = step(
        state,
        ReviewEvent::TestsRan(Ok(TestRun {
            success: false,
            stdout: String::new(),
            stderr: "1 failed".to_string(),
        })),
    );
    assert_eq!(
        command,
        ReviewCommand::Commit {
            writes: vec![log(
                ReviewAction::TestFailed,
                Some("STDOUT:\n\n\nSTDERR:\n1 failed"),
                Some("Tests failed")
            )],
            notification: notice("Tests failed for task: Login"),
        }
    );
    let (state, command) = step(state, ReviewEvent::Committed);
    assert_eq!(command, ReviewCommand::Finish(Ok(Some(ReviewAction::TestFailed))));
    assert!(state.is_finished());
}

#[test]
fn tests_that_cannot_run_are_an_error() {
    let (state, _) =
        begin(settings(true, true), Some((task(Some("logs in")), workspace(Some("/ws/1")))));
    let (state, _) = step(state, ReviewEvent::Manifests(vec!["setup.py".to_string()]));
    let (state, command) = step(state, ReviewEvent::TestsRan(Err("pytest: not found".to_string())));
    assert_eq!(
        command,
        ReviewCommand::Commit {
            writes: vec![log(
                ReviewAction::Error,
                None,
                Some("command execution failed: pytest: not found")
            )],
            notification: None,
        }
    );
    let (_, command) = step(state, ReviewEvent::Committed);
    assert_eq!(
        command,
        ReviewCommand::Finish(Err(ReviewAutomationError::CommandFailed(
            "pytest: not found".to_string()
        )))
    );
}

#[test]
fn an_unknown_stack_counts_as_a_pass() {
    let (state, _) =
        begin(settings(false, true), Some((task(Some("logs in")), workspace(Some("/ws/1")))));
    let (state, command) = step(state, ReviewEvent::Manifests(vec![]));
    assert_eq!(
        command,
        ReviewCommand::Commit {
            writes: vec![log(ReviewAction::TestPassed, Some("Unknown stack, tests skipped"), None)],
            notification: None,
        }
    );
    // Merging is disabled: the review is logged as skipped.
    let (state, command) = step(state, ReviewEvent::Committed);
    assert_eq!(
        command,
        ReviewCommand::Commit {
            writes: vec![log(
                ReviewAction::Skipped,
                None,
                Some("Neither tests nor auto-merge enabled")
            )],
            notification: None,
        }
    );
    let (_, command) = step(state, ReviewEvent::Committed);
    assert_eq!(command, ReviewCommand::Finish(Ok(Some(ReviewAction::Skipped))));
}

#[test]
fn with_nothing_enabled_the_review_is_skipped() {
    let (state, command) =
        begin(settings(false, false), Some((task(Some("c")), workspace(Some("/ws/1")))));
    assert_eq!(
        command,
        ReviewCommand::Commit {
            writes: vec![log(
                ReviewAction::Skipped,
                None,
                Some("Neither tests nor auto-merge enabled")
            )],
            notification: None,
        }
    );
    let (_, command) = step(state, ReviewEvent::StoreFailed("busy".to_string()));
    assert_eq!(
        command,
        ReviewCommand::Finish(Err(ReviewAutomationError::Database("busy".to_string())))
    );
}

#[test]
fn every_repository_is_merged_and_missing_worktrees_are_passed_over() {
    let (state, _) = begin(settings(true, false), Some((task(None), workspace(Some("/ws/1")))));
    let repos = vec![repo(5, "api", "main"), repo(6, "web", "develop"), repo(7, "docs", "main")];
    let (state, command) = step(state, ReviewEvent::Repos(repos));
    assert_eq!(command, merge("api", "main"));
    let (state, command) = step(state, ReviewEvent::Merged(MergeResult::WorktreeMissing));
    assert_eq!(command, merge("web", "develop"));
    let (state, command) =
        step(state, ReviewEvent::Merged(MergeResult::Merged { commit: "c1".to_string() }));
    assert_eq!(
        command,
        ReviewCommand::Commit {
            writes: vec![StoreWrite::RecordMerge {
                workspace_id: WORKSPACE,
                repo_id: 6,
                target_branch: "develop".to_string(),
                merge_commit: "c1".to_string(),
            }],
            notification: None,
        }
    );
    let (state, command) = step(state, ReviewEvent::Committed);
    assert_eq!(command, merge("docs", "main"));
    let (_, command) = step(state, ReviewEvent::Merged(MergeResult::WorktreeMissing));
    assert!(matches!(
        writes_of(&command).first(),
        Some(StoreWrite::ReviewLog { action: ReviewAction::MergeCompleted, .. })
    ));
}

#[test]
fn a_workspace_without_repositories_completes() {
    let (state, _) = begin(settings(true, false), Some((task(None), workspace(Some("/ws/1")))));
    let (_, command) = step(state, ReviewEvent::Repos(vec![]));
    assert_eq!(writes_of(&command).len(), 3);
}

#[test]
fn another_git_failure_is_logged_and_ends_the_review() {
    let (state, _) = begin(settings(true, false), Some((task(None), workspace(Some("/ws/1")))));
    let (state, _) = step(state, ReviewEvent::Repos(vec![repo(5, "api", "main")]));
    let (state, command) = step(
        state,
        ReviewEvent::Merged(MergeResult::Failed(GitError::Other("index locked".to_string()))),
    );
    assert_eq!(
        command,
        ReviewCommand::Commit {
            writes: vec![log(ReviewAction::Error, None, Some("git error: index locked"))],
            notification: None,
        }
    );
    let (_, command) = step(state, ReviewEvent::Committed);
    assert_eq!(
        command,
        ReviewCommand::Finish(Err(ReviewAutomationError::Git(GitError::Other(
            "index locked".to_string()
        ))))
    );
}

fn diverged() -> ReviewState {
    let (state, _) = begin(settings(true, false), Some((task(None), workspace(Some("/ws/1")))));
    let (state, _) = step(state, ReviewEvent::Repos(vec![repo(5, "api", "main")]));
    let (state, _) = step(
        state,
        ReviewEvent::Merged(MergeResult::Failed(GitError::BranchesDiverged(String::new()))),
    );
    state
}

fn conflict_logged(command: &ReviewCommand, detail: &str) {
    assert_eq!(
        *command,
        ReviewCommand::Commit {
            writes: vec![log(
                ReviewAction::MergeConflict,
                None,
                Some(&format!("Merge conflict detected. Details: {}", detail))
            )],
            notification: None,
        }
    );
}

#[test]
fn a_missing_fork_point_is_a_conflict() {
    let (_, command) =
        step(diverged(), ReviewEvent::ForkPoint(Err(GitError::Other("no merge base".to_string()))));
    conflict_logged(&command, "Could not determine fork point for rebase: no merge base");
}

#[test]
fn a_conflicting_rebase_is_aborted_and_escalated() {
    let (state, _) = step(diverged(), ReviewEvent::ForkPoint(Ok("abc".to_string())));
    let (state, command) =
        step(state, ReviewEvent::Rebased(Err(GitError::MergeConflicts("in a.rs".to_string()))));
    assert_eq!(command, ReviewCommand::AbortRebase { request: request("api", "main") });
    let (_, command) = step(state, ReviewEvent::Aborted);
    conflict_logged(
        &command,
        "Automatic rebase failed due to conflicts. Manual intervention required. in a.rs",
    );
}

#[test]
fn a_failing_rebase_is_aborted_and_escalated() {
    let (state, _) = step(diverged(), ReviewEvent::ForkPoint(Ok("abc".to_string())));
    let (state, command) =
        step(state, ReviewEvent::Rebased(Err(GitError::Other("dirty tree".to_string()))));
    assert_eq!(command, ReviewCommand::AbortRebase { request: request("api", "main") });
    let (_, command) = step(state, ReviewEvent::Aborted);
    conflict_logged(&command, "Automatic rebase failed: dirty tree");
}

#[test]
fn a_merge_that_fails_after_the_rebase_is_a_conflict() {
    let (state, _) = step(diverged(), ReviewEvent::ForkPoint(Ok("abc".to_string())));
    let (state, _) = step(state, ReviewEvent::Rebased(Ok("head".to_string())));
    let (state, command) = step(
        state,
        ReviewEvent::Merged(MergeResult::Failed(GitError::BranchesDiverged("again".to_string()))),
    );
    assert_eq!(command, ReviewCommand::AbortRebase { request: request("api", "main") });
    let (_, command) = step(state, ReviewEvent::Aborted);
    conflict_logged(&command, "Merge failed after rebase: branches diverged: again");
}

#[test]
fn the_plan_for_a_conflicting_task() {
    let parent = task(None);
    let one = ConflictBreakdownResponse {
        subtasks: vec![SubtaskSuggestion {
            title: "a".to_string(),
            description: "b".to_string(),
            layer: None,
        }],
        reasoning: String::new(),
    };
    assert_eq!(
        breakdown_conflicting_task(&parent, Ok(one)),
        Err(ReviewAutomationError::CommandFailed(
            "AI did not suggest enough subtasks for breakdown".to_string()
        ))
    );
    assert_eq!(
        breakdown_conflicting_task(&parent, Err(ClaudeApiError::Timeout)),
        Err(ReviewAutomationError::CommandFailed("timeout".to_string()))
    );
}

#[test]
fn stacks_are_known_by_their_manifests() {
    let service = ReviewAutomationService::new();
    assert_eq!(service.poll_interval_secs, 10);
    let names = |v: &[&str]| v.iter().map(|s| s.to_string()).collect::<Vec<_>>();
    assert_eq!(service.detect_stack(&names(&[])), ProjectStack::Unknown);
    assert_eq!(service.detect_stack(&names(&["README.md"])), ProjectStack::Unknown);
    assert_eq!(service.detect_stack(&names(&["package.json"])), ProjectStack::NodeJs);
    assert_eq!(service.detect_stack(&names(&["Cargo.toml"])), ProjectStack::Rust);
    assert_eq!(service.detect_stack(&names(&["pyproject.toml"])), ProjectStack::Python);
    assert_eq!(service.detect_stack(&names(&["setup.py"])), ProjectStack::Python);
    assert_eq!(service.detect_stack(&names(&["pytest.ini"])), ProjectStack::Python);
    assert_eq!(service.detect_stack(&names(&["go.mod"])), ProjectStack::Go);
    assert_eq!(
        service.detect_stack(&names(&["go.mod", "setup.py", "Cargo.toml", "package.json"])),
        ProjectStack::NodeJs
    );
    assert_eq!(service.detect_stack(&names(&["go.mod", "setup.py", "Cargo.toml"])), ProjectStack::Rust);
    assert_eq!(service.detect_stack(&names(&["go.mod", "pytest.ini"])), ProjectStack::Python);
    assert_eq!(service.detect_stack(&names(&["cargo.toml"])), ProjectStack::Unknown);
}

#[test]
fn test_commands_of_the_stacks() {
    assert_eq!(ProjectStack::NodeJs.test_command(), Some(("npm", &["test"][..])));
    assert_eq!(ProjectStack::Rust.test_command(), Some(("cargo", &["test"][..])));
    assert_eq!(ProjectStack::Python.test_command(), Some(("pytest", &[][..])));
    assert_eq!(ProjectStack::Go.test_command(), Some(("go", &["test", "./..."][..])));
    assert_eq!(ProjectStack::Unknown.test_command(), None);
}

#[test]
fn actions_of_the_review_engine() {
    for action in [
        ReviewAction::TestPassed,
        ReviewAction::TestFailed,
        ReviewAction::MergeCompleted,
        ReviewAction::MergeConflict,
        ReviewAction::Skipped,
        ReviewAction::Error,
    ] {
        assert_eq!(ReviewAction::parse(action.as_str()), Some(action));
    }
    assert_eq!(ReviewAction::MergeConflict.as_str(), "merge_conflict");
    assert_eq!(ReviewAction::TestPassed.as_str(), "test_passed");
    assert_eq!(ReviewAction::parse("mergeconflict"), None);
}

#[test]
fn errors_of_the_review_engine() {
    assert_eq!(ReviewAutomationError::Database("x".to_string()).message(), "database error: x");
    assert_eq!(
        ReviewAutomationError::Git(GitError::BranchesDiverged("b".to_string())).message(),
        "git error: branches diverged: b"
    );
    assert_eq!(
        ReviewAutomationError::Git(GitError::MergeConflicts("c".to_string())).message(),
        "git error: merge conflicts: c"
    );
    assert_eq!(ReviewAutomationError::TestFailed("t".to_string()).message(), "test failed: t");
    assert_eq!(ReviewAutomationError::MergeConflict("m".to_string()).message(), "merge conflict: m");
    assert_eq!(ReviewAutomationError::NoWorkspaceContainer.message(), "no workspace container");
    assert_eq!(
        ReviewAutomationError::CommandFailed("c".to_string()).message(),
        "command execution failed: c"
    );
    assert_eq!(GitError::Other("plain".to_string()).message(), "plain");
}

#[test]
fn settings_and_status_of_the_review_engine() {
    let fresh = ReviewAutomationService::enable(None, 3, PROJECT, 100);
    assert_eq!(
        fresh,
        ProjectReviewSettings {
            id: 3,
            project_id: PROJECT,
            enabled: true,
            auto_merge_enabled: true,
            run_tests_enabled: true,
            created_at: 100,
            updated_at: 100,
        }
    );
    let tuned = ProjectReviewSettings::create_or_update(Some(fresh), 4, PROJECT, true, false, true, 150);
    assert_eq!(tuned.id, 3);
    assert!(!tuned.auto_merge_enabled);
    let off = ReviewAutomationService::disable(Some(tuned), 5, PROJECT, 200);
    assert_eq!(
        off,
        ProjectReviewSettings {
            id: 3,
            project_id: PROJECT,
            enabled: false,
            auto_merge_enabled: true,
            run_tests_enabled: true,
            created_at: 100,
            updated_at: 200,
        }
    );
    let response: ReviewAutomationSettingsResponse = off.into();
    assert_eq!(
        response,
        ReviewAutomationSettingsResponse {
            enabled: false,
            auto_merge_enabled: true,
            run_tests_enabled: true,
        }
    );
    assert_eq!(
        ReviewAutomationService::get_status(None, None),
        ReviewAutomationStatus {
            enabled: false,
            auto_merge_enabled: false,
            run_tests_enabled: false,
            last_action: None,
            last_task_id: None,
        }
    );
    let row = ReviewAutomationLog {
        id: 1,
        task_id: TASK,
        workspace_id: WORKSPACE,
        action: ReviewAction::TestFailed,
        output: None,
        error_message: None,
        created_at: 5,
    };
    assert_eq!(
        ReviewAutomationService::get_status(Some(tuned), Some(row)),
        ReviewAutomationStatus {
            enabled: true,
            auto_merge_enabled: false,
            run_tests_enabled: true,
            last_action: Some(ReviewAction::TestFailed),
            last_task_id: Some(TASK),
        }
    );
}

#[test]
fn a_task_is_ready_for_review_when_its_agent_has_stepped_away() {
    let candidate = |id: u128, status: TaskStatus, archived: bool, executions: Vec<Execution>| {
        let mut t = task(None);
        t.id = id;
        t.status = status;
        let mut w = workspace(Some("/ws/1"));
        w.id = id + 100;
        w.task_id = id;
        w.archived = archived;
        ReviewCandidate { task: t, workspace: w, executions }
    };
    let run = |run_reason, status| Execution { run_reason, status };
    let finished = || vec![run(RunReason::CodingAgent, ExecutionStatus::Completed)];
    let found = |candidates: Vec<ReviewCandidate>| {
        Task::find_in_review_with_completed_attempts(&candidates, PROJECT).map(|(t, w)| (t.id, w.id))
    };
    assert_eq!(found(vec![]), None);
    assert_eq!(found(vec![candidate(1, TaskStatus::InReview, false, finished())]), Some((1, 101)));
    // Nothing has run, or only a script has.
    assert_eq!(found(vec![candidate(1, TaskStatus::InReview, false, vec![])]), None);
    assert_eq!(
        found(vec![candidate(
            1,
            TaskStatus::InReview,
            false,
            vec![run(RunReason::SetupScript, ExecutionStatus::Completed)]
        )]),
        None
    );
    // Something still runs.
    assert_eq!(
        found(vec![candidate(
            1,
            TaskStatus::InReview,
            false,
            vec![
                run(RunReason::CodingAgent, ExecutionStatus::Failed),
                run(RunReason::DevServer, ExecutionStatus::Running),
            ]
        )]),
        None
    );
    // A failed or killed agent has finished too.
    assert_eq!(
        found(vec![candidate(
            1,
            TaskStatus::InReview,
            false,
            vec![run(RunReason::CodingAgent, ExecutionStatus::Killed)]
        )]),
        Some((1, 101))
    );
    // Archived workspaces and tasks in other states are passed over; of
    // tasks as old as each other the first that is ready is taken.
    assert_eq!(
        found(vec![
            candidate(1, TaskStatus::InReview, true, finished()),
            candidate(2, TaskStatus::InProgress, false, finished()),
            candidate(3, TaskStatus::InReview, false, finished()),
            candidate(4, TaskStatus::InReview, false, finished()),
        ]),
        Some((3, 103))
    );
    for reason in [RunReason::SetupScript, RunReason::CleanupScript, RunReason::CodingAgent, RunReason::DevServer] {
        assert_eq!(RunReason::parse(reason.as_str()), Some(reason));
    }
    for status in [ExecutionStatus::Running, ExecutionStatus::Completed, ExecutionStatus::Failed, ExecutionStatus::Killed] {
        assert_eq!(ExecutionStatus::parse(status.as_str()), Some(status));
    }
    assert_eq!(RunReason::parse("agent"), None);
    assert_eq!(ExecutionStatus::parse("done"), None);
}

#[test]
fn the_oldest_ready_task_of_the_project_is_reviewed_whatever_the_order_of_the_rows() {
    let candidate = |id: u128, project_id: u128, created_at: i64| {
        let mut t = task(None);
        t.id = id;
        t.project_id = project_id;
        t.status = TaskStatus::InReview;
        t.created_at = created_at;
        let mut w = workspace(Some("/ws/1"));
        w.id = id + 100;
        w.task_id = id;
        let executions =
            vec![Execution { run_reason: RunReason::CodingAgent, status: ExecutionStatus::Completed }];
        ReviewCandidate { task: t, workspace: w, executions }
    };
    let found = |candidates: Vec<ReviewCandidate>, project_id: u128| {
        Task::find_in_review_with_completed_attempts(&candidates, project_id)
            .map(|(t, w)| (t.id, w.id))
    };
    let rows = || {
        vec![
            candidate(1, PROJECT, 30),
            candidate(2, PROJECT + 1, 5),
            candidate(3, PROJECT, 10),
            candidate(4, PROJECT, 20),
            candidate(5, PROJECT, 10),
        ]
    };
    // The oldest of the project; of two as old, the one that came first.
    assert_eq!(found(rows(), PROJECT), Some((3, 103)));
    let mut turned = rows();
    turned.reverse();
    assert_eq!(found(turned, PROJECT), Some((5, 105)));
    assert_eq!(found(rows(), PROJECT + 1), Some((2, 102)));
    assert_eq!(found(rows(), PROJECT + 2), None);
}

#[test]
fn the_verdict_on_a_test_run() {
    let run = |success: bool| TestRun {
        success,
        stdout: "out".to_string(),
        stderr: "err".to_string(),
    };
    assert_eq!(run_tests(Ok(run(true))), Ok("STDOUT:\nout\n\nSTDERR:\nerr".to_string()));
    assert_eq!(
        run_tests(Ok(run(false))),
        Err(ReviewAutomationError::TestFailed("STDOUT:\nout\n\nSTDERR:\nerr".to_string()))
    );
    assert_eq!(
        run_tests(Err("no such file".to_string())),
        Err(ReviewAutomationError::CommandFailed("no such file".to_string()))
    );
}

#[test]
fn an_answer_out_of_turn_ends_the_review() {
    let out_of_turn = || {
        ReviewCommand::Finish(Err(ReviewAutomationError::Database(
            "an answer arrived that was not asked for".to_string(),
        )))
    };
    let (state, _) = ReviewAutomationService::process_project(settings(true, true));
    let (state, command) = ReviewAutomationService::process_task_review(state, ReviewEvent::Aborted);
    assert_eq!(command, out_of_turn());
    assert!(state.is_finished());
    let (_, command) =
        ReviewAutomationService::process_task_review(state, ReviewEvent::Reviewable(None));
    assert_eq!(command, out_of_turn());
    // A state that names a repository that is not there is no state of a
    // review.
    let (state, _) = begin(settings(true, false), Some((task(None), workspace(Some("/ws/1")))));
    let (state, _) = step(state, ReviewEvent::Repos(vec![repo(5, "api", "main")]));
    let broken = match state.phase {
        ReviewPhase::Merging { job, repos, rebased, .. } => ReviewState {
            settings: state.settings,
            phase: ReviewPhase::Merging { job, repos, index: 1, rebased },
        },
        other => panic!("expected a merge, got {:?}", other),
    };
    assert!(!broken.is_well_formed());
    let (state, command) = ReviewAutomationService::process_task_review(
        broken,
        ReviewEvent::Merged(MergeResult::WorktreeMissing),
    );
    assert_eq!(command, out_of_turn());
    assert!(state.is_finished());
}

#[test]
fn what_the_attempts_at_a_task_are_doing() {
    let run = |run_reason, status| Execution { run_reason, status };
    let of = |executions: Vec<Execution>| {
        let row = TaskWithAttemptStatus::of(task(None), &executions, "agent".to_string());
        assert_eq!(row.task, task(None));
        assert_eq!(row.executor, "agent");
        (row.has_in_progress_attempt, row.last_attempt_failed)
    };
    assert_eq!(of(vec![]), (false, false));
    assert_eq!(of(vec![run(RunReason::CodingAgent, ExecutionStatus::Running)]), (true, false));
    assert_eq!(of(vec![run(RunReason::DevServer, ExecutionStatus::Running)]), (false, false));
    assert_eq!(of(vec![run(RunReason::CodingAgent, ExecutionStatus::Failed)]), (false, true));
    assert_eq!(of(vec![run(RunReason::SetupScript, ExecutionStatus::Killed)]), (false, true));
    // Only the latest attempt counts, and a development server is none.
    assert_eq!(
        of(vec![
            run(RunReason::CodingAgent, ExecutionStatus::Failed),
            run(RunReason::CodingAgent, ExecutionStatus::Completed),
            run(RunReason::DevServer, ExecutionStatus::Failed),
        ]),
        (false, false)
    );
    assert_eq!(
        of(vec![
            run(RunReason::SetupScript, ExecutionStatus::Running),
            run(RunReason::CleanupScript, ExecutionStatus::Killed),
        ]),
        (true, true)
    );
    let row = TaskWithAttemptStatus::of(task(None), &vec![], String::new());
    assert_eq!(row.clone(), row);
}
