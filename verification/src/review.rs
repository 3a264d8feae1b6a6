//! One review of one task, as a machine: it is told what the store, the
//! test run, git and the advisor answered, and says what to do next.

use crate::breakdown::{
    conflict_subtasks, plan_conflict_subtasks, ConflictBreakdownResponse,
    ConflictBreakdownResponseView, MIN_SUBTASKS,
};
use crate::claude_api::{ClaudeApiError, ClaudeApiErrorView};
use crate::review_automation::{
    conflict_count, manifest_names, stack_of, GitError, GitErrorView, ProjectReviewSettings,
    ReviewAction, ReviewAutomationError, ReviewAutomationErrorView,
    ReviewAutomationLog, ReviewAutomationLogView, ReviewAutomationService,
    MAX_MERGE_CONFLICT_ATTEMPTS,
};
use crate::store::{
    creation_writes, creations, out_of_turn, out_of_turn_message, Notification, NotificationView,
    StoreWrite, StoreWriteView,
};
use crate::task::{
    CreateTaskView, Task, TaskStatus, TaskView, TaskWithAttemptStatus, TaskWithAttemptStatusView,
};
use crate::text::{decimal, push_decimal};
use crate::workspace::{
    RepoWithTargetBranch, RepoWithTargetBranchView, Workspace, WorkspaceView,
};
use vstd::prelude::*;
use vstd::string::*;

verus! {

/// What a review is about: a task in review, its workspace, where the
/// workspace lives, and the settings of the project.
#[derive(Debug, PartialEq, Eq)]
pub struct ReviewJob {
    pub settings: ProjectReviewSettings,
    pub task: Task,
    pub workspace: Workspace,
    pub path: String,
}

/// The mathematical value of a [`ReviewJob`].
#[verifier::ext_equal]
pub struct ReviewJobView {
    pub settings: ProjectReviewSettings,
    pub task: TaskView,
    pub workspace: WorkspaceView,
    pub path: Seq<char>,
}

impl DeepView for ReviewJob {
    type V = ReviewJobView;

    open spec fn deep_view(&self) -> ReviewJobView {
        ReviewJobView {
            settings: self.settings,
            task: self.task@,
            workspace: self.workspace@,
            path: self.path@,
        }
    }
}

impl View for ReviewJob {
    type V = ReviewJobView;

    open spec fn view(&self) -> ReviewJobView {
        self.deep_view()
    }
}

/// How a run of the tests ended.
#[derive(Debug, PartialEq, Eq)]
pub struct TestRun {
    pub success: bool,
    pub stdout: String,
    pub stderr: String,
}

/// The mathematical value of a [`TestRun`].
#[verifier::ext_equal]
pub struct TestRunView {
    pub success: bool,
    pub stdout: Seq<char>,
    pub stderr: Seq<char>,
}

impl DeepView for TestRun {
    type V = TestRunView;

    open spec fn deep_view(&self) -> TestRunView {
        TestRunView { success: self.success, stdout: self.stdout@, stderr: self.stderr@ }
    }
}

impl View for TestRun {
    type V = TestRunView;

    open spec fn view(&self) -> TestRunView {
        self.deep_view()
    }
}

/// How an attempt to merge ended.
#[derive(Debug, PartialEq, Eq)]
pub enum MergeResult {
    /// The branch was merged; this is the merge commit.
    Merged { commit: String },
    /// The workspace holds no worktree of the repository.
    WorktreeMissing,
    Failed(GitError),
}

/// The mathematical value of a [`MergeResult`].
#[verifier::ext_equal]
pub enum MergeResultView {
    Merged { commit: Seq<char> },
    WorktreeMissing,
    Failed(GitErrorView),
}

impl DeepView for MergeResult {
    type V = MergeResultView;

    open spec fn deep_view(&self) -> MergeResultView {
        match self {
            MergeResult::Merged { commit } => MergeResultView::Merged { commit: commit@ },
            MergeResult::WorktreeMissing => MergeResultView::WorktreeMissing,
            MergeResult::Failed(e) => MergeResultView::Failed(e@),
        }
    }
}

impl View for MergeResult {
    type V = MergeResultView;

    open spec fn view(&self) -> MergeResultView {
        self.deep_view()
    }
}

/// How a review ends: with the action taken, with no task to review, or
/// with the reason for neither.
pub type ReviewOutcome = Result<Option<ReviewAction>, ReviewAutomationError>;

/// The mathematical value of a [`ReviewOutcome`].
pub type ReviewOutcomeView = Result<Option<ReviewAction>, ReviewAutomationErrorView>;

/// The mathematical value of an outcome.
pub open spec fn review_outcome_view(o: ReviewOutcome) -> ReviewOutcomeView {
    match o {
        Ok(a) => Ok(a),
        Err(e) => Err(e@),
    }
}

/// The mathematical value of the result of a git operation.
pub open spec fn git_result_view(r: Result<String, GitError>) -> Result<Seq<char>, GitErrorView> {
    match r {
        Ok(s) => Ok(s@),
        Err(e) => Err(e@),
    }
}

/// Where a review stands: what it has asked for and is waiting on.
#[derive(Debug, PartialEq, Eq)]
pub enum ReviewPhase {
    /// Waiting for a task that is ready for review.
    Finding,
    /// Waiting to learn which manifest files the workspace holds.
    Probing { job: ReviewJob },
    /// Waiting for the tests to run.
    Testing { job: ReviewJob },
    /// Waiting for the commit that logs the passed tests.
    TestsLogged { job: ReviewJob },
    /// Waiting for the repositories of the workspace.
    LoadingRepos { job: ReviewJob },
    /// Waiting for the merge of the repository at `index`; `rebased` says
    /// whether this is the retry after a rebase.
    Merging { job: ReviewJob, repos: Vec<RepoWithTargetBranch>, index: usize, rebased: bool },
    /// Waiting for the commit that records the merge at `index`.
    Recording { job: ReviewJob, repos: Vec<RepoWithTargetBranch>, index: usize },
    /// Waiting for the fork point of the repository at `index`.
    FindingForkPoint { job: ReviewJob, repos: Vec<RepoWithTargetBranch>, index: usize },
    /// Waiting for the rebase of the repository at `index`.
    Rebasing { job: ReviewJob, repos: Vec<RepoWithTargetBranch>, index: usize },
    /// Waiting for the rebase to be aborted.
    Aborting { job: ReviewJob, detail: String },
    /// Waiting for the commit that logs the conflict.
    ConflictLogged { job: ReviewJob, detail: String },
    /// Waiting for the log rows of the task.
    CountingConflicts { job: ReviewJob, detail: String },
    /// Waiting for the commit that cancels the task.
    Cancelling { job: ReviewJob, detail: String, count: usize },
    /// Waiting for the advisor to split the task.
    BreakingDown { job: ReviewJob, count: usize },
    /// Waiting for a commit, after which the review ends with `outcome`.
    Finishing { outcome: ReviewOutcome },
    /// The review is over.
    Finished,
}

/// The mathematical value of a [`ReviewPhase`].
#[verifier::ext_equal]
#[allow(inconsistent_fields)]
pub enum ReviewPhaseView {
    Finding,
    Probing { job: ReviewJobView },
    Testing { job: ReviewJobView },
    TestsLogged { job: ReviewJobView },
    LoadingRepos { job: ReviewJobView },
    Merging { job: ReviewJobView, repos: Seq<RepoWithTargetBranchView>, index: usize, rebased: bool },
    Recording { job: ReviewJobView, repos: Seq<RepoWithTargetBranchView>, index: usize },
    FindingForkPoint { job: ReviewJobView, repos: Seq<RepoWithTargetBranchView>, index: usize },
    Rebasing { job: ReviewJobView, repos: Seq<RepoWithTargetBranchView>, index: usize },
    Aborting { job: ReviewJobView, detail: Seq<char> },
    ConflictLogged { job: ReviewJobView, detail: Seq<char> },
    CountingConflicts { job: ReviewJobView, detail: Seq<char> },
    Cancelling { job: ReviewJobView, detail: Seq<char>, count: usize },
    BreakingDown { job: ReviewJobView, count: usize },
    Finishing { outcome: ReviewOutcomeView },
    Finished,
}

impl ReviewPhaseView {
    /// A phase that works on a repository names one that is there.
    pub open spec fn wf(self) -> bool {
        match self {
            ReviewPhaseView::Merging { job, repos, index, rebased } => index < repos.len(),
            ReviewPhaseView::Recording { job, repos, index } => index < repos.len(),
            ReviewPhaseView::FindingForkPoint { job, repos, index } => index < repos.len(),
            ReviewPhaseView::Rebasing { job, repos, index } => index < repos.len(),
            _ => true,
        }
    }
}

impl DeepView for ReviewPhase {
    type V = ReviewPhaseView;

    open spec fn deep_view(&self) -> ReviewPhaseView {
        match self {
            ReviewPhase::Finding => ReviewPhaseView::Finding,
            ReviewPhase::Probing { job } => ReviewPhaseView::Probing { job: job@ },
            ReviewPhase::Testing { job } => ReviewPhaseView::Testing { job: job@ },
            ReviewPhase::TestsLogged { job } => ReviewPhaseView::TestsLogged { job: job@ },
            ReviewPhase::LoadingRepos { job } => ReviewPhaseView::LoadingRepos { job: job@ },
            ReviewPhase::Merging { job, repos, index, rebased } => ReviewPhaseView::Merging {
                job: job@,
                repos: repos.deep_view(),
                index: *index,
                rebased: *rebased,
            },
            ReviewPhase::Recording { job, repos, index } => ReviewPhaseView::Recording {
                job: job@,
                repos: repos.deep_view(),
                index: *index,
            },
            ReviewPhase::FindingForkPoint { job, repos, index } => ReviewPhaseView::FindingForkPoint {
                job: job@,
                repos: repos.deep_view(),
                index: *index,
            },
            ReviewPhase::Rebasing { job, repos, index } => ReviewPhaseView::Rebasing {
                job: job@,
                repos: repos.deep_view(),
                index: *index,
            },
            ReviewPhase::Aborting { job, detail } => ReviewPhaseView::Aborting {
                job: job@,
                detail: detail@,
            },
            ReviewPhase::ConflictLogged { job, detail } => ReviewPhaseView::ConflictLogged {
                job: job@,
                detail: detail@,
            },
            ReviewPhase::CountingConflicts { job, detail } => ReviewPhaseView::CountingConflicts {
                job: job@,
                detail: detail@,
            },
            ReviewPhase::Cancelling { job, detail, count } => ReviewPhaseView::Cancelling {
                job: job@,
                detail: detail@,
                count: *count,
            },
            ReviewPhase::BreakingDown { job, count } => ReviewPhaseView::BreakingDown {
                job: job@,
                count: *count,
            },
            ReviewPhase::Finishing { outcome } => ReviewPhaseView::Finishing {
                outcome: review_outcome_view(*outcome),
            },
            ReviewPhase::Finished => ReviewPhaseView::Finished,
        }
    }
}

impl View for ReviewPhase {
    type V = ReviewPhaseView;

    open spec fn view(&self) -> ReviewPhaseView {
        self.deep_view()
    }
}

/// The state of one review for one project.
#[derive(Debug, PartialEq, Eq)]
pub struct ReviewState {
    pub settings: ProjectReviewSettings,
    pub phase: ReviewPhase,
}

/// The mathematical value of a [`ReviewState`].
#[verifier::ext_equal]
pub struct ReviewStateView {
    pub settings: ProjectReviewSettings,
    pub phase: ReviewPhaseView,
}

impl DeepView for ReviewState {
    type V = ReviewStateView;

    open spec fn deep_view(&self) -> ReviewStateView {
        ReviewStateView { settings: self.settings, phase: self.phase@ }
    }
}

impl View for ReviewState {
    type V = ReviewStateView;

    open spec fn view(&self) -> ReviewStateView {
        self.deep_view()
    }
}

/// What the store, the test run, git or the advisor answered.
#[derive(Debug, PartialEq, Eq)]
pub enum ReviewEvent {
    /// The task that is ready for review, with its workspace, if any is.
    Reviewable(Option<(Task, Workspace)>),
    /// The names of the manifest files that the workspace holds.
    Manifests(Vec<String>),
    /// How the tests ran, or why they could not be run.
    TestsRan(Result<TestRun, String>),
    /// Every write of the commit was carried out.
    Committed,
    /// The store failed; the text is its message.
    StoreFailed(String),
    /// The repositories of the workspace, with their target branches.
    Repos(Vec<RepoWithTargetBranch>),
    /// How the merge ended.
    Merged(MergeResult),
    /// The fork point, or why it could not be found.
    ForkPoint(Result<String, GitError>),
    /// The new head after the rebase, or why the rebase failed.
    Rebased(Result<String, GitError>),
    /// The rebase was aborted, or could not be.
    Aborted,
    /// The log rows of the task.
    ConflictLogs(Vec<ReviewAutomationLog>),
    /// The advisor's split of the task, or why it gave none.
    Breakdown(Result<ConflictBreakdownResponse, ClaudeApiError>),
}

/// The mathematical value of a [`ReviewEvent`].
#[verifier::ext_equal]
pub enum ReviewEventView {
    Reviewable(Option<(TaskView, WorkspaceView)>),
    Manifests(Seq<Seq<char>>),
    TestsRan(Result<TestRunView, Seq<char>>),
    Committed,
    StoreFailed(Seq<char>),
    Repos(Seq<RepoWithTargetBranchView>),
    Merged(MergeResultView),
    ForkPoint(Result<Seq<char>, GitErrorView>),
    Rebased(Result<Seq<char>, GitErrorView>),
    Aborted,
    ConflictLogs(Seq<ReviewAutomationLogView>),
    Breakdown(Result<ConflictBreakdownResponseView, ClaudeApiErrorView>),
}

impl DeepView for ReviewEvent {
    type V = ReviewEventView;

    open spec fn deep_view(&self) -> ReviewEventView {
        match self {
            ReviewEvent::Reviewable(found) => ReviewEventView::Reviewable(
                match found {
                    Some((t, w)) => Some((t@, w@)),
                    None => None,
                },
            ),
            ReviewEvent::Manifests(names) => ReviewEventView::Manifests(names.deep_view()),
            ReviewEvent::TestsRan(r) => ReviewEventView::TestsRan(
                match r {
                    Ok(run) => Ok(run@),
                    Err(m) => Err(m@),
                },
            ),
            ReviewEvent::Committed => ReviewEventView::Committed,
            ReviewEvent::StoreFailed(m) => ReviewEventView::StoreFailed(m@),
            ReviewEvent::Repos(repos) => ReviewEventView::Repos(repos.deep_view()),
            ReviewEvent::Merged(r) => ReviewEventView::Merged(r@),
            ReviewEvent::ForkPoint(r) => ReviewEventView::ForkPoint(git_result_view(*r)),
            ReviewEvent::Rebased(r) => ReviewEventView::Rebased(git_result_view(*r)),
            ReviewEvent::Aborted => ReviewEventView::Aborted,
            ReviewEvent::ConflictLogs(logs) => ReviewEventView::ConflictLogs(logs.deep_view()),
            ReviewEvent::Breakdown(r) => ReviewEventView::Breakdown(
                match r {
                    Ok(a) => Ok(a@),
                    Err(e) => Err(e@),
                },
            ),
        }
    }
}

impl View for ReviewEvent {
    type V = ReviewEventView;

    open spec fn view(&self) -> ReviewEventView {
        self.deep_view()
    }
}

/// A git operation on the worktree of one repository of a workspace.
#[derive(Debug, PartialEq, Eq)]
pub struct GitRequest {
    /// Where the repository lives.
    pub repo_path: String,
    /// Where the workspace lives; the worktree is the directory in it that
    /// bears the repository's name.
    pub workspace_path: String,
    pub repo_name: String,
    /// The branch of the workspace.
    pub branch: String,
    /// The branch that the workspace's branch is merged into.
    pub target_branch: String,
}

/// The mathematical value of a [`GitRequest`].
#[verifier::ext_equal]
pub struct GitRequestView {
    pub repo_path: Seq<char>,
    pub workspace_path: Seq<char>,
    pub repo_name: Seq<char>,
    pub branch: Seq<char>,
    pub target_branch: Seq<char>,
}

impl DeepView for GitRequest {
    type V = GitRequestView;

    open spec fn deep_view(&self) -> GitRequestView {
        GitRequestView {
            repo_path: self.repo_path@,
            workspace_path: self.workspace_path@,
            repo_name: self.repo_name@,
            branch: self.branch@,
            target_branch: self.target_branch@,
        }
    }
}

impl View for GitRequest {
    type V = GitRequestView;

    open spec fn view(&self) -> GitRequestView {
        self.deep_view()
    }
}

/// What the review asks for next.
#[derive(Debug, PartialEq, Eq)]
pub enum ReviewCommand {
    /// Find a task of the project that is in review, whose workspace runs
    /// nothing and has seen a coding agent finish.
    FindReviewable { project_id: u128 },
    /// Say which of the named files the directory holds.
    ProbeManifests { directory: String, names: Vec<String> },
    /// Run the program with the arguments in the directory, capturing what
    /// it prints.
    RunTests { program: String, arguments: Vec<String>, directory: String },
    /// Carry out the writes in order; if all succeed, send the notification.
    Commit { writes: Vec<StoreWrite>, notification: Option<Notification> },
    /// Read the repositories of the workspace, with their target branches.
    LoadRepos { workspace_id: u128 },
    /// Merge the workspace's branch into the target branch.
    Merge { request: GitRequest, commit_message: String },
    /// Find the commit from which the workspace's branch forked.
    FindForkPoint { request: GitRequest },
    /// Rebase the workspace's branch from the fork point onto the target.
    Rebase { request: GitRequest, fork_point: String },
    /// Abort the rebase in the worktree.
    AbortRebase { request: GitRequest },
    /// Read the log rows of the task.
    LoadConflictLogs { task_id: u128 },
    /// Ask the advisor to split the task that failed to merge.
    AskBreakdown { task: Task, conflict_details: String },
    /// The review is over, with this outcome.
    Finish(ReviewOutcome),
}

/// The mathematical value of a [`ReviewCommand`].
#[verifier::ext_equal]
#[allow(inconsistent_fields)]
pub enum ReviewCommandView {
    FindReviewable { project_id: u128 },
    ProbeManifests { directory: Seq<char>, names: Seq<Seq<char>> },
    RunTests { program: Seq<char>, arguments: Seq<Seq<char>>, directory: Seq<char> },
    Commit { writes: Seq<StoreWriteView>, notification: Option<NotificationView> },
    LoadRepos { workspace_id: u128 },
    Merge { request: GitRequestView, commit_message: Seq<char> },
    FindForkPoint { request: GitRequestView },
    Rebase { request: GitRequestView, fork_point: Seq<char> },
    AbortRebase { request: GitRequestView },
    LoadConflictLogs { task_id: u128 },
    AskBreakdown { task: TaskView, conflict_details: Seq<char> },
    Finish(ReviewOutcomeView),
}

impl DeepView for ReviewCommand {
    type V = ReviewCommandView;

    open spec fn deep_view(&self) -> ReviewCommandView {
        match self {
            ReviewCommand::FindReviewable { project_id } => ReviewCommandView::FindReviewable {
                project_id: *project_id,
            },
            ReviewCommand::ProbeManifests { directory, names } => ReviewCommandView::ProbeManifests {
                directory: directory@,
                names: names.deep_view(),
            },
            ReviewCommand::RunTests { program, arguments, directory } => ReviewCommandView::RunTests {
                program: program@,
                arguments: arguments.deep_view(),
                directory: directory@,
            },
            ReviewCommand::Commit { writes, notification } => ReviewCommandView::Commit {
                writes: writes.deep_view(),
                notification: notification.deep_view(),
            },
            ReviewCommand::LoadRepos { workspace_id } => ReviewCommandView::LoadRepos {
                workspace_id: *workspace_id,
            },
            ReviewCommand::Merge { request, commit_message } => ReviewCommandView::Merge {
                request: request@,
                commit_message: commit_message@,
            },
            ReviewCommand::FindForkPoint { request } => ReviewCommandView::FindForkPoint {
                request: request@,
            },
            ReviewCommand::Rebase { request, fork_point } => ReviewCommandView::Rebase {
                request: request@,
                fork_point: fork_point@,
            },
            ReviewCommand::AbortRebase { request } => ReviewCommandView::AbortRebase {
                request: request@,
            },
            ReviewCommand::LoadConflictLogs { task_id } => ReviewCommandView::LoadConflictLogs {
                task_id: *task_id,
            },
            ReviewCommand::AskBreakdown { task, conflict_details } => ReviewCommandView::AskBreakdown {
                task: task@,
                conflict_details: conflict_details@,
            },
            ReviewCommand::Finish(outcome) => ReviewCommandView::Finish(
                review_outcome_view(*outcome),
            ),
        }
    }
}

impl View for ReviewCommand {
    type V = ReviewCommandView;

    open spec fn view(&self) -> ReviewCommandView {
        self.deep_view()
    }
}


/// The state and the command with which a review ends.
pub open spec fn finish(settings: ProjectReviewSettings, outcome: ReviewOutcomeView) -> (
    ReviewStateView,
    ReviewCommandView,
) {
    (ReviewStateView { settings, phase: ReviewPhaseView::Finished }, ReviewCommandView::Finish(outcome))
}

/// A last commit, after which the review ends with `outcome`.
pub open spec fn commit_and_finish(
    settings: ProjectReviewSettings,
    writes: Seq<StoreWriteView>,
    notification: Option<NotificationView>,
    outcome: ReviewOutcomeView,
) -> (ReviewStateView, ReviewCommandView) {
    (
        ReviewStateView { settings, phase: ReviewPhaseView::Finishing { outcome } },
        ReviewCommandView::Commit { writes, notification },
    )
}

/// A row of the review log for the task of the job.
pub open spec fn review_log(
    job: ReviewJobView,
    action: ReviewAction,
    output: Option<Seq<char>>,
    error_message: Option<Seq<char>>,
) -> StoreWriteView {
    StoreWriteView::ReviewLog {
        task_id: job.task.id,
        workspace_id: job.workspace.id,
        action,
        output,
        error_message,
    }
}

/// A notification of the review engine.
pub open spec fn notice(message: Seq<char>) -> NotificationView {
    NotificationView { title: "Review Automation"@, message }
}

/// The git operation on the repository `repo` of the job'settings workspace.
pub open spec fn git_request(job: ReviewJobView, repo: RepoWithTargetBranchView) -> GitRequestView {
    GitRequestView {
        repo_path: repo.repo.path,
        workspace_path: job.path,
        repo_name: repo.repo.name,
        branch: job.workspace.branch,
        target_branch: repo.target_branch,
    }
}

/// The message of the merge commit.
pub open spec fn merge_message(job: ReviewJobView, repo: RepoWithTargetBranchView) -> Seq<char> {
    "Merge "@ + job.workspace.branch + " into "@ + repo.target_branch + "\n\nTask: "@
        + job.task.title
}

/// The command to merge the repository `repo`.
pub open spec fn merge_command(job: ReviewJobView, repo: RepoWithTargetBranchView) -> ReviewCommandView {
    ReviewCommandView::Merge {
        request: git_request(job, repo),
        commit_message: merge_message(job, repo),
    }
}

/// All repositories are merged: the merge is logged, the task is done, the
/// workspace is archived, and the completion is announced.
pub open spec fn completed(settings: ProjectReviewSettings, job: ReviewJobView) -> (
    ReviewStateView,
    ReviewCommandView,
) {
    commit_and_finish(
        settings,
        seq![
            review_log(job, ReviewAction::MergeCompleted, None, None),
            StoreWriteView::SetStatus { task_id: job.task.id, status: TaskStatus::Done },
            StoreWriteView::ArchiveWorkspace { workspace_id: job.workspace.id },
        ],
        Some(notice("Task completed: "@ + job.task.title)),
        Ok(Some(ReviewAction::MergeCompleted)),
    )
}

/// Goes on with the repository at `index`, or completes the merge where
/// none is left.
pub open spec fn merge_from(
    settings: ProjectReviewSettings,
    job: ReviewJobView,
    repos: Seq<RepoWithTargetBranchView>,
    index: int,
) -> (ReviewStateView, ReviewCommandView) {
    if 0 <= index < repos.len() {
        (
            ReviewStateView {
                settings,
                phase: ReviewPhaseView::Merging {
                    job,
                    repos,
                    index: index as usize,
                    rebased: false,
                },
            },
            merge_command(job, repos[index]),
        )
    } else {
        completed(settings, job)
    }
}

/// What is logged where neither merging is enabled nor the tests stopped
/// the review.
pub open spec fn nothing_enabled() -> Seq<char> {
    "Neither tests nor auto-merge enabled"@
}

/// The merge step: with merging enabled the repositories are read, else
/// the review is logged as skipped.
pub open spec fn merge_step(settings: ProjectReviewSettings, job: ReviewJobView) -> (
    ReviewStateView,
    ReviewCommandView,
) {
    if job.settings.auto_merge_enabled {
        (
            ReviewStateView { settings, phase: ReviewPhaseView::LoadingRepos { job } },
            ReviewCommandView::LoadRepos { workspace_id: job.workspace.id },
        )
    } else {
        commit_and_finish(
            settings,
            seq![review_log(job, ReviewAction::Skipped, None, Some(nothing_enabled()))],
            None,
            Ok(Some(ReviewAction::Skipped)),
        )
    }
}

/// The review once a task was looked for: without a task, or without a
/// place where its workspace lives, it ends; else the tests are prepared
/// if they are enabled and the task has testing criteria, and the merge
/// step follows otherwise.
pub open spec fn on_reviewable(settings: ProjectReviewSettings, found: Option<(TaskView, WorkspaceView)>) -> (
    ReviewStateView,
    ReviewCommandView,
) {
    match found {
        None => finish(settings, Ok(None)),
        Some((task, workspace)) => match workspace.container_ref {
            None => finish(settings, Err(ReviewAutomationErrorView::NoWorkspaceContainer)),
            Some(path) => {
                let job = ReviewJobView { settings: settings, task, workspace, path };
                if settings.run_tests_enabled && task.testing_criteria.is_some() {
                    (
                        ReviewStateView { settings, phase: ReviewPhaseView::Probing { job } },
                        ReviewCommandView::ProbeManifests {
                            directory: path,
                            names: manifest_names(),
                        },
                    )
                } else {
                    merge_step(settings, job)
                }
            },
        },
    }
}

/// The tests passed, or were skipped: that is logged with the output.
pub open spec fn tests_passed(settings: ProjectReviewSettings, job: ReviewJobView, output: Seq<char>) -> (
    ReviewStateView,
    ReviewCommandView,
) {
    (
        ReviewStateView { settings, phase: ReviewPhaseView::TestsLogged { job } },
        ReviewCommandView::Commit {
            writes: seq![review_log(job, ReviewAction::TestPassed, Some(output), None)],
            notification: None,
        },
    )
}

/// What is logged as output where the stack is unknown.
pub open spec fn tests_skipped() -> Seq<char> {
    "Unknown stack, tests skipped"@
}

/// The review once the manifests are known: the tests of the stack are
/// run; an unknown stack counts as a pass.
pub open spec fn on_manifests(settings: ProjectReviewSettings, job: ReviewJobView, present: Seq<Seq<char>>) -> (
    ReviewStateView,
    ReviewCommandView,
) {
    let stack = stack_of(present);
    match stack.test_program() {
        None => tests_passed(settings, job, tests_skipped()),
        Some(program) => (
            ReviewStateView { settings, phase: ReviewPhaseView::Testing { job } },
            ReviewCommandView::RunTests {
                program,
                arguments: stack.test_arguments(),
                directory: job.path,
            },
        ),
    }
}

/// What a test run printed, as it is logged.
pub open spec fn combined_output(run: TestRunView) -> Seq<char> {
    "STDOUT:\n"@ + run.stdout + "\n\nSTDERR:\n"@ + run.stderr
}

/// The verdict on a test run: the output of a run that passed, or the
/// error for a run that failed, with its output, or that could not be
/// made.
pub open spec fn test_verdict(result: Result<TestRunView, Seq<char>>) -> Result<
    Seq<char>,
    ReviewAutomationErrorView,
> {
    match result {
        Err(reason) => Err(ReviewAutomationErrorView::CommandFailed(reason)),
        Ok(run) => if run.success {
            Ok(combined_output(run))
        } else {
            Err(ReviewAutomationErrorView::TestFailed(combined_output(run)))
        },
    }
}

/// The review once the tests ran: a pass is logged and the merge step
/// follows; a failure is logged and announced, and the task stays in
/// review; tests that could not be run end the review with an error.
pub open spec fn on_tests(settings: ProjectReviewSettings, job: ReviewJobView, result: Result<
    TestRunView,
    Seq<char>,
>) -> (ReviewStateView, ReviewCommandView) {
    match test_verdict(result) {
        Ok(output) => tests_passed(settings, job, output),
        Err(ReviewAutomationErrorView::TestFailed(output)) => commit_and_finish(
            settings,
            seq![review_log(job, ReviewAction::TestFailed, Some(output), Some("Tests failed"@))],
            Some(notice("Tests failed for task: "@ + job.task.title)),
            Ok(Some(ReviewAction::TestFailed)),
        ),
        Err(error) => commit_and_finish(
            settings,
            seq![review_log(job, ReviewAction::Error, None, Some(error.message()))],
            None,
            Err(error),
        ),
    }
}

/// A conflict: it is logged with its detail, and the conflicts of the task
/// are counted next.
pub open spec fn conflict(settings: ProjectReviewSettings, job: ReviewJobView, detail: Seq<char>) -> (
    ReviewStateView,
    ReviewCommandView,
) {
    (
        ReviewStateView { settings, phase: ReviewPhaseView::ConflictLogged { job, detail } },
        ReviewCommandView::Commit {
            writes: seq![
                review_log(
                    job,
                    ReviewAction::MergeConflict,
                    None,
                    Some("Merge conflict detected. Details: "@ + detail),
                ),
            ],
            notification: None,
        },
    )
}

/// The rebase is aborted, and what happened is then treated as a conflict.
pub open spec fn abort_then_conflict(
    settings: ProjectReviewSettings,
    job: ReviewJobView,
    repo: RepoWithTargetBranchView,
    detail: Seq<char>,
) -> (ReviewStateView, ReviewCommandView) {
    (
        ReviewStateView { settings, phase: ReviewPhaseView::Aborting { job, detail } },
        ReviewCommandView::AbortRebase { request: git_request(job, repo) },
    )
}

/// The review once a merge was tried. A merge is recorded; a missing
/// worktree is passed over; a target that has moved ahead calls for a
/// rebase; a conflict is escalated; any other failure is logged and ends
/// the review. A merge that fails after a rebase is a conflict, whatever
/// the failure.
pub open spec fn on_merged(
    settings: ProjectReviewSettings,
    job: ReviewJobView,
    repos: Seq<RepoWithTargetBranchView>,
    index: int,
    rebased: bool,
    result: MergeResultView,
) -> (ReviewStateView, ReviewCommandView) {
    let repo = repos[index];
    match result {
        MergeResultView::Merged { commit } => (
            ReviewStateView {
                settings,
                phase: ReviewPhaseView::Recording { job, repos, index: index as usize },
            },
            ReviewCommandView::Commit {
                writes: seq![
                    StoreWriteView::RecordMerge {
                        workspace_id: job.workspace.id,
                        repo_id: repo.repo.id,
                        target_branch: repo.target_branch,
                        merge_commit: commit,
                    },
                ],
                notification: None,
            },
        ),
        MergeResultView::WorktreeMissing => merge_from(settings, job, repos, index + 1),
        MergeResultView::Failed(e) => if rebased {
            abort_then_conflict(settings, job, repo, "Merge failed after rebase: "@ + e.message())
        } else {
            match e {
                GitErrorView::BranchesDiverged(_) => (
                    ReviewStateView {
                        settings,
                        phase: ReviewPhaseView::FindingForkPoint {
                            job,
                            repos,
                            index: index as usize,
                        },
                    },
                    ReviewCommandView::FindForkPoint { request: git_request(job, repo) },
                ),
                GitErrorView::MergeConflicts(detail) => conflict(settings, job, detail),
                GitErrorView::Other(_) => {
                    let error = ReviewAutomationErrorView::Git(e);
                    commit_and_finish(
                        settings,
                        seq![review_log(job, ReviewAction::Error, None, Some(error.message()))],
                        None,
                        Err(error),
                    )
                },
            }
        },
    }
}

/// The review once the fork point was looked for: with it the branch is
/// rebased; without it the divergence is a conflict.
pub open spec fn on_fork_point(
    settings: ProjectReviewSettings,
    job: ReviewJobView,
    repos: Seq<RepoWithTargetBranchView>,
    index: int,
    result: Result<Seq<char>, GitErrorView>,
) -> (ReviewStateView, ReviewCommandView) {
    match result {
        Err(e) => conflict(settings, job, "Could not determine fork point for rebase: "@ + e.message()),
        Ok(fork_point) => (
            ReviewStateView {
                settings,
                phase: ReviewPhaseView::Rebasing { job, repos, index: index as usize },
            },
            ReviewCommandView::Rebase { request: git_request(job, repos[index]), fork_point },
        ),
    }
}

/// The review once the rebase was tried: after a rebase the merge is tried
/// once more; a rebase that fails is aborted and treated as a conflict.
pub open spec fn on_rebased(
    settings: ProjectReviewSettings,
    job: ReviewJobView,
    repos: Seq<RepoWithTargetBranchView>,
    index: int,
    result: Result<Seq<char>, GitErrorView>,
) -> (ReviewStateView, ReviewCommandView) {
    match result {
        Ok(_) => (
            ReviewStateView {
                settings,
                phase: ReviewPhaseView::Merging {
                    job,
                    repos,
                    index: index as usize,
                    rebased: true,
                },
            },
            merge_command(job, repos[index]),
        ),
        Err(GitErrorView::MergeConflicts(detail)) => abort_then_conflict(
            settings,
            job,
            repos[index],
            "Automatic rebase failed due to conflicts. Manual intervention required. "@ + detail,
        ),
        Err(e) => abort_then_conflict(
            settings,
            job,
            repos[index],
            "Automatic rebase failed: "@ + e.message(),
        ),
    }
}

/// What is announced when a task goes back to work after a conflict.
pub open spec fn retry_notice(title: Seq<char>, count: int) -> NotificationView {
    notice(
        "Merge conflict #"@ + decimal(count) + " for '"@ + title
            + "'. Task moved back to InProgress for conflict resolution. ("@ + decimal(
            MAX_MERGE_CONFLICT_ATTEMPTS - count,
        ) + " attempts remaining)"@,
    )
}

/// Conflict escalation, once the conflicts of the task were counted from
/// its log rows: below the ceiling the task goes back to work; at the
/// ceiling it is cancelled and its workspace archived, and a breakdown is
/// attempted next.
pub open spec fn on_conflict_logs(
    settings: ProjectReviewSettings,
    job: ReviewJobView,
    detail: Seq<char>,
    logs: Seq<ReviewAutomationLogView>,
) -> (ReviewStateView, ReviewCommandView) {
    let count = conflict_count(logs, job.task.id);
    if count >= MAX_MERGE_CONFLICT_ATTEMPTS {
        (
            ReviewStateView {
                settings,
                phase: ReviewPhaseView::Cancelling { job, detail, count: count as usize },
            },
            ReviewCommandView::Commit {
                writes: seq![
                    StoreWriteView::SetStatus { task_id: job.task.id, status: TaskStatus::Cancelled },
                    StoreWriteView::ArchiveWorkspace { workspace_id: job.workspace.id },
                ],
                notification: None,
            },
        )
    } else {
        commit_and_finish(
            settings,
            seq![StoreWriteView::SetStatus { task_id: job.task.id, status: TaskStatus::InProgress }],
            Some(retry_notice(job.task.title, count as int)),
            Ok(Some(ReviewAction::MergeConflict)),
        )
    }
}

/// The subtasks that replace a conflicting task, or why there are none:
/// the advisor failed, or suggested fewer than two.
pub open spec fn conflict_plan(task: TaskView, answer: Result<
    ConflictBreakdownResponseView,
    ClaudeApiErrorView,
>) -> Result<Seq<CreateTaskView>, ReviewAutomationErrorView> {
    match answer {
        Err(e) => Err(ReviewAutomationErrorView::CommandFailed(e.message())),
        Ok(response) => if response.subtasks.len() < MIN_SUBTASKS {
            Err(
                ReviewAutomationErrorView::CommandFailed(
                    "AI did not suggest enough subtasks for breakdown"@,
                ),
            )
        } else {
            Ok(conflict_subtasks(task, response.subtasks))
        },
    }
}

/// What is logged when a cancelled task was broken down.
pub open spec fn broken_down_record(count: int, created: int) -> Seq<char> {
    "Task cancelled after "@ + decimal(count) + " merge conflicts. Broken down into "@ + decimal(
        created,
    ) + " simpler subtasks."@
}

/// What is announced when a cancelled task was broken down.
pub open spec fn broken_down_notice(title: Seq<char>, count: int, created: int) -> NotificationView {
    notice(
        "Task '"@ + title + "' cancelled after "@ + decimal(count)
            + " merge conflicts. Created "@ + decimal(created) + " simpler subtasks."@,
    )
}

/// What is announced when a cancelled task could not be broken down.
pub open spec fn manual_notice(title: Seq<char>, count: int) -> NotificationView {
    notice(
        "Task '"@ + title + "' cancelled after "@ + decimal(count)
            + " merge conflicts. Manual breakdown required."@,
    )
}

/// The review once the advisor was asked to split the cancelled task:
/// the subtasks are created and the breakdown is logged; or, where there
/// is no breakdown, the failure is logged and the task stays cancelled
/// without replacement.
pub open spec fn on_breakdown(
    settings: ProjectReviewSettings,
    job: ReviewJobView,
    count: int,
    answer: Result<ConflictBreakdownResponseView, ClaudeApiErrorView>,
) -> (ReviewStateView, ReviewCommandView) {
    match conflict_plan(job.task, answer) {
        Ok(planned) => commit_and_finish(
            settings,
            creations(planned) + seq![
                review_log(
                    job,
                    ReviewAction::Error,
                    None,
                    Some(broken_down_record(count, planned.len() as int)),
                ),
            ],
            Some(broken_down_notice(job.task.title, count, planned.len() as int)),
            Ok(Some(ReviewAction::MergeConflict)),
        ),
        Err(error) => commit_and_finish(
            settings,
            seq![review_log(job, ReviewAction::Error, None, Some(error.message()))],
            Some(manual_notice(job.task.title, count)),
            Ok(Some(ReviewAction::MergeConflict)),
        ),
    }
}

/// `event` answers what a review in `phase` is waiting on.
pub open spec fn expects(phase: ReviewPhaseView, event: ReviewEventView) -> bool {
    match phase {
        ReviewPhaseView::Finding => event is Reviewable || event is StoreFailed,
        ReviewPhaseView::Probing { .. } => event is Manifests,
        ReviewPhaseView::Testing { .. } => event is TestsRan,
        ReviewPhaseView::TestsLogged { .. } => event is Committed || event is StoreFailed,
        ReviewPhaseView::LoadingRepos { .. } => event is Repos || event is StoreFailed,
        ReviewPhaseView::Merging { .. } => event is Merged,
        ReviewPhaseView::Recording { .. } => event is Committed || event is StoreFailed,
        ReviewPhaseView::FindingForkPoint { .. } => event is ForkPoint,
        ReviewPhaseView::Rebasing { .. } => event is Rebased,
        ReviewPhaseView::Aborting { .. } => event is Aborted,
        ReviewPhaseView::ConflictLogged { .. } => event is Committed || event is StoreFailed,
        ReviewPhaseView::CountingConflicts { .. } => event is ConflictLogs || event is StoreFailed,
        ReviewPhaseView::Cancelling { .. } => event is Committed || event is StoreFailed,
        ReviewPhaseView::BreakingDown { .. } => event is Breakdown,
        ReviewPhaseView::Finishing { .. } => event is Committed || event is StoreFailed,
        ReviewPhaseView::Finished => false,
    }
}

/// The end of a review that is handed an answer to something that it did
/// not ask.
pub open spec fn unexpected(settings: ProjectReviewSettings) -> (ReviewStateView, ReviewCommandView) {
    finish(settings, Err(ReviewAutomationErrorView::Database(out_of_turn())))
}

/// Once the conflict is logged, the log rows of the task are read.
pub open spec fn count_conflicts(
    settings: ProjectReviewSettings,
    job: ReviewJobView,
    detail: Seq<char>,
) -> (ReviewStateView, ReviewCommandView) {
    (
        ReviewStateView { settings, phase: ReviewPhaseView::CountingConflicts { job, detail } },
        ReviewCommandView::LoadConflictLogs { task_id: job.task.id },
    )
}

/// Once the task is cancelled, the advisor is asked to split it, with the
/// detail of the conflict.
pub open spec fn ask_for_breakdown(
    settings: ProjectReviewSettings,
    job: ReviewJobView,
    detail: Seq<char>,
    count: usize,
) -> (ReviewStateView, ReviewCommandView) {
    (
        ReviewStateView { settings, phase: ReviewPhaseView::BreakingDown { job, count } },
        ReviewCommandView::AskBreakdown { task: job.task, conflict_details: detail },
    )
}

/// The review after a commit went through.
pub open spec fn on_committed(s: ReviewStateView) -> (ReviewStateView, ReviewCommandView) {
    match s.phase {
        ReviewPhaseView::TestsLogged { job } => merge_step(s.settings, job),
        ReviewPhaseView::Recording { job, repos, index } => merge_from(
            s.settings,
            job,
            repos,
            index + 1,
        ),
        ReviewPhaseView::ConflictLogged { job, detail } => count_conflicts(s.settings, job, detail),
        ReviewPhaseView::Cancelling { job, detail, count } => ask_for_breakdown(
            s.settings,
            job,
            detail,
            count,
        ),
        ReviewPhaseView::Finishing { outcome } => finish(s.settings, outcome),
        _ => unexpected(s.settings),
    }
}

/// One step of a review: the next state and what to do next, given the
/// answer to what was asked last. A failure of the store ends the review,
/// and so does an answer to something that was not asked, or a state that
/// no review can be in.
pub open spec fn review_step(s: ReviewStateView, event: ReviewEventView) -> (
    ReviewStateView,
    ReviewCommandView,
) {
    if !s.phase.wf() {
        unexpected(s.settings)
    } else {
        step_of(s, event)
    }
}

/// One step of a review that stands in a phase that a review can be in.
pub open spec fn step_of(s: ReviewStateView, event: ReviewEventView) -> (
    ReviewStateView,
    ReviewCommandView,
) {
    match event {
        ReviewEventView::StoreFailed(m) => finish(s.settings, Err(ReviewAutomationErrorView::Database(m))),
        ReviewEventView::Committed => on_committed(s),
        ReviewEventView::Reviewable(found) => match s.phase {
            ReviewPhaseView::Finding => on_reviewable(s.settings, found),
            _ => unexpected(s.settings),
        },
        ReviewEventView::Manifests(present) => match s.phase {
            ReviewPhaseView::Probing { job } => on_manifests(s.settings, job, present),
            _ => unexpected(s.settings),
        },
        ReviewEventView::TestsRan(result) => match s.phase {
            ReviewPhaseView::Testing { job } => on_tests(s.settings, job, result),
            _ => unexpected(s.settings),
        },
        ReviewEventView::Repos(repos) => match s.phase {
            ReviewPhaseView::LoadingRepos { job } => merge_from(s.settings, job, repos, 0),
            _ => unexpected(s.settings),
        },
        ReviewEventView::Merged(result) => match s.phase {
            ReviewPhaseView::Merging { job, repos, index, rebased } => on_merged(
                s.settings,
                job,
                repos,
                index as int,
                rebased,
                result,
            ),
            _ => unexpected(s.settings),
        },
        ReviewEventView::ForkPoint(result) => match s.phase {
            ReviewPhaseView::FindingForkPoint { job, repos, index } => on_fork_point(
                s.settings,
                job,
                repos,
                index as int,
                result,
            ),
            _ => unexpected(s.settings),
        },
        ReviewEventView::Rebased(result) => match s.phase {
            ReviewPhaseView::Rebasing { job, repos, index } => on_rebased(
                s.settings,
                job,
                repos,
                index as int,
                result,
            ),
            _ => unexpected(s.settings),
        },
        ReviewEventView::Aborted => match s.phase {
            ReviewPhaseView::Aborting { job, detail } => conflict(s.settings, job, detail),
            _ => unexpected(s.settings),
        },
        ReviewEventView::ConflictLogs(logs) => match s.phase {
            ReviewPhaseView::CountingConflicts { job, detail } => on_conflict_logs(
                s.settings,
                job,
                detail,
                logs,
            ),
            _ => unexpected(s.settings),
        },
        ReviewEventView::Breakdown(answer) => match s.phase {
            ReviewPhaseView::BreakingDown { job, count } => on_breakdown(
                s.settings,
                job,
                count as int,
                answer,
            ),
            _ => unexpected(s.settings),
        },
    }
}


fn out_of_turn_end(settings: ProjectReviewSettings) -> (r: (ReviewState, ReviewCommand))
    ensures
        (r.0@, r.1@) == unexpected(settings),
        r.0@.phase.wf(),
{
    finished(settings, Err(ReviewAutomationError::Database(out_of_turn_message())))
}

fn finished(settings: ProjectReviewSettings, outcome: ReviewOutcome) -> (r: (ReviewState, ReviewCommand))
    ensures
        (r.0@, r.1@) == finish(settings, review_outcome_view(outcome)),
{
    (ReviewState { settings, phase: ReviewPhase::Finished }, ReviewCommand::Finish(outcome))
}

fn commit_finish(
    settings: ProjectReviewSettings,
    writes: Vec<StoreWrite>,
    notification: Option<Notification>,
    outcome: ReviewOutcome,
) -> (r: (ReviewState, ReviewCommand))
    ensures
        (r.0@, r.1@) == commit_and_finish(
            settings,
            writes.deep_view(),
            notification.deep_view(),
            review_outcome_view(outcome),
        ),
{
    (
        ReviewState { settings, phase: ReviewPhase::Finishing { outcome } },
        ReviewCommand::Commit { writes, notification },
    )
}

fn one(write: StoreWrite) -> (r: Vec<StoreWrite>)
    ensures
        r.deep_view() == seq![write@],
{
    let mut out: Vec<StoreWrite> = Vec::new();
    out.push(write);
    proof {
        assert(out.deep_view() =~= seq![write@]);
    }
    out
}

fn log_of(job: &ReviewJob, action: ReviewAction, output: Option<String>, error_message: Option<
    String,
>) -> (r: StoreWrite)
    ensures
        r@ == review_log(job@, action, output.deep_view(), error_message.deep_view()),
{
    StoreWrite::ReviewLog {
        task_id: job.task.id,
        workspace_id: job.workspace.id,
        action,
        output,
        error_message,
    }
}

fn notice_of(message: String) -> (r: Notification)
    ensures
        r@ == notice(message@),
{
    Notification { title: String::from_str("Review Automation"), message }
}

fn request_of(job: &ReviewJob, repo: &RepoWithTargetBranch) -> (r: GitRequest)
    ensures
        r@ == git_request(job@, repo@),
{
    GitRequest {
        repo_path: repo.repo.path.clone(),
        workspace_path: job.path.clone(),
        repo_name: repo.repo.name.clone(),
        branch: job.workspace.branch.clone(),
        target_branch: repo.target_branch.clone(),
    }
}

fn merge_command_of(job: &ReviewJob, repo: &RepoWithTargetBranch) -> (r: ReviewCommand)
    ensures
        r@ == merge_command(job@, repo@),
{
    let mut message = String::from_str("Merge ");
    message.append(job.workspace.branch.as_str());
    message.append(" into ");
    message.append(repo.target_branch.as_str());
    message.append("\n\nTask: ");
    message.append(job.task.title.as_str());
    ReviewCommand::Merge { request: request_of(job, repo), commit_message: message }
}

fn complete(settings: ProjectReviewSettings, job: ReviewJob) -> (r: (ReviewState, ReviewCommand))
    ensures
        (r.0@, r.1@) == completed(settings, job@),
{
    let mut writes: Vec<StoreWrite> = Vec::new();
    writes.push(log_of(&job, ReviewAction::MergeCompleted, None, None));
    writes.push(StoreWrite::SetStatus { task_id: job.task.id, status: TaskStatus::Done });
    writes.push(StoreWrite::ArchiveWorkspace { workspace_id: job.workspace.id });
    proof {
        assert(writes.deep_view() =~= seq![
            review_log(job@, ReviewAction::MergeCompleted, None, None),
            StoreWriteView::SetStatus { task_id: job.task.id, status: TaskStatus::Done },
            StoreWriteView::ArchiveWorkspace { workspace_id: job.workspace.id },
        ]);
    }
    let message = String::from_str("Task completed: ").concat(job.task.title.as_str());
    commit_finish(settings, writes, Some(notice_of(message)), Ok(Some(ReviewAction::MergeCompleted)))
}

fn merge_next(settings: ProjectReviewSettings, job: ReviewJob, repos: Vec<RepoWithTargetBranch>, index: usize) -> (r: (
    ReviewState,
    ReviewCommand,
))
    ensures
        (r.0@, r.1@) == merge_from(settings, job@, repos.deep_view(), index as int),
        r.0@.phase.wf(),
{
    if index < repos.len() {
        assert(repos.deep_view()[index as int] == repos@[index as int]@);
        let command = merge_command_of(&job, &repos[index]);
        (
            ReviewState {
                settings,
                phase: ReviewPhase::Merging { job, repos, index, rebased: false },
            },
            command,
        )
    } else {
        complete(settings, job)
    }
}

fn to_merge_step(settings: ProjectReviewSettings, job: ReviewJob) -> (r: (ReviewState, ReviewCommand))
    ensures
        (r.0@, r.1@) == merge_step(settings, job@),
        r.0@.phase.wf(),
{
    if job.settings.auto_merge_enabled {
        let workspace_id = job.workspace.id;
        (
            ReviewState { settings, phase: ReviewPhase::LoadingRepos { job } },
            ReviewCommand::LoadRepos { workspace_id },
        )
    } else {
        let writes = one(
            log_of(
                &job,
                ReviewAction::Skipped,
                None,
                Some(String::from_str("Neither tests nor auto-merge enabled")),
            ),
        );
        commit_finish(settings, writes, None, Ok(Some(ReviewAction::Skipped)))
    }
}

fn handle_reviewable(settings: ProjectReviewSettings, found: Option<(Task, Workspace)>) -> (r: (
    ReviewState,
    ReviewCommand,
))
    ensures
        (r.0@, r.1@) == on_reviewable(
            settings,
            match found {
                Some((t, w)) => Some((t@, w@)),
                None => None,
            },
        ),
        r.0@.phase.wf(),
{
    match found {
        None => finished(settings, Ok(None)),
        Some((task, workspace)) => {
            let path = match &workspace.container_ref {
                None => {
                    return finished(settings, Err(ReviewAutomationError::NoWorkspaceContainer));
                },
                Some(p) => p.clone(),
            };
            let settings = settings;
            let wants_tests = settings.run_tests_enabled && task.testing_criteria.is_some();
            let job = ReviewJob { settings, task, workspace, path };
            if wants_tests {
                let directory = job.path.clone();
                (
                    ReviewState { settings, phase: ReviewPhase::Probing { job } },
                    ReviewCommand::ProbeManifests {
                        directory,
                        names: ReviewAutomationService::manifest_files(),
                    },
                )
            } else {
                to_merge_step(settings, job)
            }
        },
    }
}

fn pass_tests(settings: ProjectReviewSettings, job: ReviewJob, output: String) -> (r: (ReviewState, ReviewCommand))
    ensures
        (r.0@, r.1@) == tests_passed(settings, job@, output@),
{
    let writes = one(log_of(&job, ReviewAction::TestPassed, Some(output), None));
    (
        ReviewState { settings, phase: ReviewPhase::TestsLogged { job } },
        ReviewCommand::Commit { writes, notification: None },
    )
}

fn owned_arguments(arguments: &[&str]) -> (r: Vec<String>)
    ensures
        r@.len() == arguments@.len(),
        forall|i: int| 0 <= i < r@.len() ==> (#[trigger] r@[i])@ == arguments@[i]@,
{
    let mut out: Vec<String> = Vec::new();
    let mut i: usize = 0;
    while i < arguments.len()
        invariant
            i <= arguments.len(),
            out@.len() == i,
            forall|k: int| 0 <= k < i ==> (#[trigger] out@[k])@ == arguments@[k]@,
        decreases arguments.len() - i,
    {
        out.push(String::from_str(arguments[i]));
        i = i + 1;
    }
    out
}

fn handle_manifests(settings: ProjectReviewSettings, job: ReviewJob, present: Vec<String>) -> (r: (
    ReviewState,
    ReviewCommand,
))
    ensures
        (r.0@, r.1@) == on_manifests(settings, job@, present.deep_view()),
{
    let service = ReviewAutomationService::new();
    let stack = service.detect_stack(&present);
    match stack.test_command() {
        None => pass_tests(settings, job, String::from_str("Unknown stack, tests skipped")),
        Some((program, arguments)) => {
            let owned = owned_arguments(arguments);
            proof {
                assert(owned.deep_view() =~= stack.test_arguments());
            }
            let directory = job.path.clone();
            (
                ReviewState { settings, phase: ReviewPhase::Testing { job } },
                ReviewCommand::RunTests {
                    program: String::from_str(program),
                    arguments: owned,
                    directory,
                },
            )
        },
    }
}

fn combine(run: &TestRun) -> (r: String)
    ensures
        r@ == combined_output(run@),
{
    let mut out = String::from_str("STDOUT:\n");
    out.append(run.stdout.as_str());
    out.append("\n\nSTDERR:\n");
    out.append(run.stderr.as_str());
    out
}

/// Judges a test run: the output of a run that passed, or the error for
/// a run that failed or could not be made.
pub fn run_tests(result: Result<TestRun, String>) -> (r: Result<String, ReviewAutomationError>)
    ensures
        match r {
            Ok(output) => test_verdict(
                match result {
                    Ok(run) => Ok(run@),
                    Err(m) => Err(m@),
                },
            ) == Ok::<Seq<char>, ReviewAutomationErrorView>(output@),
            Err(e) => test_verdict(
                match result {
                    Ok(run) => Ok(run@),
                    Err(m) => Err(m@),
                },
            ) == Err::<Seq<char>, ReviewAutomationErrorView>(e@),
        },
{
    match result {
        Err(reason) => Err(ReviewAutomationError::CommandFailed(reason)),
        Ok(run) => {
            let output = combine(&run);
            if run.success {
                Ok(output)
            } else {
                Err(ReviewAutomationError::TestFailed(output))
            }
        },
    }
}

fn handle_tests(settings: ProjectReviewSettings, job: ReviewJob, result: Result<TestRun, String>) -> (r: (
    ReviewState,
    ReviewCommand,
))
    ensures
        (r.0@, r.1@) == on_tests(
            settings,
            job@,
            match result {
                Ok(run) => Ok(run@),
                Err(m) => Err(m@),
            },
        ),
{
    match run_tests(result) {
        Ok(output) => pass_tests(settings, job, output),
        Err(ReviewAutomationError::TestFailed(output)) => {
            let writes = one(
                log_of(
                    &job,
                    ReviewAction::TestFailed,
                    Some(output),
                    Some(String::from_str("Tests failed")),
                ),
            );
            let message = String::from_str("Tests failed for task: ").concat(
                job.task.title.as_str(),
            );
            commit_finish(settings, writes, Some(notice_of(message)), Ok(Some(ReviewAction::TestFailed)))
        },
        Err(error) => {
            let writes = one(log_of(&job, ReviewAction::Error, None, Some(error.message())));
            commit_finish(settings, writes, None, Err(error))
        },
    }
}

fn raise_conflict(settings: ProjectReviewSettings, job: ReviewJob, detail: String) -> (r: (
    ReviewState,
    ReviewCommand,
))
    ensures
        (r.0@, r.1@) == conflict(settings, job@, detail@),
{
    let record = String::from_str("Merge conflict detected. Details: ").concat(detail.as_str());
    let writes = one(log_of(&job, ReviewAction::MergeConflict, None, Some(record)));
    (
        ReviewState { settings, phase: ReviewPhase::ConflictLogged { job, detail } },
        ReviewCommand::Commit { writes, notification: None },
    )
}

fn abort_rebase(settings: ProjectReviewSettings, job: ReviewJob, repo: &RepoWithTargetBranch, detail: String) -> (r: (
    ReviewState,
    ReviewCommand,
))
    ensures
        (r.0@, r.1@) == abort_then_conflict(settings, job@, repo@, detail@),
{
    let request = request_of(&job, repo);
    (
        ReviewState { settings, phase: ReviewPhase::Aborting { job, detail } },
        ReviewCommand::AbortRebase { request },
    )
}

fn handle_merged(
    settings: ProjectReviewSettings,
    job: ReviewJob,
    repos: Vec<RepoWithTargetBranch>,
    index: usize,
    rebased: bool,
    result: MergeResult,
) -> (r: (ReviewState, ReviewCommand))
    requires
        index < repos@.len(),
    ensures
        (r.0@, r.1@) == on_merged(settings, job@, repos.deep_view(), index as int, rebased, result@),
        r.0@.phase.wf(),
{
    assert(repos.deep_view()[index as int] == repos@[index as int]@);
    match result {
        MergeResult::Merged { commit } => {
            let writes = one(
                StoreWrite::RecordMerge {
                    workspace_id: job.workspace.id,
                    repo_id: repos[index].repo.id,
                    target_branch: repos[index].target_branch.clone(),
                    merge_commit: commit,
                },
            );
            (
                ReviewState {
                    settings,
                    phase: ReviewPhase::Recording { job, repos, index },
                },
                ReviewCommand::Commit { writes, notification: None },
            )
        },
        MergeResult::WorktreeMissing => {
            let n = repos.len();
            merge_next(settings, job, repos, index + 1)
        },
        MergeResult::Failed(e) => {
            if rebased {
                let reason = e.message();
                let detail = String::from_str("Merge failed after rebase: ").concat(
                    reason.as_str(),
                );
                abort_rebase(settings, job, &repos[index], detail)
            } else {
                match e {
                    GitError::BranchesDiverged(m) => {
                        let request = request_of(&job, &repos[index]);
                        (
                            ReviewState {
                                settings,
                                phase: ReviewPhase::FindingForkPoint { job, repos, index },
                            },
                            ReviewCommand::FindForkPoint { request },
                        )
                    },
                    GitError::MergeConflicts(detail) => raise_conflict(settings, job, detail),
                    GitError::Other(m) => {
                        let error = ReviewAutomationError::Git(GitError::Other(m));
                        let writes = one(
                            log_of(&job, ReviewAction::Error, None, Some(error.message())),
                        );
                        commit_finish(settings, writes, None, Err(error))
                    },
                }
            }
        },
    }
}

fn handle_fork_point(
    settings: ProjectReviewSettings,
    job: ReviewJob,
    repos: Vec<RepoWithTargetBranch>,
    index: usize,
    result: Result<String, GitError>,
) -> (r: (ReviewState, ReviewCommand))
    requires
        index < repos@.len(),
    ensures
        (r.0@, r.1@) == on_fork_point(
            settings,
            job@,
            repos.deep_view(),
            index as int,
            git_result_view(result),
        ),
        r.0@.phase.wf(),
{
    assert(repos.deep_view()[index as int] == repos@[index as int]@);
    match result {
        Err(e) => {
            let reason = e.message();
            let detail = String::from_str("Could not determine fork point for rebase: ").concat(
                reason.as_str(),
            );
            raise_conflict(settings, job, detail)
        },
        Ok(fork_point) => {
            let request = request_of(&job, &repos[index]);
            (
                ReviewState {
                    settings,
                    phase: ReviewPhase::Rebasing { job, repos, index },
                },
                ReviewCommand::Rebase { request, fork_point },
            )
        },
    }
}

fn handle_rebased(
    settings: ProjectReviewSettings,
    job: ReviewJob,
    repos: Vec<RepoWithTargetBranch>,
    index: usize,
    result: Result<String, GitError>,
) -> (r: (ReviewState, ReviewCommand))
    requires
        index < repos@.len(),
    ensures
        (r.0@, r.1@) == on_rebased(
            settings,
            job@,
            repos.deep_view(),
            index as int,
            git_result_view(result),
        ),
        r.0@.phase.wf(),
{
    assert(repos.deep_view()[index as int] == repos@[index as int]@);
    match result {
        Ok(_) => {
            let command = merge_command_of(&job, &repos[index]);
            (
                ReviewState {
                    settings,
                    phase: ReviewPhase::Merging { job, repos, index, rebased: true },
                },
                command,
            )
        },
        Err(GitError::MergeConflicts(m)) => {
            let detail = String::from_str(
                "Automatic rebase failed due to conflicts. Manual intervention required. ",
            ).concat(m.as_str());
            abort_rebase(settings, job, &repos[index], detail)
        },
        Err(e) => {
            let reason = e.message();
            let detail = String::from_str("Automatic rebase failed: ").concat(reason.as_str());
            abort_rebase(settings, job, &repos[index], detail)
        },
    }
}

fn handle_conflict_logs(
    settings: ProjectReviewSettings,
    job: ReviewJob,
    detail: String,
    logs: Vec<ReviewAutomationLog>,
) -> (r: (ReviewState, ReviewCommand))
    ensures
        (r.0@, r.1@) == on_conflict_logs(settings, job@, detail@, logs.deep_view()),
{
    let count = ReviewAutomationLog::count_merge_conflicts(&logs, job.task.id);
    if count >= MAX_MERGE_CONFLICT_ATTEMPTS {
        let mut writes: Vec<StoreWrite> = Vec::new();
        writes.push(StoreWrite::SetStatus { task_id: job.task.id, status: TaskStatus::Cancelled });
        writes.push(StoreWrite::ArchiveWorkspace { workspace_id: job.workspace.id });
        proof {
            assert(writes.deep_view() =~= seq![
                StoreWriteView::SetStatus { task_id: job.task.id, status: TaskStatus::Cancelled },
                StoreWriteView::ArchiveWorkspace { workspace_id: job.workspace.id },
            ]);
        }
        (
            ReviewState {
                settings,
                phase: ReviewPhase::Cancelling { job, detail, count },
            },
            ReviewCommand::Commit { writes, notification: None },
        )
    } else {
        let writes = one(
            StoreWrite::SetStatus { task_id: job.task.id, status: TaskStatus::InProgress },
        );
        let mut message = String::from_str("Merge conflict #");
        push_decimal(&mut message, count as i128);
        message.append(" for '");
        message.append(job.task.title.as_str());
        message.append("'. Task moved back to InProgress for conflict resolution. (");
        push_decimal(&mut message, (MAX_MERGE_CONFLICT_ATTEMPTS - count) as i128);
        message.append(" attempts remaining)");
        commit_finish(
            settings,
            writes,
            Some(notice_of(message)),
            Ok(Some(ReviewAction::MergeConflict)),
        )
    }
}

/// Plans the subtasks that replace a conflicting task.
pub fn breakdown_conflicting_task(task: &Task, answer: Result<
    ConflictBreakdownResponse,
    ClaudeApiError,
>) -> (r: Result<Vec<crate::task::CreateTask>, ReviewAutomationError>)
    ensures
        match r {
            Ok(planned) => conflict_plan(
                task@,
                match answer {
                    Ok(a) => Ok(a@),
                    Err(e) => Err(e@),
                },
            ) == Ok::<Seq<CreateTaskView>, ReviewAutomationErrorView>(planned.deep_view()),
            Err(e) => conflict_plan(
                task@,
                match answer {
                    Ok(a) => Ok(a@),
                    Err(e) => Err(e@),
                },
            ) == Err::<Seq<CreateTaskView>, ReviewAutomationErrorView>(e@),
        },
{
    match answer {
        Err(e) => Err(ReviewAutomationError::CommandFailed(e.message())),
        Ok(response) => {
            assert(response.subtasks.deep_view().len() == response.subtasks@.len());
            if response.subtasks.len() < MIN_SUBTASKS {
                Err(
                    ReviewAutomationError::CommandFailed(
                        String::from_str("AI did not suggest enough subtasks for breakdown"),
                    ),
                )
            } else {
                Ok(plan_conflict_subtasks(task, &response.subtasks))
            }
        },
    }
}

fn handle_breakdown(
    settings: ProjectReviewSettings,
    job: ReviewJob,
    count: usize,
    answer: Result<ConflictBreakdownResponse, ClaudeApiError>,
) -> (r: (ReviewState, ReviewCommand))
    ensures
        (r.0@, r.1@) == on_breakdown(
            settings,
            job@,
            count as int,
            match answer {
                Ok(a) => Ok(a@),
                Err(e) => Err(e@),
            },
        ),
{
    match breakdown_conflicting_task(&job.task, answer) {
        Ok(planned) => {
            let created = planned.len();
            proof {
                assert(planned.deep_view().len() == created);
            }
            let mut record = String::from_str("Task cancelled after ");
            push_decimal(&mut record, count as i128);
            record.append(" merge conflicts. Broken down into ");
            push_decimal(&mut record, created as i128);
            record.append(" simpler subtasks.");
            let mut message = String::from_str("Task '");
            message.append(job.task.title.as_str());
            message.append("' cancelled after ");
            push_decimal(&mut message, count as i128);
            message.append(" merge conflicts. Created ");
            push_decimal(&mut message, created as i128);
            message.append(" simpler subtasks.");
            let mut writes = creation_writes(planned);
            let ghost created_view = writes.deep_view();
            writes.push(log_of(&job, ReviewAction::Error, None, Some(record)));
            proof {
                assert(writes.deep_view() =~= created_view + seq![
                    review_log(
                        job@,
                        ReviewAction::Error,
                        None,
                        Some(broken_down_record(count as int, created as int)),
                    ),
                ]);
            }
            commit_finish(
                settings,
                writes,
                Some(notice_of(message)),
                Ok(Some(ReviewAction::MergeConflict)),
            )
        },
        Err(error) => {
            let writes = one(log_of(&job, ReviewAction::Error, None, Some(error.message())));
            let mut message = String::from_str("Task '");
            message.append(job.task.title.as_str());
            message.append("' cancelled after ");
            push_decimal(&mut message, count as i128);
            message.append(" merge conflicts. Manual breakdown required.");
            commit_finish(
                settings,
                writes,
                Some(notice_of(message)),
                Ok(Some(ReviewAction::MergeConflict)),
            )
        },
    }
}

fn to_count(settings: ProjectReviewSettings, job: ReviewJob, detail: String) -> (r: (
    ReviewState,
    ReviewCommand,
))
    ensures
        (r.0@, r.1@) == count_conflicts(settings, job@, detail@),
        r.0@.phase.wf(),
{
    let task_id = job.task.id;
    (
        ReviewState { settings, phase: ReviewPhase::CountingConflicts { job, detail } },
        ReviewCommand::LoadConflictLogs { task_id },
    )
}

fn to_breakdown(settings: ProjectReviewSettings, job: ReviewJob, detail: String, count: usize) -> (r: (
    ReviewState,
    ReviewCommand,
))
    ensures
        (r.0@, r.1@) == ask_for_breakdown(settings, job@, detail@, count),
        r.0@.phase.wf(),
{
    let task = job.task.clone();
    (
        ReviewState { settings, phase: ReviewPhase::BreakingDown { job, count } },
        ReviewCommand::AskBreakdown { task, conflict_details: detail },
    )
}

fn handle_committed(state: ReviewState) -> (r: (ReviewState, ReviewCommand))
    requires
        state@.phase.wf(),
    ensures
        (r.0@, r.1@) == on_committed(state@),
        r.0@.phase.wf(),
{
    let ReviewState { settings, phase } = state;
    match phase {
        ReviewPhase::TestsLogged { job } => to_merge_step(settings, job),
        ReviewPhase::Recording { job, repos, index } => {
            assert(repos.deep_view().len() == repos@.len());
            let n = repos.len();
            merge_next(settings, job, repos, index + 1)
        },
        ReviewPhase::ConflictLogged { job, detail } => to_count(settings, job, detail),
        ReviewPhase::Cancelling { job, detail, count } => to_breakdown(
            settings,
            job,
            detail,
            count,
        ),
        ReviewPhase::Finishing { outcome } => finished(settings, outcome),
        _ => out_of_turn_end(settings),
    }
}

impl ReviewState {
    /// Whether `event` answers what this review is waiting on.
    pub fn expects(&self, event: &ReviewEvent) -> (r: bool)
        ensures
            r == expects(self@.phase, event@),
    {
        match &self.phase {
            ReviewPhase::Finding => matches!(
                event,
                ReviewEvent::Reviewable(_) | ReviewEvent::StoreFailed(_)
            ),
            ReviewPhase::Probing { .. } => matches!(event, ReviewEvent::Manifests(_)),
            ReviewPhase::Testing { .. } => matches!(event, ReviewEvent::TestsRan(_)),
            ReviewPhase::TestsLogged { .. } => matches!(
                event,
                ReviewEvent::Committed | ReviewEvent::StoreFailed(_)
            ),
            ReviewPhase::LoadingRepos { .. } => matches!(
                event,
                ReviewEvent::Repos(_) | ReviewEvent::StoreFailed(_)
            ),
            ReviewPhase::Merging { .. } => matches!(event, ReviewEvent::Merged(_)),
            ReviewPhase::Recording { .. } => matches!(
                event,
                ReviewEvent::Committed | ReviewEvent::StoreFailed(_)
            ),
            ReviewPhase::FindingForkPoint { .. } => matches!(event, ReviewEvent::ForkPoint(_)),
            ReviewPhase::Rebasing { .. } => matches!(event, ReviewEvent::Rebased(_)),
            ReviewPhase::Aborting { .. } => matches!(event, ReviewEvent::Aborted),
            ReviewPhase::ConflictLogged { .. } => matches!(
                event,
                ReviewEvent::Committed | ReviewEvent::StoreFailed(_)
            ),
            ReviewPhase::CountingConflicts { .. } => matches!(
                event,
                ReviewEvent::ConflictLogs(_) | ReviewEvent::StoreFailed(_)
            ),
            ReviewPhase::Cancelling { .. } => matches!(
                event,
                ReviewEvent::Committed | ReviewEvent::StoreFailed(_)
            ),
            ReviewPhase::BreakingDown { .. } => matches!(event, ReviewEvent::Breakdown(_)),
            ReviewPhase::Finishing { .. } => matches!(
                event,
                ReviewEvent::Committed | ReviewEvent::StoreFailed(_)
            ),
            ReviewPhase::Finished => false,
        }
    }

    /// Whether the review is over.
    pub fn is_finished(&self) -> (r: bool)
        ensures
            r == (self@.phase is Finished),
    {
        matches!(self.phase, ReviewPhase::Finished)
    }

    /// Whether the state is one that a review can be in: where it works
    /// on a repository, the repository is there.
    pub fn is_well_formed(&self) -> (r: bool)
        ensures
            r == self@.phase.wf(),
    {
        match &self.phase {
            ReviewPhase::Merging { job, repos, index, rebased } => {
                assert(repos.deep_view().len() == repos@.len());
                *index < repos.len()
            },
            ReviewPhase::Recording { job, repos, index } => {
                assert(repos.deep_view().len() == repos@.len());
                *index < repos.len()
            },
            ReviewPhase::FindingForkPoint { job, repos, index } => {
                assert(repos.deep_view().len() == repos@.len());
                *index < repos.len()
            },
            ReviewPhase::Rebasing { job, repos, index } => {
                assert(repos.deep_view().len() == repos@.len());
                *index < repos.len()
            },
            _ => true,
        }
    }
}

impl ReviewAutomationService {
    /// Begins the review of a project: it first asks for a task that is
    /// ready for review; `process_task_review` takes it on from there. At
    /// most one task of a project is reviewed at a time.
    pub fn process_project(settings: ProjectReviewSettings) -> (r: (ReviewState, ReviewCommand))
        ensures
            r.0@ == (ReviewStateView { settings, phase: ReviewPhaseView::Finding }),
            r.1@ == (ReviewCommandView::FindReviewable { project_id: settings.project_id }),
    {
        (
            ReviewState { settings, phase: ReviewPhase::Finding },
            ReviewCommand::FindReviewable { project_id: settings.project_id },
        )
    }

    /// Takes a review one step on: given the answer to what it asked last,
    /// says what it asks next.
    pub fn process_task_review(state: ReviewState, event: ReviewEvent) -> (r: (
        ReviewState,
        ReviewCommand,
    ))
        ensures
            (r.0@, r.1@) == review_step(state@, event@),
            r.0@.phase.wf(),
    {
        let settings = state.settings;
        if !state.is_well_formed() {
            return out_of_turn_end(settings);
        }
        match event {
            ReviewEvent::StoreFailed(m) => {
                finished(settings, Err(ReviewAutomationError::Database(m)))
            },
            ReviewEvent::Committed => handle_committed(state),
            ReviewEvent::Reviewable(found) => {
                match state.phase {
                    ReviewPhase::Finding => handle_reviewable(settings, found),
                    _ => out_of_turn_end(settings),
                }
            },
            ReviewEvent::Manifests(present) => step_manifests(state, present),
            ReviewEvent::TestsRan(result) => step_tests(state, result),
            ReviewEvent::Repos(repos) => step_repos(state, repos),
            ReviewEvent::Merged(result) => step_merged(state, result),
            ReviewEvent::ForkPoint(result) => step_fork_point(state, result),
            ReviewEvent::Rebased(result) => step_rebased(state, result),
            ReviewEvent::Aborted => step_aborted(state),
            ReviewEvent::ConflictLogs(logs) => step_conflict_logs(state, logs),
            ReviewEvent::Breakdown(answer) => step_breakdown(state, answer),
        }
    }
}

fn step_manifests(state: ReviewState, present: Vec<String>) -> (r: (ReviewState, ReviewCommand))
    ensures
        (r.0@, r.1@) == step_of(state@, ReviewEventView::Manifests(present.deep_view())),
        r.0@.phase.wf(),
{
    let ReviewState { settings, phase } = state;
    match phase {
        ReviewPhase::Probing { job } => handle_manifests(settings, job, present),
        _ => out_of_turn_end(settings),
    }
}

fn step_tests(state: ReviewState, result: Result<TestRun, String>) -> (r: (
    ReviewState,
    ReviewCommand,
))
    ensures
        (r.0@, r.1@) == step_of(
            state@,
            ReviewEventView::TestsRan(
                match result {
                    Ok(run) => Ok(run@),
                    Err(m) => Err(m@),
                },
            ),
        ),
        r.0@.phase.wf(),
{
    let ReviewState { settings, phase } = state;
    match phase {
        ReviewPhase::Testing { job } => handle_tests(settings, job, result),
        _ => out_of_turn_end(settings),
    }
}

fn step_repos(state: ReviewState, repos: Vec<RepoWithTargetBranch>) -> (r: (
    ReviewState,
    ReviewCommand,
))
    ensures
        (r.0@, r.1@) == step_of(state@, ReviewEventView::Repos(repos.deep_view())),
        r.0@.phase.wf(),
{
    let ReviewState { settings, phase } = state;
    match phase {
        ReviewPhase::LoadingRepos { job } => merge_next(settings, job, repos, 0),
        _ => out_of_turn_end(settings),
    }
}

fn step_merged(state: ReviewState, result: MergeResult) -> (r: (ReviewState, ReviewCommand))
    requires
        state@.phase.wf(),
    ensures
        (r.0@, r.1@) == step_of(state@, ReviewEventView::Merged(result@)),
        r.0@.phase.wf(),
{
    let ReviewState { settings, phase } = state;
    match phase {
        ReviewPhase::Merging { job, repos, index, rebased } => {
            assert(repos.deep_view().len() == repos@.len());
            handle_merged(settings, job, repos, index, rebased, result)
        },
        _ => out_of_turn_end(settings),
    }
}

fn step_fork_point(state: ReviewState, result: Result<String, GitError>) -> (r: (
    ReviewState,
    ReviewCommand,
))
    requires
        state@.phase.wf(),
    ensures
        (r.0@, r.1@) == step_of(state@, ReviewEventView::ForkPoint(git_result_view(result))),
        r.0@.phase.wf(),
{
    let ReviewState { settings, phase } = state;
    match phase {
        ReviewPhase::FindingForkPoint { job, repos, index } => {
            assert(repos.deep_view().len() == repos@.len());
            handle_fork_point(settings, job, repos, index, result)
        },
        _ => out_of_turn_end(settings),
    }
}

fn step_rebased(state: ReviewState, result: Result<String, GitError>) -> (r: (
    ReviewState,
    ReviewCommand,
))
    requires
        state@.phase.wf(),
    ensures
        (r.0@, r.1@) == step_of(state@, ReviewEventView::Rebased(git_result_view(result))),
        r.0@.phase.wf(),
{
    let ReviewState { settings, phase } = state;
    match phase {
        ReviewPhase::Rebasing { job, repos, index } => {
            assert(repos.deep_view().len() == repos@.len());
            handle_rebased(settings, job, repos, index, result)
        },
        _ => out_of_turn_end(settings),
    }
}

fn step_aborted(state: ReviewState) -> (r: (ReviewState, ReviewCommand))
    ensures
        (r.0@, r.1@) == step_of(state@, ReviewEventView::Aborted),
        r.0@.phase.wf(),
{
    let ReviewState { settings, phase } = state;
    match phase {
        ReviewPhase::Aborting { job, detail } => raise_conflict(settings, job, detail),
        _ => out_of_turn_end(settings),
    }
}

fn step_conflict_logs(state: ReviewState, logs: Vec<ReviewAutomationLog>) -> (r: (
    ReviewState,
    ReviewCommand,
))
    ensures
        (r.0@, r.1@) == step_of(state@, ReviewEventView::ConflictLogs(logs.deep_view())),
        r.0@.phase.wf(),
{
    let ReviewState { settings, phase } = state;
    match phase {
        ReviewPhase::CountingConflicts { job, detail } => handle_conflict_logs(
            settings,
            job,
            detail,
            logs,
        ),
        _ => out_of_turn_end(settings),
    }
}

fn step_breakdown(state: ReviewState, answer: Result<ConflictBreakdownResponse, ClaudeApiError>) -> (r: (
    ReviewState,
    ReviewCommand,
))
    ensures
        (r.0@, r.1@) == step_of(
            state@,
            ReviewEventView::Breakdown(
                match answer {
                    Ok(a) => Ok(a@),
                    Err(e) => Err(e@),
                },
            ),
        ),
        r.0@.phase.wf(),
{
    let ReviewState { settings, phase } = state;
    match phase {
        ReviewPhase::BreakingDown { job, count } => handle_breakdown(settings, job, count, answer),
        _ => out_of_turn_end(settings),
    }
}


/// Conflict escalation: below the ceiling, a conflict returns the task to
/// work and the review ends there; at the ceiling, the task is cancelled
/// and its workspace archived, and once that is written a breakdown of
/// the task is asked for.
pub proof fn lemma_conflict_escalation(
    settings: ProjectReviewSettings,
    job: ReviewJobView,
    detail: Seq<char>,
    logs: Seq<ReviewAutomationLogView>,
)
    ensures
        conflict_count(logs, job.task.id) < MAX_MERGE_CONFLICT_ATTEMPTS ==> on_conflict_logs(
            settings,
            job,
            detail,
            logs,
        ) == commit_and_finish(
            settings,
            seq![StoreWriteView::SetStatus { task_id: job.task.id, status: TaskStatus::InProgress }],
            Some(retry_notice(job.task.title, conflict_count(logs, job.task.id) as int)),
            Ok(Some(ReviewAction::MergeConflict)),
        ),
        conflict_count(logs, job.task.id) >= MAX_MERGE_CONFLICT_ATTEMPTS ==> on_conflict_logs(
            settings,
            job,
            detail,
            logs,
        ).1 == (ReviewCommandView::Commit {
            writes: seq![
                StoreWriteView::SetStatus { task_id: job.task.id, status: TaskStatus::Cancelled },
                StoreWriteView::ArchiveWorkspace { workspace_id: job.workspace.id },
            ],
            notification: None,
        }) && on_committed(on_conflict_logs(settings, job, detail, logs).0).1
            == (ReviewCommandView::AskBreakdown { task: job.task, conflict_details: detail }),
{
}

/// The conflicts of a task are counted from the log rows alone: a further
/// row adds one to the count exactly when it records a merge conflict of
/// that task. Reading the rows changes nothing, so the same rows give the
/// same count however often they are read.
pub proof fn lemma_conflict_count(
    logs: Seq<ReviewAutomationLogView>,
    row: ReviewAutomationLogView,
    task_id: u128,
)
    ensures
        conflict_count(Seq::empty(), task_id) == 0,
        conflict_count(logs.push(row), task_id) == conflict_count(logs, task_id) + if row.task_id
            == task_id && row.action == ReviewAction::MergeConflict {
            1nat
        } else {
            0nat
        },
{
    reveal(Seq::filter);
    assert(logs.push(row).drop_last() =~= logs);
}

/// A review that ends in a completed merge logs no conflict: the commit
/// that completes it sets the task to done, archives the workspace and
/// logs the merge, and nothing else.
pub proof fn lemma_completion(settings: ProjectReviewSettings, job: ReviewJobView)
    ensures
        completed(settings, job).1 == (ReviewCommandView::Commit {
            writes: seq![
                review_log(job, ReviewAction::MergeCompleted, None, None),
                StoreWriteView::SetStatus { task_id: job.task.id, status: TaskStatus::Done },
                StoreWriteView::ArchiveWorkspace { workspace_id: job.workspace.id },
            ],
            notification: Some(notice("Task completed: "@ + job.task.title)),
        }),
        completed(settings, job).0.phase == (ReviewPhaseView::Finishing {
            outcome: Ok(Some(ReviewAction::MergeCompleted)),
        }),
{
}


/// Why an execution was run in a workspace.
#[derive(Debug, Clone, Copy, PartialEq, Eq, Structural)]
pub enum RunReason {
    SetupScript,
    CleanupScript,
    CodingAgent,
    DevServer,
}

/// How an execution stands.
#[derive(Debug, Clone, Copy, PartialEq, Eq, Structural)]
pub enum ExecutionStatus {
    Running,
    Completed,
    Failed,
    Killed,
}

impl RunReason {
    /// The name under which the value is stored and shown.
    pub open spec fn name(self) -> Seq<char> {
        match self {
            RunReason::SetupScript => "setupscript"@,
            RunReason::CleanupScript => "cleanupscript"@,
            RunReason::CodingAgent => "codingagent"@,
            RunReason::DevServer => "devserver"@,
        }
    }

    /// The reason whose name is exactly `name`.
    pub open spec fn from_name(name: Seq<char>) -> Option<RunReason> {
        if name == "setupscript"@ {
            Some(RunReason::SetupScript)
        } else if name == "cleanupscript"@ {
            Some(RunReason::CleanupScript)
        } else if name == "codingagent"@ {
            Some(RunReason::CodingAgent)
        } else if name == "devserver"@ {
            Some(RunReason::DevServer)
        } else {
            None
        }
    }

    /// The name under which the value is stored and shown.
    pub fn as_str(&self) -> (r: &'static str)
        ensures
            r@ == self.name(),
    {
        match self {
            RunReason::SetupScript => "setupscript",
            RunReason::CleanupScript => "cleanupscript",
            RunReason::CodingAgent => "codingagent",
            RunReason::DevServer => "devserver",
        }
    }

    /// Reads the value from its exact name.
    pub fn parse(name: &str) -> (r: Option<RunReason>)
        ensures
            r == RunReason::from_name(name@),
    {
        if crate::text::str_eq(name, "setupscript") {
            Some(RunReason::SetupScript)
        } else if crate::text::str_eq(name, "cleanupscript") {
            Some(RunReason::CleanupScript)
        } else if crate::text::str_eq(name, "codingagent") {
            Some(RunReason::CodingAgent)
        } else if crate::text::str_eq(name, "devserver") {
            Some(RunReason::DevServer)
        } else {
            None
        }
    }
}

impl ExecutionStatus {
    /// The name under which the value is stored and shown.
    pub open spec fn name(self) -> Seq<char> {
        match self {
            ExecutionStatus::Running => "running"@,
            ExecutionStatus::Completed => "completed"@,
            ExecutionStatus::Failed => "failed"@,
            ExecutionStatus::Killed => "killed"@,
        }
    }

    /// The status whose name is exactly `name`.
    pub open spec fn from_name(name: Seq<char>) -> Option<ExecutionStatus> {
        if name == "running"@ {
            Some(ExecutionStatus::Running)
        } else if name == "completed"@ {
            Some(ExecutionStatus::Completed)
        } else if name == "failed"@ {
            Some(ExecutionStatus::Failed)
        } else if name == "killed"@ {
            Some(ExecutionStatus::Killed)
        } else {
            None
        }
    }

    /// The name under which the value is stored and shown.
    pub fn as_str(&self) -> (r: &'static str)
        ensures
            r@ == self.name(),
    {
        match self {
            ExecutionStatus::Running => "running",
            ExecutionStatus::Completed => "completed",
            ExecutionStatus::Failed => "failed",
            ExecutionStatus::Killed => "killed",
        }
    }

    /// Reads the value from its exact name.
    pub fn parse(name: &str) -> (r: Option<ExecutionStatus>)
        ensures
            r == ExecutionStatus::from_name(name@),
    {
        if crate::text::str_eq(name, "running") {
            Some(ExecutionStatus::Running)
        } else if crate::text::str_eq(name, "completed") {
            Some(ExecutionStatus::Completed)
        } else if crate::text::str_eq(name, "failed") {
            Some(ExecutionStatus::Failed)
        } else if crate::text::str_eq(name, "killed") {
            Some(ExecutionStatus::Killed)
        } else {
            None
        }
    }
}

/// An execution in a workspace, as far as a review looks at it.
#[derive(Debug, Clone, Copy, PartialEq, Eq, Structural)]
pub struct Execution {
    pub run_reason: RunReason,
    pub status: ExecutionStatus,
}

/// A task with one of its workspaces and the executions in it.
#[derive(Debug, PartialEq, Eq)]
pub struct ReviewCandidate {
    pub task: Task,
    pub workspace: Workspace,
    pub executions: Vec<Execution>,
}

/// The mathematical value of a [`ReviewCandidate`].
#[verifier::ext_equal]
pub struct ReviewCandidateView {
    pub task: TaskView,
    pub workspace: WorkspaceView,
    pub executions: Seq<Execution>,
}

impl DeepView for ReviewCandidate {
    type V = ReviewCandidateView;

    open spec fn deep_view(&self) -> ReviewCandidateView {
        ReviewCandidateView {
            task: self.task@,
            workspace: self.workspace@,
            executions: self.executions@,
        }
    }
}

impl View for ReviewCandidate {
    type V = ReviewCandidateView;

    open spec fn view(&self) -> ReviewCandidateView {
        self.deep_view()
    }
}

/// An execution is still running.
pub open spec fn is_running(e: Execution) -> bool {
    e.status == ExecutionStatus::Running
}

/// A coding agent has run to an end, whichever end.
pub open spec fn is_finished_coding(e: Execution) -> bool {
    e.run_reason == RunReason::CodingAgent && e.status != ExecutionStatus::Running
}

/// The agent has finished and stepped away: the task is in review, its
/// workspace is not archived, nothing runs in it, and a coding agent has
/// run to an end in it.
pub open spec fn ready_for_review(c: ReviewCandidateView) -> bool {
    &&& c.task.status == TaskStatus::InReview
    &&& !c.workspace.archived
    &&& c.workspace.task_id == c.task.id
    &&& forall|i: int| 0 <= i < c.executions.len() ==> !is_running(#[trigger] c.executions[i])
    &&& exists|i: int| 0 <= i < c.executions.len() && is_finished_coding(#[trigger] c.executions[i])
}

/// The candidate is a task of the project that is ready for review.
pub open spec fn eligible(c: ReviewCandidateView, project_id: u128) -> bool {
    c.task.project_id == project_id && ready_for_review(c)
}

/// The index of the oldest task of the project that is ready for review:
/// the one that was created first, and among those created together the
/// one that comes first.
pub open spec fn oldest_ready(candidates: Seq<ReviewCandidateView>, project_id: u128) -> Option<int>
    decreases candidates.len(),
{
    if candidates.len() == 0 {
        None
    } else {
        let last = candidates.len() - 1;
        let before = oldest_ready(candidates.drop_last(), project_id);
        if !eligible(candidates[last], project_id) {
            before
        } else {
            match before {
                Some(k) => if candidates[last].task.created_at < candidates[k].task.created_at {
                    Some(last)
                } else {
                    Some(k)
                },
                None => Some(last),
            }
        }
    }
}

/// `oldest_ready` finds a task of the project that is ready for review and
/// older than every other such task, or as old and earlier in the list;
/// it finds none only where no task of the project is ready.
pub proof fn lemma_oldest_ready(candidates: Seq<ReviewCandidateView>, project_id: u128)
    ensures
        match oldest_ready(candidates, project_id) {
            Some(k) => 0 <= k < candidates.len() && eligible(candidates[k], project_id)
                && forall|j: int|
                0 <= j < candidates.len() && eligible(#[trigger] candidates[j], project_id) ==> {
                    ||| candidates[k].task.created_at < candidates[j].task.created_at
                    ||| candidates[k].task.created_at == candidates[j].task.created_at && k <= j
                },
            None => forall|j: int|
                0 <= j < candidates.len() ==> !eligible(#[trigger] candidates[j], project_id),
        },
    decreases candidates.len(),
{
    if candidates.len() > 0 {
        let shorter = candidates.drop_last();
        lemma_oldest_ready(shorter, project_id);
        assert forall|j: int| 0 <= j < shorter.len() implies #[trigger] shorter[j]
            == candidates[j] by {}
        match oldest_ready(candidates, project_id) {
            Some(k) => {
                assert forall|j: int|
                    0 <= j < candidates.len() && eligible(
                        #[trigger] candidates[j],
                        project_id,
                    ) implies {
                    ||| candidates[k].task.created_at < candidates[j].task.created_at
                    ||| candidates[k].task.created_at == candidates[j].task.created_at && k <= j
                } by {
                    if j < shorter.len() {
                        assert(eligible(shorter[j], project_id));
                    }
                }
            },
            None => {
                assert forall|j: int| 0 <= j < candidates.len() implies !eligible(
                    #[trigger] candidates[j],
                    project_id,
                ) by {
                    if j < shorter.len() {
                        assert(!eligible(shorter[j], project_id));
                    }
                }
            },
        }
    }
}

fn is_ready(c: &ReviewCandidate) -> (r: bool)
    ensures
        r == ready_for_review(c@),
{
    if !matches!(c.task.status, TaskStatus::InReview) || c.workspace.archived || c.workspace.task_id
        != c.task.id {
        return false;
    }
    let mut finished_coding = false;
    let mut i: usize = 0;
    while i < c.executions.len()
        invariant
            i <= c.executions.len(),
            forall|k: int| 0 <= k < i ==> !is_running(#[trigger] c.executions@[k]),
            finished_coding == (exists|k: int|
                0 <= k < i && is_finished_coding(#[trigger] c.executions@[k])),
        decreases c.executions.len() - i,
    {
        let e = c.executions[i];
        if e.status == ExecutionStatus::Running {
            assert(is_running(c.executions@[i as int]));
            return false;
        }
        if e.run_reason == RunReason::CodingAgent {
            assert(is_finished_coding(c.executions@[i as int]));
            finished_coding = true;
        }
        i = i + 1;
    }
    proof {
        let v = c@;
        assert(v.executions == c.executions@);
        if finished_coding {
            let k = choose|k: int|
                0 <= k < c.executions@.len() && is_finished_coding(#[trigger] c.executions@[k]);
            assert(is_finished_coding(v.executions[k]));
        }
    }
    finished_coding
}

impl Task {
    /// Find the oldest task of the project that is in review and whose
    /// attempt is completed: nothing runs in its workspace, and a coding
    /// agent has finished there. At most one task is returned, in whatever
    /// order the candidates are given.
    pub fn find_in_review_with_completed_attempts(
        candidates: &Vec<ReviewCandidate>,
        project_id: u128,
    ) -> (r: Option<(Task, Workspace)>)
        ensures
            match r {
                Some((task, workspace)) => oldest_ready(candidates.deep_view(), project_id).is_some()
                    && task@ == candidates.deep_view()[oldest_ready(
                    candidates.deep_view(),
                    project_id,
                ).unwrap()].task && workspace@ == candidates.deep_view()[oldest_ready(
                    candidates.deep_view(),
                    project_id,
                ).unwrap()].workspace,
                None => oldest_ready(candidates.deep_view(), project_id).is_none(),
            },
    {
        let mut best: Option<usize> = None;
        let mut i: usize = 0;
        let ghost all = candidates.deep_view();
        proof {
            assert(all.take(0) =~= Seq::<ReviewCandidateView>::empty());
        }
        while i < candidates.len()
            invariant
                i <= candidates.len(),
                all == candidates.deep_view(),
                match best {
                    Some(k) => k < i && oldest_ready(all.take(i as int), project_id) == Some(
                        k as int,
                    ),
                    None => oldest_ready(all.take(i as int), project_id).is_none(),
                },
            decreases candidates.len() - i,
        {
            proof {
                let longer = all.take(i + 1);
                assert(longer.drop_last() =~= all.take(i as int));
                assert(longer[i as int] == candidates@[i as int]@);
                match best {
                    Some(k) => {
                        assert(longer[k as int] == candidates@[k as int]@);
                    },
                    None => {},
                }
            }
            if candidates[i].task.project_id == project_id && is_ready(&candidates[i]) {
                match best {
                    Some(k) => {
                        if candidates[i].task.created_at < candidates[k].task.created_at {
                            best = Some(i);
                        }
                    },
                    None => {
                        best = Some(i);
                    },
                }
            }
            i = i + 1;
        }
        proof {
            assert(all.take(candidates.len() as int) =~= all);
        }
        match best {
            Some(k) => {
                assert(all[k as int] == candidates@[k as int]@);
                Some((candidates[k].task.clone(), candidates[k].workspace.clone()))
            },
            None => None,
        }
    }
}

/// An answer to something that the review did not ask ends the review,
/// unless it reports a failure of the store, which ends it in any phase.
pub proof fn lemma_out_of_turn(s: ReviewStateView, event: ReviewEventView)
    requires
        !expects(s.phase, event),
        s.phase.wf(),
    ensures
        review_step(s, event) == if event is StoreFailed {
            finish(s.settings, Err(ReviewAutomationErrorView::Database(event->StoreFailed_0)))
        } else {
            unexpected(s.settings)
        },
{
}


/// The execution belongs to an attempt at the task: it sets the workspace
/// up, runs the agent, or cleans up.
pub open spec fn is_attempt(e: Execution) -> bool {
    e.run_reason != RunReason::DevServer
}

/// An attempt is under way: an execution that belongs to one is running.
pub open spec fn attempt_in_progress(executions: Seq<Execution>) -> bool {
    exists|i: int|
        0 <= i < executions.len() && is_attempt(#[trigger] executions[i]) && is_running(
            executions[i],
        )
}

/// The latest of the executions that belong to an attempt, when they are
/// given oldest first.
pub open spec fn last_attempt(executions: Seq<Execution>) -> Option<Execution>
    decreases executions.len(),
{
    if executions.len() == 0 {
        None
    } else if is_attempt(executions.last()) {
        Some(executions.last())
    } else {
        last_attempt(executions.drop_last())
    }
}

/// The latest attempt failed or was killed.
pub open spec fn last_attempt_failed(executions: Seq<Execution>) -> bool {
    match last_attempt(executions) {
        Some(e) => e.status == ExecutionStatus::Failed || e.status == ExecutionStatus::Killed,
        None => false,
    }
}

impl TaskWithAttemptStatus {
    /// The task with what its attempts are doing, read off the executions
    /// in its workspaces, oldest first, and the executor of its latest
    /// session.
    pub fn of(task: Task, executions: &Vec<Execution>, executor: String) -> (r: Self)
        ensures
            r@ == (TaskWithAttemptStatusView {
                task: task@,
                has_in_progress_attempt: attempt_in_progress(executions@),
                last_attempt_failed: last_attempt_failed(executions@),
                executor: executor@,
            }),
    {
        let mut running = false;
        let mut latest: Option<Execution> = None;
        let mut i: usize = 0;
        proof {
            assert(executions@.take(0) =~= Seq::<Execution>::empty());
        }
        while i < executions.len()
            invariant
                i <= executions.len(),
                running == attempt_in_progress(executions@.take(i as int)),
                latest == last_attempt(executions@.take(i as int)),
            decreases executions.len() - i,
        {
            let e = executions[i];
            proof {
                let before = executions@.take(i as int);
                let after = executions@.take(i + 1);
                assert(after.drop_last() =~= before);
                assert(after.last() == e);
                if attempt_in_progress(before) {
                    let k = choose|k: int|
                        0 <= k < before.len() && is_attempt(#[trigger] before[k]) && is_running(
                            before[k],
                        );
                    assert(after[k] == before[k]);
                }
                if attempt_in_progress(after) && !(is_attempt(e) && is_running(e)) {
                    let k = choose|k: int|
                        0 <= k < after.len() && is_attempt(#[trigger] after[k]) && is_running(
                            after[k],
                        );
                    assert(before[k] == after[k]);
                }
                if is_attempt(e) && is_running(e) {
                    assert(is_attempt(after[i as int]) && is_running(after[i as int]));
                }
            }
            if e.run_reason != RunReason::DevServer {
                if e.status == ExecutionStatus::Running {
                    running = true;
                }
                latest = Some(e);
            }
            i = i + 1;
        }
        proof {
            assert(executions@.take(executions.len() as int) =~= executions@);
        }
        let failed = match latest {
            Some(e) => e.status == ExecutionStatus::Failed || e.status == ExecutionStatus::Killed,
            None => false,
        };
        TaskWithAttemptStatus {
            task,
            has_in_progress_attempt: running,
            last_attempt_failed: failed,
            executor,
        }
    }
}

} // verus!
