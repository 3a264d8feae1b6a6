//! Review automation: for a task in review whose agent has stepped away,
//! run the tests, merge the branch, rebase where the target has moved, and
//! escalate repeated merge conflicts.

use crate::text::str_eq;
use vstd::prelude::*;
use vstd::string::*;

verus! {

/// Action taken by the review automation engine.
#[derive(Debug, Clone, Copy, PartialEq, Eq, Structural)]
pub enum ReviewAction {
    TestPassed,
    TestFailed,
    MergeCompleted,
    MergeConflict,
    Skipped,
    Error,
}

impl ReviewAction {
    /// The name under which the value is stored and shown.
    pub open spec fn name(self) -> Seq<char> {
        match self {
            ReviewAction::TestPassed => "test_passed"@,
            ReviewAction::TestFailed => "test_failed"@,
            ReviewAction::MergeCompleted => "merge_completed"@,
            ReviewAction::MergeConflict => "merge_conflict"@,
            ReviewAction::Skipped => "skipped"@,
            ReviewAction::Error => "error"@,
        }
    }

    /// The action whose name is exactly `name`.
    pub open spec fn from_name(name: Seq<char>) -> Option<ReviewAction> {
        if name == "test_passed"@ {
            Some(ReviewAction::TestPassed)
        } else if name == "test_failed"@ {
            Some(ReviewAction::TestFailed)
        } else if name == "merge_completed"@ {
            Some(ReviewAction::MergeCompleted)
        } else if name == "merge_conflict"@ {
            Some(ReviewAction::MergeConflict)
        } else if name == "skipped"@ {
            Some(ReviewAction::Skipped)
        } else if name == "error"@ {
            Some(ReviewAction::Error)
        } else {
            None
        }
    }

    /// The name under which the value is stored and shown.
    pub fn as_str(&self) -> (r: &'static str)
        ensures
            r@ == self.name(),
    {
        match self {
            ReviewAction::TestPassed => "test_passed",
            ReviewAction::TestFailed => "test_failed",
            ReviewAction::MergeCompleted => "merge_completed",
            ReviewAction::MergeConflict => "merge_conflict",
            ReviewAction::Skipped => "skipped",
            ReviewAction::Error => "error",
        }
    }

    /// Reads the value from its exact name.
    pub fn parse(name: &str) -> (r: Option<ReviewAction>)
        ensures
            r == ReviewAction::from_name(name@),
    {
        if str_eq(name, "test_passed") {
            Some(ReviewAction::TestPassed)
        } else if str_eq(name, "test_failed") {
            Some(ReviewAction::TestFailed)
        } else if str_eq(name, "merge_completed") {
            Some(ReviewAction::MergeCompleted)
        } else if str_eq(name, "merge_conflict") {
            Some(ReviewAction::MergeConflict)
        } else if str_eq(name, "skipped") {
            Some(ReviewAction::Skipped)
        } else if str_eq(name, "error") {
            Some(ReviewAction::Error)
        } else {
            None
        }
    }
}

/// Review automation settings for a project.
#[derive(Debug, Clone, Copy, PartialEq, Eq, Structural)]
pub struct ProjectReviewSettings {
    pub id: u128,
    pub project_id: u128,
    pub enabled: bool,
    pub auto_merge_enabled: bool,
    pub run_tests_enabled: bool,
    pub created_at: i64,
    pub updated_at: i64,
}

impl ProjectReviewSettings {
    /// The row of a project after an upsert at `now`: a fresh one under
    /// `id` where there was none, else the old one with the new flags.
    pub open spec fn upserted(
        existing: Option<ProjectReviewSettings>,
        id: u128,
        project_id: u128,
        enabled: bool,
        auto_merge_enabled: bool,
        run_tests_enabled: bool,
        now: i64,
    ) -> ProjectReviewSettings {
        match existing {
            Some(old) => ProjectReviewSettings {
                enabled,
                auto_merge_enabled,
                run_tests_enabled,
                updated_at: now,
                ..old
            },
            None => ProjectReviewSettings {
                id,
                project_id,
                enabled,
                auto_merge_enabled,
                run_tests_enabled,
                created_at: now,
                updated_at: now,
            },
        }
    }

    /// The row of a project after an upsert.
    pub fn create_or_update(
        existing: Option<ProjectReviewSettings>,
        id: u128,
        project_id: u128,
        enabled: bool,
        auto_merge_enabled: bool,
        run_tests_enabled: bool,
        now: i64,
    ) -> (r: Self)
        ensures
            r == Self::upserted(
                existing,
                id,
                project_id,
                enabled,
                auto_merge_enabled,
                run_tests_enabled,
                now,
            ),
    {
        match existing {
            Some(old) => ProjectReviewSettings {
                id: old.id,
                project_id: old.project_id,
                enabled,
                auto_merge_enabled,
                run_tests_enabled,
                created_at: old.created_at,
                updated_at: now,
            },
            None => ProjectReviewSettings {
                id,
                project_id,
                enabled,
                auto_merge_enabled,
                run_tests_enabled,
                created_at: now,
                updated_at: now,
            },
        }
    }

    /// Switches review automation on or off; tests and merging are both
    /// switched on with it.
    pub fn set_enabled(
        existing: Option<ProjectReviewSettings>,
        id: u128,
        project_id: u128,
        enabled: bool,
        now: i64,
    ) -> (r: Self)
        ensures
            r == Self::upserted(existing, id, project_id, enabled, true, true, now),
    {
        Self::create_or_update(existing, id, project_id, enabled, true, true, now)
    }
}

/// Log entry for review automation activity.
#[derive(Debug, PartialEq, Eq)]
pub struct ReviewAutomationLog {
    pub id: u128,
    pub task_id: u128,
    pub workspace_id: u128,
    pub action: ReviewAction,
    pub output: Option<String>,
    pub error_message: Option<String>,
    pub created_at: i64,
}

/// The mathematical value of a [`ReviewAutomationLog`].
#[verifier::ext_equal]
pub struct ReviewAutomationLogView {
    pub id: u128,
    pub task_id: u128,
    pub workspace_id: u128,
    pub action: ReviewAction,
    pub output: Option<Seq<char>>,
    pub error_message: Option<Seq<char>>,
    pub created_at: i64,
}

impl DeepView for ReviewAutomationLog {
    type V = ReviewAutomationLogView;

    open spec fn deep_view(&self) -> ReviewAutomationLogView {
        ReviewAutomationLogView {
            id: self.id,
            task_id: self.task_id,
            workspace_id: self.workspace_id,
            action: self.action,
            output: self.output.deep_view(),
            error_message: self.error_message.deep_view(),
            created_at: self.created_at,
        }
    }
}

impl View for ReviewAutomationLog {
    type V = ReviewAutomationLogView;

    open spec fn view(&self) -> ReviewAutomationLogView {
        self.deep_view()
    }
}

/// Response for review automation status.
#[derive(Debug, Clone, Copy, PartialEq, Eq, Structural)]
pub struct ReviewAutomationStatus {
    pub enabled: bool,
    pub auto_merge_enabled: bool,
    pub run_tests_enabled: bool,
    pub last_action: Option<ReviewAction>,
    pub last_task_id: Option<u128>,
}

/// Response for enable/disable operations.
#[derive(Debug, Clone, Copy, PartialEq, Eq, Structural)]
pub struct ReviewAutomationSettingsResponse {
    pub enabled: bool,
    pub auto_merge_enabled: bool,
    pub run_tests_enabled: bool,
}

impl From<ProjectReviewSettings> for ReviewAutomationSettingsResponse {
    fn from(settings: ProjectReviewSettings) -> (r: Self) {
        ReviewAutomationSettingsResponse {
            enabled: settings.enabled,
            auto_merge_enabled: settings.auto_merge_enabled,
            run_tests_enabled: settings.run_tests_enabled,
        }
    }
}

impl vstd::std_specs::convert::FromSpecImpl<ProjectReviewSettings> for ReviewAutomationSettingsResponse {
    open spec fn obeys_from_spec() -> bool {
        true
    }

    open spec fn from_spec(settings: ProjectReviewSettings) -> Self {
        ReviewAutomationSettingsResponse {
            enabled: settings.enabled,
            auto_merge_enabled: settings.auto_merge_enabled,
            run_tests_enabled: settings.run_tests_enabled,
        }
    }
}

/// Detected project stack for running tests.
#[derive(Debug, Clone, Copy, PartialEq, Eq, Structural)]
pub enum ProjectStack {
    NodeJs,
    Rust,
    Python,
    Go,
    Unknown,
}

impl ProjectStack {
    /// The program that runs the tests of this stack; none where the stack
    /// is unknown.
    pub open spec fn test_program(self) -> Option<Seq<char>> {
        match self {
            ProjectStack::NodeJs => Some("npm"@),
            ProjectStack::Rust => Some("cargo"@),
            ProjectStack::Python => Some("pytest"@),
            ProjectStack::Go => Some("go"@),
            ProjectStack::Unknown => None,
        }
    }

    /// The arguments with which the test program is run.
    pub open spec fn test_arguments(self) -> Seq<Seq<char>> {
        match self {
            ProjectStack::NodeJs => seq!["test"@],
            ProjectStack::Rust => seq!["test"@],
            ProjectStack::Python => Seq::empty(),
            ProjectStack::Go => seq!["test"@, "./..."@],
            ProjectStack::Unknown => Seq::empty(),
        }
    }

    /// Get the test command for this stack.
    pub fn test_command(&self) -> (r: Option<(&'static str, &'static [&'static str])>)
        ensures
            match r {
                Some((program, arguments)) => self.test_program() == Some(program@)
                    && arguments@.len() == self.test_arguments().len() && forall|i: int|
                    0 <= i < arguments@.len() ==> (#[trigger] arguments@[i])@
                        == self.test_arguments()[i],
                None => self.test_program().is_none(),
            },
    {
        match self {
            ProjectStack::NodeJs => Some(("npm", &["test"])),
            ProjectStack::Rust => Some(("cargo", &["test"])),
            ProjectStack::Python => Some(("pytest", &[])),
            ProjectStack::Go => Some(("go", &["test", "./..."])),
            ProjectStack::Unknown => None,
        }
    }
}


/// Why a git operation failed. Divergence of the target branch and a hard
/// conflict are told apart from everything else.
#[derive(Debug, PartialEq, Eq)]
pub enum GitError {
    /// The target branch has moved ahead since the attempt began.
    BranchesDiverged(String),
    /// The changes conflict.
    MergeConflicts(String),
    /// Any other failure, with its message.
    Other(String),
}

/// The mathematical value of a [`GitError`].
#[verifier::ext_equal]
pub enum GitErrorView {
    BranchesDiverged(Seq<char>),
    MergeConflicts(Seq<char>),
    Other(Seq<char>),
}

impl GitErrorView {
    /// The error as a line of text.
    pub open spec fn message(self) -> Seq<char> {
        match self {
            GitErrorView::BranchesDiverged(m) => "branches diverged: "@ + m,
            GitErrorView::MergeConflicts(m) => "merge conflicts: "@ + m,
            GitErrorView::Other(m) => m,
        }
    }
}

impl DeepView for GitError {
    type V = GitErrorView;

    open spec fn deep_view(&self) -> GitErrorView {
        match self {
            GitError::BranchesDiverged(m) => GitErrorView::BranchesDiverged(m@),
            GitError::MergeConflicts(m) => GitErrorView::MergeConflicts(m@),
            GitError::Other(m) => GitErrorView::Other(m@),
        }
    }
}

impl View for GitError {
    type V = GitErrorView;

    open spec fn view(&self) -> GitErrorView {
        self.deep_view()
    }
}

impl GitError {
    /// The error as a line of text.
    pub fn message(&self) -> (r: String)
        ensures
            r@ == self@.message(),
    {
        match self {
            GitError::BranchesDiverged(m) => String::from_str("branches diverged: ").concat(
                m.as_str(),
            ),
            GitError::MergeConflicts(m) => String::from_str("merge conflicts: ").concat(m.as_str()),
            GitError::Other(m) => m.clone(),
        }
    }
}

/// Why a review did not end in an action.
#[derive(Debug, PartialEq, Eq)]
pub enum ReviewAutomationError {
    /// The store failed; the text is its message.
    Database(String),
    Git(GitError),
    TestFailed(String),
    MergeConflict(String),
    NoWorkspaceContainer,
    CommandFailed(String),
}

/// The mathematical value of a [`ReviewAutomationError`].
#[verifier::ext_equal]
pub enum ReviewAutomationErrorView {
    Database(Seq<char>),
    Git(GitErrorView),
    TestFailed(Seq<char>),
    MergeConflict(Seq<char>),
    NoWorkspaceContainer,
    CommandFailed(Seq<char>),
}

impl ReviewAutomationErrorView {
    /// The error as a line of text.
    pub open spec fn message(self) -> Seq<char> {
        match self {
            ReviewAutomationErrorView::Database(m) => "database error: "@ + m,
            ReviewAutomationErrorView::Git(e) => "git error: "@ + e.message(),
            ReviewAutomationErrorView::TestFailed(m) => "test failed: "@ + m,
            ReviewAutomationErrorView::MergeConflict(m) => "merge conflict: "@ + m,
            ReviewAutomationErrorView::NoWorkspaceContainer => "no workspace container"@,
            ReviewAutomationErrorView::CommandFailed(m) => "command execution failed: "@ + m,
        }
    }
}

impl DeepView for ReviewAutomationError {
    type V = ReviewAutomationErrorView;

    open spec fn deep_view(&self) -> ReviewAutomationErrorView {
        match self {
            ReviewAutomationError::Database(m) => ReviewAutomationErrorView::Database(m@),
            ReviewAutomationError::Git(e) => ReviewAutomationErrorView::Git(e@),
            ReviewAutomationError::TestFailed(m) => ReviewAutomationErrorView::TestFailed(m@),
            ReviewAutomationError::MergeConflict(m) => ReviewAutomationErrorView::MergeConflict(m@),
            ReviewAutomationError::NoWorkspaceContainer => ReviewAutomationErrorView::NoWorkspaceContainer,
            ReviewAutomationError::CommandFailed(m) => ReviewAutomationErrorView::CommandFailed(m@),
        }
    }
}

impl View for ReviewAutomationError {
    type V = ReviewAutomationErrorView;

    open spec fn view(&self) -> ReviewAutomationErrorView {
        self.deep_view()
    }
}

impl ReviewAutomationError {
    /// The error as a line of text.
    pub fn message(&self) -> (r: String)
        ensures
            r@ == self@.message(),
    {
        match self {
            ReviewAutomationError::Database(m) => String::from_str("database error: ").concat(
                m.as_str(),
            ),
            ReviewAutomationError::Git(e) => {
                let inner = e.message();
                String::from_str("git error: ").concat(inner.as_str())
            },
            ReviewAutomationError::TestFailed(m) => String::from_str("test failed: ").concat(
                m.as_str(),
            ),
            ReviewAutomationError::MergeConflict(m) => String::from_str("merge conflict: ").concat(
                m.as_str(),
            ),
            ReviewAutomationError::NoWorkspaceContainer => String::from_str(
                "no workspace container",
            ),
            ReviewAutomationError::CommandFailed(m) => String::from_str(
                "command execution failed: ",
            ).concat(m.as_str()),
        }
    }
}

/// The stack of a project in which files of these names are present: the
/// first of Node.js, Rust, Python and Go whose manifest is there.
pub open spec fn stack_of(present: Seq<Seq<char>>) -> ProjectStack {
    if present.contains("package.json"@) {
        ProjectStack::NodeJs
    } else if present.contains("Cargo.toml"@) {
        ProjectStack::Rust
    } else if present.contains("pyproject.toml"@) || present.contains("setup.py"@)
        || present.contains("pytest.ini"@) {
        ProjectStack::Python
    } else if present.contains("go.mod"@) {
        ProjectStack::Go
    } else {
        ProjectStack::Unknown
    }
}

/// The names of the files by which a stack is known.
pub open spec fn manifest_names() -> Seq<Seq<char>> {
    seq![
        "package.json"@,
        "Cargo.toml"@,
        "pyproject.toml"@,
        "setup.py"@,
        "pytest.ini"@,
        "go.mod"@,
    ]
}

fn has_name(present: &Vec<String>, name: &str) -> (r: bool)
    ensures
        r == present.deep_view().contains(name@),
{
    let mut i: usize = 0;
    while i < present.len()
        invariant
            i <= present.len(),
            forall|k: int| 0 <= k < i ==> present.deep_view()[k] != name@,
        decreases present.len() - i,
    {
        if str_eq(present[i].as_str(), name) {
            assert(present.deep_view()[i as int] == name@);
            return true;
        }
        i = i + 1;
    }
    false
}

/// The background service for automated review processing.
#[derive(Debug, PartialEq, Eq)]
pub struct ReviewAutomationService {
    /// Seconds between two passes over the projects.
    pub poll_interval_secs: u64,
}

/// The most merge conflicts of a task before it is cancelled and broken
/// down.
pub const MAX_MERGE_CONFLICT_ATTEMPTS: usize = 5;

/// How many of the log rows record a merge conflict of the task.
pub open spec fn conflict_count(logs: Seq<ReviewAutomationLogView>, task_id: u128) -> nat {
    logs.filter(
        |l: ReviewAutomationLogView| l.task_id == task_id && l.action == ReviewAction::MergeConflict,
    ).len()
}

impl ReviewAutomationLog {
    /// Count the number of merge conflict attempts for a task. The count
    /// is read off the log rows and nothing else.
    pub fn count_merge_conflicts(logs: &Vec<ReviewAutomationLog>, task_id: u128) -> (r: usize)
        ensures
            r == conflict_count(logs.deep_view(), task_id),
    {
        let mut n: usize = 0;
        let mut i: usize = 0;
        let ghost all = logs.deep_view();
        let ghost pred = |l: ReviewAutomationLogView|
            l.task_id == task_id && l.action == ReviewAction::MergeConflict;
        proof {
            reveal(Seq::filter);
            assert(all.take(0) =~= Seq::<ReviewAutomationLogView>::empty());
        }
        while i < logs.len()
            invariant
                i <= logs.len(),
                all == logs.deep_view(),
                pred == |l: ReviewAutomationLogView|
                    l.task_id == task_id && l.action == ReviewAction::MergeConflict,
                n == all.take(i as int).filter(pred).len(),
                n <= i,
            decreases logs.len() - i,
        {
            proof {
                reveal(Seq::filter);
                assert(all.take(i + 1).drop_last() =~= all.take(i as int));
                assert(all.take(i + 1).last() == logs@[i as int]@);
            }
            if logs[i].task_id == task_id && matches!(logs[i].action, ReviewAction::MergeConflict) {
                n = n + 1;
            }
            i = i + 1;
        }
        proof {
            assert(all.take(logs.len() as int) =~= all);
        }
        n
    }
}

impl ReviewAutomationService {
    /// The service as it is spawned: it looks at the projects every ten
    /// seconds.
    pub fn new() -> (r: Self)
        ensures
            r.poll_interval_secs == 10,
    {
        ReviewAutomationService { poll_interval_secs: 10 }
    }

    /// The names of the files to look for in a workspace.
    pub fn manifest_files() -> (r: Vec<String>)
        ensures
            r.deep_view() == manifest_names(),
    {
        let mut out: Vec<String> = Vec::new();
        out.push(String::from_str("package.json"));
        out.push(String::from_str("Cargo.toml"));
        out.push(String::from_str("pyproject.toml"));
        out.push(String::from_str("setup.py"));
        out.push(String::from_str("pytest.ini"));
        out.push(String::from_str("go.mod"));
        proof {
            assert(out.deep_view() =~= manifest_names());
        }
        out
    }

    /// Detect the project stack from the files present in the workspace.
    pub fn detect_stack(&self, present: &Vec<String>) -> (r: ProjectStack)
        ensures
            r == stack_of(present.deep_view()),
    {
        if has_name(present, "package.json") {
            ProjectStack::NodeJs
        } else if has_name(present, "Cargo.toml") {
            ProjectStack::Rust
        } else if has_name(present, "pyproject.toml") || has_name(present, "setup.py") || has_name(
            present,
            "pytest.ini",
        ) {
            ProjectStack::Python
        } else if has_name(present, "go.mod") {
            ProjectStack::Go
        } else {
            ProjectStack::Unknown
        }
    }

    /// Get the current review automation status for a project, from its
    /// settings and its latest log entry.
    pub fn get_status(settings: Option<ProjectReviewSettings>, latest_log: Option<
        ReviewAutomationLog,
    >) -> (r: ReviewAutomationStatus)
        ensures
            r.enabled == (settings.is_some() && settings.unwrap().enabled),
            r.auto_merge_enabled == (settings.is_some() && settings.unwrap().auto_merge_enabled),
            r.run_tests_enabled == (settings.is_some() && settings.unwrap().run_tests_enabled),
            r.last_action == match latest_log {
                Some(l) => Some(l.action),
                None => None,
            },
            r.last_task_id == match latest_log {
                Some(l) => Some(l.task_id),
                None => None,
            },
    {
        let (enabled, auto_merge_enabled, run_tests_enabled) = match settings {
            Some(s) => (s.enabled, s.auto_merge_enabled, s.run_tests_enabled),
            None => (false, false, false),
        };
        match latest_log {
            Some(l) => ReviewAutomationStatus {
                enabled,
                auto_merge_enabled,
                run_tests_enabled,
                last_action: Some(l.action),
                last_task_id: Some(l.task_id),
            },
            None => ReviewAutomationStatus {
                enabled,
                auto_merge_enabled,
                run_tests_enabled,
                last_action: None,
                last_task_id: None,
            },
        }
    }

    /// Enable review automation for a project: the settings row to store.
    pub fn enable(existing: Option<ProjectReviewSettings>, id: u128, project_id: u128, now: i64) -> (r:
        ProjectReviewSettings)
        ensures
            r == ProjectReviewSettings::upserted(existing, id, project_id, true, true, true, now),
    {
        ProjectReviewSettings::set_enabled(existing, id, project_id, true, now)
    }

    /// Disable review automation for a project: the settings row to store.
    pub fn disable(existing: Option<ProjectReviewSettings>, id: u128, project_id: u128, now: i64) -> (r:
        ProjectReviewSettings)
        ensures
            r == ProjectReviewSettings::upserted(existing, id, project_id, false, true, true, now),
    {
        ProjectReviewSettings::set_enabled(existing, id, project_id, false, now)
    }
}

} // verus!
