//! Workspaces: the sandbox in which one attempt at one task runs, and the
//! repositories bound to it.

use crate::task::Task;
use vstd::prelude::*;
use vstd::string::*;

verus! {

/// One execution sandbox bound to one attempt at one task.
#[derive(Debug, PartialEq, Eq)]
pub struct Workspace {
    pub id: u128,
    pub task_id: u128,
    /// Where the sandbox lives; commands run there.
    pub container_ref: Option<String>,
    pub branch: String,
    pub agent_working_dir: Option<String>,
    pub setup_completed_at: Option<i64>,
    pub created_at: i64,
    pub updated_at: i64,
    pub archived: bool,
    pub pinned: bool,
    pub name: Option<String>,
}

/// The mathematical value of a [`Workspace`].
#[verifier::ext_equal]
pub struct WorkspaceView {
    pub id: u128,
    pub task_id: u128,
    pub container_ref: Option<Seq<char>>,
    pub branch: Seq<char>,
    pub agent_working_dir: Option<Seq<char>>,
    pub setup_completed_at: Option<i64>,
    pub created_at: i64,
    pub updated_at: i64,
    pub archived: bool,
    pub pinned: bool,
    pub name: Option<Seq<char>>,
}

impl DeepView for Workspace {
    type V = WorkspaceView;

    open spec fn deep_view(&self) -> WorkspaceView {
        WorkspaceView {
            id: self.id,
            task_id: self.task_id,
            container_ref: self.container_ref.deep_view(),
            branch: self.branch@,
            agent_working_dir: self.agent_working_dir.deep_view(),
            setup_completed_at: self.setup_completed_at,
            created_at: self.created_at,
            updated_at: self.updated_at,
            archived: self.archived,
            pinned: self.pinned,
            name: self.name.deep_view(),
        }
    }
}

impl View for Workspace {
    type V = WorkspaceView;

    open spec fn view(&self) -> WorkspaceView {
        self.deep_view()
    }
}

impl Clone for Workspace {
    fn clone(&self) -> (r: Self)
        ensures
            r@ == self@,
    {
        Workspace {
            id: self.id,
            task_id: self.task_id,
            container_ref: self.container_ref.clone(),
            branch: self.branch.clone(),
            agent_working_dir: self.agent_working_dir.clone(),
            setup_completed_at: self.setup_completed_at,
            created_at: self.created_at,
            updated_at: self.updated_at,
            archived: self.archived,
            pinned: self.pinned,
            name: self.name.clone(),
        }
    }
}

/// A repository of a project.
#[derive(Debug, PartialEq, Eq)]
pub struct Repo {
    pub id: u128,
    pub name: String,
    pub path: String,
}

/// The mathematical value of a [`Repo`].
#[verifier::ext_equal]
pub struct RepoView {
    pub id: u128,
    pub name: Seq<char>,
    pub path: Seq<char>,
}

impl DeepView for Repo {
    type V = RepoView;

    open spec fn deep_view(&self) -> RepoView {
        RepoView { id: self.id, name: self.name@, path: self.path@ }
    }
}

impl View for Repo {
    type V = RepoView;

    open spec fn view(&self) -> RepoView {
        self.deep_view()
    }
}

impl Clone for Repo {
    fn clone(&self) -> (r: Self)
        ensures
            r@ == self@,
    {
        Repo { id: self.id, name: self.name.clone(), path: self.path.clone() }
    }
}

/// A repository bound to a workspace, with the branch that the workspace's
/// branch is merged into.
#[derive(Debug, PartialEq, Eq)]
pub struct RepoWithTargetBranch {
    pub repo: Repo,
    pub target_branch: String,
}

/// The mathematical value of a [`RepoWithTargetBranch`].
#[verifier::ext_equal]
pub struct RepoWithTargetBranchView {
    pub repo: RepoView,
    pub target_branch: Seq<char>,
}

impl DeepView for RepoWithTargetBranch {
    type V = RepoWithTargetBranchView;

    open spec fn deep_view(&self) -> RepoWithTargetBranchView {
        RepoWithTargetBranchView { repo: self.repo@, target_branch: self.target_branch@ }
    }
}

impl View for RepoWithTargetBranch {
    type V = RepoWithTargetBranchView;

    open spec fn view(&self) -> RepoWithTargetBranchView {
        self.deep_view()
    }
}

impl Clone for RepoWithTargetBranch {
    fn clone(&self) -> (r: Self)
        ensures
            r@ == self@,
    {
        RepoWithTargetBranch { repo: self.repo.clone(), target_branch: self.target_branch.clone() }
    }
}

/// What it takes to create a workspace.
#[derive(Debug, PartialEq, Eq)]
pub struct CreateWorkspace {
    pub branch: String,
    pub agent_working_dir: Option<String>,
}

/// What it takes to bind a repository to a workspace.
#[derive(Debug, PartialEq, Eq)]
pub struct CreateWorkspaceRepo {
    pub repo_id: u128,
    pub target_branch: String,
}

/// The mathematical value of a [`CreateWorkspaceRepo`].
#[verifier::ext_equal]
pub struct CreateWorkspaceRepoView {
    pub repo_id: u128,
    pub target_branch: Seq<char>,
}

impl DeepView for CreateWorkspaceRepo {
    type V = CreateWorkspaceRepoView;

    open spec fn deep_view(&self) -> CreateWorkspaceRepoView {
        CreateWorkspaceRepoView { repo_id: self.repo_id, target_branch: self.target_branch@ }
    }
}

impl View for CreateWorkspaceRepo {
    type V = CreateWorkspaceRepoView;

    open spec fn view(&self) -> CreateWorkspaceRepoView {
        self.deep_view()
    }
}

/// A task seen from one of its workspaces.
#[derive(Debug, PartialEq, Eq)]
pub struct TaskRelationships {
    /// The task that owns the parent workspace.
    pub parent_task: Option<Task>,
    /// The workspace we are viewing.
    pub current_workspace: Workspace,
    /// Tasks created from this workspace.
    pub children: Vec<Task>,
}

impl TaskRelationships {
    /// Puts together what was found for a workspace.
    pub fn assemble(parent_task: Option<Task>, current_workspace: &Workspace, children: Vec<Task>) -> (r:
        Self)
        ensures
            r.parent_task == parent_task,
            r.current_workspace@ == current_workspace@,
            r.children == children,
    {
        TaskRelationships { parent_task, current_workspace: current_workspace.clone(), children }
    }
}

} // verus!
