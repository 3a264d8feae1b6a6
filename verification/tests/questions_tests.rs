use task_orchestrator::codebase_rules::get_all_rules;
use task_orchestrator::project_requirements::ExtractedFeature;
use task_orchestrator::questions::{
    complexity_question, conflict_question, features_question, selection_question, tasks_question,
    COMPLEXITY_SYSTEM, CONFLICT_SYSTEM, FEATURES_SYSTEM, SELECTION_SYSTEM, TASKS_SYSTEM,
};
use task_orchestrator::task::{Task, TaskLayer, TaskSource, TaskStatus, TaskType};

fn task(description: Option<&str>, layer: Option<TaskLayer>, task_type: Option<TaskType>) -> Task {
    Task {
        id: 1,
        project_id: 2,
        title: "Login".to_string(),
        description: description.map(|s| s.to_string()),
        status: TaskStatus::Todo,
        parent_workspace_id: None,
        source: TaskSource::Manual,
        layer,
        task_type,
        sequence: None,
        testing_criteria: None,
        stage_started_at: None,
        complexity_score: None,
        parent_task_id: None,
        prevent_breakdown: false,
        post_task_actions: None,
        created_at: 0,
        updated_at: 0,
    }
}

#[test]
fn the_selection_question_holds_the_candidates() {
    let q = selection_question("[{\"id\": \"x\"}]");
    assert!(q.starts_with("You are a task prioritization assistant. Analyze the following tasks"));
    assert!(q.contains("\n## Tasks:\n[{\"id\": \"x\"}]\n\n## Output Format:\n"));
    assert!(q.ends_with("  \"reasoning\": \"Brief explanation of why the task was selected\"\n}"));
    assert!(q.contains("{\n  \"task_id\": \"uuid-of-selected-task\","));
    assert!(!q.contains("{{"));
}

#[test]
fn the_complexity_question_shows_the_task() {
    let q = complexity_question(&task(
        Some("Let users in"),
        Some(TaskLayer::Backend),
        Some(TaskType::Architecture),
    ));
    assert!(q.starts_with("Analyze the complexity of this software development task:\n\n## Task\n"));
    assert!(q.contains(
        "## Task\nTitle: Login\nDescription: Let users in\nLayer: backend\nType: architecture\n\n## Criteria"
    ));
    assert!(q.contains("{\n  \"complexity_score\": <1-10>,"));
    assert!(q.ends_with("Limit to 2-4 subtasks maximum if breaking down."));
    let bare = complexity_question(&task(None, None, None));
    assert!(bare.contains(
        "Title: Login\nDescription: (no description)\nLayer: unspecified\nType: implementation\n"
    ));
}

#[test]
fn the_conflict_question_shows_the_task_and_the_conflict() {
    let q = conflict_question(&task(None, Some(TaskLayer::Data), None), "both changed a.rs");
    assert!(q.starts_with(
        "A software development task has failed to merge 5 times due to conflicts.\n"
    ));
    assert!(q.contains(
        "## Original Task\nTitle: Login\nDescription: (no description)\nLayer: data\nType: implementation\n\n## Conflict Details\nboth changed a.rs\n\n## Requirements\n"
    ));
    assert!(q.contains("1. Break the task into 2-4 smaller, independent subtasks"));
    assert!(q.ends_with("\"reasoning\": \"<brief explanation of how you split the task>\"\n}"));
}

#[test]
fn the_features_question_shows_the_requirements() {
    let q = features_question("a shop", None);
    assert!(q.starts_with("Analyze the following project requirements"));
    assert!(q.contains("## Requirements\na shop\n\n## Instructions\n"));
    assert!(!q.contains("## Additional PRD Content"));
    assert!(q.ends_with("  \"summary\": \"Brief summary of the overall project scope\"\n}\n```\n"));
    let with = features_question("a shop", Some("sell books"));
    assert!(with.contains(
        "## Requirements\na shop\n\n## Additional PRD Content\nsell books\n\n## Instructions\n"
    ));
    assert_eq!(with.len(), q.len() + "\n## Additional PRD Content\nsell books\n".len());
}

#[test]
fn the_tasks_question_lists_the_features_below_the_rules() {
    let feature = |name: &str, layer: Option<&str>| ExtractedFeature {
        name: name.to_string(),
        description: format!("about {}", name),
        layer: layer.map(|l| l.to_string()),
        priority: None,
    };
    let q = tasks_question(&vec![feature("cart", Some("backend")), feature("search", None)]);
    assert!(q.starts_with("Generate implementation tasks for the following features."));
    assert!(q.contains(&format!("## ARCHITECTURE RULES (MUST FOLLOW)\n{}\n\n## Features to Implement\n", get_all_rules())));
    assert!(q.contains(
        "## Features to Implement\n  - Name: cart\n    Description: about cart\n    Layer: backend\n  - Name: search\n    Description: about search\n    Layer: fullstack\n\n## Task Generation Strategy"
    ));
    assert!(q.contains("{\n  \"tasks\": [\n    {\n      \"title\": \"Short task title\","));
    assert!(q.ends_with("- Include a \"Database Changes\" section if migrations were created\n"));
    let none = tasks_question(&vec![]);
    assert!(none.contains("## Features to Implement\n\n\n## Task Generation Strategy"));
}

#[test]
fn the_roles_of_the_advisor() {
    for role in [SELECTION_SYSTEM, COMPLEXITY_SYSTEM, CONFLICT_SYSTEM, FEATURES_SYSTEM, TASKS_SYSTEM] {
        assert!(role.starts_with("You are a "));
        assert!(role.ends_with("Output valid JSON only."));
    }
    assert!(FEATURES_SYSTEM.contains("extract features. Consider that"));
}
