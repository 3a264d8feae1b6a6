//! The questions put to the advisor, word for word.

use crate::codebase_rules::{get_all_rules, BACKEND_RULES, FRONTEND_RULES, RULES_SEPARATOR};
use crate::project_requirements::{ExtractedFeature, ExtractedFeatureView};
use crate::review_automation::MAX_MERGE_CONFLICT_ATTEMPTS;
use crate::task::{Task, TaskView};
use crate::text::{decimal, join, joined, push_decimal};
use vstd::prelude::*;
use vstd::string::*;

verus! {

/// What the selection question says before the candidates.
pub const SELECTION_HEAD: &'static str = r#"You are a task prioritization assistant. Analyze the following tasks and select the ONE task that should be worked on next.

## CRITICAL: Prioritization Rules (in strict order):
1. **INITIALIZATION FIRST**: Tasks that initialize or set up the project MUST come first. Look for:
   - Tasks with sequence=1 (highest priority)
   - Architecture tasks that set up project structure, configs, or scaffolding
   - Tasks with titles containing: "init", "setup", "scaffold", "configure", "create project", "initialize"
   - The project must be runnable in the browser after these tasks complete!

2. **Sequence order**: Lower sequence number = higher priority (sequence 1 before 2, 2 before 3, etc.)

3. **Task type order**: architecture → mock → implementation → integration
   - Architecture tasks set up structure (do these early)
   - Mock tasks enable parallel development
   - Implementation tasks build features
   - Integration tasks come last (they wire everything together)

4. **Layer dependencies**: data → backend → frontend → fullstack
   - Data layer should be set up before backend
   - Backend before frontend (frontend needs API endpoints)

5. **Unblocking**: Prefer tasks that enable other tasks to proceed

## Tasks:
"#;

/// What the selection question says after the candidates.
pub const SELECTION_TAIL: &'static str = r#"

## Output Format:
Return ONLY valid JSON:
{
  "task_id": "uuid-of-selected-task",
  "reasoning": "Brief explanation of why the task was selected"
}"#;

/// What the complexity question says before the title.
pub const COMPLEXITY_HEAD: &'static str = r#"Analyze the complexity of this software development task:

## Task
Title: "#;

/// What stands before the description.
pub const COMPLEXITY_DESCRIPTION: &'static str = r#"
Description: "#;

/// What stands before the layer.
pub const COMPLEXITY_LAYER: &'static str = r#"
Layer: "#;

/// What stands before the type.
pub const COMPLEXITY_TYPE: &'static str = r#"
Type: "#;

/// What the complexity question says after the type.
pub const COMPLEXITY_TAIL: &'static str = r#"

## Criteria for High Complexity (score >= 7):
- Would take > 4 hours of work
- Touches > 3 files/components
- Has unclear boundaries
- Can be split into independently testable parts
- Requires multiple distinct implementation steps

## Output Format (JSON only):
{
  "complexity_score": <1-10>,
  "can_be_broken_down": <true/false>,
  "reasoning": "<brief explanation>",
  "subtasks": [
    {"title": "<subtask title>", "description": "<what to do>", "layer": "<data|backend|frontend|null>"},
    ...
  ]
}

If complexity_score < 7 or can_be_broken_down is false, subtasks can be empty array.
Limit to 2-4 subtasks maximum if breaking down."#;

/// What the conflict question says before the number of failed merges.
pub const CONFLICT_HEAD: &'static str = r#"A software development task has failed to merge "#;

/// What stands before the title.
pub const CONFLICT_TITLE: &'static str = r#" times due to conflicts.
The task needs to be broken down into smaller, simpler subtasks that are less likely to cause conflicts.

## Original Task
Title: "#;

/// What stands before the description.
pub const CONFLICT_DESCRIPTION: &'static str = r#"
Description: "#;

/// What stands before the layer.
pub const CONFLICT_LAYER: &'static str = r#"
Layer: "#;

/// What stands before the type.
pub const CONFLICT_TYPE: &'static str = r#"
Type: "#;

/// What stands before the detail of the conflict.
pub const CONFLICT_DETAILS: &'static str = r#"

## Conflict Details
"#;

/// What the conflict question says after the detail.
pub const CONFLICT_TAIL: &'static str = r#"

## Requirements
1. Break the task into 2-4 smaller, independent subtasks
2. Each subtask should be small enough to avoid merge conflicts
3. Subtasks should be able to be completed and merged independently
4. Focus on making atomic, isolated changes

## Output Format (JSON only):
{
  "subtasks": [
    {"title": "<subtask title>", "description": "<clear description of what to do>", "layer": "<data|backend|frontend|null>"},
    ...
  ],
  "reasoning": "<brief explanation of how you split the task>"
}"#;

/// What the features question says before the requirements.
pub const FEATURES_HEAD: &'static str = r#"Analyze the following project requirements and extract distinct features that need to be implemented.

IMPORTANT: This is for an EXISTING working project. Features should be analyzed in the context of extending/modifying the existing codebase.

## Requirements
"#;

/// What stands after the requirements.
pub const FEATURES_AFTER_REQUIREMENTS: &'static str = r#"
"#;

/// What stands before further content, where there is any.
pub const FEATURES_PRD_HEAD: &'static str = r#"
## Additional PRD Content
"#;

/// What stands after further content.
pub const FEATURES_PRD_TAIL: &'static str = r#"
"#;

/// The instructions that end the features question.
pub const FEATURES_TAIL: &'static str = r#"
## Instructions
1. Identify distinct features that need to be implemented
2. For each feature, determine which layer it primarily belongs to:
   - "data": Database models, schemas, migrations (SQLite)
   - "backend": API endpoints, business logic, services (Node.js)
   - "frontend": UI components, pages, user interactions (React + Vite + Zustand)
   - "fullstack": Features spanning multiple layers
   - "devops": Infrastructure, deployment, CI/CD
   - "testing": Test coverage, test utilities
3. Assign a priority (1=highest, 5=lowest) based on dependencies and importance
4. Consider cross-layer dependencies - features that require data models, API contracts, and UI components

## Output Format
Return ONLY valid JSON with this structure:
```json
{
  "features": [
    {
      "name": "Feature name",
      "description": "Brief description of what needs to be built, including any cross-layer dependencies",
      "layer": "backend|frontend|data|fullstack|devops|testing",
      "priority": 1
    }
  ],
  "summary": "Brief summary of the overall project scope"
}
```
"#;

/// What stands before the name of a feature in a list.
pub const FEATURE_NAME: &'static str = r#"  - Name: "#;

/// What stands before the description of a feature.
pub const FEATURE_DESCRIPTION: &'static str = r#"
    Description: "#;

/// What stands before the layer of a feature.
pub const FEATURE_LAYER: &'static str = r#"
    Layer: "#;

/// What the tasks question says before the rules.
pub const TASKS_HEAD: &'static str = r#"Generate implementation tasks for the following features.

IMPORTANT: This is an EXISTING working project. You must analyze the existing codebase structure and generate tasks that work with the existing files and architecture.

## ARCHITECTURE RULES (MUST FOLLOW)
"#;

/// What stands between the rules and the features.
pub const TASKS_FEATURES: &'static str = r#"

## Features to Implement
"#;

/// What the tasks question says after the features.
pub const TASKS_TAIL: &'static str = r#"

## Task Generation Strategy

Generate tasks in this EXACT ORDER:

### 1. Architecture Tasks (task_type: "architecture")
Analyze existing architecture and define any new models/contracts needed:
- Identify existing data models, API patterns, state management
- Define any NEW interfaces/types needed for the features
- Design database schema changes if needed
- Create database migrations if database changes are required
- Ensure database is initialized before proceeding

### 2. Implementation Tasks (task_type: "implementation")
Build real implementations working with the existing codebase:
- Modify existing files or create new ones following project conventions
- Integrate with existing patterns and services
- Reference specific files that need modification
- Implement full functionality (no mocks - build the real thing)
- Include database operations if needed (queries, mutations)
- Run and test migrations as part of implementation

### 3. Integration Task (task_type: "integration")
Wire new features into the existing application:
- Connect new endpoints/components to existing infrastructure
- Verify database migrations have been applied
- End-to-end testing of the complete flow
- Ensure all database tables and schemas are correct

## Output Format
Return ONLY valid JSON:
```json
{
  "tasks": [
    {
      "title": "Short task title",
      "description": "Detailed description explaining WHAT to build and HOW it integrates with existing code",
      "layer": "backend|frontend|data|fullstack|devops|testing",
      "task_type": "architecture|implementation|integration",
      "testing_criteria": "Specific, verifiable criteria to confirm the task is complete",
      "files_to_modify": ["path/to/file1.ts", "path/to/file2.tsx"],
      "post_task_actions": "<markdown template - see below>"
    }
  ]
}
```

## post_task_actions Format
MUST be markdown text that will be appended to .progress file. Include:
- Task title as heading
- Status with timestamp
- Summary of what was done
- List of files changed
- Testing results
- Separator line

IMPORTANT:
- Analyze the EXISTING project structure before generating tasks
- Reference specific existing files that need modification in files_to_modify
- FOLLOW THE ARCHITECTURE RULES STRICTLY - do not recreate components that already exist
- For frontend tasks: DO NOT create new navbar/sidebar, use existing layout components
- For backend tasks: Follow the routing, service, and model patterns
- For database tasks: ALWAYS create migration files, run pnpm run prepare-db, never use npm run init-db
- Database must exist before migrations run - include database creation check in architecture tasks
- post_task_actions should be actual markdown text, not a template with placeholders
- This markdown will be appended to .progress file when task completes
- Include a "Rules Followed" section in post_task_actions listing which architecture rules were applied
- Include a "Database Changes" section if migrations were created
"#;

/// The role in which the advisor selects a task.
pub const SELECTION_SYSTEM: &'static str = "You are a task prioritization assistant. Your PRIMARY goal is ensuring the codebase is always runnable. Initialization and setup tasks MUST be completed first. Select the most appropriate task based on strict priority order. Output valid JSON only.";

/// The role in which the advisor judges complexity.
pub const COMPLEXITY_SYSTEM: &'static str = "You are a software project complexity analyzer. Analyze tasks and suggest breakdowns for complex work. Output valid JSON only.";

/// The role in which the advisor splits a conflicting task.
pub const CONFLICT_SYSTEM: &'static str = "You are a task breakdown assistant. Break complex tasks into smaller, independent pieces that can be merged without conflicts. Output valid JSON only.";

/// The role in which the advisor extracts features.
pub const FEATURES_SYSTEM: &'static str = "You are a software architect analyzing requirements for an EXISTING project to extract features. \
     Consider that you're working with an established codebase and architecture. Be concise and practical. \
     Focus on actionable features that extend or modify the existing system. Output valid JSON only.";

/// The role in which the advisor generates tasks.
pub const TASKS_SYSTEM: &'static str = "You are a software architect analyzing an EXISTING codebase and generating implementation tasks. \
     You must analyze the existing project structure, identify patterns, and generate tasks that work with \
     the existing architecture. Each task should reference specific files to modify and include a markdown \
     template for progress tracking. Use a mock-first approach where appropriate. Output valid JSON only.";

/// The description of a task as a question shows it.
pub open spec fn shown_description(task: TaskView) -> Seq<char> {
    match task.description {
        Some(d) => d,
        None => "(no description)"@,
    }
}

/// The layer of a task as a question shows it.
pub open spec fn shown_layer(task: TaskView) -> Seq<char> {
    match task.layer {
        Some(l) => l.name(),
        None => "unspecified"@,
    }
}

/// The type of a task as a question shows it: a task of no type counts as
/// implementation.
pub open spec fn shown_type(task: TaskView) -> Seq<char> {
    match task.task_type {
        Some(t) => t.name(),
        None => "implementation"@,
    }
}

/// The question that asks for one of the candidates, which are given as
/// JSON.
pub open spec fn selection_text(tasks_json: Seq<char>) -> Seq<char> {
    SELECTION_HEAD@ + tasks_json + SELECTION_TAIL@
}

/// The question that asks how complex a task is.
pub open spec fn complexity_text(task: TaskView) -> Seq<char> {
    COMPLEXITY_HEAD@ + task.title + COMPLEXITY_DESCRIPTION@ + shown_description(task)
        + COMPLEXITY_LAYER@ + shown_layer(task) + COMPLEXITY_TYPE@ + shown_type(task)
        + COMPLEXITY_TAIL@
}

/// The question that asks for a split of a task that failed to merge.
pub open spec fn conflict_text(task: TaskView, conflict_details: Seq<char>) -> Seq<char> {
    CONFLICT_HEAD@ + decimal(MAX_MERGE_CONFLICT_ATTEMPTS as int) + CONFLICT_TITLE@ + task.title
        + CONFLICT_DESCRIPTION@ + shown_description(task) + CONFLICT_LAYER@ + shown_layer(task)
        + CONFLICT_TYPE@ + shown_type(task) + CONFLICT_DETAILS@ + conflict_details
        + CONFLICT_TAIL@
}

/// The question that asks for the features in the requirements.
pub open spec fn features_text(raw_requirements: Seq<char>, prd_content: Option<Seq<char>>) -> Seq<
    char,
> {
    let head = FEATURES_HEAD@ + raw_requirements + FEATURES_AFTER_REQUIREMENTS@;
    match prd_content {
        Some(prd) => head + FEATURES_PRD_HEAD@ + prd + FEATURES_PRD_TAIL@ + FEATURES_TAIL@,
        None => head + FEATURES_TAIL@,
    }
}

/// A feature as the tasks question lists it; a feature of no layer counts
/// as spanning the stack.
pub open spec fn feature_item(f: ExtractedFeatureView) -> Seq<char> {
    FEATURE_NAME@ + f.name + FEATURE_DESCRIPTION@ + f.description + FEATURE_LAYER@ + match f.layer {
        Some(l) => l,
        None => "fullstack"@,
    }
}

/// The features as the tasks question lists them, one below the other.
pub open spec fn feature_list(features: Seq<ExtractedFeatureView>) -> Seq<char> {
    joined(features.map_values(|f: ExtractedFeatureView| feature_item(f)), "\n"@)
}

/// Both sets of architecture rules.
pub open spec fn all_rules() -> Seq<char> {
    FRONTEND_RULES@ + RULES_SEPARATOR@ + BACKEND_RULES@
}

/// The question that asks for implementation tasks for the features.
pub open spec fn tasks_text(features: Seq<ExtractedFeatureView>) -> Seq<char> {
    TASKS_HEAD@ + all_rules() + TASKS_FEATURES@ + feature_list(features) + TASKS_TAIL@
}

fn push_description(out: &mut String, task: &Task)
    ensures
        final(out)@ == old(out)@ + shown_description(task@),
{
    match &task.description {
        Some(d) => out.append(d.as_str()),
        None => out.append("(no description)"),
    }
}

fn push_layer(out: &mut String, task: &Task)
    ensures
        final(out)@ == old(out)@ + shown_layer(task@),
{
    match task.layer {
        Some(l) => out.append(l.as_str()),
        None => out.append("unspecified"),
    }
}

fn push_type(out: &mut String, task: &Task)
    ensures
        final(out)@ == old(out)@ + shown_type(task@),
{
    match task.task_type {
        Some(t) => out.append(t.as_str()),
        None => out.append("implementation"),
    }
}

/// Asks for one of the candidates, given as JSON.
pub fn selection_question(tasks_json: &str) -> (r: String)
    ensures
        r@ == selection_text(tasks_json@),
{
    let mut out = String::from_str(SELECTION_HEAD);
    out.append(tasks_json);
    out.append(SELECTION_TAIL);
    out
}

/// Asks how complex a task is.
pub fn complexity_question(task: &Task) -> (r: String)
    ensures
        r@ == complexity_text(task@),
{
    let mut out = String::from_str(COMPLEXITY_HEAD);
    out.append(task.title.as_str());
    out.append(COMPLEXITY_DESCRIPTION);
    push_description(&mut out, task);
    out.append(COMPLEXITY_LAYER);
    push_layer(&mut out, task);
    out.append(COMPLEXITY_TYPE);
    push_type(&mut out, task);
    out.append(COMPLEXITY_TAIL);
    out
}

/// Asks for a split of a task that failed to merge.
pub fn conflict_question(task: &Task, conflict_details: &str) -> (r: String)
    ensures
        r@ == conflict_text(task@, conflict_details@),
{
    let mut out = String::from_str(CONFLICT_HEAD);
    push_decimal(&mut out, MAX_MERGE_CONFLICT_ATTEMPTS as i128);
    out.append(CONFLICT_TITLE);
    out.append(task.title.as_str());
    out.append(CONFLICT_DESCRIPTION);
    push_description(&mut out, task);
    out.append(CONFLICT_LAYER);
    push_layer(&mut out, task);
    out.append(CONFLICT_TYPE);
    push_type(&mut out, task);
    out.append(CONFLICT_DETAILS);
    out.append(conflict_details);
    out.append(CONFLICT_TAIL);
    out
}

/// Asks for the features in the requirements.
pub fn features_question(raw_requirements: &str, prd_content: Option<&str>) -> (r: String)
    ensures
        r@ == features_text(
            raw_requirements@,
            match prd_content {
                Some(p) => Some(p@),
                None => None,
            },
        ),
{
    let mut out = String::from_str(FEATURES_HEAD);
    out.append(raw_requirements);
    out.append(FEATURES_AFTER_REQUIREMENTS);
    match prd_content {
        Some(prd) => {
            out.append(FEATURES_PRD_HEAD);
            out.append(prd);
            out.append(FEATURES_PRD_TAIL);
        },
        None => {},
    }
    out.append(FEATURES_TAIL);
    out
}

fn list_feature(f: &ExtractedFeature) -> (r: String)
    ensures
        r@ == feature_item(f@),
{
    let mut out = String::from_str(FEATURE_NAME);
    out.append(f.name.as_str());
    out.append(FEATURE_DESCRIPTION);
    out.append(f.description.as_str());
    out.append(FEATURE_LAYER);
    match &f.layer {
        Some(l) => out.append(l.as_str()),
        None => out.append("fullstack"),
    }
    out
}

/// Asks for implementation tasks for the features.
pub fn tasks_question(features: &Vec<ExtractedFeature>) -> (r: String)
    ensures
        r@ == tasks_text(features.deep_view()),
{
    let mut items: Vec<String> = Vec::new();
    let ghost all = features.deep_view().map_values(|f: ExtractedFeatureView| feature_item(f));
    let mut i: usize = 0;
    while i < features.len()
        invariant
            i <= features.len(),
            all == features.deep_view().map_values(|f: ExtractedFeatureView| feature_item(f)),
            items.deep_view() == all.take(i as int),
        decreases features.len() - i,
    {
        let ghost before = items.deep_view();
        let item = list_feature(&features[i]);
        proof {
            assert(features.deep_view()[i as int] == features@[i as int]@);
            assert(item@ == all[i as int]);
        }
        items.push(item);
        proof {
            assert(items.deep_view() =~= before.push(all[i as int]));
            assert(all.take(i + 1) =~= all.take(i as int).push(all[i as int]));
        }
        i = i + 1;
    }
    proof {
        assert(all.take(features.len() as int) =~= all);
    }
    let listed = join(&items, "\n");
    let rules = get_all_rules();
    let mut out = String::from_str(TASKS_HEAD);
    out.append(rules.as_str());
    out.append(TASKS_FEATURES);
    out.append(listed.as_str());
    out.append(TASKS_TAIL);
    out
}

} // verus!
