//! Breaking a task down into subtasks: by layer for a full-stack task, by
//! the advisor's suggestions for a complex or a conflicting one.
//!
//! Every subtask names its parent and is barred from further breakdown, so
//! that breakdown never recurses.

use crate::arith::{wrap_i32, wrap_to_i32};
use crate::task::{CreateTask, CreateTaskView, Task, TaskLayer, TaskView};
use crate::text::{lowercase, to_lowercase};
use vstd::prelude::*;
use vstd::string::*;

verus! {

/// A subtask as the advisor suggests it.
#[derive(Debug, PartialEq, Eq)]
pub struct SubtaskSuggestion {
    pub title: String,
    pub description: String,
    pub layer: Option<String>,
}

/// The mathematical value of a [`SubtaskSuggestion`].
#[verifier::ext_equal]
pub struct SubtaskSuggestionView {
    pub title: Seq<char>,
    pub description: Seq<char>,
    pub layer: Option<Seq<char>>,
}

impl DeepView for SubtaskSuggestion {
    type V = SubtaskSuggestionView;

    open spec fn deep_view(&self) -> SubtaskSuggestionView {
        SubtaskSuggestionView {
            title: self.title@,
            description: self.description@,
            layer: self.layer.deep_view(),
        }
    }
}

impl View for SubtaskSuggestion {
    type V = SubtaskSuggestionView;

    open spec fn view(&self) -> SubtaskSuggestionView {
        self.deep_view()
    }
}

/// The advisor's answer to a question about a task's complexity.
#[derive(Debug, PartialEq, Eq)]
pub struct ComplexityAnalysisResponse {
    pub complexity_score: i32,
    pub can_be_broken_down: bool,
    pub reasoning: String,
    pub subtasks: Option<Vec<SubtaskSuggestion>>,
}

/// The mathematical value of a [`ComplexityAnalysisResponse`].
#[verifier::ext_equal]
pub struct ComplexityAnalysisResponseView {
    pub complexity_score: i32,
    pub can_be_broken_down: bool,
    pub reasoning: Seq<char>,
    pub subtasks: Option<Seq<SubtaskSuggestionView>>,
}

impl DeepView for ComplexityAnalysisResponse {
    type V = ComplexityAnalysisResponseView;

    open spec fn deep_view(&self) -> ComplexityAnalysisResponseView {
        ComplexityAnalysisResponseView {
            complexity_score: self.complexity_score,
            can_be_broken_down: self.can_be_broken_down,
            reasoning: self.reasoning@,
            subtasks: self.subtasks.deep_view(),
        }
    }
}

impl View for ComplexityAnalysisResponse {
    type V = ComplexityAnalysisResponseView;

    open spec fn view(&self) -> ComplexityAnalysisResponseView {
        self.deep_view()
    }
}

/// The advisor's answer to a request to split a conflicting task.
#[derive(Debug, PartialEq, Eq)]
pub struct ConflictBreakdownResponse {
    pub subtasks: Vec<SubtaskSuggestion>,
    pub reasoning: String,
}

/// The mathematical value of a [`ConflictBreakdownResponse`].
#[verifier::ext_equal]
pub struct ConflictBreakdownResponseView {
    pub subtasks: Seq<SubtaskSuggestionView>,
    pub reasoning: Seq<char>,
}

impl DeepView for ConflictBreakdownResponse {
    type V = ConflictBreakdownResponseView;

    open spec fn deep_view(&self) -> ConflictBreakdownResponseView {
        ConflictBreakdownResponseView {
            subtasks: self.subtasks.deep_view(),
            reasoning: self.reasoning@,
        }
    }
}

impl View for ConflictBreakdownResponse {
    type V = ConflictBreakdownResponseView;

    open spec fn view(&self) -> ConflictBreakdownResponseView {
        self.deep_view()
    }
}

/// The least complexity score at which a task is broken down.
pub const BREAKDOWN_THRESHOLD: i32 = 7;

/// The least number of suggestions that make a breakdown.
pub const MIN_SUBTASKS: usize = 2;

impl ComplexityAnalysisResponseView {
    /// The suggestions of the answer; none where it gives no list.
    pub open spec fn suggestions(self) -> Seq<SubtaskSuggestionView> {
        match self.subtasks {
            Some(s) => s,
            None => Seq::empty(),
        }
    }

    /// The answer calls for a breakdown: the score reaches the threshold,
    /// the task can be broken down, and enough subtasks are suggested.
    pub open spec fn should_break_down(self) -> bool {
        self.complexity_score >= BREAKDOWN_THRESHOLD && self.can_be_broken_down
            && self.suggestions().len() >= MIN_SUBTASKS
    }
}

impl ComplexityAnalysisResponse {
    /// Whether the answer calls for a breakdown.
    pub fn should_break_down(&self) -> (r: bool)
        ensures
            r == self@.should_break_down(),
    {
        let n = match &self.subtasks {
            Some(s) => {
                assert(s.deep_view().len() == s@.len());
                s.len()
            },
            None => 0,
        };
        self.complexity_score >= BREAKDOWN_THRESHOLD && self.can_be_broken_down && n
            >= MIN_SUBTASKS
    }
}

/// The layer of a subtask: the one that the suggestion names, else the
/// parent's.
pub open spec fn suggested_layer(parent: Option<TaskLayer>, name: Option<Seq<char>>) -> Option<
    TaskLayer,
> {
    match name {
        Some(n) => match TaskLayer::from_name(n) {
            Some(l) => Some(l),
            None => parent,
        },
        None => parent,
    }
}

/// The sequence number from which those of the subtasks are counted.
pub open spec fn base_sequence(parent: TaskView) -> int {
    match parent.sequence {
        Some(n) => n as int,
        None => 0,
    }
}

/// The sequence number of the subtask at `index`: ten times the parent's
/// plus the index, in 32-bit arithmetic.
pub open spec fn subtask_sequence(parent: TaskView, index: int) -> i32 {
    wrap_i32(base_sequence(parent) * 10 + index) as i32
}

/// A layer name in lower case.
pub open spec fn lowered(name: Option<Seq<char>>) -> Option<Seq<char>> {
    match name {
        Some(n) => Some(lowercase(n)),
        None => None,
    }
}

/// The subtask made of the suggestion at `index`, in the given layer: it
/// inherits type and testing criteria, names the parent, and is barred
/// from breakdown.
pub open spec fn subtask_in(
    parent: TaskView,
    s: SubtaskSuggestionView,
    index: int,
    layer: Option<TaskLayer>,
) -> CreateTaskView {
    CreateTaskView::subtask_of(
        parent.project_id,
        s.title,
        Some(s.description),
        layer,
        parent.task_type,
        subtask_sequence(parent, index),
        parent.testing_criteria,
        None,
        parent.id,
    )
}

/// The subtask made of the suggestion at `index`; the layer is read from
/// its exact name.
pub open spec fn subtask(parent: TaskView, s: SubtaskSuggestionView, index: int) -> CreateTaskView {
    subtask_in(parent, s, index, suggested_layer(parent.layer, s.layer))
}

/// One subtask for each suggestion, in order.
pub open spec fn subtasks(parent: TaskView, suggestions: Seq<SubtaskSuggestionView>) -> Seq<
    CreateTaskView,
> {
    Seq::new(suggestions.len(), |i: int| subtask(parent, suggestions[i], i))
}

/// The subtask of a conflicting task made of the suggestion at `index`;
/// the layer is read from its name whatever the case.
pub open spec fn conflict_subtask(parent: TaskView, s: SubtaskSuggestionView, index: int) -> CreateTaskView {
    subtask_in(parent, s, index, suggested_layer(parent.layer, lowered(s.layer)))
}

/// One subtask of a conflicting task for each suggestion, in order.
pub open spec fn conflict_subtasks(parent: TaskView, suggestions: Seq<SubtaskSuggestionView>) -> Seq<
    CreateTaskView,
> {
    Seq::new(suggestions.len(), |i: int| conflict_subtask(parent, suggestions[i], i))
}

/// The title of the subtask of a full-stack task for the layer labelled
/// `label`.
pub open spec fn layer_title(parent: TaskView, label: Seq<char>) -> Seq<char> {
    parent.title + " - "@ + label + " Layer"@
}

/// The description of the subtask of a full-stack task for the layer
/// labelled `label`: the parent's, with a note on where it comes from.
pub open spec fn layer_description(parent: TaskView, label: Seq<char>) -> Option<Seq<char>> {
    match parent.description {
        Some(d) => Some(
            d + "\n\n[Auto-generated "@ + label + " layer subtask from Fullstack task]"@,
        ),
        None => None,
    }
}

/// The subtask of a full-stack task for one layer: it has the parent's
/// type, sequence and testing criteria, names the parent, and is barred
/// from breakdown.
pub open spec fn layer_subtask(parent: TaskView, layer: TaskLayer, label: Seq<char>) -> CreateTaskView {
    CreateTaskView {
        sequence: parent.sequence,
        ..CreateTaskView::subtask_of(
            parent.project_id,
            layer_title(parent, label),
            layer_description(parent, label),
            Some(layer),
            parent.task_type,
            0,
            parent.testing_criteria,
            None,
            parent.id,
        )
    }
}

/// The three subtasks that replace a full-stack task: data, backend,
/// frontend.
pub open spec fn fullstack_subtasks(parent: TaskView) -> Seq<CreateTaskView> {
    seq![
        layer_subtask(parent, TaskLayer::Data, "Data"@),
        layer_subtask(parent, TaskLayer::Backend, "Backend"@),
        layer_subtask(parent, TaskLayer::Frontend, "Frontend"@),
    ]
}

fn layer_of(parent: Option<TaskLayer>, name: &Option<String>, any_case: bool) -> (r: Option<
    TaskLayer,
>)
    ensures
        r == suggested_layer(
            parent,
            if any_case {
                lowered(name.deep_view())
            } else {
                name.deep_view()
            },
        ),
{
    match name {
        Some(n) => {
            let read = if any_case {
                let lower = to_lowercase(n.as_str());
                TaskLayer::parse(lower.as_str())
            } else {
                TaskLayer::parse(n.as_str())
            };
            match read {
                Some(l) => Some(l),
                None => parent,
            }
        },
        None => parent,
    }
}

fn base_of(parent: &Task) -> (r: i32)
    ensures
        r == base_sequence(parent@),
{
    match parent.sequence {
        Some(n) => n,
        None => 0,
    }
}

fn plan(parent: &Task, suggestions: &Vec<SubtaskSuggestion>, any_case: bool) -> (r: Vec<CreateTask>)
    ensures
        r.deep_view() == if any_case {
            conflict_subtasks(parent@, suggestions.deep_view())
        } else {
            subtasks(parent@, suggestions.deep_view())
        },
{
    let mut out: Vec<CreateTask> = Vec::new();
    let base = base_of(parent);
    let ghost all = if any_case {
        conflict_subtasks(parent@, suggestions.deep_view())
    } else {
        subtasks(parent@, suggestions.deep_view())
    };
    let mut i: usize = 0;
    while i < suggestions.len()
        invariant
            i <= suggestions.len(),
            base == base_sequence(parent@),
            all == if any_case {
                conflict_subtasks(parent@, suggestions.deep_view())
            } else {
                subtasks(parent@, suggestions.deep_view())
            },
            out.deep_view() == all.take(i as int),
        decreases suggestions.len() - i,
    {
        let s = &suggestions[i];
        let ghost before = out.deep_view();
        let sequence = wrap_to_i32((base as i128) * 10 + (i as i128));
        let create = CreateTask::subtask_of(
            parent.project_id,
            s.title.clone(),
            Some(s.description.clone()),
            layer_of(parent.layer, &s.layer, any_case),
            parent.task_type,
            sequence,
            parent.testing_criteria.clone(),
            None,
            parent.id,
        );
        proof {
            assert(suggestions.deep_view()[i as int] == s@);
            assert(create@ == all[i as int]);
        }
        out.push(create);
        proof {
            assert(out.deep_view() =~= before.push(all[i as int]));
            assert(all.take(i + 1) =~= all.take(i as int).push(all[i as int]));
        }
        i = i + 1;
    }
    proof {
        assert(all.take(suggestions.len() as int) =~= all);
    }
    out
}

/// Plans one subtask of `parent` for each suggestion.
pub fn plan_subtasks(parent: &Task, suggestions: &Vec<SubtaskSuggestion>) -> (r: Vec<CreateTask>)
    ensures
        r.deep_view() == subtasks(parent@, suggestions.deep_view()),
{
    plan(parent, suggestions, false)
}

/// Plans one subtask of a conflicting task for each suggestion.
pub fn plan_conflict_subtasks(parent: &Task, suggestions: &Vec<SubtaskSuggestion>) -> (r: Vec<
    CreateTask,
>)
    ensures
        r.deep_view() == conflict_subtasks(parent@, suggestions.deep_view()),
{
    plan(parent, suggestions, true)
}

fn plan_layer_subtask(parent: &Task, layer: TaskLayer, label: &str) -> (r: CreateTask)
    ensures
        r@ == layer_subtask(parent@, layer, label@),
{
    let mut title = parent.title.clone();
    title.append(" - ");
    title.append(label);
    title.append(" Layer");
    let description = match &parent.description {
        Some(d) => {
            let mut text = d.clone();
            text.append("\n\n[Auto-generated ");
            text.append(label);
            text.append(" layer subtask from Fullstack task]");
            Some(text)
        },
        None => None,
    };
    let mut planned = CreateTask::subtask_of(
        parent.project_id,
        title,
        description,
        Some(layer),
        parent.task_type,
        0,
        parent.testing_criteria.clone(),
        None,
        parent.id,
    );
    planned.sequence = parent.sequence;
    planned
}

/// Plans the three layer subtasks that replace a full-stack task.
pub fn plan_fullstack_subtasks(parent: &Task) -> (r: Vec<CreateTask>)
    ensures
        r.deep_view() == fullstack_subtasks(parent@),
{
    let mut out: Vec<CreateTask> = Vec::new();
    out.push(plan_layer_subtask(parent, TaskLayer::Data, "Data"));
    out.push(plan_layer_subtask(parent, TaskLayer::Backend, "Backend"));
    out.push(plan_layer_subtask(parent, TaskLayer::Frontend, "Frontend"));
    proof {
        assert(out.deep_view() =~= fullstack_subtasks(parent@));
    }
    out
}

/// Breakdown conservation: every planned subtask names the parent, is
/// barred from breakdown, is to do, and once created is never analysed
/// for complexity; there is one subtask for each suggestion.
pub proof fn lemma_subtasks_are_final(
    parent: TaskView,
    suggestions: Seq<SubtaskSuggestionView>,
    i: int,
    id: u128,
    now: i64,
)
    requires
        0 <= i < suggestions.len(),
    ensures
        conflict_subtasks(parent, suggestions).len() == suggestions.len(),
        conflict_subtasks(parent, suggestions)[i].parent_task_id == Some(parent.id),
        conflict_subtasks(parent, suggestions)[i].prevent_breakdown == Some(true),
        !conflict_subtasks(parent, suggestions)[i].created(id, now).needs_complexity_analysis(),
        subtasks(parent, suggestions).len() == suggestions.len(),
        subtasks(parent, suggestions)[i].parent_task_id == Some(parent.id),
        subtasks(parent, suggestions)[i].prevent_breakdown == Some(true),
        subtasks(parent, suggestions)[i].created(id, now).prevent_breakdown,
        subtasks(parent, suggestions)[i].created(id, now).parent_task_id == Some(parent.id),
        subtasks(parent, suggestions)[i].created(id, now).status == crate::task::TaskStatus::Todo,
        !subtasks(parent, suggestions)[i].created(id, now).needs_complexity_analysis(),
{
}

/// The sequence number of a subtask is ten times the parent's, or zero
/// where the parent has none, plus the subtask's index, wherever that
/// number is a 32-bit one.
pub proof fn lemma_subtask_sequence(
    parent: TaskView,
    suggestions: Seq<SubtaskSuggestionView>,
    i: int,
)
    requires
        0 <= i < suggestions.len(),
        i32::MIN <= base_sequence(parent) * 10 + i <= i32::MAX,
    ensures
        subtasks(parent, suggestions)[i].sequence == Some(
            (base_sequence(parent) * 10 + i) as i32,
        ),
        conflict_subtasks(parent, suggestions)[i].sequence == Some(
            (base_sequence(parent) * 10 + i) as i32,
        ),
{
    let n = base_sequence(parent) * 10 + i;
    assert(wrap_i32(n) == n);
}

/// The layer subtasks of a full-stack task are three, in the layers data,
/// backend and frontend; each names the parent and is barred from
/// breakdown.
pub proof fn lemma_fullstack_subtasks(parent: TaskView, i: int)
    requires
        0 <= i < 3,
    ensures
        fullstack_subtasks(parent).len() == 3,
        fullstack_subtasks(parent)[0].layer == Some(TaskLayer::Data),
        fullstack_subtasks(parent)[1].layer == Some(TaskLayer::Backend),
        fullstack_subtasks(parent)[2].layer == Some(TaskLayer::Frontend),
        fullstack_subtasks(parent)[i].parent_task_id == Some(parent.id),
        fullstack_subtasks(parent)[i].prevent_breakdown == Some(true),
        fullstack_subtasks(parent)[i].status == Some(crate::task::TaskStatus::Todo),
        fullstack_subtasks(parent)[i].task_type == parent.task_type,
        fullstack_subtasks(parent)[i].sequence == parent.sequence,
        fullstack_subtasks(parent)[i].testing_criteria == parent.testing_criteria,
        fullstack_subtasks(parent)[i].project_id == parent.project_id,
{
}

} // verus!
