//! Requirements analysis: reading what the advisor made of a project's
//! requirements, and planning the tasks that it generated.

use crate::arith::{rem_100, rem_toward_zero, wrap_i32, wrap_to_i32};
use crate::claude_api::{ClaudeApiError, ClaudeApiErrorView};
use crate::project_requirements::{
    AnalysisResult, AnalysisResultView, ExtractedFeature, ExtractedFeatureView, GenerationStatus,
};
use crate::store::{
    creation_writes, creations, out_of_turn, out_of_turn_message, StoreWrite, StoreWriteView,
};
use crate::task::{CreateTask, CreateTaskView, TaskLayer, TaskType};
use crate::text::{lowercase, to_lowercase};
use vstd::prelude::*;
use vstd::string::*;

verus! {

/// Why requirements could not be analysed.
#[derive(Debug, PartialEq, Eq)]
pub enum RequirementsAnalyzerError {
    /// The store failed; the text is its message.
    Database(String),
    ClaudeApi(ClaudeApiError),
    NotFound,
    AlreadyInProgress,
}

/// The mathematical value of a [`RequirementsAnalyzerError`].
#[verifier::ext_equal]
pub enum RequirementsAnalyzerErrorView {
    Database(Seq<char>),
    ClaudeApi(ClaudeApiErrorView),
    NotFound,
    AlreadyInProgress,
}

impl RequirementsAnalyzerErrorView {
    /// The error as a line of text.
    pub open spec fn message(self) -> Seq<char> {
        match self {
            RequirementsAnalyzerErrorView::Database(m) => "database error: "@ + m,
            RequirementsAnalyzerErrorView::ClaudeApi(e) => "advisor api error: "@ + e.message(),
            RequirementsAnalyzerErrorView::NotFound => "requirements not found"@,
            RequirementsAnalyzerErrorView::AlreadyInProgress => "analysis already in progress"@,
        }
    }
}

impl DeepView for RequirementsAnalyzerError {
    type V = RequirementsAnalyzerErrorView;

    open spec fn deep_view(&self) -> RequirementsAnalyzerErrorView {
        match self {
            RequirementsAnalyzerError::Database(m) => RequirementsAnalyzerErrorView::Database(m@),
            RequirementsAnalyzerError::ClaudeApi(e) => RequirementsAnalyzerErrorView::ClaudeApi(e@),
            RequirementsAnalyzerError::NotFound => RequirementsAnalyzerErrorView::NotFound,
            RequirementsAnalyzerError::AlreadyInProgress => RequirementsAnalyzerErrorView::AlreadyInProgress,
        }
    }
}

impl View for RequirementsAnalyzerError {
    type V = RequirementsAnalyzerErrorView;

    open spec fn view(&self) -> RequirementsAnalyzerErrorView {
        self.deep_view()
    }
}

impl RequirementsAnalyzerError {
    /// The error as a line of text.
    pub fn message(&self) -> (r: String)
        ensures
            r@ == self@.message(),
    {
        match self {
            RequirementsAnalyzerError::Database(m) => String::from_str("database error: ").concat(
                m.as_str(),
            ),
            RequirementsAnalyzerError::ClaudeApi(e) => {
                let inner = e.message();
                String::from_str("advisor api error: ").concat(inner.as_str())
            },
            RequirementsAnalyzerError::NotFound => String::from_str("requirements not found"),
            RequirementsAnalyzerError::AlreadyInProgress => String::from_str(
                "analysis already in progress",
            ),
        }
    }
}

/// The layer that a text names, whatever its case.
pub fn parse_layer(s: &str) -> (r: Option<TaskLayer>)
    ensures
        r == TaskLayer::from_name(lowercase(s@)),
{
    let lower = to_lowercase(s);
    TaskLayer::parse(lower.as_str())
}

/// The task type that a text names, whatever its case.
pub fn parse_task_type(s: &str) -> (r: Option<TaskType>)
    ensures
        r == TaskType::from_name(lowercase(s@)),
{
    let lower = to_lowercase(s);
    TaskType::parse(lower.as_str())
}

/// Where the sequence numbers of a task type begin: architecture at 0,
/// implementation (and tasks of no type) at 100, integration at 900.
pub open spec fn sequence_base(task_type: Option<TaskType>) -> int {
    match task_type {
        Some(TaskType::Architecture) => 0,
        Some(TaskType::Implementation) => 100,
        Some(TaskType::Integration) => 900,
        None => 100,
    }
}

/// The sequence number of the task at `task_index`: the base of its type
/// plus the index, as a 32-bit integer, modulo one hundred.
pub open spec fn sequence_for(task_type: Option<TaskType>, task_index: int) -> int {
    sequence_base(task_type) + rem_toward_zero(wrap_i32(task_index), 100)
}

/// Calculate sequence number based on task type to ensure proper ordering.
pub fn calculate_sequence(task_type: &Option<TaskType>, task_index: usize) -> (r: i32)
    ensures
        r == sequence_for(*task_type, task_index as int),
        task_index < 100 ==> r == sequence_base(*task_type) + task_index,
{
    let base: i32 = match task_type {
        Some(TaskType::Architecture) => 0,
        Some(TaskType::Implementation) => 100,
        Some(TaskType::Integration) => 900,
        None => 100,
    };
    let index = wrap_to_i32(task_index as i128);
    proof {
        if task_index < 100 {
            crate::arith::lemma_wrap_in_range(task_index as int);
        }
    }
    base + rem_100(index)
}

/// A task as the advisor generated it.
#[derive(Debug, PartialEq, Eq)]
pub struct GeneratedTask {
    pub title: String,
    pub description: String,
    pub layer: Option<String>,
    pub task_type: Option<String>,
    pub testing_criteria: Option<String>,
    pub files_to_modify: Option<Vec<String>>,
    pub post_task_actions: Option<String>,
}

/// The mathematical value of a [`GeneratedTask`].
#[verifier::ext_equal]
pub struct GeneratedTaskView {
    pub title: Seq<char>,
    pub description: Seq<char>,
    pub layer: Option<Seq<char>>,
    pub task_type: Option<Seq<char>>,
    pub testing_criteria: Option<Seq<char>>,
    pub files_to_modify: Option<Seq<Seq<char>>>,
    pub post_task_actions: Option<Seq<char>>,
}

impl DeepView for GeneratedTask {
    type V = GeneratedTaskView;

    open spec fn deep_view(&self) -> GeneratedTaskView {
        GeneratedTaskView {
            title: self.title@,
            description: self.description@,
            layer: self.layer.deep_view(),
            task_type: self.task_type.deep_view(),
            testing_criteria: self.testing_criteria.deep_view(),
            files_to_modify: self.files_to_modify.deep_view(),
            post_task_actions: self.post_task_actions.deep_view(),
        }
    }
}

impl View for GeneratedTask {
    type V = GeneratedTaskView;

    open spec fn view(&self) -> GeneratedTaskView {
        self.deep_view()
    }
}

/// The layer of a generated task, if it names one.
pub open spec fn generated_layer(name: Option<Seq<char>>) -> Option<TaskLayer> {
    match name {
        Some(n) => TaskLayer::from_name(lowercase(n)),
        None => None,
    }
}

/// The type of a generated task, if it names one.
pub open spec fn generated_type(name: Option<Seq<char>>) -> Option<TaskType> {
    match name {
        Some(n) => TaskType::from_name(lowercase(n)),
        None => None,
    }
}

/// The task to create for the generated task at `index`.
pub open spec fn generated(project_id: u128, task: GeneratedTaskView, index: int) -> CreateTaskView {
    CreateTaskView::ai_generated(
        project_id,
        task.title,
        Some(task.description),
        generated_layer(task.layer),
        generated_type(task.task_type),
        sequence_for(generated_type(task.task_type), index) as i32,
        task.testing_criteria,
        task.post_task_actions,
    )
}

/// One task to create for each generated task, in order.
pub open spec fn generated_tasks(project_id: u128, tasks: Seq<GeneratedTaskView>) -> Seq<
    CreateTaskView,
> {
    Seq::new(tasks.len(), |i: int| generated(project_id, tasks[i], i))
}

/// An extracted feature as the advisor answered it.
pub open spec fn analysis_of(features: Seq<ExtractedFeatureView>, summary: Option<Seq<char>>) -> AnalysisResultView {
    AnalysisResultView { features, summary }
}

/// What follows a failed phase of the pipeline: the status and the error
/// message to store.
pub open spec fn failure_record(error: RequirementsAnalyzerErrorView) -> (
    GenerationStatus,
    Option<Seq<char>>,
) {
    (GenerationStatus::Failed, Some(error.message()))
}

/// Analyses requirements and plans the tasks that come of them.
#[derive(Debug, PartialEq, Eq)]
pub struct RequirementsAnalyzer {}

impl RequirementsAnalyzer {
    /// Phase 2: plans the tasks to create from the generated ones.
    pub fn generate_tasks_from_features(project_id: u128, tasks: &Vec<GeneratedTask>) -> (r: Vec<
        CreateTask,
    >)
        ensures
            r.deep_view() == generated_tasks(project_id, tasks.deep_view()),
    {
        let mut out: Vec<CreateTask> = Vec::new();
        let mut i: usize = 0;
        while i < tasks.len()
            invariant
                i <= tasks.len(),
                out.deep_view() == generated_tasks(project_id, tasks.deep_view()).take(i as int),
            decreases tasks.len() - i,
        {
            let t = &tasks[i];
            let ghost before = out.deep_view();
            let layer = match &t.layer {
                Some(l) => parse_layer(l.as_str()),
                None => None,
            };
            let task_type = match &t.task_type {
                Some(k) => parse_task_type(k.as_str()),
                None => None,
            };
            let sequence = calculate_sequence(&task_type, i);
            let create = CreateTask::ai_generated(
                project_id,
                t.title.clone(),
                Some(t.description.clone()),
                layer,
                task_type,
                sequence,
                t.testing_criteria.clone(),
                t.post_task_actions.clone(),
            );
            proof {
                assert(tasks.deep_view()[i as int] == t@);
                assert(create@ == generated(project_id, t@, i as int));
            }
            out.push(create);
            proof {
                let all = generated_tasks(project_id, tasks.deep_view());
                assert(out.deep_view() =~= before.push(all[i as int]));
                assert(all.take(i + 1) =~= all.take(i as int).push(all[i as int]));
            }
            i = i + 1;
        }
        proof {
            let all = generated_tasks(project_id, tasks.deep_view());
            assert(all.take(tasks.len() as int) =~= all);
        }
        out
    }

    /// Phase 1: the analysis result made of what the advisor extracted.
    pub fn analyze_requirements(features: Vec<ExtractedFeature>, summary: Option<String>) -> (r:
        AnalysisResult)
        ensures
            r@ == analysis_of(features.deep_view(), summary.deep_view()),
    {
        AnalysisResult { features, summary }
    }

    /// What is stored when a phase of the pipeline has failed.
    pub fn failure(error: &RequirementsAnalyzerError) -> (r: (GenerationStatus, Option<String>))
        ensures
            (r.0, r.1.deep_view()) == failure_record(error@),
    {
        (GenerationStatus::Failed, Some(error.message()))
    }
}


/// How the pipeline ends: with the number of tasks planned, or with the
/// reason for none.
pub type AnalysisOutcome = Result<usize, RequirementsAnalyzerError>;

/// The mathematical value of an [`AnalysisOutcome`].
pub type AnalysisOutcomeView = Result<usize, RequirementsAnalyzerErrorView>;

/// The mathematical value of an outcome.
pub open spec fn analysis_outcome_view(o: AnalysisOutcome) -> AnalysisOutcomeView {
    match o {
        Ok(n) => Ok(n),
        Err(e) => Err(e@),
    }
}

/// Where the pipeline stands: what it has asked for and is waiting on.
#[derive(Debug, PartialEq, Eq)]
pub enum AnalysisPhase {
    /// Waiting for the commit that marks the requirements as being analysed.
    MarkingAnalyzing,
    /// Waiting for the advisor to extract the features.
    Extracting,
    /// Waiting for the commit that stores the analysis.
    SavingAnalysis { features: Vec<ExtractedFeature> },
    /// Waiting for the advisor to generate the tasks.
    Generating,
    /// Waiting for the commit that creates the tasks.
    Creating { count: usize },
    /// Waiting for the commit that marks the requirements as completed.
    Completing { count: usize },
    /// Waiting for the commit that marks the requirements as failed.
    Failing { error: RequirementsAnalyzerError },
    /// The pipeline is over.
    Finished,
}

/// The mathematical value of an [`AnalysisPhase`].
#[verifier::ext_equal]
#[allow(inconsistent_fields)]
pub enum AnalysisPhaseView {
    MarkingAnalyzing,
    Extracting,
    SavingAnalysis { features: Seq<ExtractedFeatureView> },
    Generating,
    Creating { count: usize },
    Completing { count: usize },
    Failing { error: RequirementsAnalyzerErrorView },
    Finished,
}

impl DeepView for AnalysisPhase {
    type V = AnalysisPhaseView;

    open spec fn deep_view(&self) -> AnalysisPhaseView {
        match self {
            AnalysisPhase::MarkingAnalyzing => AnalysisPhaseView::MarkingAnalyzing,
            AnalysisPhase::Extracting => AnalysisPhaseView::Extracting,
            AnalysisPhase::SavingAnalysis { features } => AnalysisPhaseView::SavingAnalysis {
                features: features.deep_view(),
            },
            AnalysisPhase::Generating => AnalysisPhaseView::Generating,
            AnalysisPhase::Creating { count } => AnalysisPhaseView::Creating { count: *count },
            AnalysisPhase::Completing { count } => AnalysisPhaseView::Completing { count: *count },
            AnalysisPhase::Failing { error } => AnalysisPhaseView::Failing { error: error@ },
            AnalysisPhase::Finished => AnalysisPhaseView::Finished,
        }
    }
}

impl View for AnalysisPhase {
    type V = AnalysisPhaseView;

    open spec fn view(&self) -> AnalysisPhaseView {
        self.deep_view()
    }
}

/// The state of the pipeline for one set of requirements.
#[derive(Debug, PartialEq, Eq)]
pub struct AnalysisState {
    pub requirements_id: u128,
    pub project_id: u128,
    pub phase: AnalysisPhase,
}

/// The mathematical value of an [`AnalysisState`].
#[verifier::ext_equal]
pub struct AnalysisStateView {
    pub requirements_id: u128,
    pub project_id: u128,
    pub phase: AnalysisPhaseView,
}

impl DeepView for AnalysisState {
    type V = AnalysisStateView;

    open spec fn deep_view(&self) -> AnalysisStateView {
        AnalysisStateView {
            requirements_id: self.requirements_id,
            project_id: self.project_id,
            phase: self.phase@,
        }
    }
}

impl View for AnalysisState {
    type V = AnalysisStateView;

    open spec fn view(&self) -> AnalysisStateView {
        self.deep_view()
    }
}

/// What the store or the advisor answered.
#[derive(Debug, PartialEq, Eq)]
pub enum AnalysisEvent {
    /// Every write of the commit was carried out.
    Committed,
    /// The store failed; the text is its message.
    StoreFailed(String),
    /// The features that the advisor extracted, or why it extracted none.
    Features(Result<AnalysisResult, ClaudeApiError>),
    /// The tasks that the advisor generated, or why it generated none.
    Tasks(Result<Vec<GeneratedTask>, ClaudeApiError>),
}

/// The mathematical value of an [`AnalysisEvent`].
#[verifier::ext_equal]
pub enum AnalysisEventView {
    Committed,
    StoreFailed(Seq<char>),
    Features(Result<AnalysisResultView, ClaudeApiErrorView>),
    Tasks(Result<Seq<GeneratedTaskView>, ClaudeApiErrorView>),
}

impl DeepView for AnalysisEvent {
    type V = AnalysisEventView;

    open spec fn deep_view(&self) -> AnalysisEventView {
        match self {
            AnalysisEvent::Committed => AnalysisEventView::Committed,
            AnalysisEvent::StoreFailed(m) => AnalysisEventView::StoreFailed(m@),
            AnalysisEvent::Features(r) => AnalysisEventView::Features(
                match r {
                    Ok(a) => Ok(a@),
                    Err(e) => Err(e@),
                },
            ),
            AnalysisEvent::Tasks(r) => AnalysisEventView::Tasks(
                match r {
                    Ok(t) => Ok(t.deep_view()),
                    Err(e) => Err(e@),
                },
            ),
        }
    }
}

impl View for AnalysisEvent {
    type V = AnalysisEventView;

    open spec fn view(&self) -> AnalysisEventView {
        self.deep_view()
    }
}

/// What the pipeline asks for next.
#[derive(Debug, PartialEq, Eq)]
pub enum AnalysisCommand {
    /// Carry out the writes in order.
    Commit { writes: Vec<StoreWrite> },
    /// Ask the advisor to extract the features of the requirements.
    AskFeatures,
    /// Ask the advisor to generate tasks for the features.
    AskTasks { features: Vec<ExtractedFeature> },
    /// The pipeline is over, with this outcome.
    Finish(AnalysisOutcome),
}

/// The mathematical value of an [`AnalysisCommand`].
#[verifier::ext_equal]
pub enum AnalysisCommandView {
    Commit { writes: Seq<StoreWriteView> },
    AskFeatures,
    AskTasks { features: Seq<ExtractedFeatureView> },
    Finish(AnalysisOutcomeView),
}

impl DeepView for AnalysisCommand {
    type V = AnalysisCommandView;

    open spec fn deep_view(&self) -> AnalysisCommandView {
        match self {
            AnalysisCommand::Commit { writes } => AnalysisCommandView::Commit {
                writes: writes.deep_view(),
            },
            AnalysisCommand::AskFeatures => AnalysisCommandView::AskFeatures,
            AnalysisCommand::AskTasks { features } => AnalysisCommandView::AskTasks {
                features: features.deep_view(),
            },
            AnalysisCommand::Finish(outcome) => AnalysisCommandView::Finish(
                analysis_outcome_view(*outcome),
            ),
        }
    }
}

impl View for AnalysisCommand {
    type V = AnalysisCommandView;

    open spec fn view(&self) -> AnalysisCommandView {
        self.deep_view()
    }
}

/// The write that sets how far the analysis has come.
pub open spec fn mark(requirements_id: u128, status: GenerationStatus, error_message: Option<
    Seq<char>,
>) -> StoreWriteView {
    StoreWriteView::SetGenerationStatus { requirements_id, status, error_message }
}

/// The state and the command with which the pipeline ends.
pub open spec fn finish(s: AnalysisStateView, outcome: AnalysisOutcomeView) -> (
    AnalysisStateView,
    AnalysisCommandView,
) {
    (AnalysisStateView { phase: AnalysisPhaseView::Finished, ..s }, AnalysisCommandView::Finish(outcome))
}

/// A phase has failed: the requirements are marked as failed with the
/// message of the error, and the pipeline then ends with the error.
pub open spec fn fail(s: AnalysisStateView, error: RequirementsAnalyzerErrorView) -> (
    AnalysisStateView,
    AnalysisCommandView,
) {
    (
        AnalysisStateView { phase: AnalysisPhaseView::Failing { error }, ..s },
        AnalysisCommandView::Commit {
            writes: seq![mark(s.requirements_id, GenerationStatus::Failed, Some(error.message()))],
        },
    )
}

/// `event` answers what a pipeline in `phase` is waiting on.
pub open spec fn expects(phase: AnalysisPhaseView, event: AnalysisEventView) -> bool {
    match phase {
        AnalysisPhaseView::Extracting => event is Features,
        AnalysisPhaseView::Generating => event is Tasks,
        AnalysisPhaseView::Finished => false,
        _ => event is Committed || event is StoreFailed,
    }
}

/// The end of a pipeline that is handed an answer to something that it
/// did not ask.
pub open spec fn unexpected(s: AnalysisStateView) -> (AnalysisStateView, AnalysisCommandView) {
    finish(s, Err(RequirementsAnalyzerErrorView::Database(out_of_turn())))
}

/// The pipeline after a commit went through.
pub open spec fn on_committed(s: AnalysisStateView) -> (AnalysisStateView, AnalysisCommandView) {
    match s.phase {
        AnalysisPhaseView::MarkingAnalyzing => (
            AnalysisStateView { phase: AnalysisPhaseView::Extracting, ..s },
            AnalysisCommandView::AskFeatures,
        ),
        AnalysisPhaseView::SavingAnalysis { features } => (
            AnalysisStateView { phase: AnalysisPhaseView::Generating, ..s },
            AnalysisCommandView::AskTasks { features },
        ),
        AnalysisPhaseView::Creating { count } => (
            AnalysisStateView { phase: AnalysisPhaseView::Completing { count }, ..s },
            AnalysisCommandView::Commit {
                writes: seq![mark(s.requirements_id, GenerationStatus::Completed, None)],
            },
        ),
        AnalysisPhaseView::Completing { count } => finish(s, Ok(count)),
        AnalysisPhaseView::Failing { error } => finish(s, Err(error)),
        _ => unexpected(s),
    }
}

/// One step of the pipeline: analysing, then generating, then completed;
/// a phase that fails marks the requirements as failed. A failure of the
/// store while the tasks are created is such a failure; any other failure
/// of the store ends the pipeline at once, and so does an answer to
/// something that was not asked.
pub open spec fn analysis_step(s: AnalysisStateView, event: AnalysisEventView) -> (
    AnalysisStateView,
    AnalysisCommandView,
) {
    match event {
        AnalysisEventView::Committed => on_committed(s),
        AnalysisEventView::StoreFailed(m) => if s.phase is Creating {
            fail(s, RequirementsAnalyzerErrorView::Database(m))
        } else {
            finish(s, Err(RequirementsAnalyzerErrorView::Database(m)))
        },
        AnalysisEventView::Features(answer) => if !(s.phase is Extracting) {
            unexpected(s)
        } else {
            match answer {
                Err(e) => fail(s, RequirementsAnalyzerErrorView::ClaudeApi(e)),
                Ok(analysis) => (
                    AnalysisStateView {
                        phase: AnalysisPhaseView::SavingAnalysis { features: analysis.features },
                        ..s
                    },
                    AnalysisCommandView::Commit {
                        writes: seq![
                            StoreWriteView::SaveAnalysis {
                                requirements_id: s.requirements_id,
                                analysis,
                            },
                            mark(s.requirements_id, GenerationStatus::Generating, None),
                        ],
                    },
                ),
            }
        },
        AnalysisEventView::Tasks(answer) => if !(s.phase is Generating) {
            unexpected(s)
        } else {
            match answer {
                Err(e) => fail(s, RequirementsAnalyzerErrorView::ClaudeApi(e)),
                Ok(tasks) => (
                    AnalysisStateView {
                        phase: AnalysisPhaseView::Creating { count: tasks.len() as usize },
                        ..s
                    },
                    AnalysisCommandView::Commit {
                        writes: creations(generated_tasks(s.project_id, tasks)),
                    },
                ),
            }
        },
    }
}

fn one(write: StoreWrite) -> (r: Vec<StoreWrite>)
    ensures
        r.deep_view() == seq![write@],
{
    let mut out: Vec<StoreWrite> = Vec::new();
    out.push(write);
    proof {
        assert(out.deep_view() =~= seq![write@]);
    }
    out
}

fn finished(
    Ghost(s): Ghost<AnalysisStateView>,
    requirements_id: u128,
    project_id: u128,
    outcome: AnalysisOutcome,
) -> (r: (AnalysisState, AnalysisCommand))
    requires
        s.requirements_id == requirements_id,
        s.project_id == project_id,
    ensures
        (r.0@, r.1@) == finish(s, analysis_outcome_view(outcome)),
{
    (
        AnalysisState { requirements_id, project_id, phase: AnalysisPhase::Finished },
        AnalysisCommand::Finish(outcome),
    )
}

fn failed(
    Ghost(s): Ghost<AnalysisStateView>,
    requirements_id: u128,
    project_id: u128,
    error: RequirementsAnalyzerError,
) -> (r: (AnalysisState, AnalysisCommand))
    requires
        s.requirements_id == requirements_id,
        s.project_id == project_id,
    ensures
        (r.0@, r.1@) == fail(s, error@),
{
    let writes = one(
        StoreWrite::SetGenerationStatus {
            requirements_id,
            status: GenerationStatus::Failed,
            error_message: Some(error.message()),
        },
    );
    (
        AnalysisState { requirements_id, project_id, phase: AnalysisPhase::Failing { error } },
        AnalysisCommand::Commit { writes },
    )
}

impl AnalysisState {
    /// Whether `event` answers what the pipeline is waiting on.
    pub fn expects(&self, event: &AnalysisEvent) -> (r: bool)
        ensures
            r == expects(self@.phase, event@),
    {
        match &self.phase {
            AnalysisPhase::Extracting => matches!(event, AnalysisEvent::Features(_)),
            AnalysisPhase::Generating => matches!(event, AnalysisEvent::Tasks(_)),
            AnalysisPhase::Finished => false,
            _ => matches!(event, AnalysisEvent::Committed | AnalysisEvent::StoreFailed(_)),
        }
    }

    /// Whether the pipeline is over.
    pub fn is_finished(&self) -> (r: bool)
        ensures
            r == (self@.phase is Finished),
    {
        matches!(self.phase, AnalysisPhase::Finished)
    }
}

impl RequirementsAnalyzer {
    /// Begins the pipeline for requirements that were just stored: they
    /// are marked as being analysed; `run_analysis` takes it on from there.
    pub fn create_and_analyze(requirements_id: u128, project_id: u128) -> (r: (
        AnalysisState,
        AnalysisCommand,
    ))
        ensures
            r.0@ == (AnalysisStateView {
                requirements_id,
                project_id,
                phase: AnalysisPhaseView::MarkingAnalyzing,
            }),
            r.1@ == (AnalysisCommandView::Commit {
                writes: seq![mark(requirements_id, GenerationStatus::Analyzing, None)],
            }),
    {
        let writes = one(
            StoreWrite::SetGenerationStatus {
                requirements_id,
                status: GenerationStatus::Analyzing,
                error_message: None,
            },
        );
        (
            AnalysisState { requirements_id, project_id, phase: AnalysisPhase::MarkingAnalyzing },
            AnalysisCommand::Commit { writes },
        )
    }

    /// Takes the pipeline one step on: given the answer to what it asked
    /// last, says what it asks next.
    pub fn run_analysis(state: AnalysisState, event: AnalysisEvent) -> (r: (
        AnalysisState,
        AnalysisCommand,
    ))
        ensures
            (r.0@, r.1@) == analysis_step(state@, event@),
    {
        let ghost s = state@;
        let AnalysisState { requirements_id, project_id, phase } = state;
        match event {
            AnalysisEvent::Committed => match phase {
                AnalysisPhase::MarkingAnalyzing => (
                    AnalysisState { requirements_id, project_id, phase: AnalysisPhase::Extracting },
                    AnalysisCommand::AskFeatures,
                ),
                AnalysisPhase::SavingAnalysis { features } => (
                    AnalysisState { requirements_id, project_id, phase: AnalysisPhase::Generating },
                    AnalysisCommand::AskTasks { features },
                ),
                AnalysisPhase::Creating { count } => {
                    let writes = one(
                        StoreWrite::SetGenerationStatus {
                            requirements_id,
                            status: GenerationStatus::Completed,
                            error_message: None,
                        },
                    );
                    (
                        AnalysisState {
                            requirements_id,
                            project_id,
                            phase: AnalysisPhase::Completing { count },
                        },
                        AnalysisCommand::Commit { writes },
                    )
                },
                AnalysisPhase::Completing { count } => finished(
                    Ghost(s),
                    requirements_id,
                    project_id,
                    Ok(count),
                ),
                AnalysisPhase::Failing { error } => finished(
                    Ghost(s),
                    requirements_id,
                    project_id,
                    Err(error),
                ),
                _ => finished(
                    Ghost(s),
                    requirements_id,
                    project_id,
                    Err(RequirementsAnalyzerError::Database(out_of_turn_message())),
                ),
            },
            AnalysisEvent::StoreFailed(m) => {
                if matches!(phase, AnalysisPhase::Creating { .. }) {
                    failed(
                        Ghost(s),
                        requirements_id,
                        project_id,
                        RequirementsAnalyzerError::Database(m),
                    )
                } else {
                    finished(
                        Ghost(s),
                        requirements_id,
                        project_id,
                        Err(RequirementsAnalyzerError::Database(m)),
                    )
                }
            },
            AnalysisEvent::Features(answer) => {
                if !matches!(phase, AnalysisPhase::Extracting) {
                    return finished(
                        Ghost(s),
                        requirements_id,
                        project_id,
                        Err(RequirementsAnalyzerError::Database(out_of_turn_message())),
                    );
                }
                match answer {
                    Err(e) => failed(
                        Ghost(s),
                        requirements_id,
                        project_id,
                        RequirementsAnalyzerError::ClaudeApi(e),
                    ),
                    Ok(analysis) => {
                        let kept = analysis.clone();
                        let mut writes: Vec<StoreWrite> = Vec::new();
                        writes.push(StoreWrite::SaveAnalysis { requirements_id, analysis });
                        writes.push(
                            StoreWrite::SetGenerationStatus {
                                requirements_id,
                                status: GenerationStatus::Generating,
                                error_message: None,
                            },
                        );
                        proof {
                            assert(writes.deep_view() =~= seq![
                                StoreWriteView::SaveAnalysis {
                                    requirements_id,
                                    analysis: analysis@,
                                },
                                mark(requirements_id, GenerationStatus::Generating, None),
                            ]);
                        }
                        (
                            AnalysisState {
                                requirements_id,
                                project_id,
                                phase: AnalysisPhase::SavingAnalysis { features: kept.features },
                            },
                            AnalysisCommand::Commit { writes },
                        )
                    },
                }
            },
            AnalysisEvent::Tasks(answer) => {
                if !matches!(phase, AnalysisPhase::Generating) {
                    return finished(
                        Ghost(s),
                        requirements_id,
                        project_id,
                        Err(RequirementsAnalyzerError::Database(out_of_turn_message())),
                    );
                }
                match answer {
                    Err(e) => failed(
                        Ghost(s),
                        requirements_id,
                        project_id,
                        RequirementsAnalyzerError::ClaudeApi(e),
                    ),
                    Ok(tasks) => {
                        let count = tasks.len();
                        proof {
                            assert(tasks.deep_view().len() == count);
                        }
                        let planned = Self::generate_tasks_from_features(project_id, &tasks);
                        let writes = creation_writes(planned);
                        (
                            AnalysisState {
                                requirements_id,
                                project_id,
                                phase: AnalysisPhase::Creating { count },
                            },
                            AnalysisCommand::Commit { writes },
                        )
                    },
                }
            },
        }
    }
}


/// An answer to something that the pipeline did not ask ends the
/// pipeline, unless it reports a failure of the store, which ends it in
/// any phase.
pub proof fn lemma_out_of_turn(s: AnalysisStateView, event: AnalysisEventView)
    requires
        !expects(s.phase, event),
    ensures
        analysis_step(s, event) == if event is StoreFailed {
            finish(s, Err(RequirementsAnalyzerErrorView::Database(event->StoreFailed_0)))
        } else {
            unexpected(s)
        },
{
}

} // verus!
