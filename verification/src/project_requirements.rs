//! Requirements of a project and what analysis made of them.

use crate::text::str_eq;
use vstd::prelude::*;
use vstd::string::*;

verus! {

/// Status of requirements analysis and task generation.
#[derive(Debug, Clone, Copy, PartialEq, Eq, Structural)]
pub enum GenerationStatus {
    Pending,
    Analyzing,
    Generating,
    Completed,
    Failed,
}

impl GenerationStatus {
    /// The name under which the value is stored and shown.
    pub open spec fn name(self) -> Seq<char> {
        match self {
            GenerationStatus::Pending => "pending"@,
            GenerationStatus::Analyzing => "analyzing"@,
            GenerationStatus::Generating => "generating"@,
            GenerationStatus::Completed => "completed"@,
            GenerationStatus::Failed => "failed"@,
        }
    }

    /// The status whose name is exactly `name`.
    pub open spec fn from_name(name: Seq<char>) -> Option<GenerationStatus> {
        if name == "pending"@ {
            Some(GenerationStatus::Pending)
        } else if name == "analyzing"@ {
            Some(GenerationStatus::Analyzing)
        } else if name == "generating"@ {
            Some(GenerationStatus::Generating)
        } else if name == "completed"@ {
            Some(GenerationStatus::Completed)
        } else if name == "failed"@ {
            Some(GenerationStatus::Failed)
        } else {
            None
        }
    }

    /// The pipeline has come to rest: it completed or failed.
    pub open spec fn is_settled(self) -> bool {
        self == GenerationStatus::Completed || self == GenerationStatus::Failed
    }

    /// The name under which the value is stored and shown.
    pub fn as_str(&self) -> (r: &'static str)
        ensures
            r@ == self.name(),
    {
        match self {
            GenerationStatus::Pending => "pending",
            GenerationStatus::Analyzing => "analyzing",
            GenerationStatus::Generating => "generating",
            GenerationStatus::Completed => "completed",
            GenerationStatus::Failed => "failed",
        }
    }

    /// Reads the value from its exact name.
    pub fn parse(name: &str) -> (r: Option<GenerationStatus>)
        ensures
            r == GenerationStatus::from_name(name@),
    {
        if str_eq(name, "pending") {
            Some(GenerationStatus::Pending)
        } else if str_eq(name, "analyzing") {
            Some(GenerationStatus::Analyzing)
        } else if str_eq(name, "generating") {
            Some(GenerationStatus::Generating)
        } else if str_eq(name, "completed") {
            Some(GenerationStatus::Completed)
        } else if str_eq(name, "failed") {
            Some(GenerationStatus::Failed)
        } else {
            None
        }
    }

    /// Whether the pipeline has come to rest.
    pub fn settled(&self) -> (r: bool)
        ensures
            r == self.is_settled(),
    {
        matches!(self, GenerationStatus::Completed | GenerationStatus::Failed)
    }
}

impl Default for GenerationStatus {
    fn default() -> (r: Self)
        ensures
            r == GenerationStatus::Pending,
    {
        GenerationStatus::Pending
    }
}

/// A feature extracted from requirements analysis.
#[derive(Debug, PartialEq, Eq)]
pub struct ExtractedFeature {
    pub name: String,
    pub description: String,
    pub layer: Option<String>,
    pub priority: Option<i32>,
}

/// The mathematical value of an [`ExtractedFeature`].
#[verifier::ext_equal]
pub struct ExtractedFeatureView {
    pub name: Seq<char>,
    pub description: Seq<char>,
    pub layer: Option<Seq<char>>,
    pub priority: Option<i32>,
}

impl DeepView for ExtractedFeature {
    type V = ExtractedFeatureView;

    open spec fn deep_view(&self) -> ExtractedFeatureView {
        ExtractedFeatureView {
            name: self.name@,
            description: self.description@,
            layer: self.layer.deep_view(),
            priority: self.priority,
        }
    }
}

impl View for ExtractedFeature {
    type V = ExtractedFeatureView;

    open spec fn view(&self) -> ExtractedFeatureView {
        self.deep_view()
    }
}

impl Clone for ExtractedFeature {
    fn clone(&self) -> (r: Self)
        ensures
            r@ == self@,
    {
        ExtractedFeature {
            name: self.name.clone(),
            description: self.description.clone(),
            layer: self.layer.clone(),
            priority: self.priority,
        }
    }
}

/// Analysis result containing extracted features.
#[derive(Debug, PartialEq, Eq)]
pub struct AnalysisResult {
    pub features: Vec<ExtractedFeature>,
    pub summary: Option<String>,
}

/// The mathematical value of an [`AnalysisResult`].
#[verifier::ext_equal]
pub struct AnalysisResultView {
    pub features: Seq<ExtractedFeatureView>,
    pub summary: Option<Seq<char>>,
}

impl DeepView for AnalysisResult {
    type V = AnalysisResultView;

    open spec fn deep_view(&self) -> AnalysisResultView {
        AnalysisResultView {
            features: self.features.deep_view(),
            summary: self.summary.deep_view(),
        }
    }
}

impl View for AnalysisResult {
    type V = AnalysisResultView;

    open spec fn view(&self) -> AnalysisResultView {
        self.deep_view()
    }
}

impl Clone for AnalysisResult {
    fn clone(&self) -> (r: Self)
        ensures
            r@ == self@,
    {
        let mut features: Vec<ExtractedFeature> = Vec::new();
        let mut i: usize = 0;
        while i < self.features.len()
            invariant
                i <= self.features.len(),
                features.deep_view() == self.features.deep_view().take(i as int),
            decreases self.features.len() - i,
        {
            let ghost before = features.deep_view();
            features.push(self.features[i].clone());
            proof {
                let all = self.features.deep_view();
                assert(features.deep_view() =~= before.push(all[i as int]));
                assert(all.take(i + 1) =~= all.take(i as int).push(all[i as int]));
            }
            i = i + 1;
        }
        proof {
            let all = self.features.deep_view();
            assert(all.take(self.features.len() as int) =~= all);
        }
        AnalysisResult { features, summary: self.summary.clone() }
    }
}

/// Project requirements with generation state.
#[derive(Debug, PartialEq, Eq)]
pub struct ProjectRequirements {
    pub id: u128,
    pub project_id: u128,
    pub raw_requirements: String,
    pub prd_content: Option<String>,
    /// The analysis result, serialised as JSON.
    pub analysis_result: Option<String>,
    pub generation_status: GenerationStatus,
    pub error_message: Option<String>,
    pub created_at: i64,
    pub updated_at: i64,
}

/// Request body for creating requirements.
#[derive(Debug, PartialEq, Eq)]
pub struct CreateProjectRequirements {
    pub raw_requirements: String,
    pub prd_content: Option<String>,
}

/// Response for requirements status.
#[derive(Debug, PartialEq, Eq)]
pub struct ProjectRequirementsStatus {
    pub id: u128,
    pub project_id: u128,
    pub generation_status: GenerationStatus,
    pub analysis_result: Option<AnalysisResult>,
    pub tasks_generated: Option<i32>,
    pub error_message: Option<String>,
    pub created_at: i64,
    pub updated_at: i64,
}

impl ProjectRequirementsStatus {
    /// The status reported for `requirements`, with the analysis result as
    /// decoded from its JSON, if it could be decoded.
    pub fn of(requirements: ProjectRequirements, analysis: Option<AnalysisResult>) -> (r: Self)
        ensures
            r.id == requirements.id,
            r.project_id == requirements.project_id,
            r.generation_status == requirements.generation_status,
            r.analysis_result == analysis,
            r.tasks_generated.is_none(),
            r.error_message == requirements.error_message,
            r.created_at == requirements.created_at,
            r.updated_at == requirements.updated_at,
    {
        ProjectRequirementsStatus {
            id: requirements.id,
            project_id: requirements.project_id,
            generation_status: requirements.generation_status,
            analysis_result: analysis,
            tasks_generated: None,
            error_message: requirements.error_message,
            created_at: requirements.created_at,
            updated_at: requirements.updated_at,
        }
    }
}

} // verus!
