//! The structured results of a research run, as the agent writes them to
//! `research_results.json`, and the rules by which older result files are
//! read.
use vstd::prelude::*;

verus! {

/// The proposal recommended for adoption, and why.
#[derive(Clone, Debug, PartialEq, Eq)]
pub struct Champion {
    pub proposal_name: String,
    pub justification: String,
    pub promotion_criteria: Option<String>,
}

#[derive(Clone, Debug, PartialEq, Eq)]
pub struct DecisionRule {
    pub condition: String,
    pub action: String,
    pub rationale: Option<String>,
}

#[derive(Clone, Debug, PartialEq, Eq)]
pub struct IterationContext {
    pub iteration_number: u32,
    pub prior_proposal_ids: Option<Vec<String>>,
    pub feedback_received: Option<Vec<FeedbackEntry>>,
    pub changes_from_prior: Option<Vec<String>>,
    pub dead_approaches: Option<Vec<String>>,
}

#[derive(Clone, Debug, PartialEq, Eq)]
pub struct FeedbackEntry {
    pub source_agent: String,
    pub feedback_type: String,
    pub summary: String,
    pub affected_proposals: Option<Vec<String>>,
}

#[derive(Clone, Debug, PartialEq, Eq)]
pub struct FileManifestEntry {
    pub path: String,
    pub kind: String,
    pub solution_rank: Option<u32>,
    pub description: Option<String>,
}

#[derive(Clone, Debug, PartialEq, Eq)]
pub struct ProblemDecomposition {
    pub problem_statement: String,
    pub core_challenges: Vec<Challenge>,
    pub constraints: Vec<Constraint>,
    pub scope: Option<Scope>,
}

#[derive(Clone, Debug, PartialEq, Eq)]
pub struct Challenge {
    pub name: String,
    pub description: String,
    pub domains: Option<Vec<String>>,
    pub search_keywords: Option<Vec<String>>,
}

#[derive(Clone, Debug, PartialEq, Eq)]
pub struct Constraint {
    pub category: String,
    pub description: String,
    pub value: Option<String>,
}

#[derive(Clone, Debug, PartialEq, Eq)]
pub struct Scope {
    pub in_scope: Option<Vec<String>>,
    pub out_of_scope: Option<Vec<String>>,
}

#[derive(Clone, Debug, PartialEq, Eq)]
pub struct Paper {
    pub paper_id: Option<String>,
    pub title: String,
    pub authors: String,
    pub year: Option<u32>,
    pub venue: Option<String>,
    pub doi: Option<String>,
    pub arxiv_id: Option<String>,
    pub url: Option<String>,
    pub pdf_url: Option<String>,
    pub code_url: Option<String>,
    pub citation_count: Option<u32>,
    pub abstract_text: Option<String>,
    pub relevance_score: Option<u32>,
    pub key_contribution: Option<String>,
    pub relevant_to_subproblems: Option<Vec<String>>,
    pub source: Option<String>,
}

#[derive(Clone, Debug, PartialEq, Eq)]
pub struct CodeRepository {
    pub url: String,
    pub name: String,
    pub framework: Option<String>,
    pub stars: Option<u32>,
    pub is_official: Option<bool>,
    pub related_paper: Option<String>,
    pub description: Option<String>,
}

#[derive(Clone, Debug, PartialEq, Eq)]
pub struct AcceptanceCriterion {
    pub metric: String,
    pub threshold: String,
    pub priority: String,
    pub source: Option<String>,
}

#[derive(Clone, Debug, PartialEq, Eq)]
pub struct ExperimentPlan {
    pub dataset_subset: Option<String>,
    pub expected_training_time: Option<String>,
    pub key_metric: Option<String>,
    pub expected_range: Option<String>,
    pub go_no_go: Option<String>,
}

#[derive(Clone, Debug, PartialEq, Eq)]
pub struct RiskEntry {
    pub risk: String,
    pub likelihood: String,
    pub impact: String,
    pub mitigation: Option<String>,
}

#[derive(Clone, Debug, PartialEq, Eq)]
pub struct InstrumentationRequirements {
    pub training_metrics: Option<Vec<String>>,
    pub deployment_metrics: Option<Vec<String>>,
    pub alerting_thresholds: Option<Vec<String>>,
}

#[derive(Clone, Debug, PartialEq, Eq)]
pub struct DeploymentConstraints {
    pub target_hardware: Option<String>,
    pub model_format: Option<String>,
    pub runtime: Option<String>,
    pub memory_budget: Option<String>,
    pub rollback_strategy: Option<String>,
}

#[derive(Clone, Debug, PartialEq, Eq)]
pub struct Evidence {
    pub id: String,
    pub evidence_type: String,
    pub source_tool: Option<String>,
    pub source_ref: String,
    pub extracted_text_snippet: Option<String>,
}

#[derive(Clone, Debug, PartialEq, Eq)]
pub struct SolutionPaper {
    pub citation: String,
    pub title: String,
    pub url: Option<String>,
    pub relevance: Option<String>,
}

#[derive(Clone, Debug, PartialEq, Eq)]
pub struct TechnicalApproach {
    pub architecture: Option<String>,
    pub training_procedure: Option<String>,
    pub inference_pipeline: Option<String>,
    pub integration_approach: Option<String>,
}

#[derive(Clone, Debug, PartialEq, Eq)]
pub struct DataRequirements {
    pub description: Option<String>,
    pub estimated_volume: Option<String>,
    pub availability: Option<String>,
    pub labeling_effort: Option<String>,
}

#[derive(Clone, Debug, PartialEq, Eq)]
pub struct ComputeRequirements {
    pub training_gpu: Option<String>,
    pub training_time: Option<String>,
    pub inference_device: Option<String>,
    pub inference_latency: Option<String>,
}

#[derive(Clone, Debug, PartialEq, Eq)]
pub struct RiskAssessment {
    pub level: String,
    pub explanation: Option<String>,
}

#[derive(Clone, Debug, PartialEq, Eq)]
pub struct RepoAssessment {
    pub repo_url: String,
    pub commit_sha: Option<String>,
    pub license: Option<String>,
    pub health: Option<RepoHealthSummary>,
    pub entrypoints: Option<Vec<RepoEntrypoint>>,
    pub io_shapes: Option<RepoIOShapes>,
    pub dependencies: Option<Vec<String>>,
    pub config_schema: Option<RepoConfigSchema>,
    pub export_paths: Option<Vec<RepoExportPath>>,
    pub reproduction_feasibility: Option<ReproductionFeasibility>,
    pub caveats: Option<Vec<String>>,
    pub files_to_ignore: Option<Vec<String>>,
    pub repo_unavailable: Option<bool>,
    pub blocked_reason: Option<String>,
}

#[derive(Clone, Debug, PartialEq, Eq)]
pub struct RepoHealthSummary {
    pub stars: Option<u32>,
    pub last_commit_date: Option<String>,
    pub open_issues: Option<u32>,
    pub releases_count: Option<u32>,
    pub ci_passing: Option<bool>,
}

#[derive(Clone, Debug, PartialEq, Eq)]
pub struct RepoEntrypoint {
    pub file_path: String,
    pub kind: String,
    pub cli_args_summary: Option<String>,
    pub config_file: Option<String>,
}

#[derive(Clone, Debug, PartialEq, Eq)]
pub struct RepoIOShapes {
    pub input: Option<String>,
    pub output: Option<String>,
    pub dtype: Option<String>,
}

#[derive(Clone, Debug, PartialEq, Eq)]
pub struct RepoConfigSchema {
    pub file: Option<String>,
    pub format: Option<String>,
    pub key_params: Option<Vec<RepoConfigParam>>,
}

#[derive(Clone, Debug, PartialEq, Eq)]
pub struct RepoConfigParam {
    pub name: String,
    pub default: Option<String>,
    pub description: Option<String>,
}

#[derive(Clone, Debug, PartialEq, Eq)]
pub struct RepoExportPath {
    pub file: String,
    pub format: String,
}

#[derive(Clone, Debug, PartialEq, Eq)]
pub struct ReproductionFeasibility {
    pub has_readme_instructions: Option<bool>,
    pub has_docker_or_env: Option<bool>,
    pub has_pretrained_weights: Option<bool>,
    pub has_test_suite: Option<bool>,
    pub estimated_repro_effort: Option<String>,
    pub blockers: Option<Vec<String>>,
}

#[derive(Clone, Debug, PartialEq, Eq)]
pub struct AdoptionStrategy {
    pub strategy: String,
    pub rationale: String,
    pub source_repos: Option<Vec<SourceRepo>>,
}

#[derive(Clone, Debug, PartialEq, Eq)]
pub struct SourceRepo {
    pub url: String,
    pub commit: Option<String>,
    pub subset_paths: Option<Vec<String>>,
}

#[derive(Clone, Debug, PartialEq, Eq)]
pub struct RepoProvenance {
    pub url: String,
    pub pinned_commit: Option<String>,
    pub license: String,
    pub health_summary: Option<String>,
    pub caveats: Option<Vec<String>>,
}

#[derive(Clone, Debug, PartialEq, Eq)]
pub struct IntegrationPlan {
    pub target_modules: Option<Vec<String>>,
    pub required_interfaces: Option<Vec<String>>,
    pub data_format_mappings: Option<Vec<DataFormatMapping>>,
    pub config_mapping: Option<Vec<ConfigMapping>>,
    pub test_plan: Option<Vec<String>>,
}

#[derive(Clone, Debug, PartialEq, Eq)]
pub struct DataFormatMapping {
    pub source_format: String,
    pub target_format: String,
    pub adapter: Option<String>,
}

#[derive(Clone, Debug, PartialEq, Eq)]
pub struct ConfigMapping {
    pub repo_param: String,
    pub user_config_param: String,
    pub notes: Option<String>,
}

#[derive(Clone, Debug, PartialEq, Eq)]
pub struct CodebaseFit {
    pub target_location: Option<String>,
    pub existing_abstractions: Option<Vec<String>>,
    pub constraints_satisfied: Option<Vec<String>>,
    pub constraints_violated: Option<Vec<String>>,
    pub required_refactoring: Option<Vec<String>>,
}

#[derive(Clone, Debug, PartialEq, Eq)]
pub struct ResearchMetadata {
    pub research_date: Option<String>,
    pub model_used: Option<String>,
    pub total_papers_reviewed: Option<u32>,
    pub num_sub_agents: Option<u32>,
    pub framework: Option<String>,
    pub codex_version: Option<String>,
}

/// The justification given to a champion taken over from the deprecated
/// `recommended_solution` field.
pub const MIGRATED_CHAMPION_JUSTIFICATION: &'static str = "Migrated from deprecated `recommended_solution`; no explicit justification provided.";

/// The error when a result file names no proposals.
pub const MISSING_PROPOSALS_ERROR: &'static str = "missing `proposals` (or deprecated `solutions`)";

/// The error when a result file names no champion.
pub const MISSING_CHAMPION_ERROR: &'static str = "missing `champion` (or deprecated `recommended_solution`)";

/// The champion that the deprecated `recommended_solution` names.
pub open spec fn migrated_champion(proposal_name: Seq<char>) -> (Seq<char>, Seq<char>, Option<Seq<char>>) {
    (proposal_name, MIGRATED_CHAMPION_JUSTIFICATION@, None)
}

impl Champion {
    /// The champion as a triple of plain values.
    pub open spec fn spec_fields(&self) -> (Seq<char>, Seq<char>, Option<Seq<char>>) {
        (self.proposal_name@, self.justification@, match self.promotion_criteria {
            Some(c) => Some(c@),
            None => None,
        })
    }

    /// The champion for a result file that only names its
    /// `recommended_solution`.
    pub fn from_recommended_solution(proposal_name: String) -> (c: Self)
        ensures
            c.spec_fields() == migrated_champion(proposal_name@),
    {
        Champion {
            proposal_name,
            justification: String::from_str(MIGRATED_CHAMPION_JUSTIFICATION),
            promotion_criteria: None,
        }
    }
}

/// Which proposals a result file holds: `proposals`, or the deprecated
/// `solutions` where `proposals` is empty.
pub open spec fn chosen_proposals<P>(proposals: Seq<P>, solutions: Seq<P>) -> Seq<P> {
    if proposals.len() == 0 {
        solutions
    } else {
        proposals
    }
}

/// Picks the proposals and the champion of a result file, taking the
/// deprecated `solutions` and `recommended_solution` where the current fields
/// are missing or empty. Fails with `MISSING_PROPOSALS_ERROR` where both lists
/// are empty, else with `MISSING_CHAMPION_ERROR` where neither champion field
/// is given.
pub fn resolve_proposals_and_champion<P>(
    proposals: Vec<P>,
    solutions: Vec<P>,
    champion: Option<Champion>,
    recommended_solution: Option<String>,
) -> (r: Result<(Vec<P>, Champion), String>)
    ensures
        chosen_proposals(proposals@, solutions@).len() == 0 ==> (r is Err && r->Err_0@
            == MISSING_PROPOSALS_ERROR@),
        chosen_proposals(proposals@, solutions@).len() > 0 && champion is None && recommended_solution is None
            ==> (r is Err && r->Err_0@ == MISSING_CHAMPION_ERROR@),
        chosen_proposals(proposals@, solutions@).len() > 0 && champion is Some ==> (r is Ok
            && r->Ok_0.0@ == chosen_proposals(proposals@, solutions@) && r->Ok_0.1 == champion->Some_0),
        chosen_proposals(proposals@, solutions@).len() > 0 && champion is None && recommended_solution is Some
            ==> (r is Ok && r->Ok_0.0@ == chosen_proposals(proposals@, solutions@)
            && r->Ok_0.1.spec_fields() == migrated_champion(recommended_solution->Some_0@)),
{
    let chosen = if proposals.len() == 0 {
        solutions
    } else {
        proposals
    };
    if chosen.len() == 0 {
        return Err(String::from_str(MISSING_PROPOSALS_ERROR));
    }
    match champion {
        Some(c) => Ok((chosen, c)),
        None => match recommended_solution {
            Some(name) => Ok((chosen, Champion::from_recommended_solution(name))),
            None => Err(String::from_str(MISSING_CHAMPION_ERROR)),
        },
    }
}

} // verus!
