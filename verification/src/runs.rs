//! Agent runs: the requests that start and inspect them, the defaults of a
//! run, the second chance a malformed model reply gets, and how runs are
//! summarised.
use vstd::prelude::*;
use crate::agent_output::{EvidenceItem, NormalizedAgentOutput};
use crate::error::{AppError, ErrorKind, validation};
use crate::json::{Json, JsonValue, obj_get};
use crate::prompts::{build_schema_repair_prompt, repair_prompt_spec};
use crate::text::{is_blank, is_blank_str, owned};
use crate::workflow::{clone_strs, opt_view};

verus! {

/// One batch of sections a run reads at a time.
pub struct ContextBatch {
    pub batch_index: i32,
    pub section_ids: Vec<String>,
    pub section_titles: Vec<String>,
    pub figure_ids: Vec<String>,
    pub table_ids: Vec<String>,
    pub carry_in_summary_ids: Vec<String>,
    pub prompt_budget_estimate: i32,
}

/// How a run chose what to read.
pub struct ContextPlan {
    pub runtime_mode: String,
    pub section_strategy: String,
    pub selection_reason: String,
    pub handoff_chain_complete: bool,
    pub backfill_reason: Option<String>,
    pub gap_categories: Vec<String>,
    pub selected_section_ids: Vec<String>,
    pub selected_figure_ids: Vec<String>,
    pub selected_table_ids: Vec<String>,
    pub used_handoff_summary_ids: Vec<String>,
    pub visual_mode: String,
    pub batch_count: i32,
    pub current_batch_index: i32,
    pub truncated: bool,
    pub fallback_applied: bool,
    pub batches: Vec<ContextBatch>,
}

/// One check of a reading stage.
pub struct StageCheckItem {
    pub id: String,
    pub label: String,
    pub status: String,
    pub required: bool,
    pub evidence_source_ids: Vec<String>,
    pub note: Option<String>,
}

/// Where a reading stage stands.
pub struct StageState {
    pub stage: String,
    pub goal: String,
    pub allowed_actions: Vec<String>,
    pub checks: Vec<StageCheckItem>,
    pub visited_sources: Vec<String>,
    pub open_questions: Vec<String>,
    pub iteration: i32,
    pub max_iterations: i32,
    pub enough: bool,
}

/// The status an agent gives one check.
pub struct DecisionCheckStatus {
    pub id: String,
    pub status: String,
}

/// The next step an agent chooses within a stage.
pub struct DecisionEnvelope {
    pub action: String,
    pub target: Option<String>,
    pub reason: String,
    pub check_status: Vec<DecisionCheckStatus>,
    pub open_questions: Vec<String>,
}

/// Starts an agent run.
pub struct RunAgentRequest {
    pub paper_id: String,
    pub agent_type: String,
    pub user_question: Option<String>,
    pub force: Option<bool>,
    pub source_run_ids: Option<Vec<String>>,
    pub source_handoff_summary_ids: Option<Vec<String>>,
    pub runtime_mode: Option<String>,
    pub section_strategy: Option<String>,
    pub max_sections_per_batch: Option<i32>,
    pub max_batches: Option<i32>,
    pub pinned_section_ids: Option<Vec<String>>,
    pub visual_mode: Option<String>,
    pub pinned_figure_ids: Option<Vec<String>>,
    pub pinned_table_ids: Option<Vec<String>>,
}

/// The run that was started.
pub struct RunAgentResponse {
    pub run_id: String,
    pub status: String,
    pub poll_key: String,
}

/// Asks for one run.
pub struct GetAgentRunRequest {
    pub run_id: String,
}

/// A run as the reader view lists it.
pub struct AgentRunSummary {
    pub id: String,
    pub agent_type: String,
    pub status: String,
    pub finished_at: Option<String>,
    pub summary: Option<String>,
    pub handoff_summary_id: Option<String>,
    pub context_plan: Option<ContextPlan>,
}

/// A stored handoff summary.
pub struct HandoffSummaryResponse {
    pub id: String,
    pub run_id: String,
    pub paper_id: String,
    pub agent_type: String,
    pub stage: String,
    pub compressed_conclusion: String,
    pub key_points: Vec<String>,
    pub carry_forward_questions: Vec<String>,
    pub carry_forward_evidence: Vec<EvidenceItem>,
    pub next_step_suggestion: String,
    pub generated_at: String,
}

/// A figure or table to analyse.
pub struct VisualAnalysisTarget {
    pub object_id: String,
    pub object_type: String,
}

/// Asks for the figures and tables of a paper to be analysed.
pub struct AnalyzeVisualsRequest {
    pub paper_id: String,
    pub stage: String,
    pub user_question: Option<String>,
    pub force: Option<bool>,
    pub target_object_ids: Option<Vec<String>>,
    pub target_object_types: Option<Vec<String>>,
    pub max_items: Option<i32>,
}

/// The visual mode of a plan that does not give one.
pub fn default_visual_mode() -> (r: String)
    ensures
        r@ == "disabled"@,
{
    owned("disabled")
}

/// The source type of evidence that does not give one.
pub fn default_evidence_source_type() -> (r: String)
    ensures
        r@ == "section_text"@,
{
    owned("section_text")
}

/// Whether a check that does not say is required.
pub fn default_true() -> (r: bool)
    ensures
        r,
{
    true
}

/// Checks a run request: a paper and an agent must be named.
pub fn check_run_agent_request(request: &RunAgentRequest) -> (r: Result<(), AppError>)
    ensures
        r is Ok <==> !is_blank(request.paper_id@) && !is_blank(request.agent_type@),
        r matches Err(e) ==> {
            if is_blank(request.paper_id@) {
                e.is(ErrorKind::Validation, "paperId cannot be empty"@)
            } else {
                e.is(ErrorKind::Validation, "agentType cannot be empty"@)
            }
        },
{
    if is_blank_str(request.paper_id.as_str()) {
        return Err(validation("paperId cannot be empty"));
    }
    if is_blank_str(request.agent_type.as_str()) {
        return Err(validation("agentType cannot be empty"));
    }
    Ok(())
}

/// Checks a visual analysis request: a paper and a stage must be named.
pub fn check_analyze_visuals_request(request: &AnalyzeVisualsRequest) -> (r: Result<(), AppError>)
    ensures
        r is Ok <==> !is_blank(request.paper_id@) && !is_blank(request.stage@),
        r matches Err(e) ==> {
            if is_blank(request.paper_id@) {
                e.is(ErrorKind::Validation, "paperId cannot be empty"@)
            } else {
                e.is(ErrorKind::Validation, "stage cannot be empty"@)
            }
        },
{
    if is_blank_str(request.paper_id.as_str()) {
        return Err(validation("paperId cannot be empty"));
    }
    if is_blank_str(request.stage.as_str()) {
        return Err(validation("stage cannot be empty"));
    }
    Ok(())
}

/// Checks a request for one run: the run must be named.
pub fn check_get_agent_run_request(request: &GetAgentRunRequest) -> (r: Result<(), AppError>)
    ensures
        r is Ok <==> !is_blank(request.run_id@),
        r matches Err(e) ==> e.is(ErrorKind::Validation, "runId cannot be empty"@),
{
    if is_blank_str(request.run_id.as_str()) {
        return Err(validation("runId cannot be empty"));
    }
    Ok(())
}

/// The settings of a run that the request may leave out.
pub struct RunOptions {
    pub source_run_ids: Vec<String>,
    pub source_handoff_summary_ids: Vec<String>,
    pub force: bool,
    pub user_question: String,
}

/// The settings of a run, with their defaults: no sources, no forcing, no
/// question.
pub fn run_options(request: &RunAgentRequest) -> (r: RunOptions)
    ensures
        r.source_run_ids@ == (match request.source_run_ids {
            Some(v) => v@,
            None => Seq::<String>::empty(),
        }),
        r.source_handoff_summary_ids@ == (match request.source_handoff_summary_ids {
            Some(v) => v@,
            None => Seq::<String>::empty(),
        }),
        r.force == (match request.force {
            Some(b) => b,
            None => false,
        }),
        r.user_question@ == (match request.user_question {
            Some(q) => q@,
            None => Seq::<char>::empty(),
        }),
{
    let source_run_ids = match &request.source_run_ids {
        Some(v) => clone_strs(v),
        None => Vec::new(),
    };
    let source_handoff_summary_ids = match &request.source_handoff_summary_ids {
        Some(v) => clone_strs(v),
        None => Vec::new(),
    };
    let force = match request.force {
        Some(b) => b,
        None => false,
    };
    let user_question = match &request.user_question {
        Some(q) => q.clone(),
        None => String::new(),
    };
    RunOptions { source_run_ids, source_handoff_summary_ids, force, user_question }
}

/// The reply to a run that finished: it is polled under its own id.
pub fn succeeded_run_response(run_id: String) -> (r: RunAgentResponse)
    ensures
        r.run_id == run_id,
        r.status@ == "succeeded"@,
        r.poll_key == run_id,
{
    RunAgentResponse { run_id: run_id.clone(), status: owned("succeeded"), poll_key: run_id }
}

/// The summary a run is listed with: the `summary` text of its output.
pub open spec fn run_summary_spec(output: Option<Json>) -> Option<Seq<char>> {
    match output {
        Some(Json::Obj(ms)) => match obj_get(ms, "summary"@) {
            Some(Json::Str(s)) => Some(s),
            _ => None,
        },
        _ => None,
    }
}

/// Reads the summary a run is listed with from its stored output.
pub fn run_summary(output: &Option<JsonValue>) -> (r: Option<String>)
    ensures
        opt_view(r) == run_summary_spec(
            match output {
                Some(o) => Some(o.model()),
                None => None,
            },
        ),
{
    match output {
        Some(o) => match o.get("summary") {
            Some(v) => match v.as_str() {
                Some(s) => Some(s.clone()),
                None => None,
            },
            None => None,
        },
        None => None,
    }
}

/// What follows the first model reply of a run.
pub enum AgentStep {
    /// The reply was usable.
    Done(NormalizedAgentOutput),
    /// The reply broke the schema: the model is asked once more with this
    /// prompt.
    Repair(String),
    /// The run fails with this error.
    Failed(AppError),
}

/// Decides what follows the first reply: a usable reply ends the run, a
/// reply that breaks the schema earns one repair request, anything else
/// fails the run.
pub fn after_first_reply(
    agent_type: &str,
    prompt: &str,
    content: &str,
    parsed: Result<NormalizedAgentOutput, AppError>,
) -> (r: AgentStep)
    ensures
        match parsed {
            Ok(o) => r == AgentStep::Done(o),
            Err(AppError::SchemaInvalid(m)) => r matches AgentStep::Repair(p) && p@
                == repair_prompt_spec(agent_type@, prompt@, content@, m@),
            Err(e) => r == AgentStep::Failed(e),
        },
{
    match parsed {
        Ok(o) => AgentStep::Done(o),
        Err(AppError::SchemaInvalid(m)) => AgentStep::Repair(
            build_schema_repair_prompt(agent_type, prompt, content, m.as_str()),
        ),
        Err(e) => AgentStep::Failed(e),
    }
}

} // verus!
