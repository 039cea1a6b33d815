//! The per-paper reading workflow: which step a paper is at, which actions the
//! reader is offered, and how agent runs move a paper from step to step.
use vstd::prelude::*;
use crate::error::{AppError, ErrorKind, validation};
use crate::text::{owned, str_eq};

verus! {

/// The reading agents the workflow knows about.
pub enum AgentKind {
    QuickRead,
    CarefulRead,
    DeepRead,
    Summary,
    Other,
}

/// The agent kind named by an agent type string.
pub open spec fn agent_kind(s: Seq<char>) -> AgentKind {
    if s == "quick_read"@ {
        AgentKind::QuickRead
    } else if s == "careful_read"@ {
        AgentKind::CarefulRead
    } else if s == "deep_read"@ {
        AgentKind::DeepRead
    } else if s == "summary"@ {
        AgentKind::Summary
    } else {
        AgentKind::Other
    }
}

/// The agent kind named by an agent type string.
pub fn agent_kind_of(s: &str) -> (k: AgentKind)
    ensures
        k == agent_kind(s@),
{
    if str_eq(s, "quick_read") {
        AgentKind::QuickRead
    } else if str_eq(s, "careful_read") {
        AgentKind::CarefulRead
    } else if str_eq(s, "deep_read") {
        AgentKind::DeepRead
    } else if str_eq(s, "summary") {
        AgentKind::Summary
    } else {
        AgentKind::Other
    }
}

/// Whether a kind is one of the three reading stages that hand a summary on
/// to the next stage.
pub open spec fn is_reading_stage(k: AgentKind) -> bool {
    k == AgentKind::QuickRead || k == AgentKind::CarefulRead || k == AgentKind::DeepRead
}

pub open spec fn opt_view(o: Option<String>) -> Option<Seq<char>> {
    match o {
        Some(s) => Some(s@),
        None => None,
    }
}

pub open spec fn strs_view(v: Seq<String>) -> Seq<Seq<char>> {
    v.map_values(|s: String| s@)
}

/// The stored workflow row of one paper.
pub struct WorkflowState {
    pub current_step: String,
    pub previous_step: Option<String>,
    pub next_action_required: Option<String>,
    pub allowed_actions: Vec<String>,
    pub fallback_actions: Vec<String>,
    pub latest_handoff_summary_ids: Vec<String>,
    pub last_failed_run_id: Option<String>,
    pub error_code: Option<String>,
    pub error_message: Option<String>,
    pub retryable: Option<bool>,
}

/// The mathematical content of a workflow row.
pub struct WorkflowView {
    pub current_step: Seq<char>,
    pub previous_step: Option<Seq<char>>,
    pub next_action_required: Option<Seq<char>>,
    pub allowed_actions: Seq<Seq<char>>,
    pub fallback_actions: Seq<Seq<char>>,
    pub latest_handoff_summary_ids: Seq<Seq<char>>,
    pub last_failed_run_id: Option<Seq<char>>,
    pub error_code: Option<Seq<char>>,
    pub error_message: Option<Seq<char>>,
    pub retryable: Option<bool>,
}

impl View for WorkflowState {
    type V = WorkflowView;

    open spec fn view(&self) -> WorkflowView {
        WorkflowView {
            current_step: self.current_step@,
            previous_step: opt_view(self.previous_step),
            next_action_required: opt_view(self.next_action_required),
            allowed_actions: strs_view(self.allowed_actions@),
            fallback_actions: strs_view(self.fallback_actions@),
            latest_handoff_summary_ids: strs_view(self.latest_handoff_summary_ids@),
            last_failed_run_id: opt_view(self.last_failed_run_id),
            error_code: opt_view(self.error_code),
            error_message: opt_view(self.error_message),
            retryable: self.retryable,
        }
    }
}

/// The step a paper is placed at when its parse status is recorded.
pub open spec fn seed_step(parse_status: Seq<char>) -> Seq<char> {
    if parse_status == "succeeded"@ {
        "paper_ready"@
    } else {
        "workflow_blocked"@
    }
}

pub open spec fn seed_next(parse_status: Seq<char>) -> Seq<char> {
    if parse_status == "succeeded"@ {
        "run_quick_read"@
    } else {
        "confirm_metadata"@
    }
}

pub open spec fn seed_allowed(parse_status: Seq<char>) -> Seq<Seq<char>> {
    if parse_status == "succeeded"@ {
        seq!["run_quick_read"@]
    } else {
        seq!["retry_last_run"@, "run_summary"@, "confirm_metadata"@]
    }
}

pub open spec fn seed_fallback(parse_status: Seq<char>) -> Seq<Seq<char>> {
    if parse_status == "succeeded"@ {
        Seq::empty()
    } else {
        seq!["run_summary"@, "confirm_metadata"@]
    }
}

/// The workflow row after a paper's parse status is recorded: a new row when
/// there was none, otherwise the old row with its step and actions replaced.
pub open spec fn seed_spec(existing: Option<WorkflowView>, parse_status: Seq<char>) -> WorkflowView {
    match existing {
        None => WorkflowView {
            current_step: seed_step(parse_status),
            previous_step: None,
            next_action_required: Some(seed_next(parse_status)),
            allowed_actions: seed_allowed(parse_status),
            fallback_actions: seed_fallback(parse_status),
            latest_handoff_summary_ids: Seq::empty(),
            last_failed_run_id: None,
            error_code: None,
            error_message: None,
            retryable: None,
        },
        Some(w) => WorkflowView {
            current_step: seed_step(parse_status),
            next_action_required: Some(seed_next(parse_status)),
            allowed_actions: seed_allowed(parse_status),
            fallback_actions: seed_fallback(parse_status),
            ..w
        },
    }
}

/// The step shown while an agent runs.
pub open spec fn running_step(k: AgentKind) -> Seq<char> {
    match k {
        AgentKind::QuickRead => "quick_read_running"@,
        AgentKind::CarefulRead => "careful_read_running"@,
        AgentKind::DeepRead => "deep_read_running"@,
        _ => "summary_running"@,
    }
}

/// The actions offered while an agent runs.
pub open spec fn running_actions(k: AgentKind) -> Seq<Seq<char>> {
    match k {
        AgentKind::CarefulRead | AgentKind::DeepRead => seq!["refresh_status"@, "cancel_run"@],
        _ => seq!["refresh_status"@],
    }
}

pub open spec fn started_spec(w: WorkflowView, agent_type: Seq<char>) -> WorkflowView {
    WorkflowView {
        previous_step: Some(w.current_step),
        current_step: running_step(agent_kind(agent_type)),
        next_action_required: Some("refresh_status"@),
        allowed_actions: running_actions(agent_kind(agent_type)),
        ..w
    }
}

/// The step reached when an agent run succeeds.
pub open spec fn completed_step(k: AgentKind) -> Seq<char> {
    match k {
        AgentKind::QuickRead => "quick_read_completed"@,
        AgentKind::CarefulRead => "careful_read_completed"@,
        AgentKind::DeepRead => "deep_read_completed"@,
        _ => "summary_completed"@,
    }
}

pub open spec fn completed_next(k: AgentKind) -> Seq<char> {
    match k {
        AgentKind::QuickRead => "confirm_careful_read"@,
        AgentKind::CarefulRead => "confirm_deep_read"@,
        AgentKind::DeepRead => "run_summary"@,
        _ => "save_to_library"@,
    }
}

pub open spec fn completed_allowed(k: AgentKind) -> Seq<Seq<char>> {
    match k {
        AgentKind::QuickRead => seq!["run_careful_read"@, "run_summary"@],
        AgentKind::CarefulRead => seq!["run_deep_read"@, "run_summary"@],
        AgentKind::DeepRead => seq!["run_summary"@],
        _ => seq!["save_to_library"@, "re_run_summary"@, "reopen_reader"@],
    }
}

/// The handoff ids to keep after a run: a reading stage adds its own.
pub open spec fn handoff_ids_after(k: AgentKind, handoff_id: Seq<char>, prior: Seq<Seq<char>>) -> Seq<
    Seq<char>,
> {
    if is_reading_stage(k) {
        prior.push(handoff_id)
    } else {
        prior
    }
}

/// The fallback actions offered after a successful run.
pub open spec fn success_fallback(
    agent_type: Seq<char>,
    has_source_runs: bool,
    has_source_handoffs: bool,
) -> Seq<Seq<char>> {
    let a = seq!["reopen_reader"@];
    let b = if agent_type != "summary"@ {
        a.push("run_summary"@)
    } else {
        a
    };
    let c = if has_source_runs {
        b.push("compare_previous_runs"@)
    } else {
        b
    };
    if has_source_handoffs {
        c.push("review_handoff_chain"@)
    } else {
        c
    }
}

pub open spec fn succeeded_spec(
    w: WorkflowView,
    agent_type: Seq<char>,
    handoff_id: Seq<char>,
    prior_handoff_ids: Seq<Seq<char>>,
    has_source_runs: bool,
    has_source_handoffs: bool,
) -> WorkflowView {
    let k = agent_kind(agent_type);
    WorkflowView {
        previous_step: Some(w.current_step),
        current_step: completed_step(k),
        next_action_required: Some(completed_next(k)),
        allowed_actions: completed_allowed(k),
        latest_handoff_summary_ids: handoff_ids_after(k, handoff_id, prior_handoff_ids),
        fallback_actions: success_fallback(agent_type, has_source_runs, has_source_handoffs),
        last_failed_run_id: None,
        error_code: None,
        error_message: None,
        retryable: None,
    }
}

pub open spec fn failed_spec(
    w: WorkflowView,
    run_id: Seq<char>,
    code: Seq<char>,
    message: Seq<char>,
) -> WorkflowView {
    WorkflowView {
        previous_step: Some(w.current_step),
        current_step: "workflow_failed"@,
        next_action_required: Some("retry_last_run"@),
        allowed_actions: seq!["retry_last_run"@, "run_summary"@],
        fallback_actions: seq!["run_summary"@, "reopen_reader"@],
        last_failed_run_id: Some(run_id),
        error_code: Some(code),
        error_message: Some(message),
        retryable: Some(true),
        latest_handoff_summary_ids: w.latest_handoff_summary_ids,
    }
}

pub fn list0() -> (v: Vec<String>)
    ensures
        strs_view(v@) == Seq::<Seq<char>>::empty(),
{
    let v: Vec<String> = Vec::new();
    assert(strs_view(v@) =~= Seq::<Seq<char>>::empty());
    v
}

pub fn list1(a: &str) -> (v: Vec<String>)
    ensures
        strs_view(v@) == seq![a@],
{
    let mut v: Vec<String> = Vec::new();
    v.push(owned(a));
    assert(strs_view(v@) =~= seq![a@]);
    v
}

pub fn list2(a: &str, b: &str) -> (v: Vec<String>)
    ensures
        strs_view(v@) == seq![a@, b@],
{
    let mut v: Vec<String> = Vec::new();
    v.push(owned(a));
    v.push(owned(b));
    assert(strs_view(v@) =~= seq![a@, b@]);
    v
}

pub fn list3(a: &str, b: &str, c: &str) -> (v: Vec<String>)
    ensures
        strs_view(v@) == seq![a@, b@, c@],
{
    let mut v: Vec<String> = Vec::new();
    v.push(owned(a));
    v.push(owned(b));
    v.push(owned(c));
    assert(strs_view(v@) =~= seq![a@, b@, c@]);
    v
}

/// Appends a literal to a list of strings.
pub fn push_lit(v: &mut Vec<String>, a: &str)
    ensures
        strs_view(final(v)@) == strs_view(old(v)@).push(a@),
{
    v.push(owned(a));
    assert(strs_view(v@) =~= strs_view(old(v)@).push(a@));
}

/// A copy of a list of strings.
pub fn clone_strs(v: &Vec<String>) -> (r: Vec<String>)
    ensures
        r@ == v@,
{
    let mut r: Vec<String> = Vec::new();
    let mut i: usize = 0;
    while i < v.len()
        invariant
            i <= v@.len(),
            r@ == v@.take(i as int),
        decreases v@.len() - i,
    {
        r.push(v[i].clone());
        i = i + 1;
        proof {
            assert(r@ =~= v@.take(i as int));
        }
    }
    assert(v@.take(v@.len() as int) =~= v@);
    r
}

/// A copy of an optional string.
pub fn clone_opt(o: &Option<String>) -> (r: Option<String>)
    ensures
        r == *o,
{
    match o {
        Some(s) => Some(s.clone()),
        None => None,
    }
}

/// The workflow row after a paper's parse status is recorded
/// (`seed_workflow_for_paper`).
pub fn seed_workflow(existing: Option<WorkflowState>, parse_status: &str) -> (r: WorkflowState)
    ensures
        r@ == seed_spec(
            match existing {
                Some(w) => Some(w@),
                None => None,
            },
            parse_status@,
        ),
{
    let ok = str_eq(parse_status, "succeeded");
    let current_step = if ok {
        owned("paper_ready")
    } else {
        owned("workflow_blocked")
    };
    let next = if ok {
        owned("run_quick_read")
    } else {
        owned("confirm_metadata")
    };
    let allowed = if ok {
        list1("run_quick_read")
    } else {
        list3("retry_last_run", "run_summary", "confirm_metadata")
    };
    let fallback = if ok {
        list0()
    } else {
        list2("run_summary", "confirm_metadata")
    };
    match existing {
        None => WorkflowState {
            current_step,
            previous_step: None,
            next_action_required: Some(next),
            allowed_actions: allowed,
            fallback_actions: fallback,
            latest_handoff_summary_ids: list0(),
            last_failed_run_id: None,
            error_code: None,
            error_message: None,
            retryable: None,
        },
        Some(w) => WorkflowState {
            current_step,
            next_action_required: Some(next),
            allowed_actions: allowed,
            fallback_actions: fallback,
            ..w
        },
    }
}

/// The step shown while an agent runs (`running_step_for_agent`).
pub fn running_step_for_agent(agent_type: &str) -> (r: String)
    ensures
        r@ == running_step(agent_kind(agent_type@)),
{
    match agent_kind_of(agent_type) {
        AgentKind::QuickRead => owned("quick_read_running"),
        AgentKind::CarefulRead => owned("careful_read_running"),
        AgentKind::DeepRead => owned("deep_read_running"),
        _ => owned("summary_running"),
    }
}

/// The actions offered while an agent runs (`running_actions_for_agent`).
pub fn running_actions_for_agent(agent_type: &str) -> (r: Vec<String>)
    ensures
        strs_view(r@) == running_actions(agent_kind(agent_type@)),
{
    match agent_kind_of(agent_type) {
        AgentKind::CarefulRead | AgentKind::DeepRead => list2("refresh_status", "cancel_run"),
        _ => list1("refresh_status"),
    }
}

/// The workflow row once an agent run has started (`mark_run_started`).
pub fn on_run_started(w: WorkflowState, agent_type: &str) -> (r: WorkflowState)
    ensures
        r@ == started_spec(w@, agent_type@),
{
    let step = running_step_for_agent(agent_type);
    let actions = running_actions_for_agent(agent_type);
    let WorkflowState { current_step, .. } = w;
    WorkflowState {
        previous_step: Some(current_step),
        current_step: step,
        next_action_required: Some(owned("refresh_status")),
        allowed_actions: actions,
        ..w
    }
}

/// The handoff ids to keep after a run (`latest_handoff_ids_for_stage`).
pub fn latest_handoff_ids_for_stage(agent_type: &str, handoff_id: &str, existing_ids: Vec<String>) -> (r:
    Vec<String>)
    ensures
        strs_view(r@) == handoff_ids_after(
            agent_kind(agent_type@),
            handoff_id@,
            strs_view(existing_ids@),
        ),
{
    let mut ids = existing_ids;
    match agent_kind_of(agent_type) {
        AgentKind::QuickRead | AgentKind::CarefulRead | AgentKind::DeepRead => {
            push_lit(&mut ids, handoff_id);
            ids
        },
        _ => ids,
    }
}

/// The fallback actions offered after a successful run, before they are
/// written as JSON.
pub fn fallback_actions_for_success(
    agent_type: &str,
    source_run_ids: &Vec<String>,
    source_handoff_summary_ids: &Vec<String>,
) -> (r: Vec<String>)
    ensures
        strs_view(r@) == success_fallback(
            agent_type@,
            source_run_ids@.len() > 0,
            source_handoff_summary_ids@.len() > 0,
        ),
{
    let mut actions = list1("reopen_reader");
    if !str_eq(agent_type, "summary") {
        push_lit(&mut actions, "run_summary");
    }
    if source_run_ids.len() > 0 {
        push_lit(&mut actions, "compare_previous_runs");
    }
    if source_handoff_summary_ids.len() > 0 {
        push_lit(&mut actions, "review_handoff_chain");
    }
    actions
}

/// The workflow row once an agent run has succeeded (`mark_run_succeeded`):
/// the next stage is offered, the handoff chain is extended and any recorded
/// failure is cleared.
pub fn on_run_succeeded(
    w: WorkflowState,
    agent_type: &str,
    handoff_id: &str,
    prior_handoff_ids: Vec<String>,
    source_run_ids: &Vec<String>,
    source_handoff_summary_ids: &Vec<String>,
) -> (r: WorkflowState)
    ensures
        r@ == succeeded_spec(
            w@,
            agent_type@,
            handoff_id@,
            strs_view(prior_handoff_ids@),
            source_run_ids@.len() > 0,
            source_handoff_summary_ids@.len() > 0,
        ),
{
    let kind = agent_kind_of(agent_type);
    let (step, next, allowed) = match kind {
        AgentKind::QuickRead => (
            owned("quick_read_completed"),
            owned("confirm_careful_read"),
            list2("run_careful_read", "run_summary"),
        ),
        AgentKind::CarefulRead => (
            owned("careful_read_completed"),
            owned("confirm_deep_read"),
            list2("run_deep_read", "run_summary"),
        ),
        AgentKind::DeepRead => (
            owned("deep_read_completed"),
            owned("run_summary"),
            list1("run_summary"),
        ),
        _ => (
            owned("summary_completed"),
            owned("save_to_library"),
            list3("save_to_library", "re_run_summary", "reopen_reader"),
        ),
    };
    let ids = latest_handoff_ids_for_stage(agent_type, handoff_id, prior_handoff_ids);
    let fallback = fallback_actions_for_success(agent_type, source_run_ids, source_handoff_summary_ids);
    WorkflowState {
        previous_step: Some(w.current_step),
        current_step: step,
        next_action_required: Some(next),
        allowed_actions: allowed,
        fallback_actions: fallback,
        latest_handoff_summary_ids: ids,
        last_failed_run_id: None,
        error_code: None,
        error_message: None,
        retryable: None,
    }
}

/// The workflow row once an agent run has failed (`mark_run_failed`): the
/// failure is recorded and a retry is offered.
pub fn on_run_failed(w: WorkflowState, run_id: &str, error: &AppError) -> (r: WorkflowState)
    ensures
        r@ == failed_spec(w@, run_id@, crate::error::code_of(error.kind()), error.msg()),
{
    WorkflowState {
        previous_step: Some(w.current_step),
        current_step: owned("workflow_failed"),
        next_action_required: Some(owned("retry_last_run")),
        allowed_actions: list2("retry_last_run", "run_summary"),
        fallback_actions: list2("run_summary", "reopen_reader"),
        last_failed_run_id: Some(owned(run_id)),
        error_code: Some(error.code()),
        error_message: Some(error.message()),
        retryable: Some(true),
        latest_handoff_summary_ids: w.latest_handoff_summary_ids,
    }
}

/// Whether an agent may run on a paper with the given parse status: the paper
/// must have been parsed, unless the agent is the summary agent or the run is
/// forced.
pub open spec fn run_allowed(parse_status: Option<Seq<char>>, agent_type: Seq<char>, force: bool) -> bool {
    parse_status == Some("succeeded"@) || agent_type == "summary"@ || force
}

/// The check made before an agent run is prepared (`load_run_context`).
pub fn check_run_allowed(parse_status: &Option<String>, agent_type: &str, force: bool) -> (r: Result<
    (),
    AppError,
>)
    ensures
        r is Ok <==> run_allowed(opt_view(*parse_status), agent_type@, force),
        r matches Err(e) ==> e.is(
            ErrorKind::Validation,
            "paper parsing must succeed before running this agent"@,
        ),
{
    let parsed = match parse_status {
        Some(s) => str_eq(s.as_str(), "succeeded"),
        None => false,
    };
    if !parsed && !str_eq(agent_type, "summary") && !force {
        return Err(validation("paper parsing must succeed before running this agent"));
    }
    Ok(())
}

/// Recording the same parse status twice leaves the workflow row as the first
/// recording left it.
pub proof fn law_reseed_is_idempotent(existing: Option<WorkflowView>, parse_status: Seq<char>)
    ensures
        seed_spec(Some(seed_spec(existing, parse_status)), parse_status) == seed_spec(
            existing,
            parse_status,
        ),
{
}

/// A successful reading stage appends its handoff summary id to the chain it
/// was started with; a summary (or unknown) run leaves the chain as it was.
pub proof fn law_success_extends_handoff_chain(
    w: WorkflowView,
    agent_type: Seq<char>,
    handoff_id: Seq<char>,
    has_source_runs: bool,
    has_source_handoffs: bool,
)
    ensures
        ({
            let r = succeeded_spec(
                w,
                agent_type,
                handoff_id,
                w.latest_handoff_summary_ids,
                has_source_runs,
                has_source_handoffs,
            );
            &&& is_reading_stage(agent_kind(agent_type)) ==> r.latest_handoff_summary_ids
                == w.latest_handoff_summary_ids.push(handoff_id)
            &&& !is_reading_stage(agent_kind(agent_type)) ==> r.latest_handoff_summary_ids
                == w.latest_handoff_summary_ids
        }),
{
}

/// Every run transition remembers the step it left, and starting or failing a
/// run never touches the handoff chain.
pub proof fn law_transitions_remember_previous_step(
    w: WorkflowView,
    agent_type: Seq<char>,
    handoff_id: Seq<char>,
    prior: Seq<Seq<char>>,
    run_id: Seq<char>,
    code: Seq<char>,
    message: Seq<char>,
    has_source_runs: bool,
    has_source_handoffs: bool,
)
    ensures
        started_spec(w, agent_type).previous_step == Some(w.current_step),
        succeeded_spec(w, agent_type, handoff_id, prior, has_source_runs, has_source_handoffs).previous_step
            == Some(w.current_step),
        failed_spec(w, run_id, code, message).previous_step == Some(w.current_step),
        started_spec(w, agent_type).latest_handoff_summary_ids == w.latest_handoff_summary_ids,
        failed_spec(w, run_id, code, message).latest_handoff_summary_ids
            == w.latest_handoff_summary_ids,
{
}

/// A failed run offers a retry and records what failed; a later success
/// clears the recorded failure.
pub proof fn law_failure_then_success(
    w: WorkflowView,
    run_id: Seq<char>,
    code: Seq<char>,
    message: Seq<char>,
    agent_type: Seq<char>,
    handoff_id: Seq<char>,
    has_source_runs: bool,
    has_source_handoffs: bool,
)
    ensures
        ({
            let f = failed_spec(w, run_id, code, message);
            let s = succeeded_spec(
                f,
                agent_type,
                handoff_id,
                f.latest_handoff_summary_ids,
                has_source_runs,
                has_source_handoffs,
            );
            &&& f.next_action_required == Some("retry_last_run"@)
            &&& f.allowed_actions.contains("retry_last_run"@)
            &&& f.last_failed_run_id == Some(run_id)
            &&& f.retryable == Some(true)
            &&& s.previous_step == Some("workflow_failed"@)
            &&& s.last_failed_run_id is None
            &&& s.error_code is None
            &&& s.error_message is None
            &&& s.retryable is None
            &&& s.latest_handoff_summary_ids == handoff_ids_after(
                agent_kind(agent_type),
                handoff_id,
                w.latest_handoff_summary_ids,
            )
        }),
{
    assert(seq!["retry_last_run"@, "run_summary"@][0] == "retry_last_run"@);
}

/// Each reading stage, once it succeeds, offers the stage that follows it:
/// quick read, then careful read, then deep read, then the summary.
pub proof fn law_stage_progression(
    w: WorkflowView,
    handoff_id: Seq<char>,
    prior: Seq<Seq<char>>,
    has_source_runs: bool,
    has_source_handoffs: bool,
)
    ensures
        succeeded_spec(w, "quick_read"@, handoff_id, prior, has_source_runs, has_source_handoffs).allowed_actions.contains(
            "run_careful_read"@,
        ),
        succeeded_spec(w, "careful_read"@, handoff_id, prior, has_source_runs, has_source_handoffs).allowed_actions.contains(
            "run_deep_read"@,
        ),
        succeeded_spec(w, "deep_read"@, handoff_id, prior, has_source_runs, has_source_handoffs).allowed_actions.contains(
            "run_summary"@,
        ),
{
    reveal_strlit("quick_read");
    reveal_strlit("careful_read");
    reveal_strlit("deep_read");
    assert("quick_read"@.len() == 10);
    assert("careful_read"@.len() == 12);
    assert("deep_read"@.len() == 9);
    assert(agent_kind("quick_read"@) == AgentKind::QuickRead);
    assert(agent_kind("careful_read"@) == AgentKind::CarefulRead);
    assert(agent_kind("deep_read"@) == AgentKind::DeepRead);
    assert(seq!["run_careful_read"@, "run_summary"@][0] == "run_careful_read"@);
    assert(seq!["run_deep_read"@, "run_summary"@][0] == "run_deep_read"@);
    assert(seq!["run_summary"@][0] == "run_summary"@);
}

/// A successful run of a reading stage leaves the workflow at that stage's
/// own completed step, `<stage>_completed`, whatever step it was at before
/// (which it remembers as the previous step).
pub proof fn law_success_completes_its_own_stage(
    w: WorkflowView,
    agent_type: Seq<char>,
    handoff_id: Seq<char>,
    prior: Seq<Seq<char>>,
    has_source_runs: bool,
    has_source_handoffs: bool,
)
    requires
        agent_type == "quick_read"@ || agent_type == "careful_read"@ || agent_type == "deep_read"@
            || agent_type == "summary"@,
    ensures
        succeeded_spec(w, agent_type, handoff_id, prior, has_source_runs, has_source_handoffs).current_step
            == agent_type + "_completed"@,
        succeeded_spec(w, agent_type, handoff_id, prior, has_source_runs, has_source_handoffs).previous_step
            == Some(w.current_step),
{
    reveal_strlit("quick_read");
    reveal_strlit("careful_read");
    reveal_strlit("deep_read");
    reveal_strlit("summary");
    reveal_strlit("_completed");
    reveal_strlit("quick_read_completed");
    reveal_strlit("careful_read_completed");
    reveal_strlit("deep_read_completed");
    reveal_strlit("summary_completed");
    let r = succeeded_spec(w, agent_type, handoff_id, prior, has_source_runs, has_source_handoffs);
    if agent_type == "quick_read"@ {
        assert(agent_kind(agent_type) == AgentKind::QuickRead);
        assert(r.current_step =~= agent_type + "_completed"@);
    } else if agent_type == "careful_read"@ {
        assert("careful_read"@ != "quick_read"@) by {
            assert("careful_read"@.len() != "quick_read"@.len());
        }
        assert(agent_kind(agent_type) == AgentKind::CarefulRead);
        assert(r.current_step =~= agent_type + "_completed"@);
    } else if agent_type == "deep_read"@ {
        assert("deep_read"@ != "quick_read"@) by {
            assert("deep_read"@.len() != "quick_read"@.len());
        }
        assert("deep_read"@ != "careful_read"@) by {
            assert("deep_read"@.len() != "careful_read"@.len());
        }
        assert(agent_kind(agent_type) == AgentKind::DeepRead);
        assert(r.current_step =~= agent_type + "_completed"@);
    } else {
        assert("summary"@ != "quick_read"@) by {
            assert("summary"@.len() != "quick_read"@.len());
        }
        assert("summary"@ != "careful_read"@) by {
            assert("summary"@.len() != "careful_read"@.len());
        }
        assert("summary"@ != "deep_read"@) by {
            assert("summary"@.len() != "deep_read"@.len());
        }
        assert(agent_kind(agent_type) == AgentKind::Summary);
        assert(r.current_step =~= agent_type + "_completed"@);
    }
}

/// Each reading stage, once it succeeds, asks next for the step that
/// follows it: the careful read after the quick read, the deep read after
/// the careful read, the summary after the deep read, and saving to the
/// reading list after the summary; and a success clears any recorded
/// failure.
pub proof fn law_success_asks_for_the_next_step(
    w: WorkflowView,
    handoff_id: Seq<char>,
    prior: Seq<Seq<char>>,
    has_source_runs: bool,
    has_source_handoffs: bool,
)
    ensures
        succeeded_spec(w, "quick_read"@, handoff_id, prior, has_source_runs, has_source_handoffs).next_action_required
            == Some("confirm_careful_read"@),
        succeeded_spec(w, "careful_read"@, handoff_id, prior, has_source_runs, has_source_handoffs).next_action_required
            == Some("confirm_deep_read"@),
        succeeded_spec(w, "deep_read"@, handoff_id, prior, has_source_runs, has_source_handoffs).next_action_required
            == Some("run_summary"@),
        succeeded_spec(w, "summary"@, handoff_id, prior, has_source_runs, has_source_handoffs).next_action_required
            == Some("save_to_library"@),
        forall|t: Seq<char>| #![auto]
            succeeded_spec(w, t, handoff_id, prior, has_source_runs, has_source_handoffs).last_failed_run_id is None
                && succeeded_spec(w, t, handoff_id, prior, has_source_runs, has_source_handoffs).error_code is None,
{
    reveal_strlit("quick_read");
    reveal_strlit("careful_read");
    reveal_strlit("deep_read");
    reveal_strlit("summary");
    assert("careful_read"@ != "quick_read"@) by {
        assert("careful_read"@.len() != "quick_read"@.len());
    }
    assert("deep_read"@ != "quick_read"@) by {
        assert("deep_read"@.len() != "quick_read"@.len());
    }
    assert("deep_read"@ != "careful_read"@) by {
        assert("deep_read"@.len() != "careful_read"@.len());
    }
    assert("summary"@ != "quick_read"@) by {
        assert("summary"@.len() != "quick_read"@.len());
    }
    assert("summary"@ != "careful_read"@) by {
        assert("summary"@.len() != "careful_read"@.len());
    }
    assert("summary"@ != "deep_read"@) by {
        assert("summary"@.len() != "deep_read"@.len());
    }
    assert(agent_kind("quick_read"@) == AgentKind::QuickRead);
    assert(agent_kind("careful_read"@) == AgentKind::CarefulRead);
    assert(agent_kind("deep_read"@) == AgentKind::DeepRead);
    assert(agent_kind("summary"@) == AgentKind::Summary);
}

} // verus!
