//! Normalisation of the JSON an agent model returns: the summary and evidence
//! every agent must give, the handoff summary that carries a reading stage
//! over to the next one, and the fields each agent type must fill in.
use vstd::prelude::*;
use crate::error::{AppError, ErrorKind, schema_invalid};
use crate::json::{Json, JsonMember, JsonValue, members_get, members_insert, members_model, obj_get, obj_insert, opt_arr, opt_obj, opt_str, seq_model, lemma_array_model, lemma_object_model, string_array_value};
use crate::text::{is_blank, is_blank_str, owned, str_eq, trim, trim_start, trim_end, trim_str, truncate_chars, truncate_text, cat};
use crate::workflow::{AgentKind, agent_kind, agent_kind_of, opt_view, strs_view, list0, list3, push_lit};
use crate::json::JsonNumber;

verus! {

/// One piece of evidence an agent cites.
pub struct EvidenceItem {
    pub source_type: String,
    pub source_object_id: Option<String>,
    pub quote: String,
    pub section: String,
    pub page: Option<i32>,
    pub locator: String,
}

pub struct EvidenceView {
    pub source_type: Seq<char>,
    pub source_object_id: Option<Seq<char>>,
    pub quote: Seq<char>,
    pub section: Seq<char>,
    pub page: Option<i32>,
    pub locator: Seq<char>,
}

impl View for EvidenceItem {
    type V = EvidenceView;

    open spec fn view(&self) -> EvidenceView {
        EvidenceView {
            source_type: self.source_type@,
            source_object_id: opt_view(self.source_object_id),
            quote: self.quote@,
            section: self.section@,
            page: self.page,
            locator: self.locator@,
        }
    }
}

pub open spec fn evs_view(v: Seq<EvidenceItem>) -> Seq<EvidenceView> {
    v.map_values(|e: EvidenceItem| e@)
}

/// The summary a reading stage hands on to the next stage.
pub struct NormalizedHandoffSummary {
    pub stage: String,
    pub compressed_conclusion: String,
    pub key_points: Vec<String>,
    pub carry_forward_questions: Vec<String>,
    pub carry_forward_evidence: Vec<EvidenceItem>,
    pub next_step_suggestion: String,
    pub generated_at: String,
}

pub struct HandoffView {
    pub stage: Seq<char>,
    pub compressed_conclusion: Seq<char>,
    pub key_points: Seq<Seq<char>>,
    pub carry_forward_questions: Seq<Seq<char>>,
    pub carry_forward_evidence: Seq<EvidenceView>,
    pub next_step_suggestion: Seq<char>,
    pub generated_at: Seq<char>,
}

impl View for NormalizedHandoffSummary {
    type V = HandoffView;

    open spec fn view(&self) -> HandoffView {
        HandoffView {
            stage: self.stage@,
            compressed_conclusion: self.compressed_conclusion@,
            key_points: strs_view(self.key_points@),
            carry_forward_questions: strs_view(self.carry_forward_questions@),
            carry_forward_evidence: evs_view(self.carry_forward_evidence@),
            next_step_suggestion: self.next_step_suggestion@,
            generated_at: self.generated_at@,
        }
    }
}

/// A normalised agent output: the JSON stored for the run, and the handoff
/// summary of a reading stage.
pub struct NormalizedAgentOutput {
    pub output_json: JsonValue,
    pub handoff_summary: Option<NormalizedHandoffSummary>,
}

// ---------------------------------------------------------------------------
// Specification
// ---------------------------------------------------------------------------

/// A string that holds more than whitespace.
pub open spec fn nonblank(o: Option<Seq<char>>) -> Option<Seq<char>> {
    match o {
        Some(s) => if is_blank(s) {
            None
        } else {
            Some(s)
        },
        None => None,
    }
}

pub open spec fn or_else(o: Option<Seq<char>>, d: Seq<char>) -> Seq<char> {
    match o {
        Some(s) => s,
        None => d,
    }
}

/// The string member `key` of an object.
pub open spec fn field_str(ms: Seq<(Seq<char>, Json)>, key: Seq<char>) -> Option<Seq<char>> {
    opt_str(obj_get(ms, key))
}

/// At most the first `n` items of a sequence.
pub open spec fn take_at_most<A>(s: Seq<A>, n: nat) -> Seq<A> {
    if s.len() <= n {
        s
    } else {
        s.take(n as int)
    }
}

/// The evidence item an evidence entry yields: `None` when the entry is not
/// an object, `Some(None)` when it lacks a quote or a locator.
pub open spec fn evidence_entry(item: Json) -> Option<Option<EvidenceView>> {
    match item {
        Json::Obj(ms) => {
            let q = trim(or_else(field_str(ms, "quote"@), Seq::empty()));
            let l = trim(or_else(field_str(ms, "locator"@), Seq::empty()));
            if q.len() == 0 || l.len() == 0 {
                Some(None)
            } else {
                Some(
                    Some(
                        EvidenceView {
                            source_type: "section_text"@,
                            source_object_id: None,
                            quote: q,
                            section: or_else(field_str(ms, "section"@), "Unknown section"@),
                            page: match obj_get(ms, "page"@) {
                                Some(Json::Int(p)) => Some(p as i32),
                                _ => None,
                            },
                            locator: l,
                        },
                    ),
                )
            }
        },
        _ => None,
    }
}

/// The evidence items of a list of entries; `None` when an entry is not an
/// object.
pub open spec fn evidence_items(items: Seq<Json>) -> Option<Seq<EvidenceView>>
    decreases items.len(),
{
    if items.len() == 0 {
        Some(Seq::empty())
    } else {
        match evidence_items(items.drop_last()) {
            None => None,
            Some(acc) => match evidence_entry(items.last()) {
                None => None,
                Some(None) => Some(acc),
                Some(Some(e)) => Some(acc.push(e)),
            },
        }
    }
}

/// `normalize_evidence_list`: the first five entries of an evidence array,
/// without those that lack a quote or a locator; `None` when one of those
/// five is not an object.
pub open spec fn normalize_evidence_spec(v: Option<Json>) -> Option<Seq<EvidenceView>> {
    let items = match opt_arr(v) {
        Some(a) => a,
        None => Seq::empty(),
    };
    evidence_items(take_at_most(items, 5))
}

/// The JSON form of an evidence item.
pub open spec fn evidence_json(e: EvidenceView) -> Json {
    Json::Obj(
        seq![
            ("sourceType"@, Json::Str(e.source_type)),
            ("sourceObjectId"@, match e.source_object_id {
                Some(s) => Json::Str(s),
                None => Json::Null,
            }),
            ("quote"@, Json::Str(e.quote)),
            ("section"@, Json::Str(e.section)),
            ("page"@, match e.page {
                Some(p) => Json::Int(p as i64),
                None => Json::Null,
            }),
            ("locator"@, Json::Str(e.locator)),
        ],
    )
}

pub open spec fn evidence_list_json(es: Seq<EvidenceView>) -> Json {
    Json::Arr(es.map_values(|e: EvidenceView| evidence_json(e)))
}

pub open spec fn strs_json(s: Seq<Seq<char>>) -> Json {
    Json::Arr(s.map_values(|x: Seq<char>| Json::Str(x)))
}

/// The trimmed, non-empty strings of a list of values.
pub open spec fn str_items(items: Seq<Json>) -> Seq<Seq<char>>
    decreases items.len(),
{
    if items.len() == 0 {
        Seq::empty()
    } else {
        let acc = str_items(items.drop_last());
        match items.last() {
            Json::Str(s) => if is_blank(s) {
                acc
            } else {
                acc.push(trim(s))
            },
            _ => acc,
        }
    }
}

/// The trimmed, non-empty strings of an optional array member.
pub open spec fn string_array_spec(v: Option<Json>) -> Seq<Seq<char>> {
    match opt_arr(v) {
        Some(a) => str_items(a),
        None => Seq::empty(),
    }
}

/// The first string in a list of values.
pub open spec fn first_str(items: Seq<Json>) -> Option<Seq<char>>
    decreases items.len(),
{
    if items.len() == 0 {
        None
    } else {
        match items[0] {
            Json::Str(s) => Some(s),
            _ => first_str(items.drop_first()),
        }
    }
}

/// Appends a value, trimmed and cut to 180 characters, when it has content.
pub open spec fn pip(acc: Seq<Seq<char>>, v: Option<Seq<char>>) -> Seq<Seq<char>> {
    match v {
        Some(s) => if is_blank(s) {
            acc
        } else {
            acc.push(truncate_chars(trim(s), 180))
        },
        None => acc,
    }
}

/// Appends the first string of an array member as `pip` does.
pub open spec fn pfai(acc: Seq<Seq<char>>, v: Option<Json>) -> Seq<Seq<char>> {
    pip(
        acc,
        match opt_arr(v) {
            Some(a) => first_str(a),
            None => None,
        },
    )
}

/// The step suggested after each agent when its output names none.
pub open spec fn default_next_step(k: AgentKind) -> Seq<char> {
    match k {
        AgentKind::QuickRead => "continue"@,
        AgentKind::CarefulRead => "continue_deep_dive"@,
        AgentKind::DeepRead => "summarize"@,
        _ => "archive"@,
    }
}

/// The compressed conclusion made from a summary.
pub open spec fn compressed_spec(summary: Seq<char>) -> Seq<char> {
    let t = trim(summary);
    if t.len() == 0 {
        "Information is limited; preserve uncertainty and continue with caution."@
    } else {
        truncate_chars(t, 280)
    }
}

/// The key points a handoff summary is given when the output has none.
pub open spec fn key_points_spec(k: AgentKind, ms: Seq<(Seq<char>, Json)>, summary: Seq<char>) -> Seq<
    Seq<char>,
> {
    let kp = match k {
        AgentKind::QuickRead => pip(
            pip(
                pip(Seq::empty(), field_str(ms, "priorityDecision"@)),
                field_str(ms, "priorityReason"@),
            ),
            field_str(ms, "mainConclusion"@),
        ),
        AgentKind::CarefulRead => pfai(
            pfai(pip(Seq::empty(), field_str(ms, "mainThreadSummary"@)), obj_get(ms, "keyResults"@)),
            obj_get(ms, "limitations"@),
        ),
        AgentKind::DeepRead => {
            let a = pfai(
                pip(Seq::empty(), field_str(ms, "noveltyAssessment"@)),
                obj_get(ms, "coreResultSummary"@),
            );
            match opt_obj(obj_get(ms, "finalSummary"@)) {
                Some(fs) => pip(a, field_str(fs, "mostWorthLearning"@)),
                None => a,
            }
        },
        _ => Seq::empty(),
    };
    let kp2 = if kp.len() == 0 {
        pip(kp, Some(summary))
    } else {
        kp
    };
    take_at_most(kp2, 4)
}

/// The open questions a handoff summary is given when the output has none.
pub open spec fn questions_spec(k: AgentKind, ms: Seq<(Seq<char>, Json)>) -> Seq<Seq<char>> {
    let qs = match k {
        AgentKind::QuickRead => {
            let a = pip(
                Seq::empty(),
                match opt_arr(obj_get(ms, "followUpReferences"@)) {
                    Some(items) => first_str(items),
                    None => None,
                },
            );
            if a.len() == 0 {
                a.push("Which claim or result should be verified in a deeper read?"@)
            } else {
                a
            }
        },
        AgentKind::CarefulRead => {
            let a = pfai(pfai(Seq::empty(), obj_get(ms, "futureDirections"@)), obj_get(ms, "limitations"@));
            if a.len() == 0 {
                a.push("Which limitation or assumption most needs deeper validation?"@)
            } else {
                a
            }
        },
        AgentKind::DeepRead => {
            let a = match opt_obj(obj_get(ms, "finalSummary"@)) {
                Some(fs) => pfai(Seq::empty(), obj_get(fs, "nextThreeActions"@)),
                None => Seq::empty(),
            };
            if a.len() == 0 {
                a.push("What should be highlighted in the final summary for future reuse?"@)
            } else {
                a
            }
        },
        _ => Seq::empty(),
    };
    take_at_most(qs, 3)
}

/// The next step a handoff summary is given when the output has none.
pub open spec fn next_step_spec(k: AgentKind, ms: Seq<(Seq<char>, Json)>) -> Seq<char> {
    match k {
        AgentKind::QuickRead => or_else(
            nonblank(field_str(ms, "recommendation"@)),
            default_next_step(k),
        ),
        AgentKind::CarefulRead => match opt_obj(obj_get(ms, "finalAdvice"@)) {
            Some(fa) => or_else(nonblank(field_str(fa, "nextDecision"@)), default_next_step(k)),
            None => default_next_step(k),
        },
        _ => default_next_step(k),
    }
}

/// `synthesize_handoff_summary`: the handoff summary built from the rest of
/// the output when the model gave none.
pub open spec fn synthesized_handoff(
    agent_type: Seq<char>,
    ms: Seq<(Seq<char>, Json)>,
    summary: Seq<char>,
    evidence: Seq<EvidenceView>,
    now: Seq<char>,
) -> Json {
    let k = agent_kind(agent_type);
    Json::Obj(
        seq![
            ("stage"@, Json::Str(agent_type)),
            ("compressedConclusion"@, Json::Str(compressed_spec(summary))),
            ("keyPoints"@, strs_json(key_points_spec(k, ms, summary))),
            ("carryForwardQuestions"@, strs_json(questions_spec(k, ms))),
            ("carryForwardEvidence"@, evidence_list_json(take_at_most(evidence, 2))),
            ("nextStepSuggestion"@, Json::Str(next_step_spec(k, ms))),
            ("generatedAt"@, Json::Str(now)),
        ],
    )
}

/// A handoff summary checked and completed, or the first violation.
pub open spec fn normalize_handoff_spec(agent_type: Seq<char>, v: Json, now: Seq<char>) -> Result<
    HandoffView,
    Seq<char>,
> {
    match v {
        Json::Obj(ms) => match nonblank(field_str(ms, "compressedConclusion"@)) {
            None => Err("handoffSummary.compressedConclusion is required"@),
            Some(cc) => match normalize_evidence_spec(obj_get(ms, "carryForwardEvidence"@)) {
                None => Err("evidence entries must be objects"@),
                Some(ev) => Ok(
                    HandoffView {
                        stage: or_else(nonblank(field_str(ms, "stage"@)), agent_type),
                        compressed_conclusion: cc,
                        key_points: string_array_spec(obj_get(ms, "keyPoints"@)),
                        carry_forward_questions: string_array_spec(
                            obj_get(ms, "carryForwardQuestions"@),
                        ),
                        carry_forward_evidence: ev,
                        next_step_suggestion: or_else(
                            nonblank(field_str(ms, "nextStepSuggestion"@)),
                            default_next_step(agent_kind(agent_type)),
                        ),
                        generated_at: or_else(nonblank(field_str(ms, "generatedAt"@)), now),
                    },
                ),
            },
        },
        _ => Err("handoffSummary must be an object"@),
    }
}

/// The JSON form of a normalised handoff summary.
pub open spec fn handoff_json(h: HandoffView) -> Json {
    Json::Obj(
        seq![
            ("stage"@, Json::Str(h.stage)),
            ("compressedConclusion"@, Json::Str(h.compressed_conclusion)),
            ("keyPoints"@, strs_json(h.key_points)),
            ("carryForwardQuestions"@, strs_json(h.carry_forward_questions)),
            ("carryForwardEvidence"@, evidence_list_json(h.carry_forward_evidence)),
            ("nextStepSuggestion"@, Json::Str(h.next_step_suggestion)),
            ("generatedAt"@, Json::Str(h.generated_at)),
        ],
    )
}

pub open spec fn required_msg(field: Seq<char>) -> Seq<char> {
    field + " is required"@
}

pub open spec fn array_msg(field: Seq<char>) -> Seq<char> {
    field + " must be a non-empty string array"@
}

pub open spec fn object_msg(field: Seq<char>) -> Seq<char> {
    field + " must be an object"@
}

/// The allowed values joined by `, `.
pub open spec fn join_comma(vs: Seq<Seq<char>>) -> Seq<char>
    decreases vs.len(),
{
    if vs.len() == 0 {
        Seq::empty()
    } else if vs.len() == 1 {
        vs[0]
    } else {
        join_comma(vs.drop_last()) + ", "@ + vs.last()
    }
}

pub open spec fn one_of_msg(label: Seq<char>, allowed: Seq<Seq<char>>) -> Seq<char> {
    label + " must be one of "@ + join_comma(allowed)
}

/// `require_non_empty_string`: the trimmed string member, if it has content.
pub open spec fn req_str(ms: Seq<(Seq<char>, Json)>, field: Seq<char>) -> Option<Seq<char>> {
    match field_str(ms, field) {
        Some(s) => if is_blank(s) {
            None
        } else {
            Some(trim(s))
        },
        None => None,
    }
}

/// `require_non_empty_string_array`: the trimmed, non-empty strings of an
/// array member, if there is at least one.
pub open spec fn req_arr(ms: Seq<(Seq<char>, Json)>, field: Seq<char>) -> Option<Seq<Seq<char>>> {
    match opt_arr(obj_get(ms, field)) {
        Some(a) => if str_items(a).len() == 0 {
            None
        } else {
            Some(str_items(a))
        },
        None => None,
    }
}

/// A required non-blank string member: the error it raises, if any.
pub open spec fn check_str(ms: Seq<(Seq<char>, Json)>, field: Seq<char>) -> Option<Seq<char>> {
    match req_str(ms, field) {
        Some(_) => None,
        None => Some(required_msg(field)),
    }
}

/// A required string member restricted to some values.
pub open spec fn check_enum(
    ms: Seq<(Seq<char>, Json)>,
    field: Seq<char>,
    allowed: Seq<Seq<char>>,
    label: Seq<char>,
) -> Option<Seq<char>> {
    match req_str(ms, field) {
        Some(v) => if allowed.contains(v) {
            None
        } else {
            Some(one_of_msg(label, allowed))
        },
        None => Some(required_msg(field)),
    }
}

/// A required non-empty string array member.
pub open spec fn check_arr(ms: Seq<(Seq<char>, Json)>, field: Seq<char>) -> Option<Seq<char>> {
    match req_arr(ms, field) {
        Some(_) => None,
        None => Some(array_msg(field)),
    }
}

/// Every value of a list lies in `allowed`.
pub open spec fn all_in(vs: Seq<Seq<char>>, allowed: Seq<Seq<char>>) -> bool {
    forall|i: int| 0 <= i < vs.len() ==> allowed.contains(#[trigger] vs[i])
}

pub open spec fn first_err(a: Option<Seq<char>>, b: Option<Seq<char>>) -> Option<Seq<char>> {
    match a {
        Some(m) => Some(m),
        None => b,
    }
}

pub open spec fn reading_recommendations() -> Seq<Seq<char>> {
    seq!["worth_deep_read"@, "worth_skimming_or_save"@, "not_recommended"@]
}

pub open spec fn priority_decisions() -> Seq<Seq<char>> {
    seq!["值得精读"@, "值得略读/暂存"@, "不建议继续读"@]
}

pub open spec fn recommendations() -> Seq<Seq<char>> {
    seq!["continue"@, "skip"@, "uncertain"@]
}

pub open spec fn next_decisions() -> Seq<Seq<char>> {
    seq!["continue_deep_dive"@, "reference_only"@, "set_aside"@]
}

pub open spec fn summary_tags() -> Seq<Seq<char>> {
    seq!["needs_deep_read"@, "need_followup_references"@, "background_citation"@]
}

/// `validate_agent_specific_fields`: the first violation of the agent type's
/// required fields, if any.
pub open spec fn validate_spec(agent_type: Seq<char>, ms: Seq<(Seq<char>, Json)>) -> Option<Seq<char>> {
    match agent_kind(agent_type) {
        AgentKind::QuickRead => first_err(
            check_enum(ms, "readingRecommendation"@, reading_recommendations(), "readingRecommendation"@),
            first_err(
                check_enum(ms, "priorityDecision"@, priority_decisions(), "priorityDecision"@),
                first_err(
                    check_enum(ms, "recommendation"@, recommendations(), "recommendation"@),
                    check_str(ms, "priorityReason"@),
                ),
            ),
        ),
        AgentKind::CarefulRead => first_err(
            check_str(ms, "mainThreadSummary"@),
            first_err(
                check_arr(ms, "limitations"@),
                match opt_obj(obj_get(ms, "finalAdvice"@)) {
                    None => Some(object_msg("finalAdvice"@)),
                    Some(fa) => first_err(
                        check_str(fa, "oneSentenceValue"@),
                        first_err(
                            check_str(fa, "bestToLearn"@),
                            first_err(
                                check_str(fa, "mostNeedCaution"@),
                                check_enum(fa, "nextDecision"@, next_decisions(), "finalAdvice.nextDecision"@),
                            ),
                        ),
                    ),
                },
            ),
        ),
        AgentKind::DeepRead => first_err(
            check_str(ms, "noveltyAssessment"@),
            first_err(
                check_arr(ms, "coreResultSummary"@),
                first_err(
                    check_arr(ms, "limitations"@),
                    match opt_obj(obj_get(ms, "finalSummary"@)) {
                        None => Some(object_msg("finalSummary"@)),
                        Some(fs) => first_err(
                            check_str(fs, "mostWorthLearning"@),
                            first_err(
                                check_str(fs, "mostWorthQuestioning"@),
                                first_err(
                                    check_str(fs, "researchValueForUser"@),
                                    check_arr(fs, "nextThreeActions"@),
                                ),
                            ),
                        ),
                    },
                ),
            ),
        ),
        AgentKind::Summary => first_err(
            check_str(ms, "shortSummary"@),
            first_err(
                check_str(ms, "longSummary"@),
                first_err(
                    check_str(ms, "presentationSummary"@),
                    first_err(
                        check_arr(ms, "keyTakeaways"@),
                        match req_arr(ms, "recommendedTags"@) {
                            None => Some(array_msg("recommendedTags"@)),
                            Some(tags) => if all_in(tags, summary_tags()) {
                                None
                            } else {
                                Some(one_of_msg("recommendedTags"@, summary_tags()))
                            },
                        },
                    ),
                ),
            ),
        ),
        AgentKind::Other => Some("unsupported agent type for schema validation: "@ + agent_type),
    }
}

/// The members after the summary, evidence and agent type are written back.
pub open spec fn with_core_fields(
    ms: Seq<(Seq<char>, Json)>,
    agent_type: Seq<char>,
    summary: Seq<char>,
    ev: Seq<EvidenceView>,
) -> Seq<(Seq<char>, Json)> {
    obj_insert(
        obj_insert(obj_insert(ms, "agentType"@, Json::Str(agent_type)), "summary"@, Json::Str(summary)),
        "evidence"@,
        evidence_list_json(ev),
    )
}

/// The handoff summary once its evidence is filled in from the output's own
/// evidence when it had none.
pub open spec fn with_default_evidence(h: HandoffView, ev: Seq<EvidenceView>) -> HandoffView {
    if h.carry_forward_evidence.len() == 0 {
        HandoffView { carry_forward_evidence: take_at_most(ev, 2), ..h }
    } else {
        h
    }
}

/// `normalize_agent_output`: the normalised output JSON and handoff summary,
/// or the message of the schema violation found.
pub open spec fn normalize_spec(agent_type: Seq<char>, parsed: Json, now: Seq<char>) -> Result<
    (Json, Option<HandoffView>),
    Seq<char>,
> {
    match parsed {
        Json::Obj(ms) => match nonblank(field_str(ms, "summary"@)) {
            None => Err("model output missing summary"@),
            Some(summary) => match normalize_evidence_spec(obj_get(ms, "evidence"@)) {
                None => Err("evidence entries must be objects"@),
                Some(ev) => if ev.len() == 0 {
                    Err("model output missing evidence"@)
                } else {
                    let ms1 = with_core_fields(ms, agent_type, summary, ev);
                    if agent_type == "summary"@ {
                        match validate_spec(agent_type, ms1) {
                            Some(m) => Err(m),
                            None => Ok((Json::Obj(ms1), None)),
                        }
                    } else {
                        let hv = match obj_get(ms1, "handoffSummary"@) {
                            Some(h) => h,
                            None => synthesized_handoff(agent_type, ms1, summary, ev, now),
                        };
                        match normalize_handoff_spec(agent_type, hv, now) {
                            Err(m) => Err(m),
                            Ok(h0) => {
                                let h = with_default_evidence(h0, ev);
                                let ms2 = obj_insert(ms1, "handoffSummary"@, handoff_json(h));
                                match validate_spec(agent_type, ms2) {
                                    Some(m) => Err(m),
                                    None => Ok((Json::Obj(ms2), Some(h))),
                                }
                            },
                        }
                    }
                },
            },
        },
        _ => Err("model output must be a JSON object"@),
    }
}

// ---------------------------------------------------------------------------
// Implementation
// ---------------------------------------------------------------------------

pub open spec fn opt_model(v: Option<&JsonValue>) -> Option<Json> {
    match v {
        Some(x) => Some(x.model()),
        None => None,
    }
}

pub open spec fn opt_ref_view(v: Option<&String>) -> Option<Seq<char>> {
    match v {
        Some(s) => Some(s@),
        None => None,
    }
}

/// The string member `key` of an object.
pub fn field_string<'a>(ms: &'a Vec<JsonMember>, key: &str) -> (r: Option<&'a String>)
    ensures
        opt_ref_view(r) == field_str(members_model(ms@), key@),
{
    match members_get(ms, key) {
        Some(v) => v.as_str(),
        None => None,
    }
}

/// The string member `key` of an object when it holds more than whitespace.
pub fn nonblank_field(ms: &Vec<JsonMember>, key: &str) -> (r: Option<String>)
    ensures
        opt_view(r) == nonblank(field_str(members_model(ms@), key@)),
{
    match field_string(ms, key) {
        Some(s) => if is_blank_str(s.as_str()) {
            None
        } else {
            Some(s.clone())
        },
        None => None,
    }
}

/// The trimmed string member `key`, or the empty string.
fn trimmed_field_or_empty(ms: &Vec<JsonMember>, key: &str) -> (r: String)
    ensures
        r@ == trim(or_else(field_str(members_model(ms@), key@), Seq::empty())),
{
    match field_string(ms, key) {
        Some(s) => trim_str(s.as_str()),
        None => {
            let e = String::new();
            proof {
                assert(trim_start(Seq::<char>::empty()) =~= Seq::<char>::empty());
                assert(trim_end(Seq::<char>::empty()) =~= Seq::<char>::empty());
            }
            e
        },
    }
}

/// The evidence item an evidence entry yields.
fn evidence_entry_exec(item: &JsonValue) -> (r: Option<Option<EvidenceItem>>)
    ensures
        match r {
            None => evidence_entry(item.model()) is None,
            Some(None) => evidence_entry(item.model()) == Some(None::<EvidenceView>),
            Some(Some(e)) => evidence_entry(item.model()) == Some(Some(e@)),
        },
{
    let ms = match item.as_object() {
        Some(ms) => ms,
        None => return None,
    };
    let quote = trimmed_field_or_empty(ms, "quote");
    let locator = trimmed_field_or_empty(ms, "locator");
    if quote.unicode_len() == 0 || locator.unicode_len() == 0 {
        return Some(None);
    }
    let section = match field_string(ms, "section") {
        Some(s) => s.clone(),
        None => owned("Unknown section"),
    };
    let page = match members_get(ms, "page") {
        Some(v) => match v.as_i64() {
            Some(p) => Some(#[verifier::truncate] (p as i32)),
            None => None,
        },
        None => None,
    };
    Some(
        Some(
            EvidenceItem {
                source_type: owned("section_text"),
                source_object_id: None,
                quote,
                section,
                page,
                locator,
            },
        ),
    )
}

proof fn lemma_evidence_items_none_extends(t: Seq<Json>, k: int)
    requires
        0 <= k <= t.len(),
        evidence_items(t.take(k)) is None,
    ensures
        evidence_items(t) is None,
    decreases t.len(),
{
    if k == t.len() {
        assert(t.take(k) =~= t);
    } else {
        assert(t.drop_last().take(k) =~= t.take(k));
        lemma_evidence_items_none_extends(t.drop_last(), k);
    }
}

/// `normalize_evidence_list`: the first five evidence entries that have a
/// quote and a locator; an error when one of those five is not an object.
pub fn normalize_evidence_list(value: Option<&JsonValue>) -> (r: Result<Vec<EvidenceItem>, AppError>)
    ensures
        match r {
            Ok(v) => normalize_evidence_spec(opt_model(value)) == Some(evs_view(v@)),
            Err(e) => normalize_evidence_spec(opt_model(value)) is None && e.is(
                ErrorKind::SchemaInvalid,
                "evidence entries must be objects"@,
            ),
        },
{
    let items = match value {
        Some(v) => v.as_array(),
        None => None,
    };
    let items = match items {
        Some(items) => items,
        None => {
            let out: Vec<EvidenceItem> = Vec::new();
            proof {
                assert(evs_view(out@) =~= Seq::<EvidenceView>::empty());
                assert(take_at_most(Seq::<Json>::empty(), 5) =~= Seq::<Json>::empty());
            }
            return Ok(out);
        },
    };
    let ghost m = seq_model(items@);
    let ghost t = take_at_most(m, 5);
    let n = if items.len() <= 5 {
        items.len()
    } else {
        5
    };
    let mut out: Vec<EvidenceItem> = Vec::new();
    let mut i: usize = 0;
    proof {
        assert(t.take(0) =~= Seq::<Json>::empty());
        assert(evs_view(out@) =~= Seq::<EvidenceView>::empty());
    }
    while i < n
        invariant
            n == t.len(),
            n <= items@.len(),
            m == seq_model(items@),
            t == take_at_most(m, 5),
            normalize_evidence_spec(opt_model(value)) == evidence_items(t),
            i <= n,
            evidence_items(t.take(i as int)) == Some(evs_view(out@)),
        decreases n - i,
    {
        proof {
            assert(t.take(i + 1).drop_last() =~= t.take(i as int));
            assert(t.take(i + 1).last() == t[i as int]);
            assert(t[i as int] == items@[i as int].model());
        }
        match evidence_entry_exec(&items[i]) {
            None => {
                proof {
                    lemma_evidence_items_none_extends(t, i + 1);
                }
                return Err(schema_invalid(owned("evidence entries must be objects")));
            },
            Some(None) => {},
            Some(Some(e)) => {
                let ghost before = out@;
                out.push(e);
                proof {
                    assert(evs_view(out@) =~= evs_view(before).push(e@));
                }
            },
        }
        i = i + 1;
    }
    proof {
        assert(t.take(n as int) =~= t);
    }
    Ok(out)
}

/// The trimmed, non-empty strings of a list of values.
fn str_items_exec(items: &Vec<JsonValue>) -> (r: Vec<String>)
    ensures
        strs_view(r@) == str_items(seq_model(items@)),
{
    let ghost m = seq_model(items@);
    let mut out: Vec<String> = Vec::new();
    let mut i: usize = 0;
    proof {
        assert(m.take(0) =~= Seq::<Json>::empty());
        assert(strs_view(out@) =~= Seq::<Seq<char>>::empty());
    }
    while i < items.len()
        invariant
            m == seq_model(items@),
            i <= items@.len(),
            str_items(m.take(i as int)) == strs_view(out@),
        decreases items@.len() - i,
    {
        proof {
            assert(m.take(i + 1).drop_last() =~= m.take(i as int));
            assert(m.take(i + 1).last() == items@[i as int].model());
        }
        match items[i].as_str() {
            Some(s) => {
                if !is_blank_str(s.as_str()) {
                    let ghost before = out@;
                    out.push(trim_str(s.as_str()));
                    proof {
                        assert(strs_view(out@) =~= strs_view(before).push(trim(s@)));
                    }
                }
            },
            None => {},
        }
        i = i + 1;
    }
    proof {
        assert(m.take(items@.len() as int) =~= m);
    }
    out
}

/// `string_array`: the trimmed, non-empty strings of an array member.
pub fn string_array(value: Option<&JsonValue>) -> (r: Vec<String>)
    ensures
        strs_view(r@) == string_array_spec(opt_model(value)),
{
    let items = match value {
        Some(v) => v.as_array(),
        None => None,
    };
    match items {
        Some(items) => str_items_exec(items),
        None => {
            let out: Vec<String> = Vec::new();
            proof {
                assert(strs_view(out@) =~= Seq::<Seq<char>>::empty());
            }
            out
        },
    }
}

/// The first string in a list of values.
fn first_string(items: &Vec<JsonValue>) -> (r: Option<&String>)
    ensures
        opt_ref_view(r) == first_str(seq_model(items@)),
{
    let ghost m = seq_model(items@);
    let mut i: usize = 0;
    proof {
        assert(m.skip(0) =~= m);
    }
    while i < items.len()
        invariant
            m == seq_model(items@),
            i <= items@.len(),
            first_str(m) == first_str(m.skip(i as int)),
        decreases items@.len() - i,
    {
        proof {
            assert(m.skip(i as int)[0] == items@[i as int].model());
            assert(m.skip(i as int).drop_first() =~= m.skip(i + 1));
        }
        match items[i].as_str() {
            Some(s) => {
                return Some(s);
            },
            None => {},
        }
        i = i + 1;
    }
    None
}

/// `push_if_present`: appends the trimmed value, cut to 180 characters, when
/// it holds more than whitespace.
pub fn push_if_present(target: &mut Vec<String>, value: Option<&String>)
    ensures
        strs_view(final(target)@) == pip(strs_view(old(target)@), opt_ref_view(value)),
{
    match value {
        Some(s) => {
            if !is_blank_str(s.as_str()) {
                let t = trim_str(s.as_str());
                let c = truncate_text(t.as_str(), 180);
                let ghost before = target@;
                target.push(c);
                proof {
                    assert(strs_view(target@) =~= strs_view(before).push(truncate_chars(trim(s@), 180)));
                }
            }
        },
        None => {},
    }
}

/// `push_first_array_item`: `push_if_present` of the first string of an
/// array member.
pub fn push_first_array_item(target: &mut Vec<String>, value: Option<&JsonValue>)
    ensures
        strs_view(final(target)@) == pfai(strs_view(old(target)@), opt_model(value)),
{
    let items = match value {
        Some(v) => v.as_array(),
        None => None,
    };
    match items {
        Some(items) => {
            let first = first_string(items);
            push_if_present(target, first);
        },
        None => {
            push_if_present(target, None);
        },
    }
}

/// The member `key` of an object, as a reference.
pub fn field<'a>(ms: &'a Vec<JsonMember>, key: &str) -> (r: Option<&'a JsonValue>)
    ensures
        opt_model(r) == obj_get(members_model(ms@), key@),
{
    members_get(ms, key)
}

/// The object member `key` of an object.
pub fn field_object<'a>(ms: &'a Vec<JsonMember>, key: &str) -> (r: Option<&'a Vec<JsonMember>>)
    ensures
        match r {
            Some(o) => opt_obj(obj_get(members_model(ms@), key@)) == Some(members_model(o@)),
            None => opt_obj(obj_get(members_model(ms@), key@)) is None,
        },
{
    match members_get(ms, key) {
        Some(v) => v.as_object(),
        None => None,
    }
}

/// Keeps at most the first `n` strings.
fn truncate_strs(v: &mut Vec<String>, n: usize)
    ensures
        strs_view(final(v)@) == take_at_most(strs_view(old(v)@), n as nat),
{
    if v.len() > n {
        v.truncate(n);
        proof {
            assert(strs_view(v@) =~= strs_view(old(v)@).take(n as int));
        }
    }
}

/// A copy of an evidence item.
pub fn clone_evidence(e: &EvidenceItem) -> (r: EvidenceItem)
    ensures
        r@ == e@,
{
    EvidenceItem {
        source_type: e.source_type.clone(),
        source_object_id: crate::workflow::clone_opt(&e.source_object_id),
        quote: e.quote.clone(),
        section: e.section.clone(),
        page: e.page,
        locator: e.locator.clone(),
    }
}

/// At most the first `limit` evidence items.
pub fn evidence_prefix(es: &Vec<EvidenceItem>, limit: usize) -> (r: Vec<EvidenceItem>)
    ensures
        evs_view(r@) == take_at_most(evs_view(es@), limit as nat),
{
    let n = if es.len() <= limit {
        es.len()
    } else {
        limit
    };
    let mut out: Vec<EvidenceItem> = Vec::new();
    let mut i: usize = 0;
    while i < n
        invariant
            n <= es@.len(),
            n == take_at_most(evs_view(es@), limit as nat).len(),
            i <= n,
            out@.len() == i,
            forall|j: int| 0 <= j < i ==> (#[trigger] out@[j])@ == es@[j]@,
        decreases n - i,
    {
        out.push(clone_evidence(&es[i]));
        i = i + 1;
    }
    proof {
        assert(evs_view(out@) =~= take_at_most(evs_view(es@), limit as nat));
    }
    out
}

/// The JSON form of an evidence item.
pub fn evidence_to_json(e: &EvidenceItem) -> (j: JsonValue)
    ensures
        j.model() == evidence_json(e@),
{
    let mut ms: Vec<JsonMember> = Vec::new();
    ms.push(JsonMember { key: owned("sourceType"), value: JsonValue::Str(e.source_type.clone()) });
    let id = match &e.source_object_id {
        Some(s) => JsonValue::Str(s.clone()),
        None => JsonValue::Null,
    };
    ms.push(JsonMember { key: owned("sourceObjectId"), value: id });
    ms.push(JsonMember { key: owned("quote"), value: JsonValue::Str(e.quote.clone()) });
    ms.push(JsonMember { key: owned("section"), value: JsonValue::Str(e.section.clone()) });
    let page = match e.page {
        Some(p) => JsonValue::Number(JsonNumber::Int(p as i64)),
        None => JsonValue::Null,
    };
    ms.push(JsonMember { key: owned("page"), value: page });
    ms.push(JsonMember { key: owned("locator"), value: JsonValue::Str(e.locator.clone()) });
    proof {
        assert(members_model(ms@) =~= evidence_json(e@)->Obj_0);
        lemma_object_model(ms);
    }
    JsonValue::Object(ms)
}

/// The JSON array of a list of evidence items.
pub fn evidence_array(es: &Vec<EvidenceItem>) -> (j: JsonValue)
    ensures
        j.model() == evidence_list_json(evs_view(es@)),
{
    let mut out: Vec<JsonValue> = Vec::new();
    let mut i: usize = 0;
    while i < es.len()
        invariant
            i <= es@.len(),
            out@.len() == i,
            forall|k: int| 0 <= k < i ==> (#[trigger] out@[k]).model() == evidence_json(es@[k]@),
        decreases es@.len() - i,
    {
        out.push(evidence_to_json(&es[i]));
        i = i + 1;
    }
    proof {
        assert(seq_model(out@) =~= evs_view(es@).map_values(|e: EvidenceView| evidence_json(e)));
        lemma_array_model(out);
    }
    JsonValue::Array(out)
}

/// A JSON array of strings.
pub fn strings_to_json(v: &Vec<String>) -> (j: JsonValue)
    ensures
        j.model() == strs_json(strs_view(v@)),
{
    let j = string_array_value(v);
    assert(v@.map_values(|s: String| Json::Str(s@)) =~= strs_view(v@).map_values(
        |x: Seq<char>| Json::Str(x),
    ));
    j
}

/// The step suggested after an agent's run.
pub fn next_step_for_agent(agent_type: &str) -> (r: String)
    ensures
        r@ == default_next_step(agent_kind(agent_type@)),
{
    match agent_kind_of(agent_type) {
        AgentKind::QuickRead => owned("continue"),
        AgentKind::CarefulRead => owned("continue_deep_dive"),
        AgentKind::DeepRead => owned("summarize"),
        _ => owned("archive"),
    }
}

/// `synthesize_compressed_conclusion`: the trimmed summary cut to 280
/// characters, or a caution when the summary is blank.
pub fn synthesize_compressed_conclusion(summary: &str) -> (r: String)
    ensures
        r@ == compressed_spec(summary@),
{
    let t = trim_str(summary);
    if t.unicode_len() == 0 {
        owned("Information is limited; preserve uncertainty and continue with caution.")
    } else {
        truncate_text(t.as_str(), 280)
    }
}

/// Key points for a handoff summary, taken from the agent's output.
pub fn synthesize_handoff_key_points(agent_type: &str, ms: &Vec<JsonMember>, summary: &String) -> (r:
    Vec<String>)
    ensures
        strs_view(r@) == key_points_spec(agent_kind(agent_type@), members_model(ms@), summary@),
{
    let mut kp = list0();
    match agent_kind_of(agent_type) {
        AgentKind::QuickRead => {
            push_if_present(&mut kp, field_string(ms, "priorityDecision"));
            push_if_present(&mut kp, field_string(ms, "priorityReason"));
            push_if_present(&mut kp, field_string(ms, "mainConclusion"));
        },
        AgentKind::CarefulRead => {
            push_if_present(&mut kp, field_string(ms, "mainThreadSummary"));
            push_first_array_item(&mut kp, field(ms, "keyResults"));
            push_first_array_item(&mut kp, field(ms, "limitations"));
        },
        AgentKind::DeepRead => {
            push_if_present(&mut kp, field_string(ms, "noveltyAssessment"));
            push_first_array_item(&mut kp, field(ms, "coreResultSummary"));
            match field_object(ms, "finalSummary") {
                Some(fs) => push_if_present(&mut kp, field_string(fs, "mostWorthLearning")),
                None => {},
            }
        },
        _ => {},
    }
    if kp.len() == 0 {
        push_if_present(&mut kp, Some(summary));
    }
    truncate_strs(&mut kp, 4);
    kp
}

/// Open questions for a handoff summary, taken from the agent's output.
pub fn synthesize_handoff_questions(agent_type: &str, ms: &Vec<JsonMember>) -> (r: Vec<String>)
    ensures
        strs_view(r@) == questions_spec(agent_kind(agent_type@), members_model(ms@)),
{
    let mut qs = list0();
    match agent_kind_of(agent_type) {
        AgentKind::QuickRead => {
            let first = match field(ms, "followUpReferences") {
                Some(v) => match v.as_array() {
                    Some(items) => first_string(items),
                    None => None,
                },
                None => None,
            };
            push_if_present(&mut qs, first);
            if qs.len() == 0 {
                push_lit(&mut qs, "Which claim or result should be verified in a deeper read?");
            }
        },
        AgentKind::CarefulRead => {
            push_first_array_item(&mut qs, field(ms, "futureDirections"));
            push_first_array_item(&mut qs, field(ms, "limitations"));
            if qs.len() == 0 {
                push_lit(&mut qs, "Which limitation or assumption most needs deeper validation?");
            }
        },
        AgentKind::DeepRead => {
            match field_object(ms, "finalSummary") {
                Some(fs) => push_first_array_item(&mut qs, field(fs, "nextThreeActions")),
                None => {},
            }
            if qs.len() == 0 {
                push_lit(&mut qs, "What should be highlighted in the final summary for future reuse?");
            }
        },
        _ => {},
    }
    truncate_strs(&mut qs, 3);
    qs
}

/// The next step for a handoff summary, taken from the agent's output.
pub fn synthesize_next_step(agent_type: &str, ms: &Vec<JsonMember>) -> (r: String)
    ensures
        r@ == next_step_spec(agent_kind(agent_type@), members_model(ms@)),
{
    match agent_kind_of(agent_type) {
        AgentKind::QuickRead => match nonblank_field(ms, "recommendation") {
            Some(s) => s,
            None => next_step_for_agent(agent_type),
        },
        AgentKind::CarefulRead => match field_object(ms, "finalAdvice") {
            Some(fa) => match nonblank_field(fa, "nextDecision") {
                Some(s) => s,
                None => next_step_for_agent(agent_type),
            },
            None => next_step_for_agent(agent_type),
        },
        _ => next_step_for_agent(agent_type),
    }
}

/// `synthesize_handoff_summary`: a handoff summary built from the rest of the
/// output, stamped with the time `now`.
pub fn synthesize_handoff_summary(
    agent_type: &str,
    ms: &Vec<JsonMember>,
    summary: &String,
    evidence: &Vec<EvidenceItem>,
    now: &str,
) -> (j: JsonValue)
    ensures
        j.model() == synthesized_handoff(
            agent_type@,
            members_model(ms@),
            summary@,
            evs_view(evidence@),
            now@,
        ),
{
    let cc = synthesize_compressed_conclusion(summary.as_str());
    let kp = synthesize_handoff_key_points(agent_type, ms, summary);
    let qs = synthesize_handoff_questions(agent_type, ms);
    let ev = evidence_prefix(evidence, 2);
    let next = synthesize_next_step(agent_type, ms);
    let mut out: Vec<JsonMember> = Vec::new();
    out.push(JsonMember { key: owned("stage"), value: JsonValue::Str(owned(agent_type)) });
    out.push(JsonMember { key: owned("compressedConclusion"), value: JsonValue::Str(cc) });
    out.push(JsonMember { key: owned("keyPoints"), value: strings_to_json(&kp) });
    out.push(JsonMember { key: owned("carryForwardQuestions"), value: strings_to_json(&qs) });
    out.push(JsonMember { key: owned("carryForwardEvidence"), value: evidence_array(&ev) });
    out.push(JsonMember { key: owned("nextStepSuggestion"), value: JsonValue::Str(next) });
    out.push(JsonMember { key: owned("generatedAt"), value: JsonValue::Str(owned(now)) });
    proof {
        assert(members_model(out@) =~= synthesized_handoff(
            agent_type@,
            members_model(ms@),
            summary@,
            evs_view(evidence@),
            now@,
        )->Obj_0);
        lemma_object_model(out);
    }
    JsonValue::Object(out)
}

/// `normalize_handoff_summary`: checks and completes a handoff summary;
/// missing optional parts fall back to the agent type, its default next step
/// and the time `now`.
pub fn normalize_handoff_summary(agent_type: &str, value: &JsonValue, now: &str) -> (r: Result<
    NormalizedHandoffSummary,
    AppError,
>)
    ensures
        match r {
            Ok(h) => normalize_handoff_spec(agent_type@, value.model(), now@) == Ok::<
                HandoffView,
                Seq<char>,
            >(h@),
            Err(e) => normalize_handoff_spec(agent_type@, value.model(), now@) == Err::<
                HandoffView,
                Seq<char>,
            >(e.msg()) && e.kind() == ErrorKind::SchemaInvalid,
        },
{
    let ms = match value.as_object() {
        Some(ms) => ms,
        None => {
            return Err(schema_invalid(owned("handoffSummary must be an object")));
        },
    };
    let key_points = string_array(field(ms, "keyPoints"));
    let carry_forward_questions = string_array(field(ms, "carryForwardQuestions"));
    let generated_at = match nonblank_field(ms, "generatedAt") {
        Some(s) => s,
        None => owned(now),
    };
    let stage = match nonblank_field(ms, "stage") {
        Some(s) => s,
        None => owned(agent_type),
    };
    let compressed_conclusion = match nonblank_field(ms, "compressedConclusion") {
        Some(s) => s,
        None => {
            return Err(
                schema_invalid(owned("handoffSummary.compressedConclusion is required")),
            );
        },
    };
    let carry_forward_evidence = match normalize_evidence_list(field(ms, "carryForwardEvidence")) {
        Ok(v) => v,
        Err(e) => {
            return Err(e);
        },
    };
    let next_step_suggestion = match nonblank_field(ms, "nextStepSuggestion") {
        Some(s) => s,
        None => next_step_for_agent(agent_type),
    };
    Ok(
        NormalizedHandoffSummary {
            stage,
            compressed_conclusion,
            key_points,
            carry_forward_questions,
            carry_forward_evidence,
            next_step_suggestion,
            generated_at,
        },
    )
}

/// The JSON form of a normalised handoff summary.
pub fn handoff_to_json(h: &NormalizedHandoffSummary) -> (j: JsonValue)
    ensures
        j.model() == handoff_json(h@),
{
    let mut out: Vec<JsonMember> = Vec::new();
    out.push(JsonMember { key: owned("stage"), value: JsonValue::Str(h.stage.clone()) });
    out.push(
        JsonMember {
            key: owned("compressedConclusion"),
            value: JsonValue::Str(h.compressed_conclusion.clone()),
        },
    );
    out.push(JsonMember { key: owned("keyPoints"), value: strings_to_json(&h.key_points) });
    out.push(
        JsonMember {
            key: owned("carryForwardQuestions"),
            value: strings_to_json(&h.carry_forward_questions),
        },
    );
    out.push(
        JsonMember {
            key: owned("carryForwardEvidence"),
            value: evidence_array(&h.carry_forward_evidence),
        },
    );
    out.push(
        JsonMember {
            key: owned("nextStepSuggestion"),
            value: JsonValue::Str(h.next_step_suggestion.clone()),
        },
    );
    out.push(JsonMember { key: owned("generatedAt"), value: JsonValue::Str(h.generated_at.clone()) });
    proof {
        assert(members_model(out@) =~= handoff_json(h@)->Obj_0);
        lemma_object_model(out);
    }
    JsonValue::Object(out)
}

/// `require_non_empty_string`: the trimmed string member `field`, which must
/// hold more than whitespace.
pub fn require_non_empty_string(ms: &Vec<JsonMember>, field: &str) -> (r: Result<String, AppError>)
    ensures
        match r {
            Ok(v) => req_str(members_model(ms@), field@) == Some(v@),
            Err(e) => req_str(members_model(ms@), field@) is None && e.is(
                ErrorKind::SchemaInvalid,
                required_msg(field@),
            ),
        },
{
    match field_string(ms, field) {
        Some(s) => if !is_blank_str(s.as_str()) {
            return Ok(trim_str(s.as_str()));
        },
        None => {},
    }
    Err(schema_invalid(cat(field, " is required")))
}

/// `require_non_empty_string_array`: the trimmed, non-empty strings of the
/// array member `field`, of which there must be at least one.
pub fn require_non_empty_string_array(ms: &Vec<JsonMember>, field: &str) -> (r: Result<
    Vec<String>,
    AppError,
>)
    ensures
        match r {
            Ok(v) => req_arr(members_model(ms@), field@) == Some(strs_view(v@)),
            Err(e) => req_arr(members_model(ms@), field@) is None && e.is(
                ErrorKind::SchemaInvalid,
                array_msg(field@),
            ),
        },
{
    let items = match members_get(ms, field) {
        Some(v) => v.as_array(),
        None => None,
    };
    match items {
        Some(items) => {
            let values = str_items_exec(items);
            if values.len() > 0 {
                return Ok(values);
            }
        },
        None => {},
    }
    Err(schema_invalid(cat(field, " must be a non-empty string array")))
}

/// `require_object`: the object member `field`.
pub fn require_object<'a>(ms: &'a Vec<JsonMember>, field: &str) -> (r: Result<
    &'a Vec<JsonMember>,
    AppError,
>)
    ensures
        match r {
            Ok(o) => opt_obj(obj_get(members_model(ms@), field@)) == Some(members_model(o@)),
            Err(e) => opt_obj(obj_get(members_model(ms@), field@)) is None && e.is(
                ErrorKind::SchemaInvalid,
                object_msg(field@),
            ),
        },
{
    match field_object(ms, field) {
        Some(o) => Ok(o),
        None => Err(schema_invalid(cat(field, " must be an object"))),
    }
}

/// The allowed values joined by `, `.
pub fn join_comma_exec(vs: &Vec<String>) -> (r: String)
    ensures
        r@ == join_comma(strs_view(vs@)),
{
    let mut out = String::new();
    let mut i: usize = 0;
    proof {
        assert(strs_view(vs@).take(0) =~= Seq::<Seq<char>>::empty());
    }
    while i < vs.len()
        invariant
            i <= vs@.len(),
            out@ == join_comma(strs_view(vs@).take(i as int)),
        decreases vs@.len() - i,
    {
        let ghost prev = strs_view(vs@).take(i as int);
        proof {
            assert(strs_view(vs@).take(i + 1).drop_last() =~= prev);
            assert(strs_view(vs@).take(i + 1).last() == vs@[i as int]@);
        }
        if i > 0 {
            out.append(", ");
        }
        out.append(vs[i].as_str());
        proof {
            if i == 0 {
                assert(out@ =~= vs@[0]@);
                assert(strs_view(vs@).take(1) =~= seq![vs@[0]@]);
            }
        }
        i = i + 1;
    }
    proof {
        assert(strs_view(vs@).take(vs@.len() as int) =~= strs_view(vs@));
    }
    out
}

/// `validate_enum`: `value` must be one of `allowed`.
pub fn validate_enum(value: &String, allowed: &Vec<String>, field: &str) -> (r: Result<(), AppError>)
    ensures
        r is Ok <==> strs_view(allowed@).contains(value@),
        r matches Err(e) ==> e.is(ErrorKind::SchemaInvalid, one_of_msg(field@, strs_view(allowed@))),
{
    let mut i: usize = 0;
    while i < allowed.len()
        invariant
            i <= allowed@.len(),
            forall|j: int| 0 <= j < i ==> strs_view(allowed@)[j] != value@,
        decreases allowed@.len() - i,
    {
        if allowed[i] == *value {
            assert(strs_view(allowed@)[i as int] == value@);
            return Ok(());
        }
        i = i + 1;
    }
    let joined = join_comma_exec(allowed);
    let mut msg = cat(field, " must be one of ");
    msg.append(joined.as_str());
    Err(schema_invalid(msg))
}

/// A required string member restricted to the given values.
fn check_enum_exec(ms: &Vec<JsonMember>, field: &str, allowed: &Vec<String>, label: &str) -> (r:
    Option<AppError>)
    ensures
        match r {
            None => check_enum(members_model(ms@), field@, strs_view(allowed@), label@) is None,
            Some(e) => check_enum(members_model(ms@), field@, strs_view(allowed@), label@) == Some(
                e.msg(),
            ) && e.kind() == ErrorKind::SchemaInvalid,
        },
{
    match require_non_empty_string(ms, field) {
        Ok(v) => match validate_enum(&v, allowed, label) {
            Ok(()) => None,
            Err(e) => Some(e),
        },
        Err(e) => Some(e),
    }
}

/// A required non-blank string member.
fn check_str_exec(ms: &Vec<JsonMember>, field: &str) -> (r: Option<AppError>)
    ensures
        match r {
            None => check_str(members_model(ms@), field@) is None,
            Some(e) => check_str(members_model(ms@), field@) == Some(e.msg()) && e.kind()
                == ErrorKind::SchemaInvalid,
        },
{
    match require_non_empty_string(ms, field) {
        Ok(_) => None,
        Err(e) => Some(e),
    }
}

/// A required non-empty string array member.
fn check_arr_exec(ms: &Vec<JsonMember>, field: &str) -> (r: Option<AppError>)
    ensures
        match r {
            None => check_arr(members_model(ms@), field@) is None,
            Some(e) => check_arr(members_model(ms@), field@) == Some(e.msg()) && e.kind()
                == ErrorKind::SchemaInvalid,
        },
{
    match require_non_empty_string_array(ms, field) {
        Ok(_) => None,
        Err(e) => Some(e),
    }
}

/// `validate_agent_specific_fields`: the fields each agent type must fill in.
pub fn validate_agent_specific_fields(agent_type: &str, ms: &Vec<JsonMember>) -> (r: Result<
    (),
    AppError,
>)
    ensures
        match r {
            Ok(()) => validate_spec(agent_type@, members_model(ms@)) is None,
            Err(e) => validate_spec(agent_type@, members_model(ms@)) == Some(e.msg()) && e.kind()
                == ErrorKind::SchemaInvalid,
        },
{
    match agent_kind_of(agent_type) {
        AgentKind::QuickRead => {
            let a = list3("worth_deep_read", "worth_skimming_or_save", "not_recommended");
            if let Some(e) = check_enum_exec(ms, "readingRecommendation", &a, "readingRecommendation") {
                return Err(e);
            }
            let b = list3("值得精读", "值得略读/暂存", "不建议继续读");
            if let Some(e) = check_enum_exec(ms, "priorityDecision", &b, "priorityDecision") {
                return Err(e);
            }
            let c = list3("continue", "skip", "uncertain");
            if let Some(e) = check_enum_exec(ms, "recommendation", &c, "recommendation") {
                return Err(e);
            }
            if let Some(e) = check_str_exec(ms, "priorityReason") {
                return Err(e);
            }
            Ok(())
        },
        AgentKind::CarefulRead => {
            if let Some(e) = check_str_exec(ms, "mainThreadSummary") {
                return Err(e);
            }
            if let Some(e) = check_arr_exec(ms, "limitations") {
                return Err(e);
            }
            let fa = match require_object(ms, "finalAdvice") {
                Ok(fa) => fa,
                Err(e) => {
                    return Err(e);
                },
            };
            if let Some(e) = check_str_exec(fa, "oneSentenceValue") {
                return Err(e);
            }
            if let Some(e) = check_str_exec(fa, "bestToLearn") {
                return Err(e);
            }
            if let Some(e) = check_str_exec(fa, "mostNeedCaution") {
                return Err(e);
            }
            let d = list3("continue_deep_dive", "reference_only", "set_aside");
            if let Some(e) = check_enum_exec(fa, "nextDecision", &d, "finalAdvice.nextDecision") {
                return Err(e);
            }
            Ok(())
        },
        AgentKind::DeepRead => {
            if let Some(e) = check_str_exec(ms, "noveltyAssessment") {
                return Err(e);
            }
            if let Some(e) = check_arr_exec(ms, "coreResultSummary") {
                return Err(e);
            }
            if let Some(e) = check_arr_exec(ms, "limitations") {
                return Err(e);
            }
            let fs = match require_object(ms, "finalSummary") {
                Ok(fs) => fs,
                Err(e) => {
                    return Err(e);
                },
            };
            if let Some(e) = check_str_exec(fs, "mostWorthLearning") {
                return Err(e);
            }
            if let Some(e) = check_str_exec(fs, "mostWorthQuestioning") {
                return Err(e);
            }
            if let Some(e) = check_str_exec(fs, "researchValueForUser") {
                return Err(e);
            }
            if let Some(e) = check_arr_exec(fs, "nextThreeActions") {
                return Err(e);
            }
            Ok(())
        },
        AgentKind::Summary => {
            if let Some(e) = check_str_exec(ms, "shortSummary") {
                return Err(e);
            }
            if let Some(e) = check_str_exec(ms, "longSummary") {
                return Err(e);
            }
            if let Some(e) = check_str_exec(ms, "presentationSummary") {
                return Err(e);
            }
            if let Some(e) = check_arr_exec(ms, "keyTakeaways") {
                return Err(e);
            }
            let tags = match require_non_empty_string_array(ms, "recommendedTags") {
                Ok(t) => t,
                Err(e) => {
                    return Err(e);
                },
            };
            let allowed = list3("needs_deep_read", "need_followup_references", "background_citation");
            let mut i: usize = 0;
            #[verifier::loop_isolation(false)]
            while i < tags.len()
                invariant
                    i <= tags@.len(),
                    strs_view(allowed@) == summary_tags(),
                    forall|j: int| 0 <= j < i ==> summary_tags().contains(#[trigger] strs_view(tags@)[j]),
                decreases tags@.len() - i,
            {
                match validate_enum(&tags[i], &allowed, "recommendedTags") {
                    Ok(()) => {},
                    Err(e) => {
                        assert(strs_view(tags@)[i as int] == tags@[i as int]@);
                        assert(!all_in(strs_view(tags@), summary_tags()));
                        return Err(e);
                    },
                }
                i = i + 1;
            }
            assert(all_in(strs_view(tags@), summary_tags()));
            Ok(())
        },
        AgentKind::Other => {
            let msg = cat("unsupported agent type for schema validation: ", agent_type);
            Err(schema_invalid(msg))
        },
    }
}

pub open spec fn opt_handoff_view(h: Option<NormalizedHandoffSummary>) -> Option<HandoffView> {
    match h {
        Some(h) => Some(h@),
        None => None,
    }
}

/// `normalize_agent_output`: checks the JSON object an agent returned and
/// completes it. The summary and at least one piece of evidence are required;
/// the evidence is cleaned up and written back along with the agent type; a
/// reading stage gets a handoff summary (the model's own, or one built from
/// the rest of the output, stamped with the time `now`); finally the fields
/// the agent type requires are checked.
pub fn normalize_agent_output(agent_type: &str, parsed: JsonValue, now: &str) -> (r: Result<
    NormalizedAgentOutput,
    AppError,
>)
    ensures
        match r {
            Ok(o) => normalize_spec(agent_type@, parsed.model(), now@) == Ok::<
                (Json, Option<HandoffView>),
                Seq<char>,
            >((o.output_json.model(), opt_handoff_view(o.handoff_summary))),
            Err(e) => normalize_spec(agent_type@, parsed.model(), now@) == Err::<
                (Json, Option<HandoffView>),
                Seq<char>,
            >(e.msg()) && e.kind() == ErrorKind::SchemaInvalid,
        },
{
    let ghost pm = parsed.model();
    let mut ms = match parsed {
        JsonValue::Object(ms) => ms,
        _ => {
            return Err(schema_invalid(owned("model output must be a JSON object")));
        },
    };
    proof {
        lemma_object_model(ms);
    }
    let ghost ms0 = members_model(ms@);
    let summary = match nonblank_field(&ms, "summary") {
        Some(s) => s,
        None => {
            return Err(schema_invalid(owned("model output missing summary")));
        },
    };
    let evidence = match normalize_evidence_list(field(&ms, "evidence")) {
        Ok(v) => v,
        Err(e) => {
            return Err(e);
        },
    };
    if evidence.len() == 0 {
        return Err(schema_invalid(owned("model output missing evidence")));
    }
    members_insert(&mut ms, "agentType", JsonValue::Str(owned(agent_type)));
    members_insert(&mut ms, "summary", JsonValue::Str(summary.clone()));
    members_insert(&mut ms, "evidence", evidence_array(&evidence));
    let ghost ms1 = members_model(ms@);
    assert(ms1 == with_core_fields(ms0, agent_type@, summary@, evs_view(evidence@)));
    let handoff = if str_eq(agent_type, "summary") {
        None
    } else {
        let hv = match members_get(&ms, "handoffSummary") {
            Some(h) => h.deep_clone(),
            None => synthesize_handoff_summary(agent_type, &ms, &summary, &evidence, now),
        };
        let mut h = match normalize_handoff_summary(agent_type, &hv, now) {
            Ok(h) => h,
            Err(e) => {
                return Err(e);
            },
        };
        if h.carry_forward_evidence.len() == 0 {
            h.carry_forward_evidence = evidence_prefix(&evidence, 2);
        }
        let hj = handoff_to_json(&h);
        members_insert(&mut ms, "handoffSummary", hj);
        Some(h)
    };
    match validate_agent_specific_fields(agent_type, &ms) {
        Ok(()) => {},
        Err(e) => {
            return Err(e);
        },
    }
    proof {
        lemma_object_model(ms);
    }
    Ok(NormalizedAgentOutput { output_json: JsonValue::Object(ms), handoff_summary: handoff })
}

// ---------------------------------------------------------------------------
// Laws
// ---------------------------------------------------------------------------

/// An evidence item as normalisation produces it: a section-text item whose
/// quote and locator are trimmed and not empty.
pub open spec fn evidence_wf(e: EvidenceView) -> bool {
    &&& e.source_type == "section_text"@
    &&& e.source_object_id is None
    &&& e.quote.len() > 0
    &&& e.locator.len() > 0
    &&& trim(e.quote) == e.quote
    &&& trim(e.locator) == e.locator
}

pub proof fn lemma_trim_idempotent(s: Seq<char>)
    ensures
        trim(trim(s)) == trim(s),
{
    crate::text::lemma_blank_iff_all_ws(s);
    let t = trim(s);
    if t.len() > 0 {
        assert(trim_start(t) == t);
        assert(trim_end(t) == t);
    } else {
        assert(trim_start(t) =~= t);
        assert(trim_end(t) =~= t);
    }
}

proof fn lemma_evidence_items_wf(items: Seq<Json>)
    ensures
        evidence_items(items) matches Some(es) ==> es.len() <= items.len() && forall|i: int|
            0 <= i < es.len() ==> evidence_wf(#[trigger] es[i]),
    decreases items.len(),
{
    if items.len() > 0 {
        lemma_evidence_items_wf(items.drop_last());
        if let Some(Some(e)) = evidence_entry(items.last()) {
            if let Json::Obj(ms) = items.last() {
                lemma_trim_idempotent(or_else(field_str(ms, "quote"@), Seq::empty()));
                lemma_trim_idempotent(or_else(field_str(ms, "locator"@), Seq::empty()));
            }
        }
    }
}

/// Normalised evidence lists hold at most five items, each a section-text
/// item with a trimmed, non-empty quote and locator.
pub proof fn law_normalized_evidence_is_well_formed(v: Option<Json>)
    ensures
        normalize_evidence_spec(v) matches Some(es) ==> es.len() <= 5 && forall|i: int|
            0 <= i < es.len() ==> evidence_wf(#[trigger] es[i]),
{
    let items = match opt_arr(v) {
        Some(a) => a,
        None => Seq::empty(),
    };
    lemma_evidence_items_wf(take_at_most(items, 5));
}

proof fn lemma_core_keys_distinct()
    ensures
        "agentType"@ != "summary"@,
        "agentType"@ != "evidence"@,
        "agentType"@ != "handoffSummary"@,
        "summary"@ != "evidence"@,
        "summary"@ != "handoffSummary"@,
        "evidence"@ != "handoffSummary"@,
{
    reveal_strlit("agentType");
    reveal_strlit("summary");
    reveal_strlit("evidence");
    reveal_strlit("handoffSummary");
    assert("agentType"@.len() == 9);
    assert("summary"@.len() == 7);
    assert("evidence"@.len() == 8);
    assert("handoffSummary"@.len() == 14);
}

/// A normalised output records the agent type, the model's summary and the
/// cleaned evidence, which is never empty and holds at most five items. The
/// summary agent hands nothing on; every other agent hands on a summary that
/// is stored in the output and carries at least one piece of evidence.
pub proof fn law_normalized_output_shape(agent_type: Seq<char>, parsed: Json, now: Seq<char>)
    ensures
        normalize_spec(agent_type, parsed, now) matches Ok((out, h)) ==> {
            &&& parsed matches Json::Obj(ms) && nonblank(field_str(ms, "summary"@)) matches Some(
                summary,
            ) && normalize_evidence_spec(obj_get(ms, "evidence"@)) matches Some(ev) && {
                &&& ev.len() > 0
                &&& ev.len() <= 5
                &&& out.get("agentType"@) == Some(Json::Str(agent_type))
                &&& out.get("summary"@) == Some(Json::Str(summary))
                &&& out.get("evidence"@) == Some(evidence_list_json(ev))
                &&& agent_type == "summary"@ ==> h is None
                &&& agent_type != "summary"@ ==> (h matches Some(hv) && out.get("handoffSummary"@)
                    == Some(handoff_json(hv)) && hv.carry_forward_evidence.len() > 0)
            }
        },
{
    if let Ok((out, h)) = normalize_spec(agent_type, parsed, now) {
        if let Json::Obj(ms) = parsed {
            let summary = nonblank(field_str(ms, "summary"@))->Some_0;
            let ev = normalize_evidence_spec(obj_get(ms, "evidence"@))->Some_0;
            law_normalized_evidence_is_well_formed(obj_get(ms, "evidence"@));
            lemma_core_keys_distinct();
            let m_a = obj_insert(ms, "agentType"@, Json::Str(agent_type));
            let m_b = obj_insert(m_a, "summary"@, Json::Str(summary));
            let ms1 = obj_insert(m_b, "evidence"@, evidence_list_json(ev));
            crate::json::law_get_after_insert(ms, "agentType"@, Json::Str(agent_type), "summary"@);
            crate::json::law_get_after_insert(m_a, "summary"@, Json::Str(summary), "agentType"@);
            crate::json::law_get_after_insert(m_b, "evidence"@, evidence_list_json(ev), "agentType"@);
            crate::json::law_get_after_insert(m_b, "evidence"@, evidence_list_json(ev), "summary"@);
            if agent_type != "summary"@ {
                let hv = h->Some_0;
                let ms2 = obj_insert(ms1, "handoffSummary"@, handoff_json(hv));
                crate::json::law_get_after_insert(ms1, "handoffSummary"@, handoff_json(hv), "agentType"@);
                crate::json::law_get_after_insert(ms1, "handoffSummary"@, handoff_json(hv), "summary"@);
                crate::json::law_get_after_insert(ms1, "handoffSummary"@, handoff_json(hv), "evidence"@);
                assert(out == Json::Obj(ms2));
            }
        }
    }
}

proof fn lemma_evidence_keys_distinct()
    ensures
        "sourceType"@ != "quote"@,
        "sourceType"@ != "section"@,
        "sourceType"@ != "page"@,
        "sourceType"@ != "locator"@,
        "sourceObjectId"@ != "quote"@,
        "sourceObjectId"@ != "section"@,
        "sourceObjectId"@ != "page"@,
        "sourceObjectId"@ != "locator"@,
        "quote"@ != "section"@,
        "quote"@ != "page"@,
        "quote"@ != "locator"@,
        "section"@ != "page"@,
        "section"@ != "locator"@,
        "page"@ != "locator"@,
{
    reveal_strlit("sourceType");
    reveal_strlit("sourceObjectId");
    reveal_strlit("quote");
    reveal_strlit("section");
    reveal_strlit("page");
    reveal_strlit("locator");
    assert("sourceType"@.len() == 10);
    assert("sourceObjectId"@.len() == 14);
    assert("quote"@.len() == 5);
    assert("section"@.len() == 7);
    assert("page"@.len() == 4);
    assert("locator"@.len() == 7);
    assert("section"@[0] != "locator"@[0]);
}

/// The JSON form of a well-formed evidence item reads back as the same item.
pub proof fn lemma_evidence_roundtrip(e: EvidenceView)
    requires
        evidence_wf(e),
    ensures
        evidence_entry(evidence_json(e)) == Some(Some(e)),
{
    lemma_evidence_keys_distinct();
    reveal_with_fuel(obj_get, 7);
    let ms = evidence_json(e)->Obj_0;
    assert(field_str(ms, "quote"@) == Some(e.quote));
    assert(field_str(ms, "locator"@) == Some(e.locator));
    assert(field_str(ms, "section"@) == Some(e.section));
    match e.page {
        Some(p) => {
            assert(obj_get(ms, "page"@) == Some(Json::Int(p as i64)));
            assert((p as i64) as i32 == p);
        },
        None => {
            assert(obj_get(ms, "page"@) == Some(Json::Null));
        },
    }
}

proof fn lemma_evidence_list_roundtrip(es: Seq<EvidenceView>)
    requires
        forall|i: int| 0 <= i < es.len() ==> evidence_wf(#[trigger] es[i]),
    ensures
        evidence_items(es.map_values(|e: EvidenceView| evidence_json(e))) == Some(es),
    decreases es.len(),
{
    if es.len() > 0 {
        let js = es.map_values(|e: EvidenceView| evidence_json(e));
        assert(js.drop_last() =~= es.drop_last().map_values(|e: EvidenceView| evidence_json(e)));
        lemma_evidence_list_roundtrip(es.drop_last());
        lemma_evidence_roundtrip(es.last());
        assert(js.last() == evidence_json(es.last()));
        assert(es.drop_last().push(es.last()) =~= es);
    } else {
        assert(es.map_values(|e: EvidenceView| evidence_json(e)) =~= Seq::<Json>::empty());
    }
}

proof fn lemma_handoff_keys_distinct()
    ensures
        "stage"@ != "compressedConclusion"@,
        "stage"@ != "keyPoints"@,
        "stage"@ != "carryForwardQuestions"@,
        "stage"@ != "carryForwardEvidence"@,
        "stage"@ != "nextStepSuggestion"@,
        "stage"@ != "generatedAt"@,
        "compressedConclusion"@ != "keyPoints"@,
        "compressedConclusion"@ != "carryForwardQuestions"@,
        "compressedConclusion"@ != "carryForwardEvidence"@,
        "compressedConclusion"@ != "nextStepSuggestion"@,
        "compressedConclusion"@ != "generatedAt"@,
        "keyPoints"@ != "carryForwardQuestions"@,
        "keyPoints"@ != "carryForwardEvidence"@,
        "keyPoints"@ != "nextStepSuggestion"@,
        "keyPoints"@ != "generatedAt"@,
        "carryForwardQuestions"@ != "carryForwardEvidence"@,
        "carryForwardQuestions"@ != "nextStepSuggestion"@,
        "carryForwardQuestions"@ != "generatedAt"@,
        "carryForwardEvidence"@ != "nextStepSuggestion"@,
        "carryForwardEvidence"@ != "generatedAt"@,
        "nextStepSuggestion"@ != "generatedAt"@,
{
    reveal_strlit("stage");
    reveal_strlit("compressedConclusion");
    reveal_strlit("keyPoints");
    reveal_strlit("carryForwardQuestions");
    reveal_strlit("carryForwardEvidence");
    reveal_strlit("nextStepSuggestion");
    reveal_strlit("generatedAt");
    assert("stage"@.len() == 5);
    assert("compressedConclusion"@.len() == 20);
    assert("keyPoints"@.len() == 9);
    assert("carryForwardQuestions"@.len() == 21);
    assert("carryForwardEvidence"@.len() == 20);
    assert("nextStepSuggestion"@.len() == 18);
    assert("generatedAt"@.len() == 11);
    assert("compressedConclusion"@[1] != "carryForwardEvidence"@[1]);
}

/// The conclusion built from a summary that holds more than whitespace holds
/// more than whitespace itself.
pub proof fn lemma_compressed_nonblank(summary: Seq<char>)
    requires
        !is_blank(summary),
    ensures
        !is_blank(compressed_spec(summary)),
{
    crate::text::lemma_blank_iff_all_ws(summary);
    let t = trim(summary);
    let c = compressed_spec(summary);
    crate::text::lemma_blank_iff_all_ws(c);
    assert(c[0] == t[0]);
}

/// When a reading stage's output lacks a handoff summary, the one built from
/// the rest of the output always passes normalisation: it keeps the agent
/// type as its stage, a non-blank conclusion drawn from the summary, and the
/// first (at most two) pieces of evidence.
pub proof fn law_synthesized_handoff_normalizes(
    agent_type: Seq<char>,
    ms: Seq<(Seq<char>, Json)>,
    summary: Seq<char>,
    ev: Seq<EvidenceView>,
    now: Seq<char>,
)
    requires
        !is_blank(summary),
        ev.len() > 0,
        forall|i: int| 0 <= i < ev.len() ==> evidence_wf(#[trigger] ev[i]),
    ensures
        normalize_handoff_spec(agent_type, synthesized_handoff(agent_type, ms, summary, ev, now), now) matches Ok(
            h,
        ) && {
            &&& h.compressed_conclusion == compressed_spec(summary)
            &&& !is_blank(h.compressed_conclusion)
            &&& h.carry_forward_evidence == take_at_most(ev, 2)
            &&& h.carry_forward_evidence.len() > 0
            &&& h.stage == agent_type
            &&& !is_blank(now) ==> h.generated_at == now
        },
{
    lemma_handoff_keys_distinct();
    reveal_with_fuel(obj_get, 8);
    lemma_compressed_nonblank(summary);
    let t2 = take_at_most(ev, 2);
    assert forall|i: int| 0 <= i < t2.len() implies evidence_wf(#[trigger] t2[i]) by {
        assert(t2[i] == ev[i]);
    }
    lemma_evidence_list_roundtrip(t2);
    let js = t2.map_values(|e: EvidenceView| evidence_json(e));
    assert(take_at_most(js, 5) =~= js);
    let hm = synthesized_handoff(agent_type, ms, summary, ev, now)->Obj_0;
    assert(obj_get(hm, "carryForwardEvidence"@) == Some(evidence_list_json(t2)));
    assert(obj_get(hm, "compressedConclusion"@) == Some(Json::Str(compressed_spec(summary))));
    assert(obj_get(hm, "stage"@) == Some(Json::Str(agent_type)));
    assert(obj_get(hm, "generatedAt"@) == Some(Json::Str(now)));
}

/// A list of plain strings as a JSON array.
pub open spec fn json_strings(ks: Seq<Seq<char>>) -> Seq<Json> {
    ks.map_values(|k: Seq<char>| Json::Str(k))
}

/// Each string is already trimmed and has content.
pub open spec fn all_trimmed_nonblank(ks: Seq<Seq<char>>) -> bool {
    forall|i: int| 0 <= i < ks.len() ==> trim(#[trigger] ks[i]) == ks[i] && ks[i].len() > 0
}

proof fn lemma_str_items_of_clean_strings(ks: Seq<Seq<char>>)
    requires
        all_trimmed_nonblank(ks),
    ensures
        str_items(json_strings(ks)) == ks,
    decreases ks.len(),
{
    if ks.len() > 0 {
        let a = json_strings(ks);
        assert(a.drop_last() =~= json_strings(ks.drop_last()));
        lemma_str_items_of_clean_strings(ks.drop_last());
        assert(a.last() == Json::Str(ks.last()));
        assert(trim(ks.last()) == ks.last());
        assert(!is_blank(ks.last()));
        assert(ks.drop_last().push(ks.last()) =~= ks);
    }
}

/// A normalised handoff summary keeps the model's own lists: its key points
/// are the strings the model gave under `keyPoints`, and its carried-forward
/// questions the strings it gave under `carryForwardQuestions`, each list
/// taken from its own field.
pub proof fn law_handoff_keeps_its_lists(
    agent_type: Seq<char>,
    ms: Seq<(Seq<char>, Json)>,
    now: Seq<char>,
    key_points: Seq<Seq<char>>,
    questions: Seq<Seq<char>>,
)
    requires
        obj_get(ms, "keyPoints"@) == Some(Json::Arr(json_strings(key_points))),
        obj_get(ms, "carryForwardQuestions"@) == Some(Json::Arr(json_strings(questions))),
        all_trimmed_nonblank(key_points),
        all_trimmed_nonblank(questions),
    ensures
        normalize_handoff_spec(agent_type, Json::Obj(ms), now) matches Ok(h) ==> h.key_points == key_points
            && h.carry_forward_questions == questions,
{
    lemma_str_items_of_clean_strings(key_points);
    lemma_str_items_of_clean_strings(questions);
}

/// A handoff summary without lists hands on empty ones, and one without a
/// stage takes the agent type as its stage.
pub proof fn law_handoff_defaults(agent_type: Seq<char>, ms: Seq<(Seq<char>, Json)>, now: Seq<char>)
    requires
        obj_get(ms, "keyPoints"@) is None,
        obj_get(ms, "carryForwardQuestions"@) is None,
        obj_get(ms, "stage"@) is None,
    ensures
        normalize_handoff_spec(agent_type, Json::Obj(ms), now) matches Ok(h) ==> h.key_points.len() == 0
            && h.carry_forward_questions.len() == 0 && h.stage == agent_type,
{
}

} // verus!
