//! The prompts sent to agent models: the schema each agent must follow, the
//! paper content an agent is shown, and the prompt that repairs an output
//! that broke its schema.
use vstd::prelude::*;
use crate::json::{Json, JsonMember, JsonNumber, JsonValue, members_model, lemma_object_model, lemma_array_model, seq_model};
use crate::model_api::{byte_len, utf8_len};
use crate::text::{owned, str_eq, truncate_chars, truncate_text, chars_of};
use crate::workflow::{AgentKind, agent_kind, agent_kind_of};

verus! {

/// `schema_prompt_requirement`: the fields an agent type must return.
pub open spec fn schema_requirement_spec(agent_type: Seq<char>) -> Seq<char> {
    match agent_kind(agent_type) {
        AgentKind::QuickRead => "- Required top-level fields for quick_read: summary, evidence, readingRecommendation, priorityDecision, priorityReason, recommendation.\n- readingRecommendation must be one of: worth_deep_read, worth_skimming_or_save, not_recommended.\n- priorityDecision must be one of: 值得精读, 值得略读/暂存, 不建议继续读.\n- recommendation must be one of: continue, skip, uncertain.\n- Also include decisionReason and fiveCs when possible; do not rename these fields or nest them under another object."@,
        AgentKind::CarefulRead => "- Required top-level fields for careful_read: summary, evidence, mainThreadSummary, limitations, finalAdvice.\n- finalAdvice must include oneSentenceValue, bestToLearn, mostNeedCaution, nextDecision.\n- finalAdvice.nextDecision must be one of: continue_deep_dive, reference_only, set_aside."@,
        AgentKind::DeepRead => "- Required top-level fields for deep_read: summary, evidence, noveltyAssessment, coreResultSummary, limitations, finalSummary.\n- finalSummary must include mostWorthLearning, mostWorthQuestioning, researchValueForUser, nextThreeActions."@,
        AgentKind::Summary => "- Required top-level fields for summary: shortSummary, longSummary, presentationSummary, keyTakeaways, recommendedTags.\n- recommendedTags must only use: needs_deep_read, need_followup_references, background_citation."@,
        AgentKind::Other => Seq::empty(),
    }
}

/// The schema instructions of an agent's prompt.
pub fn schema_prompt_requirement(agent_type: &str) -> (r: String)
    ensures
        r@ == schema_requirement_spec(agent_type@),
{
    match agent_kind_of(agent_type) {
        AgentKind::QuickRead => owned("- Required top-level fields for quick_read: summary, evidence, readingRecommendation, priorityDecision, priorityReason, recommendation.\n- readingRecommendation must be one of: worth_deep_read, worth_skimming_or_save, not_recommended.\n- priorityDecision must be one of: 值得精读, 值得略读/暂存, 不建议继续读.\n- recommendation must be one of: continue, skip, uncertain.\n- Also include decisionReason and fiveCs when possible; do not rename these fields or nest them under another object."),
        AgentKind::CarefulRead => owned("- Required top-level fields for careful_read: summary, evidence, mainThreadSummary, limitations, finalAdvice.\n- finalAdvice must include oneSentenceValue, bestToLearn, mostNeedCaution, nextDecision.\n- finalAdvice.nextDecision must be one of: continue_deep_dive, reference_only, set_aside."),
        AgentKind::DeepRead => owned("- Required top-level fields for deep_read: summary, evidence, noveltyAssessment, coreResultSummary, limitations, finalSummary.\n- finalSummary must include mostWorthLearning, mostWorthQuestioning, researchValueForUser, nextThreeActions."),
        AgentKind::Summary => owned("- Required top-level fields for summary: shortSummary, longSummary, presentationSummary, keyTakeaways, recommendedTags.\n- recommendedTags must only use: needs_deep_read, need_followup_references, background_citation."),
        AgentKind::Other => String::new(),
    }
}

/// `handoff_prompt_requirement`: every agent but the summary agent must hand
/// a summary on.
pub open spec fn handoff_requirement_spec(agent_type: Seq<char>) -> Seq<char> {
    if agent_type == "summary"@ {
        Seq::empty()
    } else {
        "- handoffSummary is mandatory for "@ + agent_type
            + ". Put it in the same top-level JSON object.\n- handoffSummary must include stage, compressedConclusion, keyPoints, carryForwardQuestions, carryForwardEvidence, nextStepSuggestion, generatedAt.\n- Do not omit handoffSummary even when information is limited; keep the object shape and state uncertainty explicitly."@
    }
}

/// The handoff-summary instructions of an agent's prompt.
pub fn handoff_prompt_requirement(agent_type: &str) -> (r: String)
    ensures
        r@ == handoff_requirement_spec(agent_type@),
{
    if str_eq(agent_type, "summary") {
        return String::new();
    }
    let mut s = owned("- handoffSummary is mandatory for ");
    s.append(agent_type);
    s.append(". Put it in the same top-level JSON object.\n- handoffSummary must include stage, compressedConclusion, keyPoints, carryForwardQuestions, carryForwardEvidence, nextStepSuggestion, generatedAt.\n- Do not omit handoffSummary even when information is limited; keep the object shape and state uncertainty explicitly.");
    s
}

/// `build_schema_repair_prompt`: asks the model to repair an output that
/// broke its schema, quoting the task, the violation and the output.
pub open spec fn repair_prompt_spec(
    agent_type: Seq<char>,
    task_prompt: Seq<char>,
    invalid_output: Seq<char>,
    validation_error: Seq<char>,
) -> Seq<char> {
    let handoff = if agent_type == "summary"@ {
        Seq::empty()
    } else {
        "\nThe repaired JSON must include a top-level handoffSummary object with fields stage, compressedConclusion, keyPoints, carryForwardQuestions, carryForwardEvidence, nextStepSuggestion, generatedAt."@
    };
    "The previous response for agent "@ + agent_type
        + " did not satisfy the required runtime schema. Repair it and return strict JSON only. Do not add markdown fences. Keep as much original meaning as possible, but fix every schema violation. Do not omit required fields, and do not rename fields."@
        + handoff + "\n"@ + schema_requirement_spec(agent_type) + "\n\nOriginal task prompt:\n"@
        + task_prompt + "\n\nValidation error:\n"@ + validation_error + "\n\nInvalid output:\n"@
        + invalid_output
}

/// The prompt that asks a model to repair an output that broke the schema.
pub fn build_schema_repair_prompt(
    agent_type: &str,
    task_prompt: &str,
    invalid_output: &str,
    validation_error: &str,
) -> (r: String)
    ensures
        r@ == repair_prompt_spec(agent_type@, task_prompt@, invalid_output@, validation_error@),
{
    let schema = schema_prompt_requirement(agent_type);
    let mut s = owned("The previous response for agent ");
    s.append(agent_type);
    s.append(" did not satisfy the required runtime schema. Repair it and return strict JSON only. Do not add markdown fences. Keep as much original meaning as possible, but fix every schema violation. Do not omit required fields, and do not rename fields.");
    if !str_eq(agent_type, "summary") {
        s.append("\nThe repaired JSON must include a top-level handoffSummary object with fields stage, compressedConclusion, keyPoints, carryForwardQuestions, carryForwardEvidence, nextStepSuggestion, generatedAt.");
    }
    s.append("\n");
    s.append(schema.as_str());
    s.append("\n\nOriginal task prompt:\n");
    s.append(task_prompt);
    s.append("\n\nValidation error:\n");
    s.append(validation_error);
    s.append("\n\nInvalid output:\n");
    s.append(invalid_output);
    s
}

// ---------------------------------------------------------------------------
// Paper content
// ---------------------------------------------------------------------------

/// One section of a parsed paper.
pub struct ParsedSection {
    pub id: String,
    pub title: String,
    pub level: i32,
    pub order: i32,
    pub start_page: Option<i32>,
    pub end_page: Option<i32>,
    pub locator: String,
    pub text: String,
}

/// How much of a paper each agent is shown: sections, characters per
/// section, and characters of full text.
pub open spec fn content_limits(agent_type: Seq<char>) -> (nat, nat, nat) {
    match agent_kind(agent_type) {
        AgentKind::QuickRead => (4, 800, 0),
        AgentKind::CarefulRead => (8, 1600, 4000),
        AgentKind::DeepRead | AgentKind::Summary => (12, 2200, 12000),
        AgentKind::Other => (6, 1200, 2000),
    }
}

pub open spec fn opt_int(p: Option<i32>) -> Json {
    match p {
        Some(v) => Json::Int(v as i64),
        None => Json::Null,
    }
}

/// A section as the prompt shows it.
pub open spec fn prompt_section_json(s: ParsedSection, char_limit: nat) -> Json {
    Json::Obj(
        seq![
            ("title"@, Json::Str(s.title@)),
            ("level"@, Json::Int(s.level as i64)),
            ("pageStart"@, opt_int(s.start_page)),
            ("pageEnd"@, opt_int(s.end_page)),
            ("locator"@, Json::Str(s.locator@)),
            ("text"@, Json::Str(truncate_chars(s.text@, char_limit))),
        ],
    )
}

/// `prompt_paper_content`: the paper content an agent is shown.
pub open spec fn prompt_content_spec(
    agent_type: Seq<char>,
    sections: Seq<ParsedSection>,
    full_text: Seq<char>,
    full_text_available: bool,
    page_count: Option<i32>,
    section_count: i32,
) -> Json {
    let (n, per_section, full) = content_limits(agent_type);
    let shown = crate::agent_output::take_at_most(sections, n);
    Json::Obj(
        seq![
            ("sections"@, Json::Arr(shown.map_values(|s: ParsedSection| prompt_section_json(s, per_section)))),
            ("fullText"@, Json::Str(if full == 0 { Seq::empty() } else { truncate_chars(full_text, full) })),
            ("fullTextAvailable"@, Json::Bool(full_text_available)),
            ("pageCount"@, opt_int(page_count)),
            ("sectionCount"@, Json::Int(section_count as i64)),
            ("truncated"@, Json::Bool(true)),
        ],
    )
}

fn opt_int_value(p: Option<i32>) -> (r: JsonValue)
    ensures
        r.model() == opt_int(p),
{
    match p {
        Some(v) => JsonValue::Number(JsonNumber::Int(v as i64)),
        None => JsonValue::Null,
    }
}

fn prompt_section(s: &ParsedSection, char_limit: usize) -> (r: JsonValue)
    ensures
        r.model() == prompt_section_json(*s, char_limit as nat),
{
    let mut ms: Vec<JsonMember> = Vec::new();
    ms.push(JsonMember { key: owned("title"), value: JsonValue::Str(s.title.clone()) });
    ms.push(JsonMember { key: owned("level"), value: JsonValue::Number(JsonNumber::Int(s.level as i64)) });
    ms.push(JsonMember { key: owned("pageStart"), value: opt_int_value(s.start_page) });
    ms.push(JsonMember { key: owned("pageEnd"), value: opt_int_value(s.end_page) });
    ms.push(JsonMember { key: owned("locator"), value: JsonValue::Str(s.locator.clone()) });
    ms.push(JsonMember { key: owned("text"), value: JsonValue::Str(truncate_text(s.text.as_str(), char_limit)) });
    proof {
        lemma_object_model(ms);
        assert(members_model(ms@) =~= prompt_section_json(*s, char_limit as nat)->Obj_0);
    }
    JsonValue::Object(ms)
}

/// The paper content an agent is shown.
pub fn prompt_paper_content(
    agent_type: &str,
    sections: &Vec<ParsedSection>,
    full_text: &str,
    full_text_available: bool,
    page_count: Option<i32>,
    section_count: i32,
) -> (r: JsonValue)
    ensures
        r.model() == prompt_content_spec(
            agent_type@,
            sections@,
            full_text@,
            full_text_available,
            page_count,
            section_count,
        ),
{
    let (n, per_section, full): (usize, usize, usize) = match agent_kind_of(agent_type) {
        AgentKind::QuickRead => (4, 800, 0),
        AgentKind::CarefulRead => (8, 1600, 4000),
        AgentKind::DeepRead | AgentKind::Summary => (12, 2200, 12000),
        AgentKind::Other => (6, 1200, 2000),
    };
    let ghost shown = crate::agent_output::take_at_most(sections@, n as nat);
    let count = if sections.len() <= n {
        sections.len()
    } else {
        n
    };
    let mut items: Vec<JsonValue> = Vec::new();
    let mut i: usize = 0;
    while i < count
        invariant
            count == shown.len(),
            count <= sections@.len(),
            shown == crate::agent_output::take_at_most(sections@, n as nat),
            i <= count,
            items@.len() == i,
            forall|j: int| 0 <= j < i ==> (#[trigger] items@[j]).model() == prompt_section_json(
                sections@[j],
                per_section as nat,
            ),
        decreases count - i,
    {
        items.push(prompt_section(&sections[i], per_section));
        i = i + 1;
    }
    proof {
        lemma_array_model(items);
        assert(seq_model(items@) =~= shown.map_values(
            |s: ParsedSection| prompt_section_json(s, per_section as nat),
        ));
    }
    let text = if full == 0 {
        String::new()
    } else {
        truncate_text(full_text, full)
    };
    let mut ms: Vec<JsonMember> = Vec::new();
    ms.push(JsonMember { key: owned("sections"), value: JsonValue::Array(items) });
    ms.push(JsonMember { key: owned("fullText"), value: JsonValue::Str(text) });
    ms.push(JsonMember { key: owned("fullTextAvailable"), value: JsonValue::Bool(full_text_available) });
    ms.push(JsonMember { key: owned("pageCount"), value: opt_int_value(page_count) });
    ms.push(JsonMember { key: owned("sectionCount"), value: JsonValue::Number(JsonNumber::Int(section_count as i64)) });
    ms.push(JsonMember { key: owned("truncated"), value: JsonValue::Bool(true) });
    proof {
        lemma_object_model(ms);
        assert(members_model(ms@) =~= prompt_content_spec(
            agent_type@,
            sections@,
            full_text@,
            full_text_available,
            page_count,
            section_count,
        )->Obj_0);
    }
    JsonValue::Object(ms)
}

/// Whether a serialised JSON text is longer than `max` bytes.
pub fn longer_than_bytes(s: &str, max: usize) -> (r: bool)
    ensures
        r == (byte_len(s@) > max),
{
    let v = chars_of(s);
    let mut total: usize = 0;
    let mut i: usize = 0;
    assert(v@.take(0) =~= Seq::<char>::empty());
    while i < v.len()
        invariant
            v@ == s@,
            i <= v@.len(),
            total == byte_len(v@.take(i as int)),
            total <= max,
        decreases v@.len() - i,
    {
        let c = v[i];
        let u = c as u32;
        let w: usize = if u < 0x80 {
            1
        } else if u < 0x800 {
            2
        } else if u < 0x10000 {
            3
        } else {
            4
        };
        proof {
            assert(v@.take(i + 1).drop_last() =~= v@.take(i as int));
            assert(v@.take(i + 1).last() == c);
            assert(w == utf8_len(c));
            assert(byte_len(v@.take(i + 1)) == total + w);
        }
        if w > max - total {
            proof {
                lemma_byte_len_grows(v@, i as int + 1);
            }
            return true;
        }
        total = total + w;
        i = i + 1;
    }
    assert(v@.take(v@.len() as int) =~= v@);
    false
}

proof fn lemma_byte_len_grows(s: Seq<char>, i: int)
    requires
        0 <= i <= s.len(),
    ensures
        byte_len(s.take(i)) <= byte_len(s),
    decreases s.len() - i,
{
    if i < s.len() {
        lemma_byte_len_grows(s, i + 1);
        assert(s.take(i + 1).drop_last() =~= s.take(i));
    } else {
        assert(s.take(i) =~= s);
    }
}

/// Caps a value's serialised text: `None` when the text
/// fits in `max` bytes (the value is kept), otherwise the text cut to `max`
/// characters (which replaces the value as a string).
pub fn truncate_serialized_json(serialized: &str, max: usize) -> (r: Option<String>)
    ensures
        match r {
            None => byte_len(serialized@) <= max,
            Some(t) => byte_len(serialized@) > max && t@ == truncate_chars(serialized@, max as nat),
        },
{
    if longer_than_bytes(serialized, max) {
        Some(truncate_text(serialized, max))
    } else {
        None
    }
}

// ---------------------------------------------------------------------------
// The agent prompt
// ---------------------------------------------------------------------------

/// The paper a run reads, as the prompt describes it.
pub struct PaperPromptContext {
    pub paper_id: String,
    pub title: String,
    pub abstract_text: Option<String>,
    pub authors: Vec<String>,
    pub venue: Option<String>,
    pub year: Option<i32>,
    pub file_name: Option<String>,
    pub full_text_available: bool,
    pub page_count: Option<i32>,
    pub section_count: i32,
    pub parsed_storage_path: Option<String>,
}

/// The reader's profile, as the prompt describes it.
pub struct ProfilePromptContext {
    pub role: String,
    pub research_field: String,
    pub focus_topic: Option<String>,
    pub reading_goal: String,
    pub output_language: String,
    pub experience_level: String,
}

pub open spec fn opt_str_json(o: Option<String>) -> Json {
    match o {
        Some(s) => Json::Str(s@),
        None => Json::Null,
    }
}

/// The paper metadata shown to the agent and recorded with the run.
pub open spec fn paper_metadata_spec(p: PaperPromptContext) -> Json {
    Json::Obj(
        seq![
            ("paperId"@, Json::Str(p.paper_id@)),
            ("title"@, Json::Str(p.title@)),
            ("authors"@, Json::Arr(p.authors@.map_values(|s: String| Json::Str(s@)))),
            ("venue"@, opt_str_json(p.venue)),
            ("year"@, opt_int(p.year)),
            ("fileName"@, opt_str_json(p.file_name)),
        ],
    )
}

/// The profile shown to the agent and recorded with the run.
pub open spec fn profile_spec(p: ProfilePromptContext) -> Json {
    Json::Obj(
        seq![
            ("role"@, Json::Str(p.role@)),
            ("researchField"@, Json::Str(p.research_field@)),
            ("focusTopic"@, opt_str_json(p.focus_topic)),
            ("readingGoal"@, Json::Str(p.reading_goal@)),
            ("outputLanguage"@, Json::Str(p.output_language@)),
            ("experienceLevel"@, Json::Str(p.experience_level@)),
        ],
    )
}

fn opt_str_value(o: &Option<String>) -> (r: JsonValue)
    ensures
        r.model() == opt_str_json(*o),
{
    match o {
        Some(s) => JsonValue::Str(s.clone()),
        None => JsonValue::Null,
    }
}

/// The paper metadata shown to the agent.
pub fn paper_metadata_json(p: &PaperPromptContext) -> (r: JsonValue)
    ensures
        r.model() == paper_metadata_spec(*p),
{
    let mut ms: Vec<JsonMember> = Vec::new();
    ms.push(JsonMember { key: owned("paperId"), value: JsonValue::Str(p.paper_id.clone()) });
    ms.push(JsonMember { key: owned("title"), value: JsonValue::Str(p.title.clone()) });
    ms.push(JsonMember { key: owned("authors"), value: crate::json::string_array_value(&p.authors) });
    ms.push(JsonMember { key: owned("venue"), value: opt_str_value(&p.venue) });
    ms.push(JsonMember { key: owned("year"), value: opt_int_value(p.year) });
    ms.push(JsonMember { key: owned("fileName"), value: opt_str_value(&p.file_name) });
    proof {
        lemma_object_model(ms);
        assert(members_model(ms@) =~= paper_metadata_spec(*p)->Obj_0);
    }
    JsonValue::Object(ms)
}

/// The profile shown to the agent.
pub fn profile_json(p: &ProfilePromptContext) -> (r: JsonValue)
    ensures
        r.model() == profile_spec(*p),
{
    let mut ms: Vec<JsonMember> = Vec::new();
    ms.push(JsonMember { key: owned("role"), value: JsonValue::Str(p.role.clone()) });
    ms.push(JsonMember { key: owned("researchField"), value: JsonValue::Str(p.research_field.clone()) });
    ms.push(JsonMember { key: owned("focusTopic"), value: opt_str_value(&p.focus_topic) });
    ms.push(JsonMember { key: owned("readingGoal"), value: JsonValue::Str(p.reading_goal.clone()) });
    ms.push(JsonMember { key: owned("outputLanguage"), value: JsonValue::Str(p.output_language.clone()) });
    ms.push(JsonMember { key: owned("experienceLevel"), value: JsonValue::Str(p.experience_level.clone()) });
    proof {
        lemma_object_model(ms);
        assert(members_model(ms@) =~= profile_spec(*p)->Obj_0);
    }
    JsonValue::Object(ms)
}

/// The serialised parts of a prompt, written out by the caller.
pub struct PromptParts {
    pub paper_metadata: String,
    pub profile_summary: Option<String>,
    pub paper_content: String,
    pub previous_runs: String,
    pub handoff_summaries: String,
}

/// The language the agent answers in: the profile's, or Simplified Chinese.
pub open spec fn output_language_spec(profile: Option<ProfilePromptContext>) -> Seq<char> {
    match profile {
        Some(p) => p.output_language@,
        None => "zh-CN"@,
    }
}

pub open spec fn low_confidence_spec(full_text_available: bool) -> Seq<char> {
    if full_text_available {
        "No"@
    } else {
        "Yes. Only abstract/metadata are currently available, so mark uncertainty clearly."@
    }
}

/// `build_prompt`, once its JSON parts are written out.
pub open spec fn prompt_spec(
    agent_type: Seq<char>,
    output_language: Seq<char>,
    parts_metadata: Seq<char>,
    profile_summary: Seq<char>,
    paper_content: Seq<char>,
    previous_runs: Seq<char>,
    handoff_summaries: Seq<char>,
    low_confidence: Seq<char>,
    user_question: Seq<char>,
) -> Seq<char> {
    "Agent type: "@ + agent_type
        + "\n\nTask contract:\n- Follow the paper-reader prompt contract and runtime spec.\n- Return strict JSON only.\n- Include summary and evidence[].\n- Evidence items must use fields quote, section, page, locator.\n- Do not invent facts beyond provided metadata/abstract/previous outputs.\n- Output language: "@
        + output_language
        + ".\n- If information is insufficient, preserve schema and say so explicitly.\n"@
        + schema_requirement_spec(agent_type) + "\n"@ + handoff_requirement_spec(agent_type)
        + "\n\nPaper metadata:\n"@ + parts_metadata + "\n\nUser profile:\n"@ + profile_summary
        + "\n\nAvailable paper content:\n"@ + paper_content + "\n\nPrevious runs:\n"@ + previous_runs
        + "\n\nPrevious handoff summaries:\n"@ + handoff_summaries + "\n\nLow confidence warning: "@
        + low_confidence + "\n\nUser question:\n"@ + user_question
        + "\n\nReturn a JSON object matching the "@ + agent_type + " runtime schema from the docs."@
}

/// `build_prompt`: the prompt for an agent run, given the JSON parts written
/// out (the paper metadata, the profile, the paper content, and the previous
/// runs and handoff summaries, each possibly cut down).
pub fn build_prompt(
    agent_type: &str,
    paper: &PaperPromptContext,
    profile: &Option<ProfilePromptContext>,
    parts: &PromptParts,
    user_question: &str,
) -> (r: String)
    ensures
        r@ == prompt_spec(
            agent_type@,
            output_language_spec(*profile),
            parts.paper_metadata@,
            match parts.profile_summary {
                Some(s) => s@,
                None => "{\"mode\":\"generic\"}"@,
            },
            parts.paper_content@,
            parts.previous_runs@,
            parts.handoff_summaries@,
            low_confidence_spec(paper.full_text_available),
            user_question@,
        ),
{
    let language = match profile {
        Some(p) => p.output_language.clone(),
        None => owned("zh-CN"),
    };
    let profile_summary = match &parts.profile_summary {
        Some(s) => s.clone(),
        None => owned("{\"mode\":\"generic\"}"),
    };
    let low = if paper.full_text_available {
        owned("No")
    } else {
        owned("Yes. Only abstract/metadata are currently available, so mark uncertainty clearly.")
    };
    let mut s = owned("Agent type: ");
    s.append(agent_type);
    s.append("\n\nTask contract:\n- Follow the paper-reader prompt contract and runtime spec.\n- Return strict JSON only.\n- Include summary and evidence[].\n- Evidence items must use fields quote, section, page, locator.\n- Do not invent facts beyond provided metadata/abstract/previous outputs.\n- Output language: ");
    s.append(language.as_str());
    s.append(".\n- If information is insufficient, preserve schema and say so explicitly.\n");
    s.append(schema_prompt_requirement(agent_type).as_str());
    s.append("\n");
    s.append(handoff_prompt_requirement(agent_type).as_str());
    s.append("\n\nPaper metadata:\n");
    s.append(parts.paper_metadata.as_str());
    s.append("\n\nUser profile:\n");
    s.append(profile_summary.as_str());
    s.append("\n\nAvailable paper content:\n");
    s.append(parts.paper_content.as_str());
    s.append("\n\nPrevious runs:\n");
    s.append(parts.previous_runs.as_str());
    s.append("\n\nPrevious handoff summaries:\n");
    s.append(parts.handoff_summaries.as_str());
    s.append("\n\nLow confidence warning: ");
    s.append(low.as_str());
    s.append("\n\nUser question:\n");
    s.append(user_question);
    s.append("\n\nReturn a JSON object matching the ");
    s.append(agent_type);
    s.append(" runtime schema from the docs.");
    s
}

// ---------------------------------------------------------------------------
// The record of a run's input
// ---------------------------------------------------------------------------

/// A section as it is stored and recorded.
pub open spec fn section_json(s: ParsedSection) -> Json {
    Json::Obj(
        seq![
            ("id"@, Json::Str(s.id@)),
            ("title"@, Json::Str(s.title@)),
            ("level"@, Json::Int(s.level as i64)),
            ("order"@, Json::Int(s.order as i64)),
            ("startPage"@, opt_int(s.start_page)),
            ("endPage"@, opt_int(s.end_page)),
            ("locator"@, Json::Str(s.locator@)),
            ("text"@, Json::Str(s.text@)),
        ],
    )
}

fn section_value(s: &ParsedSection) -> (r: JsonValue)
    ensures
        r.model() == section_json(*s),
{
    let mut ms: Vec<JsonMember> = Vec::new();
    ms.push(JsonMember { key: owned("id"), value: JsonValue::Str(s.id.clone()) });
    ms.push(JsonMember { key: owned("title"), value: JsonValue::Str(s.title.clone()) });
    ms.push(JsonMember { key: owned("level"), value: JsonValue::Number(JsonNumber::Int(s.level as i64)) });
    ms.push(JsonMember { key: owned("order"), value: JsonValue::Number(JsonNumber::Int(s.order as i64)) });
    ms.push(JsonMember { key: owned("startPage"), value: opt_int_value(s.start_page) });
    ms.push(JsonMember { key: owned("endPage"), value: opt_int_value(s.end_page) });
    ms.push(JsonMember { key: owned("locator"), value: JsonValue::Str(s.locator.clone()) });
    ms.push(JsonMember { key: owned("text"), value: JsonValue::Str(s.text.clone()) });
    proof {
        lemma_object_model(ms);
        assert(members_model(ms@) =~= section_json(*s)->Obj_0);
    }
    JsonValue::Object(ms)
}

fn sections_value(sections: &Vec<ParsedSection>) -> (r: JsonValue)
    ensures
        r.model() == Json::Arr(sections@.map_values(|s: ParsedSection| section_json(s))),
{
    let mut items: Vec<JsonValue> = Vec::new();
    let mut i: usize = 0;
    while i < sections.len()
        invariant
            i <= sections@.len(),
            items@.len() == i,
            forall|j: int| 0 <= j < i ==> (#[trigger] items@[j]).model() == section_json(sections@[j]),
        decreases sections@.len() - i,
    {
        items.push(section_value(&sections[i]));
        i = i + 1;
    }
    proof {
        lemma_array_model(items);
        assert(seq_model(items@) =~= sections@.map_values(|s: ParsedSection| section_json(s)));
    }
    JsonValue::Array(items)
}

/// The model of an optional value.
pub open spec fn opt_model(o: Option<JsonValue>) -> Option<Json> {
    match o {
        Some(v) => Some(v.model()),
        None => None,
    }
}

/// A previous run as a new run is told about it.
pub open spec fn previous_run_spec(
    agent_type: Seq<char>,
    status: Seq<char>,
    output: Option<Json>,
    finished_at: Option<String>,
) -> Json {
    Json::Obj(
        seq![
            ("agentType"@, Json::Str(agent_type)),
            ("status"@, Json::Str(status)),
            ("outputSnapshot"@, match output {
                Some(o) => o,
                None => Json::Null,
            }),
            ("finishedAt"@, opt_str_json(finished_at)),
        ],
    )
}

/// A previous run as a new run is told about it; an output that could not
/// be read back is recorded as null.
pub fn previous_run_json(
    agent_type: String,
    status: String,
    output: Option<JsonValue>,
    finished_at: Option<String>,
) -> (r: JsonValue)
    ensures
        r.model() == previous_run_spec(agent_type@, status@, opt_model(output), finished_at),
{
    let ghost out_model = opt_model(output);
    let fin = opt_str_value(&finished_at);
    let mut ms: Vec<JsonMember> = Vec::new();
    ms.push(JsonMember { key: owned("agentType"), value: JsonValue::Str(agent_type) });
    ms.push(JsonMember { key: owned("status"), value: JsonValue::Str(status) });
    ms.push(
        JsonMember {
            key: owned("outputSnapshot"),
            value: match output {
                Some(o) => o,
                None => JsonValue::Null,
            },
        },
    );
    ms.push(JsonMember { key: owned("finishedAt"), value: fin });
    proof {
        lemma_object_model(ms);
        assert(members_model(ms@) =~= previous_run_spec(agent_type@, status@, out_model, finished_at)->Obj_0);
    }
    JsonValue::Object(ms)
}

/// What a run is told about the paper's content.
pub open spec fn snapshot_content_spec(
    paper: PaperPromptContext,
    sections: Seq<ParsedSection>,
    full_text: Seq<char>,
) -> Json {
    Json::Obj(
        seq![
            ("abstract"@, opt_str_json(paper.abstract_text)),
            ("sections"@, Json::Arr(sections.map_values(|s: ParsedSection| section_json(s)))),
            ("fullText"@, Json::Str(full_text)),
            ("fullTextAvailable"@, Json::Bool(paper.full_text_available)),
            ("pageCount"@, opt_int(paper.page_count)),
            ("sectionCount"@, Json::Int(paper.section_count as i64)),
        ],
    )
}

/// The profile a run is told about, or the generic stand-in.
pub open spec fn snapshot_profile_spec(profile: Option<ProfilePromptContext>) -> Json {
    match profile {
        Some(p) => profile_spec(p),
        None => Json::Obj(seq![("mode"@, Json::Str("generic"@)), ("outputLanguage"@, Json::Str("zh-CN"@))]),
    }
}

/// The model a run uses, as it is recorded.
pub open spec fn snapshot_model_spec(model: crate::model_api::StoredModelConfig) -> Json {
    Json::Obj(
        seq![
            ("provider"@, Json::Str(model.provider@)),
            ("modelName"@, Json::Str(model.model_name@)),
            ("agentType"@, opt_str_json(model.agent_type)),
            ("isDefault"@, Json::Bool(model.is_default)),
        ],
    )
}

/// The inputs of a run besides the paper and the profile.
pub struct RunInputs {
    pub sections: Vec<ParsedSection>,
    pub full_text: String,
    pub previous_runs: Vec<JsonValue>,
    pub handoff_summaries: Vec<JsonValue>,
    pub latest_handoff_ids: Vec<String>,
    pub user_question: String,
    pub agent_type: String,
    pub force: bool,
}

/// The record of everything a run was given.
pub open spec fn input_snapshot_spec(
    paper: PaperPromptContext,
    profile: Option<ProfilePromptContext>,
    inputs: RunInputs,
    model: crate::model_api::StoredModelConfig,
) -> Json {
    Json::Obj(
        seq![
            ("paper"@, paper_metadata_spec(paper)),
            ("userProfile"@, snapshot_profile_spec(profile)),
            ("paperContent"@, snapshot_content_spec(paper, inputs.sections@, inputs.full_text@)),
            ("previousRuns"@, Json::Arr(seq_model(inputs.previous_runs@))),
            ("handoffSummaries"@, Json::Arr(seq_model(inputs.handoff_summaries@))),
            ("latestWorkflowHandoffIds"@, Json::Arr(inputs.latest_handoff_ids@.map_values(|s: String| Json::Str(s@)))),
            ("userQuestion"@, Json::Str(inputs.user_question@)),
            ("agentType"@, Json::Str(inputs.agent_type@)),
            ("runtimeModel"@, snapshot_model_spec(model)),
            ("force"@, Json::Bool(inputs.force)),
        ],
    )
}

/// The record of everything a run was given (the input snapshot of
/// `load_run_context`).
pub fn run_input_snapshot(
    paper: &PaperPromptContext,
    profile: &Option<ProfilePromptContext>,
    inputs: RunInputs,
    model: &crate::model_api::StoredModelConfig,
) -> (r: JsonValue)
    ensures
        r.model() == input_snapshot_spec(*paper, *profile, inputs, *model),
{
    let ghost inputs_view = inputs;
    let profile_value = match profile {
        Some(p) => profile_json(p),
        None => {
            let mut ms: Vec<JsonMember> = Vec::new();
            ms.push(JsonMember { key: owned("mode"), value: JsonValue::Str(owned("generic")) });
            ms.push(JsonMember { key: owned("outputLanguage"), value: JsonValue::Str(owned("zh-CN")) });
            proof {
                lemma_object_model(ms);
                assert(members_model(ms@) =~= snapshot_profile_spec(*profile)->Obj_0);
            }
            JsonValue::Object(ms)
        },
    };
    let mut content: Vec<JsonMember> = Vec::new();
    content.push(JsonMember { key: owned("abstract"), value: opt_str_value(&paper.abstract_text) });
    content.push(JsonMember { key: owned("sections"), value: sections_value(&inputs.sections) });
    content.push(JsonMember { key: owned("fullText"), value: JsonValue::Str(inputs.full_text) });
    content.push(JsonMember { key: owned("fullTextAvailable"), value: JsonValue::Bool(paper.full_text_available) });
    content.push(JsonMember { key: owned("pageCount"), value: opt_int_value(paper.page_count) });
    content.push(
        JsonMember {
            key: owned("sectionCount"),
            value: JsonValue::Number(JsonNumber::Int(paper.section_count as i64)),
        },
    );
    proof {
        lemma_object_model(content);
        assert(members_model(content@) =~= snapshot_content_spec(
            *paper,
            inputs_view.sections@,
            inputs_view.full_text@,
        )->Obj_0);
    }
    let mut runtime: Vec<JsonMember> = Vec::new();
    runtime.push(JsonMember { key: owned("provider"), value: JsonValue::Str(model.provider.clone()) });
    runtime.push(JsonMember { key: owned("modelName"), value: JsonValue::Str(model.model_name.clone()) });
    runtime.push(JsonMember { key: owned("agentType"), value: opt_str_value(&model.agent_type) });
    runtime.push(JsonMember { key: owned("isDefault"), value: JsonValue::Bool(model.is_default) });
    proof {
        lemma_object_model(runtime);
        assert(members_model(runtime@) =~= snapshot_model_spec(*model)->Obj_0);
    }
    let previous = JsonValue::Array(inputs.previous_runs);
    let handoffs = JsonValue::Array(inputs.handoff_summaries);
    proof {
        lemma_array_model(inputs_view.previous_runs);
        lemma_array_model(inputs_view.handoff_summaries);
    }
    let mut ms: Vec<JsonMember> = Vec::new();
    ms.push(JsonMember { key: owned("paper"), value: paper_metadata_json(paper) });
    ms.push(JsonMember { key: owned("userProfile"), value: profile_value });
    ms.push(JsonMember { key: owned("paperContent"), value: JsonValue::Object(content) });
    ms.push(JsonMember { key: owned("previousRuns"), value: previous });
    ms.push(JsonMember { key: owned("handoffSummaries"), value: handoffs });
    ms.push(
        JsonMember {
            key: owned("latestWorkflowHandoffIds"),
            value: crate::json::string_array_value(&inputs.latest_handoff_ids),
        },
    );
    ms.push(JsonMember { key: owned("userQuestion"), value: JsonValue::Str(inputs.user_question) });
    ms.push(JsonMember { key: owned("agentType"), value: JsonValue::Str(inputs.agent_type) });
    ms.push(JsonMember { key: owned("runtimeModel"), value: JsonValue::Object(runtime) });
    ms.push(JsonMember { key: owned("force"), value: JsonValue::Bool(inputs.force) });
    proof {
        lemma_object_model(ms);
        assert(members_model(ms@) =~= input_snapshot_spec(*paper, *profile, inputs_view, *model)->Obj_0);
    }
    JsonValue::Object(ms)
}

} // verus!
