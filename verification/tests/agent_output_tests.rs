use paper_reader::agent_output::{normalize_agent_output, validate_enum};
use paper_reader::error::AppError;
use paper_reader::json::{members_get, JsonMember, JsonNumber, JsonValue};

fn s(text: &str) -> JsonValue {
    JsonValue::Str(text.to_string())
}

fn num(n: i64) -> JsonValue {
    JsonValue::Number(JsonNumber::Int(n))
}

fn obj(pairs: Vec<(&str, JsonValue)>) -> JsonValue {
    JsonValue::Object(
        pairs
            .into_iter()
            .map(|(key, value)| JsonMember { key: key.to_string(), value })
            .collect(),
    )
}

fn arr(items: Vec<JsonValue>) -> JsonValue {
    JsonValue::Array(items)
}

fn str_of(value: Option<&JsonValue>) -> Option<String> {
    value.and_then(|v| v.as_str()).cloned()
}

fn quick_read_output(summary: &str, quote: &str, section: &str, page: i64, locator: &str, reason: &str) -> Vec<(&'static str, JsonValue)> {
    vec![
        ("summary", s(summary)),
        (
            "evidence",
            arr(vec![obj(vec![
                ("quote", s(quote)),
                ("section", s(section)),
                ("page", num(page)),
                ("locator", s(locator)),
            ])]),
        ),
        ("readingRecommendation", s("worth_deep_read")),
        ("priorityDecision", s("值得精读")),
        ("recommendation", s("continue")),
        ("priorityReason", s(reason)),
    ]
}

#[test]
fn quick_read_output_synthesizes_missing_handoff_summary() {
    let parsed = obj(quick_read_output(
        "This paper looks worth a deeper read because it presents a clear method and evaluable result.",
        "We improve accuracy by 4.2 points over the baseline.",
        "Results",
        6,
        "Results paragraph 2",
        "The reported gain is concrete and the paper seems methodologically clear.",
    ));

    let normalized = match normalize_agent_output("quick_read", parsed, "2026-04-03T13:02:00Z") {
        Ok(output) => output,
        Err(_) => panic!("normalization should succeed"),
    };
    let handoff = normalized
        .output_json
        .get("handoffSummary")
        .and_then(|value| value.as_object())
        .expect("handoffSummary should be synthesized");

    assert_eq!(str_of(members_get(handoff, "stage")), Some("quick_read".to_string()));
    assert!(str_of(members_get(handoff, "compressedConclusion")).is_some_and(|value| !value.is_empty()));
    assert!(members_get(handoff, "carryForwardEvidence")
        .and_then(|value| value.as_array())
        .is_some_and(|items| !items.is_empty()));
}

#[test]
fn invalid_handoff_summary_still_fails_validation() {
    let mut fields = quick_read_output(
        "The paper is promising but needs closer validation.",
        "The method depends on a curated benchmark.",
        "Method",
        4,
        "Method paragraph 1",
        "There is enough signal to continue.",
    );
    fields.push((
        "handoffSummary",
        obj(vec![
            ("stage", s("quick_read")),
            ("keyPoints", arr(vec![s("Missing compressed conclusion should fail.")])),
            ("carryForwardQuestions", arr(vec![])),
            ("carryForwardEvidence", arr(vec![])),
            ("nextStepSuggestion", s("continue")),
            ("generatedAt", s("2026-04-03T13:02:00Z")),
        ]),
    ));
    let parsed = obj(fields);

    let error = match normalize_agent_output("quick_read", parsed, "2026-04-03T13:02:00Z") {
        Ok(_) => panic!("invalid handoff should fail"),
        Err(error) => error,
    };
    assert!(matches!(error, AppError::SchemaInvalid(message) if message.contains("handoffSummary.compressedConclusion is required")));
}

#[test]
fn synthesized_handoff_carries_the_evidence_and_generation_time() {
    let parsed = obj(quick_read_output(
        "Short summary.",
        "A quote.",
        "Intro",
        1,
        "Intro paragraph 1",
        "Reason.",
    ));
    let normalized = match normalize_agent_output("quick_read", parsed, "2026-01-01T00:00:00Z") {
        Ok(output) => output,
        Err(_) => panic!("normalization should succeed"),
    };
    let handoff = normalized.handoff_summary.expect("handoff summary");
    assert_eq!(handoff.stage, "quick_read");
    assert_eq!(handoff.generated_at, "2026-01-01T00:00:00Z");
    assert_eq!(handoff.carry_forward_evidence.len(), 1);
    assert_eq!(handoff.carry_forward_evidence[0].quote, "A quote.");
    assert_eq!(handoff.carry_forward_evidence[0].source_type, "section_text");
    assert_eq!(handoff.carry_forward_evidence[0].page, Some(1));
}

#[test]
fn output_that_is_not_an_object_is_refused() {
    let error = match normalize_agent_output("quick_read", arr(vec![]), "now") {
        Ok(_) => panic!("an array is no agent output"),
        Err(error) => error,
    };
    assert!(matches!(error, AppError::SchemaInvalid(_)));
}

#[test]
fn validate_enum_names_the_allowed_values() {
    let allowed = vec!["a".to_string(), "b".to_string()];
    assert!(validate_enum(&"a".to_string(), &allowed, "field").is_ok());
    match validate_enum(&"c".to_string(), &allowed, "field") {
        Err(AppError::SchemaInvalid(message)) => assert_eq!(message, "field must be one of a, b"),
        _ => panic!("expected a schema error"),
    }
}
