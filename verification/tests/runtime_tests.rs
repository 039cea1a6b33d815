use paper_reader::error::AppError;
use paper_reader::json::{JsonNumber, JsonValue};
use paper_reader::model_api::{
    api_label, build_endpoint, check_http_status, check_runtime_provider, completion_content,
    connection_test_config, connection_test_response, extract_responses_text, merge_usage,
    normalize_api_type, prepare_model_request, prepare_probe_request, probe_result,
    split_curl_response, token_usage_json, truncate_runtime_body, u16_text, u64_text,
    ChatChoice, ChatCompletionResponse, ChatMessage, ChatUsage, ResponsesApiResponse,
    ResponsesContentItem, ResponsesOutputItem, StoredModelConfig, TestModelConnectionRequest,
};
use paper_reader::prompts::{
    build_schema_repair_prompt, handoff_prompt_requirement, longer_than_bytes,
    previous_run_json, schema_prompt_requirement, truncate_serialized_json,
};
use paper_reader::runs::{after_first_reply, run_summary, AgentStep};
use paper_reader::workflow::{
    check_run_allowed, fallback_actions_for_success, latest_handoff_ids_for_stage, on_run_failed,
    on_run_started, on_run_succeeded, running_actions_for_agent, running_step_for_agent,
    seed_workflow, WorkflowState,
};

fn strings(items: &[&str]) -> Vec<String> {
    items.iter().map(|s| s.to_string()).collect()
}

#[test]
fn seeding_places_the_paper() {
    let ready = seed_workflow(None, "succeeded");
    assert_eq!(ready.current_step, "paper_ready");
    assert_eq!(ready.next_action_required.as_deref(), Some("run_quick_read"));
    assert_eq!(ready.allowed_actions, strings(&["run_quick_read"]));
    assert!(ready.fallback_actions.is_empty());
    let blocked = seed_workflow(None, "pending");
    assert_eq!(blocked.current_step, "workflow_blocked");
    assert_eq!(blocked.next_action_required.as_deref(), Some("confirm_metadata"));
    assert_eq!(blocked.allowed_actions, strings(&["retry_last_run", "run_summary", "confirm_metadata"]));
    assert_eq!(blocked.fallback_actions, strings(&["run_summary", "confirm_metadata"]));
}

#[test]
fn reseeding_is_idempotent() {
    let once = seed_workflow(None, "failed");
    let twice = seed_workflow(Some(seed_workflow(None, "failed")), "failed");
    assert_eq!(once.current_step, twice.current_step);
    assert_eq!(once.allowed_actions, twice.allowed_actions);
    assert_eq!(once.fallback_actions, twice.fallback_actions);
}

#[test]
fn running_steps() {
    assert_eq!(running_step_for_agent("quick_read"), "quick_read_running");
    assert_eq!(running_step_for_agent("careful_read"), "careful_read_running");
    assert_eq!(running_step_for_agent("deep_read"), "deep_read_running");
    assert_eq!(running_step_for_agent("anything"), "summary_running");
    assert_eq!(running_actions_for_agent("deep_read"), strings(&["refresh_status", "cancel_run"]));
    assert_eq!(running_actions_for_agent("summary"), strings(&["refresh_status"]));
}

fn ready() -> WorkflowState {
    seed_workflow(None, "succeeded")
}

#[test]
fn a_run_moves_the_workflow_forward() {
    let started = on_run_started(ready(), "quick_read");
    assert_eq!(started.current_step, "quick_read_running");
    assert_eq!(started.previous_step.as_deref(), Some("paper_ready"));
    assert_eq!(started.next_action_required.as_deref(), Some("refresh_status"));
    let done = on_run_succeeded(started, "quick_read", "hs_1", vec![], &vec![], &strings(&["hs_0"]));
    assert_eq!(done.current_step, "quick_read_completed");
    assert_eq!(done.previous_step.as_deref(), Some("quick_read_running"));
    assert_eq!(done.next_action_required.as_deref(), Some("confirm_careful_read"));
    assert_eq!(done.allowed_actions, strings(&["run_careful_read", "run_summary"]));
    assert_eq!(done.latest_handoff_summary_ids, strings(&["hs_1"]));
    assert_eq!(done.fallback_actions, strings(&["reopen_reader", "run_summary", "review_handoff_chain"]));
    assert_eq!(done.error_code, None);
}

#[test]
fn summaries_do_not_extend_the_handoff_chain() {
    assert_eq!(latest_handoff_ids_for_stage("summary", "hs_9", strings(&["hs_1"])), strings(&["hs_1"]));
    assert_eq!(latest_handoff_ids_for_stage("deep_read", "hs_9", strings(&["hs_1"])), strings(&["hs_1", "hs_9"]));
    assert_eq!(fallback_actions_for_success("summary", &strings(&["run_1"]), &vec![]), strings(&["reopen_reader", "compare_previous_runs"]));
}

#[test]
fn a_failure_is_recorded_and_a_retry_offered() {
    let failed = on_run_failed(on_run_started(ready(), "careful_read"), "run_7", &AppError::UpstreamUnavailable("model down".into()));
    assert_eq!(failed.current_step, "workflow_failed");
    assert_eq!(failed.previous_step.as_deref(), Some("careful_read_running"));
    assert_eq!(failed.next_action_required.as_deref(), Some("retry_last_run"));
    assert_eq!(failed.allowed_actions, strings(&["retry_last_run", "run_summary"]));
    assert_eq!(failed.last_failed_run_id.as_deref(), Some("run_7"));
    assert_eq!(failed.error_code.as_deref(), Some("UPSTREAM_UNAVAILABLE"));
    assert_eq!(failed.error_message.as_deref(), Some("model down"));
    assert_eq!(failed.retryable, Some(true));
    let recovered = on_run_succeeded(failed, "careful_read", "hs_2", vec![], &vec![], &vec![]);
    assert_eq!(recovered.error_code, None);
    assert_eq!(recovered.last_failed_run_id, None);
    assert_eq!(recovered.retryable, None);
}

#[test]
fn runs_need_a_parsed_paper() {
    assert!(matches!(
        check_run_allowed(&Some("pending".into()), "quick_read", false),
        Err(AppError::Validation(m)) if m == "paper parsing must succeed before running this agent"
    ));
    assert!(check_run_allowed(&Some("succeeded".into()), "quick_read", false).is_ok());
    assert!(check_run_allowed(&None, "summary", false).is_ok());
    assert!(check_run_allowed(&None, "deep_read", true).is_ok());
}

#[test]
fn api_types_and_endpoints() {
    assert_eq!(normalize_api_type(Some(" Chat-Completions "), "https://x"), "chat_completions");
    assert_eq!(normalize_api_type(Some("response"), "https://x"), "responses");
    assert_eq!(normalize_api_type(None, "https://x/v1/Responses/"), "responses");
    assert_eq!(normalize_api_type(Some("other"), "https://x/v1"), "chat_completions");
    assert_eq!(build_endpoint("https://x/v1/", "chat_completions"), "https://x/v1/chat/completions");
    assert_eq!(build_endpoint("https://x/v1/responses", "responses"), "https://x/v1/responses");
    assert_eq!(api_label("responses"), "responses");
    assert_eq!(api_label("chat_completions"), "chat completions");
}

#[test]
fn curl_output_is_split() {
    let (body, code) = split_curl_response("{\"a\":1}\n200\r\n").ok().expect("status marker");
    assert_eq!((body.as_str(), code), ("{\"a\":1}", 200));
    assert!(matches!(split_curl_response("no marker"), Err(AppError::UpstreamUnavailable(m)) if m == "curl response missing HTTP status marker"));
    assert!(matches!(split_curl_response("body\nabc"), Err(AppError::UpstreamUnavailable(m)) if m.starts_with("invalid HTTP status marker from curl: ")));
}

#[test]
fn http_errors_quote_the_body_on_one_line() {
    assert!(check_http_status(204, "").is_ok());
    assert!(matches!(
        check_http_status(503, " busy \n try later "),
        Err(AppError::UpstreamUnavailable(m)) if m == "model endpoint returned HTTP 503: busy try later"
    ));
    let long = "x".repeat(300);
    assert_eq!(truncate_runtime_body(&long), format!("{}...", "x".repeat(240)));
    assert_eq!(u16_text(0), "0");
    assert_eq!(u16_text(65535), "65535");
    assert_eq!(u64_text(1234567890123), "1234567890123");
}

fn chat(content: Option<&str>, usage: Option<(i64, i64, i64)>) -> ChatCompletionResponse {
    ChatCompletionResponse {
        choices: vec![ChatChoice { message: ChatMessage { content: content.map(|s| s.to_string()) } }],
        usage: usage.map(|(p, c, t)| ChatUsage { prompt_tokens: p, completion_tokens: c, total_tokens: t }),
    }
}

#[test]
fn completions_and_usage() {
    assert_eq!(completion_content(&chat(Some("{}"), None)).ok().as_deref(), Some("{}"));
    assert!(matches!(
        completion_content(&chat(None, None)),
        Err(AppError::UpstreamUnavailable(m)) if m == "model response did not contain message content"
    ));
    let merged = merge_usage(chat(Some("a"), Some((1, 2, 3))), chat(Some("b"), Some((10, 20, 30))));
    let usage = merged.usage.as_ref().expect("usage");
    assert_eq!((usage.prompt_tokens, usage.completion_tokens, usage.total_tokens), (11, 22, 33));
    assert_eq!(merged.choices[0].message.content.as_deref(), Some("b"));
    let one_sided = merge_usage(chat(Some("a"), None), chat(Some("b"), Some((4, 5, 9))));
    assert_eq!(one_sided.usage.map(|u| u.total_tokens), Some(9));
    let usage_json = token_usage_json(&Some(ChatUsage { prompt_tokens: 1, completion_tokens: 2, total_tokens: 3 })).expect("usage");
    assert_eq!(usage_json.get("totalTokens").and_then(|v| v.as_i64()), Some(3));
    assert!(token_usage_json(&None).is_none());
}

#[test]
fn responses_text_is_found() {
    let response = ResponsesApiResponse {
        output: Some(vec![
            ResponsesOutputItem { item_type: Some("reasoning".into()), content: None },
            ResponsesOutputItem {
                item_type: Some("message".into()),
                content: Some(vec![
                    ResponsesContentItem { item_type: Some("output_text".into()), text: Some("  ".into()) },
                    ResponsesContentItem { item_type: Some("output_text".into()), text: Some(" {\"summary\":1} ".into()) },
                ]),
            },
        ]),
        output_text: Some("fallback".into()),
        usage: None,
    };
    assert_eq!(extract_responses_text(&response, "raw").ok().as_deref(), Some("{\"summary\":1}"));
    let empty = ResponsesApiResponse { output: None, output_text: Some("  ".into()), usage: None };
    assert!(matches!(
        extract_responses_text(&empty, "raw body"),
        Err(AppError::UpstreamUnavailable(m)) if m == "responses endpoint payload did not contain output text: raw body"
    ));
}

fn config(provider: &str, key: Option<&str>, base_url: &str) -> StoredModelConfig {
    StoredModelConfig {
        id: "c".into(),
        provider: provider.into(),
        base_url: base_url.into(),
        model_name: "gpt-x".into(),
        api_type: None,
        image_input_format: None,
        agent_type: None,
        is_default: false,
        api_key: key.map(|s| s.to_string()),
    }
}

#[test]
fn model_requests_are_prepared() {
    assert!(matches!(
        prepare_model_request(&config("openai_compatible", Some("  "), "https://x/v1"), "quick_read", "p"),
        Err(AppError::Validation(m)) if m == "selected model config has no API key stored in keyring"
    ));
    let request = prepare_model_request(&config("openai_compatible", Some("sk"), "https://x/v1"), "quick_read", "Read.")
        .ok()
        .expect("request");
    assert_eq!(request.endpoint, "https://x/v1/chat/completions");
    assert_eq!(request.api_key, "sk");
    assert_eq!(request.payload.get("model").and_then(|v| v.as_str()).map(|s| s.as_str()), Some("gpt-x"));
    assert!(matches!(request.payload.get("temperature"), Some(JsonValue::Number(JsonNumber::Other(t))) if t == "0.7"));
    let probe = prepare_probe_request(&config("openai_compatible", Some("sk"), "https://x/v1/responses"), "ping").ok().expect("probe");
    assert_eq!(probe.api_type, "responses");
    assert_eq!(probe.payload.get("input").and_then(|v| v.as_str()).map(|s| s.as_str()), Some("ping"));
    let result = probe_result(probe, 200);
    assert_eq!(result.api_label, "responses");
    assert!(matches!(
        check_runtime_provider(&config("other", Some("sk"), "x")),
        Err(AppError::Validation(m)) if m == "runtime only supports openai_compatible models"
    ));
}

#[test]
fn connection_tests() {
    let request = TestModelConnectionRequest {
        provider: " openai_compatible ".into(),
        base_url: "https://x/v1".into(),
        model_name: "gpt-x".into(),
        api_key: "sk".into(),
        api_type: None,
        image_input_format: None,
    };
    let tested = connection_test_config(&request).ok().expect("config");
    assert_eq!(tested.id, "test-connection");
    let probe = prepare_probe_request(&tested, "ping").ok().expect("probe");
    let reply = connection_test_response(&request, probe_result(probe, 200), 12);
    assert!(reply.connected);
    assert_eq!(reply.status_text, "chat completions request succeeded");
    assert_eq!(reply.model_identity, " openai_compatible :gpt-x");
    assert_eq!(reply.status_code, Some(200));
    let wrong = TestModelConnectionRequest { provider: "azure".into(), ..request };
    assert!(matches!(
        connection_test_config(&wrong),
        Err(AppError::Validation(m)) if m == "only openai_compatible provider is supported in this scaffold"
    ));
}

#[test]
fn prompt_requirements_differ_by_agent() {
    assert!(handoff_prompt_requirement("summary").is_empty());
    assert!(!handoff_prompt_requirement("quick_read").is_empty());
    assert!(!schema_prompt_requirement("deep_read").is_empty());
    let repair = build_schema_repair_prompt("summary", "ORIGINAL", "BAD", "ERR");
    assert!(repair.starts_with("The previous response for agent summary did not satisfy"));
    assert!(repair.ends_with("Invalid output:\nBAD"));
    assert!(!repair.contains("handoffSummary object"));
}

#[test]
fn serialised_values_are_cut_by_bytes() {
    assert!(!longer_than_bytes("héllo", 6));
    assert!(longer_than_bytes("héllo", 5));
    assert_eq!(truncate_serialized_json("abc", 3), None);
    assert_eq!(truncate_serialized_json("abcdef", 3).as_deref(), Some("abc..."));
}

#[test]
fn first_replies_are_repaired_once() {
    match after_first_reply("quick_read", "P", "C", Err(AppError::SchemaInvalid("missing summary".into()))) {
        AgentStep::Repair(prompt) => {
            assert!(prompt.contains("Validation error:\nmissing summary"));
            assert!(prompt.contains("Original task prompt:\nP"));
        }
        _ => panic!("expected a repair"),
    }
    assert!(matches!(
        after_first_reply("quick_read", "P", "C", Err(AppError::UpstreamUnavailable("x".into()))),
        AgentStep::Failed(AppError::UpstreamUnavailable(_))
    ));
}

#[test]
fn runs_are_listed_with_their_summary() {
    let output = JsonValue::Object(vec![paper_reader::json::JsonMember { key: "summary".into(), value: JsonValue::Str("Good".into()) }]);
    assert_eq!(run_summary(&Some(output)).as_deref(), Some("Good"));
    assert_eq!(run_summary(&Some(JsonValue::Null)), None);
    assert_eq!(run_summary(&None), None);
    let previous = previous_run_json("quick_read".into(), "failed".into(), None, Some("t".into()));
    assert!(matches!(previous.get("outputSnapshot"), Some(JsonValue::Null)));
    assert_eq!(previous.get("finishedAt").and_then(|v| v.as_str()).map(|s| s.as_str()), Some("t"));
}

#[test]
fn long_non_ascii_replies_are_read_when_they_hold_text() {
    let body = format!("a{}", "论文".repeat(100));
    assert!(check_http_status(200, &body).is_ok());
    let response = ResponsesApiResponse { output: None, output_text: Some(" 结论 ".into()), usage: None };
    assert_eq!(extract_responses_text(&response, &body).ok().as_deref(), Some("结论"));
}
