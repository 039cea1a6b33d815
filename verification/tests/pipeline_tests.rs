use paper_reader::error::{is_retryable_parse_error, parse_error_payload, AppError};
use paper_reader::github::{
    check_configured, config_status, finish_upload, prepare_upload, upload_target, GitHubSettings,
};
use paper_reader::json::JsonValue;
use paper_reader::migrations::{base_migrations, upgrade_plan, MigrationStep, SchemaColumns};
use paper_reader::parsing::{
    attempt_failed, attempt_persisting, attempt_started, content_counts, parse_started,
    parse_status_event, parse_succeeded, parsed_metadata, sidecar_exit_failure, sidecar_failure,
    sidecar_outcome, sidecar_request, validate_parsed_content, SidecarParseError,
    SidecarParseMetadata, SidecarText, MAX_PARSE_ATTEMPTS,
};
use paper_reader::prompts::ParsedSection;

fn section(text: &str) -> ParsedSection {
    ParsedSection {
        id: "sec_1".into(),
        title: "1 Method".into(),
        level: 1,
        order: 1,
        start_page: Some(1),
        end_page: None,
        locator: "1".into(),
        text: text.into(),
    }
}

fn parse_failed_message(result: Result<(), AppError>) -> String {
    match result {
        Err(AppError::ParseFailed(message)) => message,
        _ => panic!("expected a parse failure"),
    }
}

#[test]
fn parsed_content_must_have_text() {
    assert_eq!(parse_failed_message(validate_parsed_content("  ", &vec![section("x")])), "sidecar returned empty fullText");
    assert_eq!(parse_failed_message(validate_parsed_content("text", &vec![])), "sidecar returned no sections");
    assert_eq!(
        parse_failed_message(validate_parsed_content("text", &vec![section(" "), section("")])),
        "all sidecar sections were empty"
    );
    assert!(validate_parsed_content("text", &vec![section(" "), section("body")]).is_ok());
}

#[test]
fn sidecar_errors_are_classified() {
    let error = |code: &str| Some(SidecarParseError { code: code.into(), message: "m".into() });
    assert!(matches!(sidecar_failure(error("PDF_INVALID")), AppError::ParseFailed(m) if m == "m"));
    assert!(matches!(sidecar_failure(error("EMPTY_TEXT")), AppError::ParseFailed(_)));
    assert!(matches!(sidecar_failure(error("CONTRACT_VERSION_UNSUPPORTED")), AppError::ParseFailed(_)));
    assert!(matches!(sidecar_failure(error("TIMEOUT")), AppError::UpstreamUnavailable(m) if m == "m"));
    assert!(matches!(
        sidecar_failure(None),
        AppError::ParseFailed(m) if m == "python sidecar returned failure without error payload"
    ));
    assert!(matches!(
        sidecar_outcome(true, None, None),
        Err(AppError::ParseFailed(m)) if m == "python sidecar returned success without data"
    ));
    let data = SidecarText { full_text: "Figure 2 is referenced in the body.".into(), sections: vec![section("We compare.")] };
    let ok = sidecar_outcome(true, None, Some(data)).ok().expect("usable content");
    assert_eq!(ok.sections.len(), 1);
}

#[test]
fn sidecar_exit_reports_its_error_stream() {
    assert!(matches!(sidecar_exit_failure("exit status: 1", "  boom \n"), AppError::ParseFailed(m) if m == "boom"));
    assert!(matches!(
        sidecar_exit_failure("exit status: 2", "  "),
        AppError::ParseFailed(m) if m == "python sidecar exited with status exit status: 2"
    ));
}

#[test]
fn sidecar_request_names_the_paper() {
    let request = sidecar_request("paper_1", "/data/p.pdf");
    assert_eq!(request.get("paperId").and_then(|v| v.as_str()).map(|s| s.as_str()), Some("paper_1"));
    assert_eq!(request.get("pdfPath").and_then(|v| v.as_str()).map(|s| s.as_str()), Some("/data/p.pdf"));
    assert_eq!(request.get("mode").and_then(|v| v.as_str()).map(|s| s.as_str()), Some("extract_sections"));
}

#[test]
fn parse_errors_are_reported_with_codes() {
    let (code, message) = parse_error_payload(&AppError::UpstreamUnavailable("down".into()));
    assert_eq!((code.as_str(), message.as_str()), ("SIDECAR_UNAVAILABLE", "down"));
    let (code, _) = parse_error_payload(&AppError::ParseFailed("bad".into()));
    assert_eq!(code, "PAPER_PARSE_FAILED");
    let (code, _) = parse_error_payload(&AppError::SchemaInvalid("x".into()));
    assert_eq!(code, "AGENT_SCHEMA_INVALID");
    assert!(is_retryable_parse_error(&AppError::Internal("x".into())));
    assert!(!is_retryable_parse_error(&AppError::Validation("x".into())));
}

#[test]
fn progress_reports() {
    let start = parse_started();
    assert_eq!((start.status.as_str(), start.stage.as_str(), start.progress, start.attempt_count), ("parsing", "copy_file", 10, 0));
    let attempt = attempt_started(2);
    assert_eq!((attempt.stage.as_str(), attempt.progress, attempt.retryable), ("extract_text", 40, Some(true)));
    assert_eq!(attempt_persisting(1).progress, 95);
    let done = parse_succeeded(1);
    assert_eq!((done.status.as_str(), done.progress, done.retryable), ("succeeded", 100, Some(false)));
}

#[test]
fn retries_stop_after_three_attempts() {
    let unavailable = AppError::UpstreamUnavailable("sidecar down".into());
    let mut attempts = 0;
    let mut attempt = 1;
    loop {
        attempts += 1;
        let (update, retry) = attempt_failed(attempt, &unavailable);
        if !retry {
            assert_eq!((update.status.as_str(), update.stage.as_str(), update.progress), ("failed", "failed", 100));
            assert_eq!(update.error_code.as_deref(), Some("SIDECAR_UNAVAILABLE"));
            break;
        }
        assert_eq!((update.status.as_str(), update.stage.as_str(), update.progress), ("parsing", "extract_sections", 75));
        attempt += 1;
    }
    assert_eq!(attempts, MAX_PARSE_ATTEMPTS);
    let (update, retry) = attempt_failed(1, &AppError::ParseFailed("bad pdf".into()));
    assert!(!retry);
    assert_eq!(update.error_message.as_deref(), Some("bad pdf"));
    assert_eq!(update.retryable, Some(false));
}

#[test]
fn progress_events_name_the_step() {
    let event = parse_status_event("paper_1", &attempt_started(1), "2024-01-01T00:00:00Z");
    assert_eq!(event.get("eventId").and_then(|v| v.as_str()).map(|s| s.as_str()), Some("evt_parse_paper_1_40"));
    assert!(matches!(event.get("runId"), Some(JsonValue::Null)));
    assert_eq!(event.get("progress").and_then(|v| v.as_i64()), Some(40));
}

#[test]
fn stored_content_counts() {
    assert_eq!(content_counts(" ", &vec![section("a"), section("b")]), (2, false));
    assert_eq!(content_counts("text", &vec![]), (0, true));
    let meta = parsed_metadata(
        SidecarParseMetadata { page_count: Some(2), parser: "pypdf2+pymupdf".into(), visual_parsing: None },
        "now".into(),
    );
    assert_eq!(meta.page_count, Some(2));
    assert_eq!(meta.parser, "pypdf2+pymupdf");
    assert_eq!(meta.parsed_at, "now");
}

fn settings(owner: Option<&str>, name: Option<&str>, token: Option<&str>) -> GitHubSettings {
    GitHubSettings {
        repo_owner: owner.map(|s| s.to_string()),
        repo_name: name.map(|s| s.to_string()),
        repo_branch: None,
        repo_path_prefix: Some(" /assets/ ".into()),
        cdn_base_url: None,
        token: token.map(|s| s.to_string()),
    }
}

#[test]
fn github_configuration_names_what_is_missing() {
    let status = config_status(&settings(Some("me"), None, Some(" ")));
    assert_eq!(status.missing_fields, vec!["repo name".to_string(), "token".to_string()]);
    assert!(!status.is_configured());
    match check_configured(&status) {
        Err(AppError::Validation(m)) => {
            assert_eq!(m, "github image hosting is not fully configured; missing: repo name, token")
        }
        _ => panic!("expected a validation error"),
    }
    assert!(config_status(&settings(Some("me"), Some("repo"), Some("t"))).is_configured());
}

#[test]
fn upload_targets_need_owner_repo_and_token() {
    assert!(matches!(upload_target(&settings(None, None, None)), Err(AppError::Validation(m)) if m == "github repo owner is not configured"));
    assert!(matches!(upload_target(&settings(Some("me"), None, None)), Err(AppError::Validation(m)) if m == "github repo name is not configured"));
    assert!(matches!(upload_target(&settings(Some("me"), Some("r"), None)), Err(AppError::Validation(m)) if m == "github token is not configured"));
    let target = upload_target(&settings(Some(" me "), Some("repo"), Some("tok"))).ok().expect("configured");
    assert_eq!((target.owner.as_str(), target.repo.as_str(), target.branch.as_str(), target.token.as_str()), ("me", "repo", "main", "tok"));
}

#[test]
fn uploads_are_placed_and_linked() {
    let config = settings(Some("me"), Some("repo"), Some("tok"));
    let target = upload_target(&config).ok().expect("configured");
    assert!(matches!(
        prepare_upload(&target, &config, "/tmp/fig.png", &vec![], "figures", "id1"),
        Err(AppError::Validation(m)) if m == "image asset is empty"
    ));
    let request = prepare_upload(&target, &config, "/tmp/fig.jpeg", &b"hello".to_vec(), "figures", "id1")
        .ok()
        .expect("upload request");
    assert_eq!(request.repository_path, "assets/paper-reader/figures/id1.jpeg");
    assert_eq!(request.api_url, "https://api.github.com/repos/me/repo/contents/assets/paper-reader/figures/id1.jpeg");
    assert_eq!(request.public_url, "https://raw.githubusercontent.com/me/repo/main/assets/paper-reader/figures/id1.jpeg");
    assert_eq!(request.payload.get("content").and_then(|v| v.as_str()).map(|s| s.as_str()), Some("aGVsbG8="));
    assert_eq!(
        request.payload.get("message").and_then(|v| v.as_str()).map(|s| s.as_str()),
        Some("paper-reader upload figures fig.jpeg")
    );
    let mut cdn = settings(Some("me"), Some("repo"), Some("tok"));
    cdn.cdn_base_url = Some(" https://cdn.example.com/// ".into());
    cdn.repo_path_prefix = None;
    let request = prepare_upload(&target, &cdn, "/tmp/noext", &vec![1, 2, 3], "t", "u").ok().expect("upload request");
    assert_eq!(request.repository_path, "paper-reader/t/u.png");
    assert_eq!(request.public_url, "https://cdn.example.com/paper-reader/t/u.png");
    let done = finish_upload(201, "201 Created", "{}", request).ok().expect("uploaded");
    assert_eq!(done.repository_path, "paper-reader/t/u.png");
    let again = prepare_upload(&target, &cdn, "/tmp/noext", &vec![1], "t", "u").ok().expect("upload request");
    assert!(matches!(
        finish_upload(404, "404 Not Found", "missing", again),
        Err(AppError::UpstreamUnavailable(m)) if m == "github upload failed with status 404 Not Found: missing"
    ));
}

fn names(items: &[&str]) -> Vec<String> {
    items.iter().map(|s| s.to_string()).collect()
}

#[test]
fn up_to_date_schema_needs_no_upgrade() {
    assert_eq!(base_migrations(), vec![MigrationStep::InitialSchema, MigrationStep::Indexes]);
    let columns = SchemaColumns {
        model_configs: names(&["id", "api_key_fallback", "api_type", "image_input_format", "display_name", "is_recent"]),
        user_profiles: names(&[
            "github_repo_owner",
            "github_repo_name",
            "github_repo_branch",
            "github_repo_path_prefix",
            "github_cdn_base_url",
            "github_token_fallback",
        ]),
        parsed_paper_artifacts: names(&["figure_count", "table_count", "visual_enabled", "visual_mode", "visual_summary_count"]),
        visual_artifacts: Some(names(&["crop_success_count", "crop_failed_count", "sample_caption", "sample_summary", "diagnostics_json"])),
    };
    assert!(upgrade_plan(&columns).is_empty());
}

#[test]
fn old_schema_is_upgraded_in_order() {
    let columns = SchemaColumns {
        model_configs: names(&["id", "display_name"]),
        user_profiles: names(&["github_repo_owner", "github_repo_name", "github_repo_branch", "github_repo_path_prefix", "github_cdn_base_url"]),
        parsed_paper_artifacts: names(&["figure_count", "table_count", "visual_enabled", "visual_mode"]),
        visual_artifacts: None,
    };
    assert_eq!(
        upgrade_plan(&columns),
        vec![
            MigrationStep::ModelConfigKeyFallback,
            MigrationStep::ModelConfigApiType,
            MigrationStep::ModelConfigImageInputFormat,
            MigrationStep::ModelConfigPresets,
            MigrationStep::ProfileTokenFallback,
            MigrationStep::ArtifactVisualSummaryCount,
            MigrationStep::CreateVisualArtifacts,
            MigrationStep::VisualCropSuccessCount,
            MigrationStep::VisualCropFailedCount,
            MigrationStep::VisualSampleCaption,
            MigrationStep::VisualSampleSummary,
            MigrationStep::VisualDiagnostics,
        ]
    );
}

#[test]
fn negative_progress_keeps_its_sign() {
    let mut update = attempt_started(1);
    update.progress = -5;
    let event = parse_status_event("p", &update, "t");
    assert_eq!(event.get("eventId").and_then(|v| v.as_str()).map(|s| s.as_str()), Some("evt_parse_p_-5"));
    assert_eq!(event.get("progress").and_then(|v| v.as_i64()), Some(-5));
}

#[test]
fn a_second_migration_run_needs_nothing() {
    let strings = |names: &[&str]| names.iter().map(|n| n.to_string()).collect::<Vec<String>>();
    let old = SchemaColumns {
        model_configs: strings(&["id", "api_type"]),
        user_profiles: strings(&["user_id"]),
        parsed_paper_artifacts: strings(&["paper_id", "figure_count"]),
        visual_artifacts: None,
    };
    let plan = upgrade_plan(&old);
    assert_eq!(plan.first(), Some(&MigrationStep::ModelConfigKeyFallback));
    assert!(plan.contains(&MigrationStep::CreateVisualArtifacts));
    let upgraded = SchemaColumns {
        model_configs: strings(&["id", "api_type", "api_key_fallback", "image_input_format", "display_name", "is_recent"]),
        user_profiles: strings(&[
            "user_id",
            "github_repo_owner",
            "github_repo_name",
            "github_repo_branch",
            "github_repo_path_prefix",
            "github_cdn_base_url",
            "github_token_fallback",
        ]),
        parsed_paper_artifacts: strings(&["paper_id", "figure_count", "table_count", "visual_enabled", "visual_mode", "visual_summary_count"]),
        visual_artifacts: Some(strings(&[
            "paper_id",
            "crop_success_count",
            "crop_failed_count",
            "sample_caption",
            "sample_summary",
            "diagnostics_json",
        ])),
    };
    assert!(upgrade_plan(&upgraded).is_empty());
}
