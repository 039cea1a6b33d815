use paper_reader::model_config::{flags_after_delete, flags_after_mark_recent, flags_after_save, flags_after_update, ConfigFlags};
use paper_reader::error::{require_found, AppError};
use paper_reader::library::{
    check_can_save, check_list_request, check_save_request, check_update_request,
    list_filters, list_response, merge_update, new_entry, page_offset, validate_status,
    LibraryEntry, ListLibraryItemsRequest, SaveToLibraryRequest, UpdateLibraryItemRequest,
};
use paper_reader::model_config::{
    check_changed_config, check_config_id, check_new_config, config_list, detail_key,
    effective_key, key_fallback, runtime_config_choice, saved_config_response, ModelConfigRequest,
    ModelConfigResponse, UpdateModelConfigRequest,
};
use paper_reader::model_api::StoredModelConfig;
use paper_reader::profile::{
    check_profile, choose_github_token, token_to_store, upload_test_response, UpsertProfileRequest,
};
use paper_reader::github::GitHubUploadResult;
use paper_reader::runs::{
    check_analyze_visuals_request, check_get_agent_run_request, check_run_agent_request,
    default_evidence_source_type, default_true, default_visual_mode, run_options,
    succeeded_run_response, AnalyzeVisualsRequest, GetAgentRunRequest, RunAgentRequest,
};

fn validation_message(result: Result<(), AppError>) -> String {
    match result {
        Err(AppError::Validation(message)) => message,
        Err(_) => panic!("expected a validation error"),
        Ok(()) => panic!("expected an error"),
    }
}

fn update(status: Option<&str>, tags: Option<Vec<&str>>, starred: Option<bool>) -> UpdateLibraryItemRequest {
    UpdateLibraryItemRequest {
        id: "lib_1".into(),
        status: status.map(|s| s.to_string()),
        tags: tags.map(|t| t.into_iter().map(|x| x.to_string()).collect()),
        starred,
    }
}

#[test]
fn library_statuses_are_checked() {
    for status in ["queued", "reading", "completed", "archived"] {
        assert!(validate_status(&Some(status.to_string())).is_ok());
    }
    assert!(validate_status(&None).is_ok());
    assert_eq!(validation_message(validate_status(&Some("done".into()))), "invalid library status");
    assert_eq!(validation_message(validate_status(&Some("Queued".into()))), "invalid library status");
}

#[test]
fn save_request_checks_its_status() {
    let request = SaveToLibraryRequest { paper_id: "p".into(), status: Some("lost".into()), tags: None, starred: None };
    assert_eq!(validation_message(check_save_request(&request)), "invalid library status");
    let request = SaveToLibraryRequest { paper_id: "p".into(), status: None, tags: None, starred: None };
    assert!(check_save_request(&request).is_ok());
}

#[test]
fn update_request_needs_a_field() {
    assert_eq!(
        validation_message(check_update_request(&update(None, None, None))),
        "at least one field must be provided"
    );
    assert_eq!(validation_message(check_update_request(&update(Some("x"), None, None))), "invalid library status");
    assert!(check_update_request(&update(None, None, Some(true))).is_ok());
    assert!(check_update_request(&update(None, Some(vec![]), None)).is_ok());
}

#[test]
fn list_request_needs_positive_paging() {
    let mk = |page, page_size| ListLibraryItemsRequest { status: None, keyword: None, page, page_size };
    assert_eq!(validation_message(check_list_request(&mk(0, 10))), "page and pageSize must be positive");
    assert_eq!(validation_message(check_list_request(&mk(1, 0))), "page and pageSize must be positive");
    assert!(check_list_request(&mk(1, 10)).is_ok());
}

#[test]
fn new_entries_take_defaults() {
    let entry = new_entry(&SaveToLibraryRequest { paper_id: "p".into(), status: None, tags: None, starred: None });
    assert_eq!(entry.status, "queued");
    assert!(entry.tags.is_empty());
    assert!(!entry.starred);
    let entry = new_entry(&SaveToLibraryRequest {
        paper_id: "p".into(),
        status: Some("reading".into()),
        tags: Some(vec!["ml".into()]),
        starred: Some(true),
    });
    assert_eq!(entry.status, "reading");
    assert_eq!(entry.tags, vec!["ml".to_string()]);
    assert!(entry.starred);
}

#[test]
fn updates_keep_untouched_fields() {
    let existing = LibraryEntry { status: "queued".into(), tags: vec!["a".into()], starred: false };
    let merged = merge_update(existing, &update(None, None, Some(true)));
    assert_eq!(merged.status, "queued");
    assert_eq!(merged.tags, vec!["a".to_string()]);
    assert!(merged.starred);
}

#[test]
fn updating_twice_is_updating_once() {
    let request = update(Some("completed"), None, Some(true));
    let existing = LibraryEntry { status: "queued".into(), tags: vec!["a".into()], starred: false };
    let once = merge_update(existing, &request);
    let once_copy = LibraryEntry { status: once.status.clone(), tags: once.tags.clone(), starred: once.starred };
    let twice = merge_update(once_copy, &request);
    assert_eq!(twice.status, once.status);
    assert_eq!(twice.tags, once.tags);
    assert_eq!(twice.starred, once.starred);
}

#[test]
fn page_offsets_are_contiguous() {
    assert_eq!(page_offset(0, 20), 0);
    assert_eq!(page_offset(1, 20), 0);
    assert_eq!(page_offset(3, 20), 40);
    assert_eq!(page_offset(4, 20), page_offset(3, 20) + 20);
}

#[test]
fn list_filters_trim_and_wrap() {
    let request = ListLibraryItemsRequest { status: Some("  reading ".into()), keyword: Some(" graph ".into()), page: 1, page_size: 10 };
    let (status, keyword) = list_filters(&request);
    assert_eq!(status.as_deref(), Some("reading"));
    assert_eq!(keyword.as_deref(), Some("%graph%"));
    let request = ListLibraryItemsRequest { status: Some("   ".into()), keyword: None, page: 1, page_size: 10 };
    assert_eq!(list_filters(&request), (None, None));
}

#[test]
fn a_full_page_may_have_more() {
    assert!(list_response(Vec::new(), 1, 0).has_more);
    assert!(!list_response(Vec::new(), 1, 10).has_more);
}

#[test]
fn saving_needs_an_unsaved_existing_paper() {
    assert!(matches!(check_can_save(false, false), Err(AppError::NotFound(m)) if m == "paper not found"));
    assert_eq!(validation_message(check_can_save(true, true)), "paper is already saved to library");
    assert!(check_can_save(true, false).is_ok());
    let missing: Option<LibraryEntry> = None;
    assert!(matches!(require_found(missing, "library item not found"), Err(AppError::NotFound(m)) if m == "library item not found"));
    assert!(matches!(require_found(Some(3), "x"), Ok(3)));
}

fn profile(role: &str, owner: Option<&str>, name: Option<&str>) -> UpsertProfileRequest {
    UpsertProfileRequest {
        role: role.into(),
        research_field: "NLP".into(),
        focus_topic: None,
        reading_goal: "survey".into(),
        output_language: "en".into(),
        experience_level: "senior".into(),
        github_repo_owner: owner.map(|s| s.to_string()),
        github_repo_name: name.map(|s| s.to_string()),
        github_repo_branch: None,
        github_repo_path_prefix: None,
        github_cdn_base_url: None,
        github_token: Some("  tok  ".into()),
    }
}

#[test]
fn profiles_need_their_fields() {
    assert_eq!(validation_message(check_profile(&profile("  ", None, None))), "profile fields cannot be empty");
    assert_eq!(
        validation_message(check_profile(&profile("student", Some("me"), None))),
        "github image hosting requires repo owner and repo name"
    );
    assert_eq!(
        validation_message(check_profile(&profile("student", Some(" "), Some("repo")))),
        "github image hosting requires repo owner and repo name"
    );
    assert!(check_profile(&profile("student", Some("me"), Some("repo"))).is_ok());
    assert!(check_profile(&profile("student", None, None)).is_ok());
}

#[test]
fn github_tokens_are_trimmed_and_preferred_from_the_store() {
    assert_eq!(token_to_store(&profile("r", None, None)).as_deref(), Some("tok"));
    assert_eq!(choose_github_token(Some("stored".into()), Some("fallback".into())).as_deref(), Some("stored"));
    assert_eq!(choose_github_token(None, Some("fallback".into())).as_deref(), Some("fallback"));
    assert_eq!(choose_github_token(Some("  ".into()), Some("fallback".into())), None);
    assert_eq!(choose_github_token(None, None), None);
}

#[test]
fn upload_test_reply_names_the_upload() {
    let reply = upload_test_response(GitHubUploadResult { public_url: "u".into(), repository_path: "p".into() });
    assert_eq!(reply.message, "test image uploaded successfully");
    assert_eq!(reply.public_url, "u");
    assert_eq!(reply.repository_path, "p");
}

fn new_config(display_name: &str, api_key: &str) -> ModelConfigRequest {
    ModelConfigRequest {
        display_name: display_name.into(),
        provider: "openai_compatible".into(),
        base_url: "https://example.com/v1".into(),
        model_name: "gpt".into(),
        api_key: api_key.into(),
        api_type: None,
        image_input_format: None,
        agent_type: None,
        is_default: true,
    }
}

#[test]
fn model_configs_are_checked() {
    assert_eq!(
        validation_message(check_new_config(&new_config(" ", "k"))),
        "displayName, provider, baseUrl, and modelName are required"
    );
    assert_eq!(validation_message(check_new_config(&new_config("Mine", " "))), "apiKey is required when saving a model config");
    assert!(check_new_config(&new_config("Mine", "k")).is_ok());
    let changed = UpdateModelConfigRequest {
        id: " ".into(),
        display_name: "Mine".into(),
        provider: "p".into(),
        base_url: "b".into(),
        model_name: "m".into(),
        api_key: String::new(),
        api_type: None,
        image_input_format: None,
        agent_type: None,
        is_default: false,
    };
    assert_eq!(
        validation_message(check_changed_config(&changed)),
        "id, displayName, provider, baseUrl, and modelName are required"
    );
    assert_eq!(validation_message(check_config_id("")), "model config id is required");
    assert!(check_config_id("cfg").is_ok());
}

#[test]
fn model_keys_fall_back_and_are_reported() {
    assert_eq!(key_fallback("  "), None);
    assert_eq!(key_fallback("sk").as_deref(), Some("sk"));
    assert_eq!(effective_key(Some("a".into()), Some("b".into())).as_deref(), Some("a"));
    assert_eq!(effective_key(None, Some("b".into())).as_deref(), Some("b"));
    assert_eq!(detail_key(None, None), (String::new(), false));
    assert_eq!(detail_key(None, Some("b".into())), ("b".to_string(), true));
    let saved = saved_config_response(&new_config("Mine", "k"), "id1".into(), "now".into());
    assert!(saved.is_recent);
    assert!(saved.has_credential);
    assert_eq!(saved.id, "id1");
}

fn stored(id: &str) -> StoredModelConfig {
    StoredModelConfig {
        id: id.into(),
        provider: "openai_compatible".into(),
        base_url: "b".into(),
        model_name: "m".into(),
        api_type: None,
        image_input_format: None,
        agent_type: None,
        is_default: false,
        api_key: None,
    }
}

#[test]
fn runtime_config_prefers_the_agents_own() {
    assert_eq!(runtime_config_choice(Some(stored("agent")), Some(stored("recent"))).ok().map(|c| c.id), Some("agent".to_string()));
    assert_eq!(runtime_config_choice(None, Some(stored("recent"))).ok().map(|c| c.id), Some("recent".to_string()));
    assert!(matches!(
        runtime_config_choice(None, None),
        Err(AppError::NotFound(m)) if m == "no saved model config available for runtime execution"
    ));
}

fn listed(id: &str, recent: bool) -> ModelConfigResponse {
    ModelConfigResponse {
        id: id.into(),
        display_name: id.into(),
        provider: "p".into(),
        base_url: "b".into(),
        model_name: "m".into(),
        api_type: None,
        image_input_format: None,
        agent_type: None,
        is_default: false,
        is_recent: recent,
        has_credential: false,
        updated_at: "t".into(),
    }
}

#[test]
fn config_list_names_the_first_recent() {
    let list = config_list(vec![listed("a", false), listed("b", true), listed("c", true)]);
    assert_eq!(list.recent_id.as_deref(), Some("b"));
    assert_eq!(list.items.len(), 3);
    assert_eq!(config_list(vec![listed("a", false)]).recent_id, None);
}

fn run_request(paper_id: &str, agent_type: &str) -> RunAgentRequest {
    RunAgentRequest {
        paper_id: paper_id.into(),
        agent_type: agent_type.into(),
        user_question: None,
        force: None,
        source_run_ids: None,
        source_handoff_summary_ids: None,
        runtime_mode: None,
        section_strategy: None,
        max_sections_per_batch: None,
        max_batches: None,
        pinned_section_ids: None,
        visual_mode: None,
        pinned_figure_ids: None,
        pinned_table_ids: None,
    }
}

#[test]
fn run_requests_are_checked() {
    assert_eq!(validation_message(check_run_agent_request(&run_request(" ", "quick_read"))), "paperId cannot be empty");
    assert_eq!(validation_message(check_run_agent_request(&run_request("p", ""))), "agentType cannot be empty");
    assert!(check_run_agent_request(&run_request("p", "quick_read")).is_ok());
    let visuals = AnalyzeVisualsRequest {
        paper_id: "p".into(),
        stage: "  ".into(),
        user_question: None,
        force: None,
        target_object_ids: None,
        target_object_types: None,
        max_items: None,
    };
    assert_eq!(validation_message(check_analyze_visuals_request(&visuals)), "stage cannot be empty");
    assert_eq!(
        validation_message(check_get_agent_run_request(&GetAgentRunRequest { run_id: "".into() })),
        "runId cannot be empty"
    );
}

#[test]
fn run_defaults() {
    let options = run_options(&run_request("p", "summary"));
    assert!(!options.force);
    assert!(options.user_question.is_empty());
    assert!(options.source_run_ids.is_empty());
    assert_eq!(default_visual_mode(), "disabled");
    assert_eq!(default_evidence_source_type(), "section_text");
    assert!(default_true());
    let reply = succeeded_run_response("run_1".into());
    assert_eq!(reply.status, "succeeded");
    assert_eq!(reply.poll_key, "run_1");
}

#[test]
fn model_config_flags_follow_saves_updates_and_marks() {
    let rows = vec![
        ConfigFlags { id: "a".into(), is_recent: true, is_default: true },
        ConfigFlags { id: "b".into(), is_recent: false, is_default: false },
    ];
    let saved = flags_after_save(&rows, "c", false);
    assert_eq!(saved.len(), 3);
    assert!(saved.iter().filter(|f| f.is_recent).all(|f| f.id == "c"));
    assert!(saved[0].is_default && !saved[2].is_default);
    let saved_default = flags_after_save(&rows, "c", true);
    assert!(saved_default.iter().filter(|f| f.is_default).all(|f| f.id == "c"));
    let (updated, found) = flags_after_update(&rows, "b", true);
    assert!(found);
    assert!(!updated[0].is_default && updated[1].is_default && updated[0].is_recent);
    let (_, missing) = flags_after_update(&rows, "z", false);
    assert!(!missing);
    let (marked, touched) = flags_after_mark_recent(&rows, "b");
    assert!(touched && !marked[0].is_recent && marked[1].is_recent);
    let (_, untouched) = flags_after_mark_recent(&vec![ConfigFlags { id: "a".into(), is_recent: false, is_default: false }], "z");
    assert!(!untouched);
}

#[test]
fn deleting_passes_the_flags_on() {
    let newest_first = vec![
        ConfigFlags { id: "n".into(), is_recent: false, is_default: false },
        ConfigFlags { id: "o".into(), is_recent: false, is_default: false },
    ];
    let after = flags_after_delete(&newest_first, true, true);
    assert!(after[0].is_recent && !after[1].is_recent);
    assert!(after[0].is_default && !after[1].is_default);
    let kept = vec![
        ConfigFlags { id: "n".into(), is_recent: false, is_default: false },
        ConfigFlags { id: "o".into(), is_recent: true, is_default: false },
    ];
    let after = flags_after_delete(&kept, false, true);
    assert!(after[1].is_recent && after[1].is_default && !after[0].is_default);
}
