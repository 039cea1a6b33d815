use paper_reader::arxiv::{
    default_file_name_from_url, extract_arxiv_id, extract_arxiv_id_from_url, looks_like_arxiv_id,
    map_entry, normalize_arxiv_pdf_url, search_query_params, search_results, year_of, ArxivAuthor,
    ArxivEntry, ArxivLink,
};
use paper_reader::error::AppError;
use paper_reader::paper::{reader_snapshot, ReaderRow,
    check_download, check_downloaded_size, check_import_file, check_import_host, check_paper_id,
    check_search_request, import_file_name, imported_file_name, is_forbidden_import_host,
    normalized_host, parse_import_url, pending_import_response, prepare_metadata,
    reader_parse_state, resolve_import_url, search_response, ConfirmPaperMetadataRequest,
    HostAddress, ParsedUrl, SearchPapersRequest,
};

fn validation_message<T>(result: Result<T, AppError>) -> String {
    match result {
        Err(AppError::Validation(message)) => message,
        Err(_) => panic!("expected a validation error"),
        Ok(_) => panic!("expected an error"),
    }
}

fn search(query: &str, source: &str, page: usize, page_size: usize) -> SearchPapersRequest {
    SearchPapersRequest { query: query.into(), source: source.into(), page, page_size }
}

#[test]
fn searches_are_checked_in_order() {
    assert_eq!(validation_message(check_search_request(&search(" ", "x", 0, 7))), "query cannot be empty");
    assert_eq!(validation_message(check_search_request(&search("llm", "x", 0, 7))), "page must be at least 1");
    assert_eq!(validation_message(check_search_request(&search("llm", "x", 1, 7))), "pageSize must be one of 10, 20, 50");
    assert_eq!(
        validation_message(check_search_request(&search("llm", "semantic", 1, 20))),
        "only arxiv search is implemented in this scaffold"
    );
    assert!(check_search_request(&search("llm", "arxiv", 2, 50)).is_ok());
}

#[test]
fn search_reply_reports_more_on_a_full_page() {
    let reply = search_response(Vec::new(), search("q", "arxiv", 1, 10));
    assert!(!reply.has_more);
    assert_eq!(reply.source, "arxiv");
    assert_eq!(reply.page_size, 10);
}

#[test]
fn blank_paper_ids_are_refused() {
    assert_eq!(validation_message(check_paper_id("  ")), "paperId cannot be empty");
    assert!(check_paper_id("paper_1").is_ok());
}

#[test]
fn metadata_is_trimmed_and_checked() {
    let request = ConfirmPaperMetadataRequest {
        paper_id: "paper_1".into(),
        title: "  Attention Is All You Need ".into(),
        authors: vec![" Vaswani ".into(), "  ".into(), "Shazeer".into()],
        year: Some(2017),
        venue: Some("NeurIPS".into()),
        abstract_text: None,
    };
    let confirmed = match prepare_metadata(request) {
        Ok(m) => m,
        Err(_) => panic!("metadata should be accepted"),
    };
    assert_eq!(confirmed.title, "Attention Is All You Need");
    assert_eq!(confirmed.authors, vec!["Vaswani".to_string(), "Shazeer".to_string()]);
    assert_eq!(confirmed.year, Some(2017));
    let untitled = ConfirmPaperMetadataRequest {
        paper_id: "paper_1".into(),
        title: " ".into(),
        authors: vec![],
        year: None,
        venue: None,
        abstract_text: None,
    };
    assert_eq!(validation_message(prepare_metadata(untitled)), "title cannot be empty");
}

#[test]
fn only_existing_pdfs_are_imported() {
    assert!(matches!(check_import_file(false, "/tmp/a.pdf"), Err(AppError::NotFound(m)) if m == "file not found"));
    assert_eq!(validation_message(check_import_file(true, "/tmp/a.txt")), "only pdf files are supported");
    assert_eq!(validation_message(check_import_file(true, "/tmp/pdf")), "only pdf files are supported");
    assert!(check_import_file(true, "/tmp/A.PDF").is_ok());
    assert_eq!(imported_file_name("/tmp/papers/a.pdf"), "a.pdf");
    assert_eq!(imported_file_name("/"), "paper.pdf");
    let reply = pending_import_response("paper_1".into(), "file_1".into());
    assert_eq!(reply.parse_status, "pending");
    assert!(reply.metadata_needs_confirmation);
}

#[test]
fn reader_state_defaults() {
    assert_eq!(reader_parse_state(None, None, None), ("pending".to_string(), 0, false));
    assert_eq!(reader_parse_state(Some("failed".into()), Some(100), Some(true)), ("failed".to_string(), 100, true));
}

#[test]
fn import_links_must_be_web_urls() {
    assert_eq!(validation_message(parse_import_url("not a url")), "url must start with http:// or https://");
    assert_eq!(validation_message(parse_import_url("ftp://example.com/a.pdf")), "url must start with http:// or https://");
    let parsed = parse_import_url("  https://Example.com/papers/a.pdf ").ok().expect("valid url");
    assert_eq!(parsed.scheme, "https");
    assert_eq!(parsed.host.as_deref(), Some("example.com"));
    assert_eq!(parsed.path, "/papers/a.pdf");
}

#[test]
fn local_hosts_are_forbidden() {
    assert!(is_forbidden_import_host(" LocalHost ", &None));
    assert!(is_forbidden_import_host("api.localhost", &None));
    assert!(is_forbidden_import_host("printer.local", &None));
    assert!(!is_forbidden_import_host("arxiv.org", &None));
    assert!(is_forbidden_import_host("10.1.2.3", &Some(HostAddress::V4([10, 1, 2, 3]))));
    assert!(is_forbidden_import_host("172.20.0.1", &Some(HostAddress::V4([172, 20, 0, 1]))));
    assert!(!is_forbidden_import_host("172.32.0.1", &Some(HostAddress::V4([172, 32, 0, 1]))));
    assert!(is_forbidden_import_host("192.168.1.1", &Some(HostAddress::V4([192, 168, 1, 1]))));
    assert!(is_forbidden_import_host("169.254.0.9", &Some(HostAddress::V4([169, 254, 0, 9]))));
    assert!(is_forbidden_import_host("255.255.255.255", &Some(HostAddress::V4([255, 255, 255, 255]))));
    assert!(!is_forbidden_import_host("8.8.8.8", &Some(HostAddress::V4([8, 8, 8, 8]))));
    assert!(is_forbidden_import_host("::1", &Some(HostAddress::V6([0, 0, 0, 0, 0, 0, 0, 1]))));
    assert!(is_forbidden_import_host("fd00::1", &Some(HostAddress::V6([0xfd00, 0, 0, 0, 0, 0, 0, 1]))));
    assert!(!is_forbidden_import_host("2001:db8::1", &Some(HostAddress::V6([0x2001, 0xdb8, 0, 0, 0, 0, 0, 1]))));
    assert_eq!(
        validation_message(check_import_host("127.0.0.1", &Some(HostAddress::V4([127, 0, 0, 1])))),
        "local and private network URLs are not allowed"
    );
    assert_eq!(normalized_host(" ArXiv.ORG "), "arxiv.org");
}

#[test]
fn arxiv_pages_resolve_to_their_pdf() {
    let parsed = parse_import_url("https://arxiv.org/abs/2401.01234").ok().expect("valid url");
    let resolved = resolve_import_url(parsed);
    assert_eq!(resolved.text, "https://arxiv.org/pdf/2401.01234.pdf");
    let other = parse_import_url("https://example.com/x.pdf").ok().expect("valid url");
    assert_eq!(resolve_import_url(other).text, "https://example.com/x.pdf");
}

fn url(path: &str, text: &str) -> ParsedUrl {
    ParsedUrl { scheme: "https".into(), host: Some("example.com".into()), path: path.into(), text: text.into() }
}

#[test]
fn downloads_must_be_pdfs() {
    let pdf_path = url("/paper.PDF", "https://example.com/paper.PDF");
    let html_path = url("/paper", "https://example.com/paper");
    assert!(matches!(
        check_download(false, "404 Not Found", "", &pdf_path),
        Err(AppError::UpstreamUnavailable(m)) if m == "download failed with status 404 Not Found"
    ));
    assert!(check_download(true, "200 OK", "", &pdf_path).is_ok());
    assert!(check_download(true, "200 OK", "application/pdf; charset=binary", &html_path).is_ok());
    assert_eq!(validation_message(check_download(true, "200 OK", "text/html", &html_path)), "url does not point to a pdf resource");
    assert!(matches!(check_downloaded_size(0), Err(AppError::ImportFailed(m)) if m == "downloaded file is empty"));
    assert!(check_downloaded_size(10).is_ok());
}

#[test]
fn downloaded_files_are_named() {
    let download = url("/files/report", "https://example.com/files/report?x=1");
    assert_eq!(import_file_name(Some("Mine.pdf".into()), &download), "Mine.pdf");
    assert_eq!(import_file_name(Some("  ".into()), &download), "report.pdf");
    assert_eq!(import_file_name(None, &download), "report.pdf");
}

#[test]
fn default_file_names_end_in_pdf() {
    assert_eq!(default_file_name_from_url("https://x.org/a/b.PDF"), "b.PDF");
    assert_eq!(default_file_name_from_url("https://x.org/a/b?q=1"), "b.pdf");
    assert_eq!(default_file_name_from_url("https://x.org/a/"), "paper.pdf");
}

#[test]
fn arxiv_ids_are_recognised() {
    assert!(looks_like_arxiv_id("2401.01234"));
    assert!(looks_like_arxiv_id("hep-th/9901001"));
    assert!(!looks_like_arxiv_id("240.01234"));
    assert!(!looks_like_arxiv_id("graph neural networks"));
    assert_eq!(extract_arxiv_id(" https://arxiv.org/abs/2401.01234v2?context=cs ").as_deref(), None);
    assert_eq!(extract_arxiv_id("https://arxiv.org/pdf/2401.01234.pdf").as_deref(), Some("2401.01234"));
    assert_eq!(extract_arxiv_id("2401.01234").as_deref(), Some("2401.01234"));
    assert_eq!(extract_arxiv_id("transformers"), None);
    assert_eq!(extract_arxiv_id_from_url(Some("www.arxiv.org"), "/abs/2401.01234/").as_deref(), Some("2401.01234"));
    assert_eq!(extract_arxiv_id_from_url(Some("example.org"), "/abs/2401.01234"), None);
    assert_eq!(extract_arxiv_id_from_url(Some("arxiv.org"), "/list/new"), None);
}

#[test]
fn pdf_links_are_normalised() {
    assert_eq!(normalize_arxiv_pdf_url("https://arxiv.org/pdf/2401.01234v1"), "https://arxiv.org/pdf/2401.01234v1.pdf");
    assert_eq!(normalize_arxiv_pdf_url("https://arxiv.org/pdf/2401.01234/"), "https://arxiv.org/pdf/2401.01234.pdf");
    assert_eq!(normalize_arxiv_pdf_url("https://arxiv.org/pdf/x.pdf"), "https://arxiv.org/pdf/x.pdf");
}

fn entry() -> ArxivEntry {
    ArxivEntry {
        id: "http://arxiv.org/abs/2401.01234v1".into(),
        title: "  A   Study\n of Things ".into(),
        summary: " Some\tabstract ".into(),
        published: "2024-01-03T00:00:00Z".into(),
        authors: vec![ArxivAuthor { name: "Ada".into() }],
        links: vec![
            ArxivLink { href: "http://arxiv.org/abs/2401.01234v1".into(), title: None },
            ArxivLink { href: "http://arxiv.org/pdf/2401.01234v1".into(), title: Some("pdf".into()) },
        ],
    }
}

#[test]
fn feed_entries_become_search_hits() {
    let item = map_entry(entry()).ok().expect("entries always map");
    assert_eq!(item.id, "src_arxiv_2401_01234v1");
    assert_eq!(item.source_paper_id, "2401.01234v1");
    assert_eq!(item.title, "A Study of Things");
    assert_eq!(item.abstract_text.as_deref(), Some("Some abstract"));
    assert_eq!(item.pdf_url.as_deref(), Some("http://arxiv.org/pdf/2401.01234v1.pdf"));
    assert_eq!(item.year, Some(2024));
    assert_eq!(item.authors, vec!["Ada".to_string()]);
    assert_eq!(item.venue, "arXiv");
    assert!(item.has_pdf);
    let items = search_results(vec![entry(), entry()]);
    assert_eq!(items.len(), 2);
    assert_eq!(year_of("19xx"), None);
    assert_eq!(year_of("1999-12"), Some(1999));
}

#[test]
fn search_parameters() {
    let by_id = search_query_params(" 2401.01234 ", 3, 20);
    assert_eq!(
        by_id,
        vec![
            ("id_list".to_string(), "2401.01234".to_string()),
            ("start".to_string(), "0".to_string()),
            ("max_results".to_string(), "1".to_string())
        ]
    );
    let by_text = search_query_params(" graph networks ", 3, 20);
    assert_eq!(
        by_text,
        vec![
            ("search_query".to_string(), "all:graph networks".to_string()),
            ("start".to_string(), "40".to_string()),
            ("max_results".to_string(), "20".to_string())
        ]
    );
}

#[test]
fn reader_snapshot_fills_defaults_and_reads_lists() {
    let row = ReaderRow {
        paper_id: "p1".into(),
        title: "T".into(),
        source: "local_pdf".into(),
        authors_json: r#"["A", "B"]"#.into(),
        abstract_text: None,
        venue: None,
        year: Some(2024),
        file_name: Some("a.pdf".into()),
        storage_path: None,
        uploaded_file_id: None,
        mime_type: None,
        size_bytes: Some(10),
        parse_status: None,
        parse_error_code: None,
        parse_error_message: None,
        parse_progress: None,
        library_item_id: None,
        library_status: None,
        library_tags_json: Some("broken".into()),
        starred: None,
        updated_at: "now".into(),
    };
    let snap = reader_snapshot(
        row,
        ("workflow_ready".into(), Some("run_quick_read".into()), vec!["run_quick_read".into()], vec![], vec!["hs_1".into()]),
        vec![],
    );
    assert_eq!(snap.authors, vec!["A".to_string(), "B".to_string()]);
    assert!(snap.library_tags.is_empty());
    assert_eq!(snap.parse_status, "pending");
    assert_eq!(snap.parse_progress, 0);
    assert!(!snap.starred);
    assert_eq!(snap.workflow_current_step, "workflow_ready");
    assert_eq!(snap.latest_handoff_summary_ids, vec!["hs_1".to_string()]);
    assert_eq!(snap.size_bytes, Some(10));
}
