//! Papers: which searches are accepted, how a paper enters the library from
//! a file or a link, which links may be fetched, and how confirmed metadata
//! is cleaned.
use vstd::prelude::*;
use crate::arxiv::{SearchPaperItem, arxiv_id_from_url_spec, default_file_name_from_url, default_file_name_spec, extract_arxiv_id_from_url};
use crate::error::{AppError, ErrorKind, import_failed, not_found, validation};
use crate::paths::{extension_of, file_name_of, path_extension, path_file_name};
use crate::text::{
    ascii_lower, ascii_lower_vec, cat, chars_of, contains_sub, contains_sub_vec, ends_with,
    ends_with_vec, is_blank, is_blank_str, owned, str_eq, string_of,
    trim, trim_str,
};
use crate::workflow::{opt_view, strs_view};
use crate::json::{stored_strings, strings_from_json};
use crate::runs::AgentRunSummary;

verus! {

/// A search for papers.
pub struct SearchPapersRequest {
    pub query: String,
    pub source: String,
    pub page: usize,
    pub page_size: usize,
}

/// One page of search results.
pub struct SearchPapersResponse {
    pub items: Vec<SearchPaperItem>,
    pub page: usize,
    pub page_size: usize,
    pub has_more: bool,
    pub source: String,
}

/// Imports a PDF from the local disk.
pub struct ImportPaperFromFileRequest {
    pub file_path: String,
}

/// Imports a PDF from a link, optionally under a chosen file name.
pub struct ImportPaperFromLinkRequest {
    pub url: String,
    pub file_name: Option<String>,
}

/// The paper an import created.
pub struct ImportPaperFromFileResponse {
    pub paper_id: String,
    pub uploaded_file_id: String,
    pub parse_status: String,
    pub metadata_needs_confirmation: bool,
}

/// The metadata a reader confirms for an imported paper.
pub struct ConfirmPaperMetadataRequest {
    pub paper_id: String,
    pub title: String,
    pub authors: Vec<String>,
    pub year: Option<i32>,
    pub venue: Option<String>,
    pub abstract_text: Option<String>,
}

/// The metadata as it was stored.
pub struct ConfirmPaperMetadataResponse {
    pub paper_id: String,
    pub title: String,
    pub authors: Vec<String>,
    pub year: Option<i32>,
    pub venue: Option<String>,
    pub abstract_text: Option<String>,
}

/// Asks for the parse progress of a paper.
pub struct GetPaperParseStatusRequest {
    pub paper_id: String,
}

/// Counts of the figures and tables found while parsing.
pub struct VisualParsingSummary {
    pub enabled: bool,
    pub figure_count: i32,
    pub table_count: i32,
    pub crop_success_count: i32,
    pub crop_failed_count: i32,
    pub warnings: Vec<String>,
}

/// The parse progress of a paper.
pub struct PaperParseStatusResponse {
    pub paper_id: String,
    pub parse_status: String,
    pub progress: i32,
    pub stage: String,
    pub error_code: Option<String>,
    pub error_message: Option<String>,
    pub visual_parsing: Option<VisualParsingSummary>,
    pub updated_at: String,
}

/// Asks for everything the reader view shows of a paper.
pub struct GetReaderSnapshotRequest {
    pub paper_id: String,
}

/// What parsing produced for a paper, in counts.
pub struct ParsedContentSummary {
    pub version: i32,
    pub storage_path: String,
    pub full_text_available: bool,
    pub section_count: i32,
    pub figure_count: i32,
    pub table_count: i32,
    pub visual_enabled: bool,
    pub visual_mode: String,
    pub visual_summary_count: i32,
    pub crop_success_count: i32,
    pub crop_failed_count: i32,
    pub sample_caption: Option<String>,
    pub sample_summary: Option<String>,
    pub visual_warnings: Vec<String>,
}

/// Asks for the figures and tables of a paper.
pub struct GetPaperVisualArtifactsRequest {
    pub paper_id: String,
}

/// The page sizes a search may use.
pub open spec fn is_page_size(n: usize) -> bool {
    n == 10 || n == 20 || n == 50
}

/// Whether a search is accepted.
pub open spec fn search_acceptable(request: SearchPapersRequest) -> bool {
    !is_blank(request.query@) && request.page >= 1 && is_page_size(request.page_size)
        && request.source@ == "arxiv"@
}

/// Checks a search: a query, a page from 1 on, one of the three page sizes,
/// and arXiv as the source, in that order.
pub fn check_search_request(request: &SearchPapersRequest) -> (r: Result<(), AppError>)
    ensures
        r is Ok <==> search_acceptable(*request),
        r matches Err(e) ==> {
            if is_blank(request.query@) {
                e.is(ErrorKind::Validation, "query cannot be empty"@)
            } else if request.page == 0 {
                e.is(ErrorKind::Validation, "page must be at least 1"@)
            } else if !is_page_size(request.page_size) {
                e.is(ErrorKind::Validation, "pageSize must be one of 10, 20, 50"@)
            } else {
                e.is(ErrorKind::Validation, "only arxiv search is implemented in this scaffold"@)
            }
        },
{
    if is_blank_str(request.query.as_str()) {
        return Err(validation("query cannot be empty"));
    }
    if request.page == 0 {
        return Err(validation("page must be at least 1"));
    }
    if !(request.page_size == 10 || request.page_size == 20 || request.page_size == 50) {
        return Err(validation("pageSize must be one of 10, 20, 50"));
    }
    if !str_eq(request.source.as_str(), "arxiv") {
        return Err(validation("only arxiv search is implemented in this scaffold"));
    }
    Ok(())
}

/// The reply to a search: there may be more when the page came back full.
pub fn search_response(items: Vec<SearchPaperItem>, request: SearchPapersRequest) -> (r:
    SearchPapersResponse)
    ensures
        r.items@ == items@,
        r.page == request.page,
        r.page_size == request.page_size,
        r.has_more == (items@.len() == request.page_size),
        r.source == request.source,
{
    let has_more = items.len() == request.page_size;
    SearchPapersResponse {
        items,
        page: request.page,
        page_size: request.page_size,
        has_more,
        source: request.source,
    }
}

/// Refuses a blank paper id.
pub fn check_paper_id(paper_id: &str) -> (r: Result<(), AppError>)
    ensures
        r is Ok <==> !is_blank(paper_id@),
        r matches Err(e) ==> e.is(ErrorKind::Validation, "paperId cannot be empty"@),
{
    if is_blank_str(paper_id) {
        return Err(validation("paperId cannot be empty"));
    }
    Ok(())
}

/// The authors that are kept: each trimmed, the empty ones dropped.
pub open spec fn clean_authors(authors: Seq<Seq<char>>) -> Seq<Seq<char>>
    decreases authors.len(),
{
    if authors.len() == 0 {
        Seq::empty()
    } else {
        let rest = clean_authors(authors.drop_last());
        if is_blank(authors.last()) {
            rest
        } else {
            rest.push(trim(authors.last()))
        }
    }
}

/// Cleans confirmed metadata: the paper id and the title must have content;
/// the title and the authors are trimmed and empty authors dropped; the rest
/// is kept as given.
pub fn prepare_metadata(request: ConfirmPaperMetadataRequest) -> (r: Result<
    ConfirmPaperMetadataResponse,
    AppError,
>)
    ensures
        r is Ok <==> !is_blank(request.paper_id@) && !is_blank(request.title@),
        r matches Err(e) ==> {
            if is_blank(request.paper_id@) {
                e.is(ErrorKind::Validation, "paperId cannot be empty"@)
            } else {
                e.is(ErrorKind::Validation, "title cannot be empty"@)
            }
        },
        r matches Ok(m) ==> {
            &&& m.paper_id == request.paper_id
            &&& m.title@ == trim(request.title@)
            &&& strs_view(m.authors@) == clean_authors(strs_view(request.authors@))
            &&& m.year == request.year
            &&& m.venue == request.venue
            &&& m.abstract_text == request.abstract_text
        },
{
    check_paper_id(request.paper_id.as_str())?;
    if is_blank_str(request.title.as_str()) {
        return Err(validation("title cannot be empty"));
    }
    let title = trim_str(request.title.as_str());
    let mut authors: Vec<String> = Vec::new();
    let mut i: usize = 0;
    assert(strs_view(request.authors@).take(0) =~= Seq::<Seq<char>>::empty());
    while i < request.authors.len()
        invariant
            i <= request.authors@.len(),
            strs_view(authors@) == clean_authors(strs_view(request.authors@).take(i as int)),
        decreases request.authors@.len() - i,
    {
        proof {
            assert(strs_view(request.authors@).take(i + 1).drop_last() =~= strs_view(
                request.authors@,
            ).take(i as int));
            assert(strs_view(request.authors@).take(i + 1).last() == request.authors@[i as int]@);
        }
        let a = &request.authors[i];
        if !is_blank_str(a.as_str()) {
            authors.push(trim_str(a.as_str()));
            assert(strs_view(authors@) =~= clean_authors(strs_view(request.authors@).take(i + 1)));
        }
        i = i + 1;
    }
    assert(strs_view(request.authors@).take(request.authors@.len() as int) =~= strs_view(
        request.authors@,
    ));
    Ok(ConfirmPaperMetadataResponse {
        paper_id: request.paper_id,
        title,
        authors,
        year: request.year,
        venue: request.venue,
        abstract_text: request.abstract_text,
    })
}

/// The parse state the reader view shows when nothing was recorded yet: a
/// pending parse at no progress, and an unstarred paper.
pub fn reader_parse_state(
    parse_status: Option<String>,
    progress: Option<i32>,
    starred: Option<bool>,
) -> (r: (String, i32, bool))
    ensures
        r.0@ == (match parse_status {
            Some(s) => s@,
            None => "pending"@,
        }),
        r.1 == (match progress {
            Some(p) => p,
            None => 0,
        }),
        r.2 == (match starred {
            Some(b) => b,
            None => false,
        }),
{
    let status = match parse_status {
        Some(s) => s,
        None => owned("pending"),
    };
    let p = match progress {
        Some(p) => p,
        None => 0,
    };
    let s = match starred {
        Some(b) => b,
        None => false,
    };
    (status, p, s)
}

// ---------------------------------------------------------------------------
// Importing from disk
// ---------------------------------------------------------------------------

/// Whether a path names a PDF: its extension is `pdf`, in any case.
pub open spec fn is_pdf_path(path: Seq<char>) -> bool {
    match path_extension(path) {
        Some(e) => ascii_lower(e) == "pdf"@,
        None => false,
    }
}

/// Checks a file chosen for import: it must exist and be a PDF.
pub fn check_import_file(exists: bool, path: &str) -> (r: Result<(), AppError>)
    ensures
        r is Ok <==> exists && is_pdf_path(path@),
        r matches Err(e) ==> {
            if !exists {
                e.is(ErrorKind::NotFound, "file not found"@)
            } else {
                e.is(ErrorKind::Validation, "only pdf files are supported"@)
            }
        },
{
    if !exists {
        return Err(not_found("file not found"));
    }
    let is_pdf = match extension_of(path) {
        Some(e) => {
            let lower = ascii_lower_vec(&chars_of(e.as_str()));
            let pdf = chars_of("pdf");
            crate::text::chars_eq(&lower, &pdf)
        },
        None => false,
    };
    if !is_pdf {
        return Err(validation("only pdf files are supported"));
    }
    Ok(())
}

/// The name an imported file is listed under: its own, or a stand-in.
pub fn imported_file_name(path: &str) -> (r: String)
    ensures
        r@ == (match path_file_name(path@) {
            Some(n) => n,
            None => "paper.pdf"@,
        }),
{
    match file_name_of(path) {
        Some(n) => n,
        None => owned("paper.pdf"),
    }
}

/// The reply to an import: the paper waits for its metadata to be confirmed
/// before it is parsed.
pub fn pending_import_response(paper_id: String, uploaded_file_id: String) -> (r:
    ImportPaperFromFileResponse)
    ensures
        r.paper_id == paper_id,
        r.uploaded_file_id == uploaded_file_id,
        r.parse_status@ == "pending"@,
        r.metadata_needs_confirmation,
{
    ImportPaperFromFileResponse {
        paper_id,
        uploaded_file_id,
        parse_status: owned("pending"),
        metadata_needs_confirmation: true,
    }
}

// ---------------------------------------------------------------------------
// Importing from a link
// ---------------------------------------------------------------------------

/// A parsed absolute URL, in the parts the import reads.
pub struct ParsedUrl {
    pub scheme: String,
    pub host: Option<String>,
    pub path: String,
    pub text: String,
}

/// The scheme, host, path and serialised text of a URL.
pub type UrlParts = (Seq<char>, Option<Seq<char>>, Seq<char>, Seq<char>);

impl View for ParsedUrl {
    type V = UrlParts;

    open spec fn view(&self) -> UrlParts {
        (self.scheme@, opt_view(self.host), self.path@, self.text@)
    }
}

/// What `Url::parse` makes of a text: its parts, or nothing when the text is
/// no absolute URL.
pub uninterp spec fn url_parts(text: Seq<char>) -> Option<UrlParts>;

/// `reqwest::Url::parse`, with the parts the import reads copied out. The
/// contract names the result (`url_parts`) and says nothing more of URL
/// syntax.
#[verifier::external_body]
fn parse_url(text: &str) -> (r: Option<ParsedUrl>)
    ensures
        match r {
            Some(u) => url_parts(text@) == Some(u@),
            None => url_parts(text@) is None,
        },
{
    reqwest::Url::parse(text).ok().map(
        |u| ParsedUrl {
            scheme: u.scheme().to_string(),
            host: u.host_str().map(|h| h.to_string()),
            path: u.path().to_string(),
            text: u.as_str().to_string(),
        },
    )
}

/// Parses a link to import and checks its scheme and host.
pub open spec fn import_url_spec(text: Seq<char>) -> Result<UrlParts, Seq<char>> {
    match url_parts(text) {
        None => Err("url must start with http:// or https://"@),
        Some(p) => if p.0 != "http"@ && p.0 != "https"@ {
            Err("url must start with http:// or https://"@)
        } else if p.1 is None {
            Err("url host is missing"@)
        } else {
            Ok(p)
        },
    }
}

/// Parses a link to import: it must be an absolute http(s) URL with a host.
/// Whether the host may be fetched is `check_import_host`'s part.
pub fn parse_import_url(url: &str) -> (r: Result<ParsedUrl, AppError>)
    ensures
        match import_url_spec(trim(url@)) {
            Ok(p) => r matches Ok(u) && u@ == p,
            Err(m) => r matches Err(e) && e.is(ErrorKind::Validation, m),
        },
{
    let trimmed = trim_str(url);
    let parsed = match parse_url(trimmed.as_str()) {
        Some(p) => p,
        None => return Err(validation("url must start with http:// or https://")),
    };
    if !str_eq(parsed.scheme.as_str(), "http") && !str_eq(parsed.scheme.as_str(), "https") {
        return Err(validation("url must start with http:// or https://"));
    }
    if parsed.host.is_none() {
        return Err(validation("url host is missing"));
    }
    Ok(parsed)
}

/// An IP address, as the host of a link may spell one.
pub enum HostAddress {
    V4([u8; 4]),
    V6([u16; 8]),
}

/// Whether an IPv4 address is private, loopback, link-local, unspecified or
/// the broadcast address.
pub open spec fn v4_forbidden(o: Seq<u8>) -> bool {
    ||| o[0] == 10
    ||| (o[0] == 172 && 16 <= o[1] <= 31)
    ||| (o[0] == 192 && o[1] == 168)
    ||| o[0] == 127
    ||| (o[0] == 169 && o[1] == 254)
    ||| (o[0] == 0 && o[1] == 0 && o[2] == 0 && o[3] == 0)
    ||| (o[0] == 255 && o[1] == 255 && o[2] == 255 && o[3] == 255)
}

/// Whether an IPv6 address is loopback, unspecified or unique-local.
pub open spec fn v6_forbidden(s: Seq<u16>) -> bool {
    let zero_prefix = s[0] == 0 && s[1] == 0 && s[2] == 0 && s[3] == 0 && s[4] == 0 && s[5] == 0
        && s[6] == 0;
    ||| (zero_prefix && s[7] == 1)
    ||| (zero_prefix && s[7] == 0)
    ||| (0xfc00 <= s[0] <= 0xfdff)
}

/// Whether a link's host must not be fetched: a local name, or an address of
/// the machine or of a private network. `host` is the host as the link gave
/// it; `address` is the address it spells, if it spells one.
pub open spec fn forbidden_host_spec(host: Seq<char>, address: Option<HostAddress>) -> bool {
    let h = ascii_lower(trim(host));
    if h == "localhost"@ || ends_with(h, ".localhost"@) {
        true
    } else {
        match address {
            Some(HostAddress::V4(o)) => v4_forbidden(o@),
            Some(HostAddress::V6(s)) => v6_forbidden(s@),
            None => ends_with(h, ".local"@),
        }
    }
}

/// The host as it is compared and read as an address: trimmed, lower case.
pub fn normalized_host(host: &str) -> (r: String)
    ensures
        r@ == ascii_lower(trim(host@)),
{
    let t = trim_str(host);
    string_of(&ascii_lower_vec(&chars_of(t.as_str())))
}

/// Whether a link's host must not be fetched (`is_forbidden_import_host`).
/// `address` is the IP address that the normalised host spells, if any.
pub fn is_forbidden_import_host(host: &str, address: &Option<HostAddress>) -> (b: bool)
    ensures
        b == forbidden_host_spec(host@, *address),
{
    let h = chars_of(normalized_host(host).as_str());
    if crate::text::chars_eq(&h, &chars_of("localhost")) || ends_with_vec(&h, &chars_of(".localhost")) {
        return true;
    }
    match address {
        Some(HostAddress::V4(o)) => {
            o[0] == 10 || (o[0] == 172 && 16 <= o[1] && o[1] <= 31) || (o[0] == 192 && o[1] == 168)
                || o[0] == 127 || (o[0] == 169 && o[1] == 254) || (o[0] == 0 && o[1] == 0 && o[2]
                == 0 && o[3] == 0) || (o[0] == 255 && o[1] == 255 && o[2] == 255 && o[3] == 255)
        },
        Some(HostAddress::V6(s)) => {
            let zero_prefix = s[0] == 0 && s[1] == 0 && s[2] == 0 && s[3] == 0 && s[4] == 0 && s[5]
                == 0 && s[6] == 0;
            (zero_prefix && s[7] == 1) || (zero_prefix && s[7] == 0) || (0xfc00 <= s[0] && s[0]
                <= 0xfdff)
        },
        None => ends_with_vec(&h, &chars_of(".local")),
    }
}

/// Refuses a link whose host must not be fetched.
pub fn check_import_host(host: &str, address: &Option<HostAddress>) -> (r: Result<(), AppError>)
    ensures
        r is Ok <==> !forbidden_host_spec(host@, *address),
        r matches Err(e) ==> e.is(
            ErrorKind::Validation,
            "local and private network URLs are not allowed"@,
        ),
{
    if is_forbidden_import_host(host, address) {
        return Err(validation("local and private network URLs are not allowed"));
    }
    Ok(())
}

/// The link a PDF is fetched from: an arXiv abstract or PDF page is
/// rewritten to the paper's PDF, any other link is fetched as given.
pub open spec fn resolved_url_spec(parsed: UrlParts) -> UrlParts {
    match arxiv_id_from_url_spec(parsed.1, parsed.2) {
        Some(id) => match url_parts("https://arxiv.org/pdf/"@ + id + ".pdf"@) {
            Some(p) => p,
            None => parsed,
        },
        None => parsed,
    }
}

/// Resolves the link to fetch (`resolve_import_url`).
pub fn resolve_import_url(parsed: ParsedUrl) -> (r: ParsedUrl)
    ensures
        r@ == resolved_url_spec(parsed@),
{
    let id = match &parsed.host {
        Some(h) => extract_arxiv_id_from_url(Some(h.as_str()), parsed.path.as_str()),
        None => extract_arxiv_id_from_url(None, parsed.path.as_str()),
    };
    match id {
        Some(id) => {
            let mut text = cat("https://arxiv.org/pdf/", id.as_str());
            text.append(".pdf");
            match parse_url(text.as_str()) {
                Some(p) => p,
                None => parsed,
            }
        },
        None => parsed,
    }
}

/// Whether a download looks like a PDF: by its content type, or by the path
/// of the link it came from.
pub open spec fn looks_like_pdf(content_type: Seq<char>, path: Seq<char>) -> bool {
    contains_sub(content_type, "application/pdf"@) || ends_with(ascii_lower(path), ".pdf"@)
}

/// Checks the reply to a download: it must succeed and carry a PDF.
/// `status_text` is the status as the reply reports it; a missing or
/// unreadable content type counts as empty.
pub fn check_download(
    success: bool,
    status_text: &str,
    content_type: &str,
    download: &ParsedUrl,
) -> (r: Result<(), AppError>)
    ensures
        r is Ok <==> success && looks_like_pdf(content_type@, download.path@),
        r matches Err(e) ==> {
            if !success {
                e.is(ErrorKind::UpstreamUnavailable, "download failed with status "@ + status_text@)
            } else {
                e.is(ErrorKind::Validation, "url does not point to a pdf resource"@)
            }
        },
{
    if !success {
        return Err(AppError::UpstreamUnavailable(cat("download failed with status ", status_text)));
    }
    let ct = chars_of(content_type);
    let lower_path = ascii_lower_vec(&chars_of(download.path.as_str()));
    let pdf = contains_sub_vec(&ct, &chars_of("application/pdf")) || ends_with_vec(
        &lower_path,
        &chars_of(".pdf"),
    );
    if !pdf {
        return Err(validation("url does not point to a pdf resource"));
    }
    Ok(())
}

/// Refuses an empty download.
pub fn check_downloaded_size(len: usize) -> (r: Result<(), AppError>)
    ensures
        r is Ok <==> len > 0,
        r matches Err(e) ==> e.is(ErrorKind::ImportFailed, "downloaded file is empty"@),
{
    if len == 0 {
        return Err(import_failed("downloaded file is empty"));
    }
    Ok(())
}

/// The name a downloaded paper is listed under: the chosen one when it has
/// content, else one taken from the link.
pub fn import_file_name(requested: Option<String>, download: &ParsedUrl) -> (r: String)
    ensures
        r@ == (match requested {
            Some(n) => if is_blank(n@) {
                default_file_name_spec(download.text@)
            } else {
                n@
            },
            None => default_file_name_spec(download.text@),
        }),
{
    match requested {
        Some(n) => if is_blank_str(n.as_str()) {
            default_file_name_from_url(download.text.as_str())
        } else {
            n
        },
        None => default_file_name_from_url(download.text.as_str()),
    }
}

/// A link that passed the import checks names an http(s) host that may be
/// fetched.
pub proof fn law_accepted_links_are_remote(text: Seq<char>, address: Option<HostAddress>)
    requires
        import_url_spec(text) is Ok,
        !forbidden_host_spec(import_url_spec(text)->Ok_0.1->Some_0, address),
    ensures
        ({
            let p = import_url_spec(text)->Ok_0;
            &&& p.0 == "http"@ || p.0 == "https"@
            &&& p.1 is Some
            &&& ascii_lower(trim(p.1->Some_0)) != "localhost"@
        }),
{
}

/// What the reader view reads of a paper in one row: the paper, its latest
/// uploaded file, its parse task and its reading list item, the lists still
/// as their stored JSON text.
pub struct ReaderRow {
    pub paper_id: String,
    pub title: String,
    pub source: String,
    pub authors_json: String,
    pub abstract_text: Option<String>,
    pub venue: Option<String>,
    pub year: Option<i32>,
    pub file_name: Option<String>,
    pub storage_path: Option<String>,
    pub uploaded_file_id: Option<String>,
    pub mime_type: Option<String>,
    pub size_bytes: Option<i64>,
    pub parse_status: Option<String>,
    pub parse_error_code: Option<String>,
    pub parse_error_message: Option<String>,
    pub parse_progress: Option<i32>,
    pub library_item_id: Option<String>,
    pub library_status: Option<String>,
    pub library_tags_json: Option<String>,
    pub starred: Option<bool>,
    pub updated_at: String,
}

/// Everything the reader view shows of a paper.
pub struct ReaderSnapshot {
    pub paper_id: String,
    pub title: String,
    pub source: String,
    pub authors: Vec<String>,
    pub abstract_text: Option<String>,
    pub venue: Option<String>,
    pub year: Option<i32>,
    pub file_name: Option<String>,
    pub storage_path: Option<String>,
    pub parse_status: String,
    pub parse_progress: i32,
    pub parse_error_code: Option<String>,
    pub parse_error_message: Option<String>,
    pub library_item_id: Option<String>,
    pub library_status: Option<String>,
    pub library_tags: Vec<String>,
    pub starred: bool,
    pub uploaded_file_id: Option<String>,
    pub mime_type: Option<String>,
    pub size_bytes: Option<i64>,
    pub workflow_current_step: String,
    pub next_action_required: Option<String>,
    pub allowed_actions: Vec<String>,
    pub fallback_actions: Vec<String>,
    pub latest_handoff_summary_ids: Vec<String>,
    pub latest_agent_runs: Vec<AgentRunSummary>,
    pub updated_at: String,
}

/// The reader view of a paper (`PaperRepository::get_reader_snapshot`),
/// from its row, the workflow snapshot (current step, next action, allowed
/// and fallback actions, latest handoff ids) and the latest runs: the row's
/// fields as they are, the stored lists read back (unreadable ones empty),
/// a missing parse status, progress or star as a pending parse at no
/// progress and an unstarred paper, and the workflow and runs as given.
pub fn reader_snapshot(
    row: ReaderRow,
    workflow: (String, Option<String>, Vec<String>, Vec<String>, Vec<String>),
    runs: Vec<AgentRunSummary>,
) -> (r: ReaderSnapshot)
    ensures
        r.paper_id == row.paper_id,
        r.title == row.title,
        r.source == row.source,
        strs_view(r.authors@) == stored_strings(Some(row.authors_json@)),
        r.abstract_text == row.abstract_text,
        r.venue == row.venue,
        r.year == row.year,
        r.file_name == row.file_name,
        r.storage_path == row.storage_path,
        r.uploaded_file_id == row.uploaded_file_id,
        r.mime_type == row.mime_type,
        r.size_bytes == row.size_bytes,
        r.parse_status@ == (match row.parse_status {
            Some(s) => s@,
            None => "pending"@,
        }),
        r.parse_progress == (match row.parse_progress {
            Some(p) => p,
            None => 0,
        }),
        r.parse_error_code == row.parse_error_code,
        r.parse_error_message == row.parse_error_message,
        r.library_item_id == row.library_item_id,
        r.library_status == row.library_status,
        strs_view(r.library_tags@) == stored_strings(opt_view(row.library_tags_json)),
        r.starred == (match row.starred {
            Some(b) => b,
            None => false,
        }),
        r.workflow_current_step == workflow.0,
        r.next_action_required == workflow.1,
        r.allowed_actions == workflow.2,
        r.fallback_actions == workflow.3,
        r.latest_handoff_summary_ids == workflow.4,
        r.latest_agent_runs == runs,
        r.updated_at == row.updated_at,
{
    let authors = strings_from_json(Some(row.authors_json.as_str()));
    let tags = match &row.library_tags_json {
        Some(t) => strings_from_json(Some(t.as_str())),
        None => strings_from_json(None),
    };
    let (parse_status, parse_progress, starred) = reader_parse_state(row.parse_status, row.parse_progress, row.starred);
    let (step, next, allowed, fallback, handoffs) = workflow;
    ReaderSnapshot {
        paper_id: row.paper_id,
        title: row.title,
        source: row.source,
        authors,
        abstract_text: row.abstract_text,
        venue: row.venue,
        year: row.year,
        file_name: row.file_name,
        storage_path: row.storage_path,
        parse_status,
        parse_progress,
        parse_error_code: row.parse_error_code,
        parse_error_message: row.parse_error_message,
        library_item_id: row.library_item_id,
        library_status: row.library_status,
        library_tags: tags,
        starred,
        uploaded_file_id: row.uploaded_file_id,
        mime_type: row.mime_type,
        size_bytes: row.size_bytes,
        workflow_current_step: step,
        next_action_required: next,
        allowed_actions: allowed,
        fallback_actions: fallback,
        latest_handoff_summary_ids: handoffs,
        latest_agent_runs: runs,
        updated_at: row.updated_at,
    }
}

} // verus!
