//! Parsing a paper with the extraction sidecar: what is sent to it, what its
//! reply means, which parsed content is usable, and the retry policy with the
//! progress it reports.
use vstd::prelude::*;
use crate::error::{AppError, ErrorKind, is_retryable_parse_error, parse_error_payload, parse_code_of, parse_failed};
use crate::json::{Json, JsonMember, JsonNumber, JsonValue, members_model, lemma_object_model};
use crate::model_api::{i32_text, signed_decimal};
use crate::prompts::ParsedSection;
use crate::text::{cat, is_blank, is_blank_str, owned, str_eq, trim, trim_str};

verus! {

/// Where a figure or table is mentioned in the text.
pub struct ParsedObjectMention {
    pub section_id: Option<String>,
    pub page: i32,
    pub sentence: String,
    pub locator: String,
}

/// A paragraph near a figure or table.
pub struct ParsedNearbyContext {
    pub paragraph_id: String,
    pub role: String,
    pub text: String,
}

/// A note from figure and table extraction.
pub struct VisualDiagnostic {
    pub scope: String,
    pub code: String,
    pub message: String,
    pub retryable: bool,
}

/// What figure and table extraction found.
pub struct VisualParsingMetadata {
    pub enabled: bool,
    pub mode: String,
    pub asset_count: i32,
    pub figure_count: i32,
    pub table_count: i32,
    pub crop_success_count: i32,
    pub crop_failed_count: i32,
    pub multimodal_summary_count: i32,
    pub github_upload_diagnostics: Vec<VisualDiagnostic>,
    pub diagnostics: Vec<VisualDiagnostic>,
    pub warnings: Vec<String>,
}

/// How a paper was parsed.
pub struct ParsedMetadata {
    pub page_count: Option<i32>,
    pub parser: String,
    pub parsed_at: String,
    pub visual_parsing: Option<VisualParsingMetadata>,
}

/// How the sidecar says it parsed a paper.
pub struct SidecarParseMetadata {
    pub page_count: Option<i32>,
    pub parser: String,
    pub visual_parsing: Option<VisualParsingMetadata>,
}

/// The error the sidecar reports.
pub struct SidecarParseError {
    pub code: String,
    pub message: String,
}

/// The text the sidecar extracted.
pub struct SidecarText {
    pub full_text: String,
    pub sections: Vec<ParsedSection>,
}

/// What is sent to the sidecar for one paper.
pub open spec fn sidecar_request_spec(paper_id: Seq<char>, pdf_path: Seq<char>) -> Json {
    Json::Obj(
        seq![
            ("paperId"@, Json::Str(paper_id)),
            ("pdfPath"@, Json::Str(pdf_path)),
            ("mode"@, Json::Str("extract_sections"@)),
        ],
    )
}

/// The request the sidecar reads on its input.
pub fn sidecar_request(paper_id: &str, pdf_path: &str) -> (r: JsonValue)
    ensures
        r.model() == sidecar_request_spec(paper_id@, pdf_path@),
{
    let mut ms: Vec<JsonMember> = Vec::new();
    ms.push(JsonMember { key: owned("paperId"), value: JsonValue::Str(owned(paper_id)) });
    ms.push(JsonMember { key: owned("pdfPath"), value: JsonValue::Str(owned(pdf_path)) });
    ms.push(JsonMember { key: owned("mode"), value: JsonValue::Str(owned("extract_sections")) });
    proof {
        lemma_object_model(ms);
        assert(members_model(ms@) =~= sidecar_request_spec(paper_id@, pdf_path@)->Obj_0);
    }
    JsonValue::Object(ms)
}

/// The error for a sidecar that exited unsuccessfully: what it wrote to its
/// error stream, trimmed, or else the exit status.
pub fn sidecar_exit_failure(status_text: &str, stderr: &str) -> (e: AppError)
    ensures
        e.kind() == ErrorKind::ParseFailed,
        e.msg() == (if trim(stderr@).len() == 0 {
            "python sidecar exited with status "@ + status_text@
        } else {
            trim(stderr@)
        }),
{
    let t = trim_str(stderr);
    if t.unicode_len() == 0 {
        AppError::ParseFailed(cat("python sidecar exited with status ", status_text))
    } else {
        AppError::ParseFailed(t)
    }
}

/// The error codes by which the sidecar says the paper itself cannot be
/// parsed, as opposed to the sidecar being unavailable.
pub open spec fn is_content_error_code(code: Seq<char>) -> bool {
    code == "PDF_INVALID"@ || code == "EMPTY_TEXT"@ || code == "CONTRACT_VERSION_UNSUPPORTED"@
}

/// What a failure reply of the sidecar means.
pub fn sidecar_failure(error: Option<SidecarParseError>) -> (e: AppError)
    ensures
        match error {
            None => e.is(
                ErrorKind::ParseFailed,
                "python sidecar returned failure without error payload"@,
            ),
            Some(se) => if is_content_error_code(se.code@) {
                e.is(ErrorKind::ParseFailed, se.message@)
            } else {
                e.is(ErrorKind::UpstreamUnavailable, se.message@)
            },
        },
{
    match error {
        None => parse_failed("python sidecar returned failure without error payload"),
        Some(se) => {
            if str_eq(se.code.as_str(), "PDF_INVALID") || str_eq(se.code.as_str(), "EMPTY_TEXT")
                || str_eq(se.code.as_str(), "CONTRACT_VERSION_UNSUPPORTED") {
                AppError::ParseFailed(se.message)
            } else {
                AppError::UpstreamUnavailable(se.message)
            }
        },
    }
}

/// Whether some section has text.
pub open spec fn some_section_has_text(sections: Seq<ParsedSection>) -> bool {
    exists|i: int| 0 <= i < sections.len() && !is_blank(#[trigger] sections[i].text@)
}

/// Whether extracted content is usable: there is full text, there are
/// sections, and not all of them are empty.
pub fn validate_parsed_content(full_text: &str, sections: &Vec<ParsedSection>) -> (r: Result<
    (),
    AppError,
>)
    ensures
        r is Ok <==> !is_blank(full_text@) && sections@.len() > 0 && some_section_has_text(
            sections@,
        ),
        r matches Err(e) ==> {
            if is_blank(full_text@) {
                e.is(ErrorKind::ParseFailed, "sidecar returned empty fullText"@)
            } else if sections@.len() == 0 {
                e.is(ErrorKind::ParseFailed, "sidecar returned no sections"@)
            } else {
                e.is(ErrorKind::ParseFailed, "all sidecar sections were empty"@)
            }
        },
{
    if is_blank_str(full_text) {
        return Err(parse_failed("sidecar returned empty fullText"));
    }
    if sections.len() == 0 {
        return Err(parse_failed("sidecar returned no sections"));
    }
    let mut i: usize = 0;
    while i < sections.len()
        invariant
            i <= sections@.len(),
            !is_blank(full_text@),
            sections@.len() > 0,
            forall|j: int| 0 <= j < i ==> is_blank(#[trigger] sections@[j].text@),
        decreases sections@.len() - i,
    {
        if !is_blank_str(sections[i].text.as_str()) {
            assert(!is_blank(sections@[i as int].text@));
            return Ok(());
        }
        i = i + 1;
    }
    Err(parse_failed("all sidecar sections were empty"))
}

/// What a sidecar reply means: a failure is reported as `sidecar_failure`
/// says; a success must carry usable content.
pub fn sidecar_outcome(
    success: bool,
    error: Option<SidecarParseError>,
    data: Option<SidecarText>,
) -> (r: Result<SidecarText, AppError>)
    ensures
        r is Ok <==> success && data is Some && !is_blank(data->Some_0.full_text@)
            && data->Some_0.sections@.len() > 0 && some_section_has_text(data->Some_0.sections@),
        r matches Ok(t) ==> data == Some(t),
        !success ==> (r matches Err(e) && match error {
            None => e.is(
                ErrorKind::ParseFailed,
                "python sidecar returned failure without error payload"@,
            ),
            Some(se) => if is_content_error_code(se.code@) {
                e.is(ErrorKind::ParseFailed, se.message@)
            } else {
                e.is(ErrorKind::UpstreamUnavailable, se.message@)
            },
        }),
        (success && data is None) ==> (r matches Err(e) && e.is(
            ErrorKind::ParseFailed,
            "python sidecar returned success without data"@,
        )),
        (success && data is Some) ==> (r matches Err(e) ==> (if is_blank(
            data->Some_0.full_text@,
        ) {
            e.is(ErrorKind::ParseFailed, "sidecar returned empty fullText"@)
        } else if data->Some_0.sections@.len() == 0 {
            e.is(ErrorKind::ParseFailed, "sidecar returned no sections"@)
        } else {
            e.is(ErrorKind::ParseFailed, "all sidecar sections were empty"@)
        })),
{
    if !success {
        return Err(sidecar_failure(error));
    }
    match data {
        None => Err(parse_failed("python sidecar returned success without data")),
        Some(d) => {
            validate_parsed_content(d.full_text.as_str(), &d.sections)?;
            Ok(d)
        },
    }
}

/// The metadata kept with parsed content.
pub fn parsed_metadata(meta: SidecarParseMetadata, parsed_at: String) -> (m: ParsedMetadata)
    ensures
        m.page_count == meta.page_count,
        m.parser == meta.parser,
        m.parsed_at == parsed_at,
        m.visual_parsing == meta.visual_parsing,
{
    ParsedMetadata {
        page_count: meta.page_count,
        parser: meta.parser,
        parsed_at,
        visual_parsing: meta.visual_parsing,
    }
}

/// The counts recorded for stored content: the number of sections, and
/// whether there is full text.
pub fn content_counts(full_text: &str, sections: &Vec<ParsedSection>) -> (r: (i32, bool))
    requires
        sections@.len() <= i32::MAX,
    ensures
        r.0 == sections@.len(),
        r.1 == !is_blank(full_text@),
{
    (sections.len() as i32, !is_blank_str(full_text))
}

// ---------------------------------------------------------------------------
// Attempts and progress
// ---------------------------------------------------------------------------

/// How many times a paper is handed to the sidecar at most.
pub const MAX_PARSE_ATTEMPTS: i32 = 3;

/// A progress report of a parse.
pub struct ParseStatusUpdate {
    pub status: String,
    pub stage: String,
    pub progress: i32,
    pub attempt_count: i32,
    pub error_code: Option<String>,
    pub error_message: Option<String>,
    pub retryable: Option<bool>,
}

/// The fields of a progress report.
pub type UpdateView = (Seq<char>, Seq<char>, i32, i32, Option<Seq<char>>, Option<Seq<char>>, Option<bool>);

impl View for ParseStatusUpdate {
    type V = UpdateView;

    open spec fn view(&self) -> UpdateView {
        (
            self.status@,
            self.stage@,
            self.progress,
            self.attempt_count,
            match self.error_code {
                Some(c) => Some(c@),
                None => None,
            },
            match self.error_message {
                Some(m) => Some(m@),
                None => None,
            },
            self.retryable,
        )
    }
}

fn update(
    status: &str,
    stage: &str,
    progress: i32,
    attempt_count: i32,
    retryable: Option<bool>,
) -> (u: ParseStatusUpdate)
    ensures
        u@ == (status@, stage@, progress, attempt_count, None::<Seq<char>>, None::<Seq<char>>, retryable),
{
    ParseStatusUpdate {
        status: owned(status),
        stage: owned(stage),
        progress,
        attempt_count,
        error_code: None,
        error_message: None,
        retryable,
    }
}

/// The report when a parse begins, before any attempt.
pub fn parse_started() -> (u: ParseStatusUpdate)
    ensures
        u@ == ("parsing"@, "copy_file"@, 10i32, 0i32, None::<Seq<char>>, None::<Seq<char>>, None::<bool>),
{
    update("parsing", "copy_file", 10, 0, None)
}

/// The report when an attempt begins.
pub fn attempt_started(attempt: i32) -> (u: ParseStatusUpdate)
    ensures
        u@ == ("parsing"@, "extract_text"@, 40i32, attempt, None::<Seq<char>>, None::<Seq<char>>, Some(true)),
{
    update("parsing", "extract_text", 40, attempt, Some(true))
}

/// The report while the content of a successful attempt is stored.
pub fn attempt_persisting(attempt: i32) -> (u: ParseStatusUpdate)
    ensures
        u@ == ("parsing"@, "persist_result"@, 95i32, attempt, None::<Seq<char>>, None::<Seq<char>>, None::<bool>),
{
    update("parsing", "persist_result", 95, attempt, None)
}

/// The report once the content is stored.
pub fn parse_succeeded(attempt: i32) -> (u: ParseStatusUpdate)
    ensures
        u@ == ("succeeded"@, "succeeded"@, 100i32, attempt, None::<Seq<char>>, None::<Seq<char>>, Some(false)),
{
    update("succeeded", "succeeded", 100, attempt, Some(false))
}

/// Whether a failed attempt is followed by another one.
pub open spec fn retry_after(attempt: i32, kind: ErrorKind) -> bool {
    (kind == ErrorKind::UpstreamUnavailable || kind == ErrorKind::Internal) && attempt
        < MAX_PARSE_ATTEMPTS
}

/// The report of a failed attempt, and whether another attempt follows: only
/// an unavailable sidecar or an internal failure is retried, and only while
/// attempts are left.
pub fn attempt_failed(attempt: i32, error: &AppError) -> (r: (ParseStatusUpdate, bool))
    ensures
        r.1 == retry_after(attempt, error.kind()),
        r.0@ == (
            if r.1 { "parsing"@ } else { "failed"@ },
            if r.1 { "extract_sections"@ } else { "failed"@ },
            if r.1 { 75i32 } else { 100i32 },
            attempt,
            Some(parse_code_of(error.kind())),
            Some(error.msg()),
            Some(r.1),
        ),
{
    let retry = is_retryable_parse_error(error) && attempt < MAX_PARSE_ATTEMPTS;
    let (code, message) = parse_error_payload(error);
    let u = ParseStatusUpdate {
        status: owned(if retry { "parsing" } else { "failed" }),
        stage: owned(if retry { "extract_sections" } else { "failed" }),
        progress: if retry { 75 } else { 100 },
        attempt_count: attempt,
        error_code: Some(code),
        error_message: Some(message),
        retryable: Some(retry),
    };
    (u, retry)
}

/// The event that tells the front end about a progress report.
pub open spec fn status_event_spec(paper_id: Seq<char>, u: UpdateView, updated_at: Seq<char>) -> Json {
    Json::Obj(
        seq![
            ("eventId"@, Json::Str("evt_parse_"@ + paper_id + "_"@ + signed_decimal(u.2 as int))),
            ("paperId"@, Json::Str(paper_id)),
            ("runId"@, Json::Null),
            ("parseStatus"@, Json::Str(u.0)),
            ("stage"@, Json::Str(u.1)),
            ("progress"@, Json::Int(u.2 as i64)),
            ("updatedAt"@, Json::Str(updated_at)),
        ],
    )
}

/// The event for a progress report.
pub fn parse_status_event(paper_id: &str, u: &ParseStatusUpdate, updated_at: &str) -> (r: JsonValue)
    ensures
        r.model() == status_event_spec(paper_id@, u@, updated_at@),
{
    let mut id = cat("evt_parse_", paper_id);
    id.append("_");
    id.append(i32_text(u.progress).as_str());
    let mut ms: Vec<JsonMember> = Vec::new();
    ms.push(JsonMember { key: owned("eventId"), value: JsonValue::Str(id) });
    ms.push(JsonMember { key: owned("paperId"), value: JsonValue::Str(owned(paper_id)) });
    ms.push(JsonMember { key: owned("runId"), value: JsonValue::Null });
    ms.push(JsonMember { key: owned("parseStatus"), value: JsonValue::Str(u.status.clone()) });
    ms.push(JsonMember { key: owned("stage"), value: JsonValue::Str(u.stage.clone()) });
    ms.push(
        JsonMember {
            key: owned("progress"),
            value: JsonValue::Number(JsonNumber::Int(u.progress as i64)),
        },
    );
    ms.push(JsonMember { key: owned("updatedAt"), value: JsonValue::Str(owned(updated_at)) });
    proof {
        lemma_object_model(ms);
        assert(members_model(ms@) =~= status_event_spec(paper_id@, u@, updated_at@)->Obj_0);
    }
    JsonValue::Object(ms)
}

/// A paper is never handed to the sidecar more than three times: an attempt
/// is followed by another only below the limit, and every retry is reported
/// as such.
pub proof fn law_attempts_are_bounded(attempt: i32, kind: ErrorKind)
    ensures
        retry_after(attempt, kind) ==> attempt + 1 <= MAX_PARSE_ATTEMPTS,
        attempt >= MAX_PARSE_ATTEMPTS ==> !retry_after(attempt, kind),
{
}

/// A failure of the paper itself (not of the sidecar) ends the parse at
/// once, whatever the attempt.
pub proof fn law_content_errors_are_final(attempt: i32, kind: ErrorKind)
    requires
        kind != ErrorKind::UpstreamUnavailable,
        kind != ErrorKind::Internal,
    ensures
        !retry_after(attempt, kind),
{
}

} // verus!
