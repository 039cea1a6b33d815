//! Application errors and the codes they are reported under.
use vstd::prelude::*;
use crate::text::owned;

verus! {

/// The categories of failure the application reports.
pub enum ErrorKind {
    Validation,
    NotFound,
    UpstreamUnavailable,
    ImportFailed,
    ParseFailed,
    SchemaInvalid,
    Internal,
}

/// An application error: a category and a human readable message.
pub enum AppError {
    Validation(String),
    NotFound(String),
    UpstreamUnavailable(String),
    ImportFailed(String),
    ParseFailed(String),
    SchemaInvalid(String),
    Internal(String),
}

/// The code and message that a failed command reports to the front end.
pub struct ErrorPayload {
    pub code: String,
    pub message: String,
}

impl AppError {
    pub open spec fn kind(self) -> ErrorKind {
        match self {
            AppError::Validation(_) => ErrorKind::Validation,
            AppError::NotFound(_) => ErrorKind::NotFound,
            AppError::UpstreamUnavailable(_) => ErrorKind::UpstreamUnavailable,
            AppError::ImportFailed(_) => ErrorKind::ImportFailed,
            AppError::ParseFailed(_) => ErrorKind::ParseFailed,
            AppError::SchemaInvalid(_) => ErrorKind::SchemaInvalid,
            AppError::Internal(_) => ErrorKind::Internal,
        }
    }

    pub open spec fn msg(self) -> Seq<char> {
        match self {
            AppError::Validation(m) => m@,
            AppError::NotFound(m) => m@,
            AppError::UpstreamUnavailable(m) => m@,
            AppError::ImportFailed(m) => m@,
            AppError::ParseFailed(m) => m@,
            AppError::SchemaInvalid(m) => m@,
            AppError::Internal(m) => m@,
        }
    }

    /// An error of the given kind carrying the given message.
    pub open spec fn is(self, k: ErrorKind, m: Seq<char>) -> bool {
        self.kind() == k && self.msg() == m
    }

    /// The error's message (its `Display` text).
    pub fn message(&self) -> (m: String)
        ensures
            m@ == self.msg(),
    {
        match self {
            AppError::Validation(m) => m.clone(),
            AppError::NotFound(m) => m.clone(),
            AppError::UpstreamUnavailable(m) => m.clone(),
            AppError::ImportFailed(m) => m.clone(),
            AppError::ParseFailed(m) => m.clone(),
            AppError::SchemaInvalid(m) => m.clone(),
            AppError::Internal(m) => m.clone(),
        }
    }

    /// The error's kind.
    pub fn error_kind(&self) -> (k: ErrorKind)
        ensures
            k == self.kind(),
    {
        match self {
            AppError::Validation(_) => ErrorKind::Validation,
            AppError::NotFound(_) => ErrorKind::NotFound,
            AppError::UpstreamUnavailable(_) => ErrorKind::UpstreamUnavailable,
            AppError::ImportFailed(_) => ErrorKind::ImportFailed,
            AppError::ParseFailed(_) => ErrorKind::ParseFailed,
            AppError::SchemaInvalid(_) => ErrorKind::SchemaInvalid,
            AppError::Internal(_) => ErrorKind::Internal,
        }
    }

    /// The code under which the error is reported to the front end and
    /// recorded for a failed agent run.
    pub fn code(&self) -> (c: String)
        ensures
            c@ == code_of(self.kind()),
    {
        match self {
            AppError::Validation(_) => owned("VALIDATION_ERROR"),
            AppError::NotFound(_) => owned("NOT_FOUND"),
            AppError::UpstreamUnavailable(_) => owned("UPSTREAM_UNAVAILABLE"),
            AppError::ImportFailed(_) => owned("PAPER_IMPORT_FAILED"),
            AppError::ParseFailed(_) => owned("PAPER_PARSE_FAILED"),
            AppError::SchemaInvalid(_) => owned("AGENT_SCHEMA_INVALID"),
            AppError::Internal(_) => owned("INTERNAL_ERROR"),
        }
    }

    /// The payload that is sent to the front end in place of the error
    /// (`AppError::serialize`).
    pub fn payload(&self) -> (p: ErrorPayload)
        ensures
            p.code@ == code_of(self.kind()),
            p.message@ == self.msg(),
    {
        ErrorPayload { code: self.code(), message: self.message() }
    }
}

/// The code of each kind of error.
pub open spec fn code_of(k: ErrorKind) -> Seq<char> {
    match k {
        ErrorKind::Validation => "VALIDATION_ERROR"@,
        ErrorKind::NotFound => "NOT_FOUND"@,
        ErrorKind::UpstreamUnavailable => "UPSTREAM_UNAVAILABLE"@,
        ErrorKind::ImportFailed => "PAPER_IMPORT_FAILED"@,
        ErrorKind::ParseFailed => "PAPER_PARSE_FAILED"@,
        ErrorKind::SchemaInvalid => "AGENT_SCHEMA_INVALID"@,
        ErrorKind::Internal => "INTERNAL_ERROR"@,
    }
}

/// The code recorded on a paper whose parse failed: as `code_of`, except that
/// an unavailable upstream is reported as an unavailable parsing sidecar.
pub open spec fn parse_code_of(k: ErrorKind) -> Seq<char> {
    match k {
        ErrorKind::UpstreamUnavailable => "SIDECAR_UNAVAILABLE"@,
        _ => code_of(k),
    }
}

/// A validation error with the given message.
pub fn validation(m: &str) -> (e: AppError)
    ensures
        e.is(ErrorKind::Validation, m@),
{
    AppError::Validation(owned(m))
}

/// A not-found error with the given message.
pub fn not_found(m: &str) -> (e: AppError)
    ensures
        e.is(ErrorKind::NotFound, m@),
{
    AppError::NotFound(owned(m))
}

/// An upstream-unavailable error with the given message.
pub fn upstream(m: &str) -> (e: AppError)
    ensures
        e.is(ErrorKind::UpstreamUnavailable, m@),
{
    AppError::UpstreamUnavailable(owned(m))
}

/// A parse-failed error with the given message.
pub fn parse_failed(m: &str) -> (e: AppError)
    ensures
        e.is(ErrorKind::ParseFailed, m@),
{
    AppError::ParseFailed(owned(m))
}

/// An import-failed error with the given message.
pub fn import_failed(m: &str) -> (e: AppError)
    ensures
        e.is(ErrorKind::ImportFailed, m@),
{
    AppError::ImportFailed(owned(m))
}

/// A schema-invalid error with the given message.
pub fn schema_invalid(m: String) -> (e: AppError)
    ensures
        e.is(ErrorKind::SchemaInvalid, m@),
{
    AppError::SchemaInvalid(m)
}

/// The code and message recorded for a failed parse attempt
/// (`parse_error_payload`).
pub fn parse_error_payload(error: &AppError) -> (r: (String, String))
    ensures
        r.0@ == parse_code_of(error.kind()),
        r.1@ == error.msg(),
{
    let code = match error {
        AppError::UpstreamUnavailable(_) => owned("SIDECAR_UNAVAILABLE"),
        _ => error.code(),
    };
    (code, error.message())
}

/// Whether a failed parse attempt may be retried: only an unavailable
/// upstream or an internal failure is worth another attempt.
pub fn is_retryable_parse_error(error: &AppError) -> (b: bool)
    ensures
        b == (error.kind() == ErrorKind::UpstreamUnavailable || error.kind() == ErrorKind::Internal),
{
    match error {
        AppError::UpstreamUnavailable(_) | AppError::Internal(_) => true,
        _ => false,
    }
}

/// A looked-up record, or a not-found error with the given message when
/// there is none.
pub fn require_found<T>(found: Option<T>, message: &str) -> (r: Result<T, AppError>)
    ensures
        match found {
            Some(v) => r == Ok::<T, AppError>(v),
            None => r matches Err(e) && e.is(ErrorKind::NotFound, message@),
        },
{
    match found {
        Some(v) => Ok(v),
        None => Err(not_found(message)),
    }
}

} // verus!
