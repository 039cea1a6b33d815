//! The reader's profile: which profiles are accepted, and how the GitHub
//! token is stored and read back.
use vstd::prelude::*;
use crate::error::{AppError, ErrorKind, validation};
use crate::github::GitHubUploadResult;
use crate::text::{given_text, given_text_of, is_blank, is_blank_str, owned};

verus! {

/// The profile as the front end submits it.
pub struct UpsertProfileRequest {
    pub role: String,
    pub research_field: String,
    pub focus_topic: Option<String>,
    pub reading_goal: String,
    pub output_language: String,
    pub experience_level: String,
    pub github_repo_owner: Option<String>,
    pub github_repo_name: Option<String>,
    pub github_repo_branch: Option<String>,
    pub github_repo_path_prefix: Option<String>,
    pub github_cdn_base_url: Option<String>,
    pub github_token: Option<String>,
}

/// The stored profile as the front end sees it; the token itself is not
/// shown, only whether there is one.
pub struct ProfileResponse {
    pub id: String,
    pub role: String,
    pub research_field: String,
    pub focus_topic: Option<String>,
    pub reading_goal: String,
    pub output_language: String,
    pub experience_level: String,
    pub github_repo_owner: Option<String>,
    pub github_repo_name: Option<String>,
    pub github_repo_branch: Option<String>,
    pub github_repo_path_prefix: Option<String>,
    pub github_cdn_base_url: Option<String>,
    pub has_github_token: bool,
    pub updated_at: String,
}

/// The outcome of a test upload.
pub struct GitHubUploadTestResponse {
    pub public_url: String,
    pub repository_path: String,
    pub message: String,
}

/// How many of the two repository settings are given.
pub open spec fn repo_fields_given(request: UpsertProfileRequest) -> nat {
    (if given_text(request.github_repo_owner) is Some {
        1nat
    } else {
        0nat
    }) + (if given_text(request.github_repo_name) is Some {
        1nat
    } else {
        0nat
    })
}

/// Whether a profile is accepted: role, research field and reading goal
/// must have content, and the repository owner and name come together or
/// not at all.
pub open spec fn profile_acceptable(request: UpsertProfileRequest) -> bool {
    !is_blank(request.role@) && !is_blank(request.research_field@) && !is_blank(
        request.reading_goal@,
    ) && repo_fields_given(request) != 1
}

/// Checks a submitted profile.
pub fn check_profile(request: &UpsertProfileRequest) -> (r: Result<(), AppError>)
    ensures
        r is Ok <==> profile_acceptable(*request),
        r matches Err(e) ==> {
            if is_blank(request.role@) || is_blank(request.research_field@) || is_blank(
                request.reading_goal@,
            ) {
                e.is(ErrorKind::Validation, "profile fields cannot be empty"@)
            } else {
                e.is(
                    ErrorKind::Validation,
                    "github image hosting requires repo owner and repo name"@,
                )
            }
        },
{
    if is_blank_str(request.role.as_str()) || is_blank_str(request.research_field.as_str())
        || is_blank_str(request.reading_goal.as_str()) {
        return Err(validation("profile fields cannot be empty"));
    }
    let mut count: u8 = 0;
    if given_text_of(&request.github_repo_owner).is_some() {
        count = count + 1;
    }
    if given_text_of(&request.github_repo_name).is_some() {
        count = count + 1;
    }
    if count == 1 {
        return Err(validation("github image hosting requires repo owner and repo name"));
    }
    Ok(())
}

/// The token that a profile update stores: the submitted one, trimmed, when
/// it has content.
pub fn token_to_store(request: &UpsertProfileRequest) -> (r: Option<String>)
    ensures
        match r {
            Some(t) => given_text(request.github_token) == Some(t@),
            None => given_text(request.github_token) is None,
        },
{
    given_text_of(&request.github_token)
}

/// The token a profile is read back with: the one in the credential store,
/// else the stored fallback; whitespace alone counts as none.
pub open spec fn effective_token(stored: Option<Seq<char>>, fallback: Option<Seq<char>>) -> Option<
    Seq<char>,
> {
    let t = match stored {
        Some(s) => Some(s),
        None => fallback,
    };
    match t {
        Some(s) => if is_blank(s) {
            None
        } else {
            Some(s)
        },
        None => None,
    }
}

/// Picks the token a profile is read back with.
pub fn choose_github_token(stored: Option<String>, fallback: Option<String>) -> (r: Option<String>)
    ensures
        match r {
            Some(t) => effective_token(
                match stored {
                    Some(s) => Some(s@),
                    None => None,
                },
                match fallback {
                    Some(s) => Some(s@),
                    None => None,
                },
            ) == Some(t@),
            None => effective_token(
                match stored {
                    Some(s) => Some(s@),
                    None => None,
                },
                match fallback {
                    Some(s) => Some(s@),
                    None => None,
                },
            ) is None,
        },
{
    let t = match stored {
        Some(s) => Some(s),
        None => fallback,
    };
    match t {
        Some(s) => if is_blank_str(s.as_str()) {
            None
        } else {
            Some(s)
        },
        None => None,
    }
}

/// The reply to a successful test upload.
pub fn upload_test_response(upload: GitHubUploadResult) -> (r: GitHubUploadTestResponse)
    ensures
        r.public_url@ == upload.public_url@,
        r.repository_path@ == upload.repository_path@,
        r.message@ == "test image uploaded successfully"@,
{
    GitHubUploadTestResponse {
        public_url: upload.public_url,
        repository_path: upload.repository_path,
        message: owned("test image uploaded successfully"),
    }
}

/// A token kept in the credential store always wins over the stored
/// fallback, as long as it has content.
pub proof fn law_stored_token_wins(stored: Seq<char>, fallback: Option<Seq<char>>)
    requires
        !is_blank(stored),
    ensures
        effective_token(Some(stored), fallback) == Some(stored),
{
}

} // verus!
