//! Image hosting in a GitHub repository: whether it is configured, where an
//! image goes, the request that puts it there, and the links it is then
//! reachable under.
use vstd::prelude::*;
use base64::Engine;
use crate::error::{AppError, ErrorKind, upstream, validation};
use crate::json::{Json, JsonMember, JsonValue, members_model, lemma_object_model};
use crate::paths::{extension_of, file_name_of, path_extension, path_file_name};
use crate::text::{
    cat, chars_of, given_text, given_text_of, owned, string_of, trim, trim_end_matches,
    trim_end_matches_vec, trim_str,
};
use crate::arxiv::{trim_slashes, trim_slashes_vec};
use crate::workflow::strs_view;

verus! {

/// The GitHub settings of the profile, as stored.
pub struct GitHubSettings {
    pub repo_owner: Option<String>,
    pub repo_name: Option<String>,
    pub repo_branch: Option<String>,
    pub repo_path_prefix: Option<String>,
    pub cdn_base_url: Option<String>,
    pub token: Option<String>,
}

/// Which of the settings that an upload needs are missing.
pub struct GitHubConfigStatus {
    pub missing_fields: Vec<String>,
}

/// Where an uploaded image was put, and where it can be fetched.
pub struct GitHubUploadResult {
    pub public_url: String,
    pub repository_path: String,
}

/// The repository an upload goes to, with the credential it uses.
pub struct UploadTarget {
    pub owner: String,
    pub repo: String,
    pub branch: String,
    pub token: String,
}

/// Everything the upload request needs, and the links the image will have.
pub struct UploadRequest {
    pub api_url: String,
    pub token: String,
    pub payload: JsonValue,
    pub repository_path: String,
    pub public_url: String,
}

/// The character of a six-bit value in the standard base64 alphabet
/// (`A`-`Z`, `a`-`z`, `0`-`9`, `+`, `/`).
pub open spec fn base64_char(v: int) -> char {
    if v < 26 {
        (65 + v) as char
    } else if v < 52 {
        (97 + v - 26) as char
    } else if v < 62 {
        (48 + v - 52) as char
    } else if v == 62 {
        '+'
    } else {
        '/'
    }
}

/// The base64 text of some bytes in the standard alphabet, with padding:
/// each group of three bytes as four characters of six bits each, and a
/// last group of one or two bytes padded with `=` to four characters.
pub open spec fn base64_standard(bytes: Seq<u8>) -> Seq<char>
    decreases bytes.len(),
{
    if bytes.len() == 0 {
        Seq::empty()
    } else if bytes.len() == 1 {
        let a = bytes[0] as int;
        seq![base64_char(a / 4), base64_char((a % 4) * 16), '=', '=']
    } else if bytes.len() == 2 {
        let a = bytes[0] as int;
        let b = bytes[1] as int;
        seq![base64_char(a / 4), base64_char((a % 4) * 16 + b / 16), base64_char((b % 16) * 4), '=']
    } else {
        let a = bytes[0] as int;
        let b = bytes[1] as int;
        let c = bytes[2] as int;
        seq![
            base64_char(a / 4),
            base64_char((a % 4) * 16 + b / 16),
            base64_char((b % 16) * 4 + c / 64),
            base64_char(c % 64),
        ] + base64_standard(bytes.skip(3))
    }
}

/// `base64::engine::general_purpose::STANDARD.encode`: the standard base64
/// text of the bytes, with padding, as `base64_standard` states it.
#[verifier::external_body]
fn encode_base64(bytes: &Vec<u8>) -> (r: String)
    ensures
        r@ == base64_standard(bytes@),
{
    base64::engine::general_purpose::STANDARD.encode(bytes)
}

/// Whether an optional setting holds more than whitespace.
pub open spec fn present(v: Option<String>) -> bool {
    given_text(v) is Some
}

/// The labels of the missing settings, in a fixed order.
pub open spec fn missing_spec(settings: GitHubSettings) -> Seq<Seq<char>> {
    (if present(settings.repo_owner) {
        Seq::<Seq<char>>::empty()
    } else {
        seq!["repo owner"@]
    }) + (if present(settings.repo_name) {
        Seq::<Seq<char>>::empty()
    } else {
        seq!["repo name"@]
    }) + (if present(settings.token) {
        Seq::<Seq<char>>::empty()
    } else {
        seq!["token"@]
    })
}

impl GitHubConfigStatus {
    /// Whether nothing is missing.
    pub fn is_configured(&self) -> (b: bool)
        ensures
            b == (self.missing_fields@.len() == 0),
    {
        self.missing_fields.len() == 0
    }
}

/// Which settings are missing for an upload (`config_status`).
pub fn config_status(settings: &GitHubSettings) -> (r: GitHubConfigStatus)
    ensures
        strs_view(r.missing_fields@) == missing_spec(*settings),
{
    let mut missing: Vec<String> = Vec::new();
    if given_text_of(&settings.repo_owner).is_none() {
        missing.push(owned("repo owner"));
    }
    if given_text_of(&settings.repo_name).is_none() {
        missing.push(owned("repo name"));
    }
    if given_text_of(&settings.token).is_none() {
        missing.push(owned("token"));
    }
    assert(strs_view(missing@) =~= missing_spec(*settings));
    GitHubConfigStatus { missing_fields: missing }
}

/// The labels joined with commas.
pub open spec fn join_labels(vs: Seq<Seq<char>>) -> Seq<char>
    decreases vs.len(),
{
    if vs.len() == 0 {
        Seq::empty()
    } else if vs.len() == 1 {
        vs[0]
    } else {
        join_labels(vs.drop_last()) + ", "@ + vs.last()
    }
}

fn join_labels_exec(vs: &Vec<String>) -> (r: String)
    ensures
        r@ == join_labels(strs_view(vs@)),
{
    let mut out = String::new();
    let mut i: usize = 0;
    assert(strs_view(vs@).take(0) =~= Seq::<Seq<char>>::empty());
    while i < vs.len()
        invariant
            i <= vs@.len(),
            out@ == join_labels(strs_view(vs@).take(i as int)),
        decreases vs@.len() - i,
    {
        let ghost prev = strs_view(vs@).take(i as int);
        proof {
            assert(strs_view(vs@).take(i + 1).drop_last() =~= prev);
            assert(strs_view(vs@).take(i + 1).last() == vs@[i as int]@);
        }
        if i > 0 {
            out.append(", ");
        }
        out.append(vs[i].as_str());
        i = i + 1;
    }
    assert(strs_view(vs@).take(vs@.len() as int) =~= strs_view(vs@));
    out
}

/// Refuses an upload test while settings are missing, naming them.
pub fn check_configured(status: &GitHubConfigStatus) -> (r: Result<(), AppError>)
    ensures
        r is Ok <==> status.missing_fields@.len() == 0,
        r matches Err(e) ==> e.is(
            ErrorKind::Validation,
            "github image hosting is not fully configured; missing: "@ + join_labels(
                strs_view(status.missing_fields@),
            ),
        ),
{
    if status.is_configured() {
        return Ok(());
    }
    let joined = join_labels_exec(&status.missing_fields);
    let msg = cat("github image hosting is not fully configured; missing: ", joined.as_str());
    Err(AppError::Validation(msg))
}

/// The branch an upload goes to: the configured one, else `main`.
pub open spec fn branch_spec(settings: GitHubSettings) -> Seq<char> {
    match given_text(settings.repo_branch) {
        Some(b) => b,
        None => "main"@,
    }
}

/// The repository and credential of an upload: owner, name and token are
/// required, in that order; the branch defaults to `main`.
pub fn upload_target(settings: &GitHubSettings) -> (r: Result<UploadTarget, AppError>)
    ensures
        r is Ok <==> present(settings.repo_owner) && present(settings.repo_name) && present(
            settings.token,
        ),
        r matches Ok(t) ==> {
            &&& Some(t.owner@) == given_text(settings.repo_owner)
            &&& Some(t.repo@) == given_text(settings.repo_name)
            &&& Some(t.token@) == given_text(settings.token)
            &&& t.branch@ == branch_spec(*settings)
        },
        r matches Err(e) ==> {
            if !present(settings.repo_owner) {
                e.is(ErrorKind::Validation, "github repo owner is not configured"@)
            } else if !present(settings.repo_name) {
                e.is(ErrorKind::Validation, "github repo name is not configured"@)
            } else {
                e.is(ErrorKind::Validation, "github token is not configured"@)
            }
        },
{
    let owner = match given_text_of(&settings.repo_owner) {
        Some(o) => o,
        None => return Err(validation("github repo owner is not configured")),
    };
    let repo = match given_text_of(&settings.repo_name) {
        Some(n) => n,
        None => return Err(validation("github repo name is not configured")),
    };
    let branch = match given_text_of(&settings.repo_branch) {
        Some(b) => b,
        None => owned("main"),
    };
    let token = match given_text_of(&settings.token) {
        Some(t) => t,
        None => return Err(validation("github token is not configured")),
    };
    Ok(UploadTarget { owner, repo, branch, token })
}

/// The name the image had on disk, or a stand-in.
pub open spec fn source_name_spec(image_path: Seq<char>) -> Seq<char> {
    match path_file_name(image_path) {
        Some(n) => n,
        None => "artifact.png"@,
    }
}

/// The extension the stored image keeps, or `png`.
pub open spec fn extension_spec(image_path: Seq<char>) -> Seq<char> {
    match path_extension(source_name_spec(image_path)) {
        Some(e) => e,
        None => "png"@,
    }
}

/// The configured folder of the repository, without slashes at its ends.
pub open spec fn prefix_spec(settings: GitHubSettings) -> Seq<char> {
    trim_slashes(
        match settings.repo_path_prefix {
            Some(p) => trim(p@),
            None => Seq::empty(),
        },
    )
}

/// Where in the repository an image is stored.
pub open spec fn repository_path_spec(
    prefix: Seq<char>,
    purpose: Seq<char>,
    unique_id: Seq<char>,
    extension: Seq<char>,
) -> Seq<char> {
    let rest = "paper-reader/"@ + purpose + "/"@ + unique_id + "."@ + extension;
    if prefix.len() == 0 {
        rest
    } else {
        prefix + "/"@ + rest
    }
}

/// The contents endpoint that an image is put to.
pub open spec fn api_url_spec(owner: Seq<char>, repo: Seq<char>, path: Seq<char>) -> Seq<char> {
    "https://api.github.com/repos/"@ + owner + "/"@ + repo + "/contents/"@ + path
}

/// The link an uploaded image is published under: below the configured CDN
/// base, else the raw file of the branch.
pub open spec fn public_url_spec(
    settings: GitHubSettings,
    owner: Seq<char>,
    repo: Seq<char>,
    branch: Seq<char>,
    path: Seq<char>,
) -> Seq<char> {
    match given_text(settings.cdn_base_url) {
        Some(base) => trim_end_matches(base, "/"@) + "/"@ + path,
        None => "https://raw.githubusercontent.com/"@ + owner + "/"@ + repo + "/"@ + branch + "/"@
            + path,
    }
}

/// The body of the upload request.
pub open spec fn payload_spec(
    purpose: Seq<char>,
    source_name: Seq<char>,
    bytes: Seq<u8>,
    branch: Seq<char>,
) -> Json {
    Json::Obj(
        seq![
            ("message"@, Json::Str("paper-reader upload "@ + purpose + " "@ + source_name)),
            ("content"@, Json::Str(base64_standard(bytes))),
            ("branch"@, Json::Str(branch)),
        ],
    )
}

fn join5(a: &str, b: &str, c: &str, d: &str, e: &str) -> (r: String)
    ensures
        r@ == a@ + b@ + c@ + d@ + e@,
{
    let mut r = cat(a, b);
    r.append(c);
    r.append(d);
    r.append(e);
    r
}

/// The upload of one image: where it goes, what is sent, and where it will be
/// found. An empty image is refused.
pub fn prepare_upload(
    target: &UploadTarget,
    settings: &GitHubSettings,
    image_path: &str,
    bytes: &Vec<u8>,
    purpose: &str,
    unique_id: &str,
) -> (r: Result<UploadRequest, AppError>)
    ensures
        r is Ok <==> bytes@.len() > 0,
        r matches Err(e) ==> e.is(ErrorKind::Validation, "image asset is empty"@),
        r matches Ok(u) ==> {
            let path = repository_path_spec(
                prefix_spec(*settings),
                purpose@,
                unique_id@,
                extension_spec(image_path@),
            );
            &&& u.repository_path@ == path
            &&& u.api_url@ == api_url_spec(target.owner@, target.repo@, path)
            &&& u.token@ == target.token@
            &&& u.payload.model() == payload_spec(
                purpose@,
                source_name_spec(image_path@),
                bytes@,
                target.branch@,
            )
            &&& u.public_url@ == public_url_spec(
                *settings,
                target.owner@,
                target.repo@,
                target.branch@,
                path,
            )
        },
{
    if bytes.len() == 0 {
        return Err(validation("image asset is empty"));
    }
    let source_name = match file_name_of(image_path) {
        Some(n) => n,
        None => owned("artifact.png"),
    };
    let extension = match extension_of(source_name.as_str()) {
        Some(e) => e,
        None => owned("png"),
    };
    let trimmed_prefix = match &settings.repo_path_prefix {
        Some(p) => trim_str(p.as_str()),
        None => String::new(),
    };
    let prefix_chars = chars_of(trimmed_prefix.as_str());
    let prefix = string_of(&trim_slashes_vec(&prefix_chars));
    let rest = join5("paper-reader/", purpose, "/", unique_id, ".");
    let mut rest = rest;
    rest.append(extension.as_str());
    let repository_path = if prefix.unicode_len() == 0 {
        rest
    } else {
        let mut p = cat(prefix.as_str(), "/");
        p.append(rest.as_str());
        p
    };
    let mut api_url = join5(
        "https://api.github.com/repos/",
        target.owner.as_str(),
        "/",
        target.repo.as_str(),
        "/contents/",
    );
    api_url.append(repository_path.as_str());
    let mut message = cat("paper-reader upload ", purpose);
    message.append(" ");
    message.append(source_name.as_str());
    let mut ms: Vec<JsonMember> = Vec::new();
    ms.push(JsonMember { key: owned("message"), value: JsonValue::Str(message) });
    ms.push(JsonMember { key: owned("content"), value: JsonValue::Str(encode_base64(bytes)) });
    ms.push(JsonMember { key: owned("branch"), value: JsonValue::Str(target.branch.clone()) });
    let payload = JsonValue::Object(ms);
    proof {
        lemma_object_model(ms);
        assert(members_model(ms@) =~= payload_spec(
            purpose@,
            source_name_spec(image_path@),
            bytes@,
            target.branch@,
        )->Obj_0);
    }
    let public_url = match given_text_of(&settings.cdn_base_url) {
        Some(base) => {
            let base_chars = chars_of(base.as_str());
            let slash = chars_of("/");
            let mut u = string_of(&trim_end_matches_vec(&base_chars, &slash));
            u.append("/");
            u.append(repository_path.as_str());
            u
        },
        None => {
            let mut u = join5(
                "https://raw.githubusercontent.com/",
                target.owner.as_str(),
                "/",
                target.repo.as_str(),
                "/",
            );
            u.append(target.branch.as_str());
            u.append("/");
            u.append(repository_path.as_str());
            u
        },
    };
    Ok(UploadRequest {
        api_url,
        token: target.token.clone(),
        payload,
        repository_path,
        public_url,
    })
}

/// Whether an HTTP status reports success.
pub open spec fn is_success_status(code: u16) -> bool {
    200 <= code <= 299
}

/// What the upload's reply means: on success the links of the image,
/// otherwise an unavailable upstream that quotes the status and the body.
pub fn finish_upload(status_code: u16, status_text: &str, body: &str, request: UploadRequest) -> (r:
    Result<GitHubUploadResult, AppError>)
    ensures
        r is Ok <==> is_success_status(status_code),
        r matches Ok(g) ==> g.public_url@ == request.public_url@ && g.repository_path@
            == request.repository_path@,
        r matches Err(e) ==> e.is(
            ErrorKind::UpstreamUnavailable,
            "github upload failed with status "@ + status_text@ + ": "@ + body@,
        ),
{
    if 200 <= status_code && status_code <= 299 {
        Ok(GitHubUploadResult {
            public_url: request.public_url,
            repository_path: request.repository_path,
        })
    } else {
        let mut msg = cat("github upload failed with status ", status_text);
        msg.append(": ");
        msg.append(body);
        Err(AppError::UpstreamUnavailable(msg))
    }
}

/// Nothing is reported missing exactly when an upload finds its owner,
/// repository and token: the configuration check and the upload agree.
pub proof fn law_configured_iff_uploadable(settings: GitHubSettings)
    ensures
        (missing_spec(settings).len() == 0) <==> (present(settings.repo_owner) && present(
            settings.repo_name,
        ) && present(settings.token)),
{
}

/// A published link always ends with the image's place in the repository.
pub proof fn law_public_url_ends_with_path(
    settings: GitHubSettings,
    owner: Seq<char>,
    repo: Seq<char>,
    branch: Seq<char>,
    path: Seq<char>,
)
    ensures
        crate::text::ends_with(public_url_spec(settings, owner, repo, branch, path), "/"@ + path),
{
    let u = public_url_spec(settings, owner, repo, branch, path);
    let tail = "/"@ + path;
    match given_text(settings.cdn_base_url) {
        Some(base) => {
            let head = trim_end_matches(base, "/"@);
            assert(u =~= head + tail);
            assert(u.skip(u.len() - tail.len()) =~= tail);
        },
        None => {
            let head = "https://raw.githubusercontent.com/"@ + owner + "/"@ + repo + "/"@ + branch;
            assert(u =~= head + tail);
            assert(u.skip(u.len() - tail.len()) =~= tail);
        },
    }
}

} // verus!
