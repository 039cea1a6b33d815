//! Talking to an OpenAI-compatible model endpoint: which API flavour to use,
//! where to send the request, what to send, and how to read the reply.
use vstd::prelude::*;
use crate::error::{AppError, ErrorKind, upstream, validation};
use crate::json::{Json, JsonMember, JsonNumber, JsonValue, members_model, lemma_object_model, lemma_array_model, seq_model};
use crate::text::{
    after_last, after_last_vec, ascii_lower, ascii_lower_vec, cat, chars_eq, chars_of, collapse_ws,
    collapse_ws_str, concat_vec, ends_with, ends_with_vec, is_blank, is_blank_str, lemma_after_last,
    owned, slice_vec, str_eq, string_of, trim, trim_end_matches, trim_end_matches_vec, trim_str,
};
use crate::workflow::opt_view;

verus! {

/// A saved model configuration, as the runtime uses it.
pub struct StoredModelConfig {
    pub id: String,
    pub provider: String,
    pub base_url: String,
    pub model_name: String,
    pub api_type: Option<String>,
    pub image_input_format: Option<String>,
    pub agent_type: Option<String>,
    pub is_default: bool,
    pub api_key: Option<String>,
}

/// `normalize_api_type`: an explicit API type wins when it names one of the
/// two flavours; otherwise a base URL ending in `/responses` selects the
/// responses API, and anything else the chat completions API.
pub open spec fn api_type_spec(api_type: Option<Seq<char>>, base_url: Seq<char>) -> Seq<char> {
    let named = match api_type {
        Some(a) => {
            let n = ascii_lower(trim(a));
            if n == "chat"@ || n == "chat_completions"@ || n == "chat-completions"@ {
                Some("chat_completions"@)
            } else if n == "responses"@ || n == "response"@ {
                Some("responses"@)
            } else {
                None
            }
        },
        None => None,
    };
    match named {
        Some(t) => t,
        None => if ends_with(ascii_lower(trim_end_matches(base_url, "/"@)), "/responses"@) {
            "responses"@
        } else {
            "chat_completions"@
        },
    }
}

/// `build_endpoint`: the base URL, without trailing slashes, extended by the
/// path of the API flavour unless it already ends with it.
pub open spec fn endpoint_spec(base_url: Seq<char>, api_type: Seq<char>) -> Seq<char> {
    let b = trim_end_matches(base_url, "/"@);
    let suffix = if api_type == "responses"@ {
        "/responses"@
    } else {
        "/chat/completions"@
    };
    if ends_with(b, suffix) {
        b
    } else {
        b + suffix
    }
}

/// The name an API flavour is reported under.
pub open spec fn api_label_spec(api_type: Seq<char>) -> Seq<char> {
    if api_type == "responses"@ {
        "responses"@
    } else {
        "chat completions"@
    }
}

fn vec_in(v: &Vec<char>, lit: &str) -> (b: bool)
    ensures
        b == (v@ == lit@),
{
    chars_eq(v, &chars_of(lit))
}

/// Decides which API flavour a configuration speaks.
pub fn normalize_api_type(api_type: Option<&str>, base_url: &str) -> (r: String)
    ensures
        r@ == api_type_spec(
            match api_type {
                Some(a) => Some(a@),
                None => None,
            },
            base_url@,
        ),
{
    match api_type {
        Some(a) => {
            let t = trim_str(a);
            let n = ascii_lower_vec(&chars_of(t.as_str()));
            if vec_in(&n, "chat") || vec_in(&n, "chat_completions") || vec_in(&n, "chat-completions") {
                return owned("chat_completions");
            }
            if vec_in(&n, "responses") || vec_in(&n, "response") {
                return owned("responses");
            }
        },
        None => {},
    }
    let b = trim_end_matches_vec(&chars_of(base_url), &chars_of("/"));
    let lb = ascii_lower_vec(&b);
    if ends_with_vec(&lb, &chars_of("/responses")) {
        owned("responses")
    } else {
        owned("chat_completions")
    }
}

/// The endpoint requests of an API flavour are sent to.
pub fn build_endpoint(base_url: &str, api_type: &str) -> (r: String)
    ensures
        r@ == endpoint_spec(base_url@, api_type@),
{
    let b = trim_end_matches_vec(&chars_of(base_url), &chars_of("/"));
    let suffix = if str_eq(api_type, "responses") {
        chars_of("/responses")
    } else {
        chars_of("/chat/completions")
    };
    if ends_with_vec(&b, &suffix) {
        string_of(&b)
    } else {
        string_of(&concat_vec(&b, &suffix))
    }
}

/// The name an API flavour is reported under.
pub fn api_label(api_type: &str) -> (r: String)
    ensures
        r@ == api_label_spec(api_type@),
{
    if str_eq(api_type, "responses") {
        owned("responses")
    } else {
        owned("chat completions")
    }
}

// ---------------------------------------------------------------------------
// Numbers in text
// ---------------------------------------------------------------------------

pub open spec fn digit_char(d: nat) -> char {
    ((d % 10) + 48) as char
}

/// The decimal digits of a number.
pub open spec fn decimal(n: nat) -> Seq<char>
    decreases n,
{
    if n < 10 {
        seq![digit_char(n)]
    } else {
        decimal(n / 10).push(digit_char(n % 10))
    }
}

/// The number a run of decimal digits denotes.
pub open spec fn digits_value(s: Seq<char>) -> nat
    decreases s.len(),
{
    if s.len() == 0 {
        0
    } else {
        digits_value(s.drop_last()) * 10 + ((s.last() as int - 48) as nat)
    }
}

/// What `str::parse::<u16>` accepts, as its documentation gives it: an
/// optional `+` followed by one or more decimal digits, denoting a number
/// that fits in a `u16`.
pub open spec fn parse_u16_spec(s: Seq<char>) -> Option<u16> {
    let d = if s.len() > 0 && s[0] == '+' {
        s.drop_first()
    } else {
        s
    };
    if d.len() > 0 && crate::text::all_digits(d) && digits_value(d) <= 65535 {
        Some(digits_value(d) as u16)
    } else {
        None
    }
}

/// `str::parse::<u16>`, with the error turned into its message.
///
/// Trusted: the result is `Ok` exactly on the inputs the documentation of
/// `from_str_radix` describes, with the number they denote; the text of
/// the error message is not stated.
#[verifier::external_body]
fn parse_u16(s: &str) -> (r: Result<u16, String>)
    ensures
        match r {
            Ok(v) => parse_u16_spec(s@) == Some(v),
            Err(_) => parse_u16_spec(s@) is None,
        },
{
    s.parse::<u16>().map_err(|error| error.to_string())
}

/// The decimal text of a number (`u16`'s `Display`).
pub fn u16_text(n: u16) -> (r: String)
    ensures
        r@ == decimal(n as nat),
{
    u64_text(n as u64)
}

/// The decimal text of a number (`Display` of an unsigned integer).
pub fn u64_text(n: u64) -> (r: String)
    ensures
        r@ == decimal(n as nat),
{
    let mut digits: Vec<char> = Vec::new();
    let mut m: u64 = n;
    loop
        invariant
            decimal(n as nat) == decimal(m as nat) + digits@,
        decreases m,
    {
        let d: u64 = m % 10;
        let c = char_digit(d);
        if m < 10 {
            let mut out: Vec<char> = Vec::new();
            out.push(c);
            let r = concat_vec(&out, &digits);
            assert(decimal(m as nat) =~= seq![c]);
            return string_of(&r);
        }
        let ghost old_digits = digits@;
        let mut nd: Vec<char> = Vec::new();
        nd.push(c);
        digits = concat_vec(&nd, &digits);
        proof {
            assert(decimal(m as nat) == decimal((m / 10) as nat).push(digit_char((m % 10) as nat)));
            assert(decimal((m / 10) as nat).push(c) + old_digits =~= decimal((m / 10) as nat) + digits@);
        }
        m = m / 10;
    }
}

/// The decimal text of a signed number, with a `-` in front of a negative
/// one.
pub open spec fn signed_decimal(n: int) -> Seq<char> {
    if n < 0 {
        seq!['-'] + decimal((-n) as nat)
    } else {
        decimal(n as nat)
    }
}

/// The decimal text of a number (`i32`'s `Display`).
pub fn i32_text(n: i32) -> (r: String)
    ensures
        r@ == signed_decimal(n as int),
{
    if n < 0 {
        let magnitude: u64 = (-(n as i64)) as u64;
        let digits = u64_text(magnitude);
        let r = cat("-", digits.as_str());
        proof {
            reveal_strlit("-");
        }
        r
    } else {
        u64_text(n as u64)
    }
}

fn char_digit(d: u64) -> (c: char)
    requires
        d < 10,
    ensures
        c == digit_char(d as nat),
{
    let b: u8 = (d as u8) + 48;
    b as char
}

// ---------------------------------------------------------------------------
// Reply bodies
// ---------------------------------------------------------------------------

/// The number of bytes of a character's UTF-8 encoding.
pub open spec fn utf8_len(c: char) -> nat {
    let u = c as u32;
    if u < 0x80 {
        1
    } else if u < 0x800 {
        2
    } else if u < 0x10000 {
        3
    } else {
        4
    }
}

/// The number of bytes of a string's UTF-8 encoding.
pub open spec fn byte_len(s: Seq<char>) -> nat
    decreases s.len(),
{
    if s.len() == 0 {
        0
    } else {
        byte_len(s.drop_last()) + utf8_len(s.last())
    }
}

/// The number of characters whose encoding takes exactly `bytes` bytes, if
/// `bytes` falls on a character boundary.
pub open spec fn chars_in_bytes(s: Seq<char>, bytes: nat) -> Option<nat>
    decreases s.len(),
{
    if bytes == 0 {
        Some(0)
    } else if s.len() == 0 || utf8_len(s[0]) > bytes {
        None
    } else {
        match chars_in_bytes(s.drop_first(), (bytes - utf8_len(s[0])) as nat) {
            Some(k) => Some(k + 1),
            None => None,
        }
    }
}

/// A body can be cut for an error message: its collapsed form is short
/// enough, or its 240th byte ends a character (elsewhere the cut panics).
pub open spec fn runtime_body_cuttable(body: Seq<char>) -> bool {
    let n = collapse_ws(body);
    byte_len(n) <= 240 || chars_in_bytes(n, 240) is Some
}

/// `truncate_runtime_body`: the body on one line, cut after 240 bytes.
pub open spec fn truncate_runtime_spec(body: Seq<char>) -> Seq<char> {
    let n = collapse_ws(body);
    if byte_len(n) <= 240 {
        n
    } else {
        n.take(chars_in_bytes(n, 240)->0 as int) + "..."@
    }
}

fn utf8_len_of(c: char) -> (r: usize)
    ensures
        r as nat == utf8_len(c),
{
    let u = c as u32;
    if u < 0x80 {
        1
    } else if u < 0x800 {
        2
    } else if u < 0x10000 {
        3
    } else {
        4
    }
}

proof fn lemma_byte_len_take(s: Seq<char>, i: int)
    requires
        0 <= i < s.len(),
    ensures
        byte_len(s.take(i + 1)) == byte_len(s.take(i)) + utf8_len(s[i]),
{
    assert(s.take(i + 1).drop_last() =~= s.take(i));
}

proof fn lemma_chars_in_bytes(s: Seq<char>, i: int, bytes: nat)
    requires
        0 <= i <= s.len(),
        byte_len(s.take(i)) <= bytes,
    ensures
        chars_in_bytes(s, bytes) == match chars_in_bytes(s.skip(i), (bytes - byte_len(s.take(i))) as nat) {
            Some(k) => Some(k + i as nat),
            None => None::<nat>,
        },
    decreases i,
{
    if i > 0 {
        lemma_byte_len_take(s, i - 1);
        lemma_chars_in_bytes(s, i - 1, bytes);
        let rest = s.skip(i - 1);
        let b = (bytes - byte_len(s.take(i - 1))) as nat;
        assert(rest[0] == s[i - 1]);
        assert(rest.drop_first() =~= s.skip(i));
        assert(b > 0 || utf8_len(s[i - 1]) == 0);
    } else {
        assert(s.skip(0) =~= s);
    }
}

proof fn lemma_byte_len_monotone(s: Seq<char>, i: int, j: int)
    requires
        0 <= i <= j <= s.len(),
    ensures
        byte_len(s.take(i)) <= byte_len(s.take(j)),
    decreases j - i,
{
    if i < j {
        lemma_byte_len_take(s, j - 1);
        lemma_byte_len_monotone(s, i, j - 1);
    }
}

/// A reply body on one line, cut for an error message.
pub fn truncate_runtime_body(body: &str) -> (r: String)
    requires
        runtime_body_cuttable(body@),
    ensures
        r@ == truncate_runtime_spec(body@),
{
    let n = chars_of(collapse_ws_str(body).as_str());
    let mut total: usize = 0;
    let mut i: usize = 0;
    let mut cut: Option<usize> = None;
    assert(n@.take(0) =~= Seq::<char>::empty());
    while i < n.len() && total <= 240
        invariant
            i <= n@.len(),
            total == byte_len(n@.take(i as int)),
            total <= 244,
            cut matches Some(k) ==> k <= i && byte_len(n@.take(k as int)) == 240,
            cut is None ==> forall|j: int| 0 <= j <= i ==> byte_len(#[trigger] n@.take(j)) != 240,
        decreases n@.len() - i,
    {
        proof {
            lemma_byte_len_take(n@, i as int);
        }
        total = total + utf8_len_of(n[i]);
        i = i + 1;
        if total == 240 && cut.is_none() {
            cut = Some(i);
        }
    }
    if i == n.len() && total <= 240 {
        assert(n@.take(n@.len() as int) =~= n@);
        return string_of(&n);
    }
    proof {
        lemma_byte_len_monotone(n@, i as int, n@.len() as int);
        assert(n@.take(n@.len() as int) =~= n@);
    }
    let k = match cut {
        Some(k) => k,
        None => {
            proof {
                assert forall|j: int| 0 <= j <= n@.len() implies byte_len(#[trigger] n@.take(j)) != 240 by {
                    if j > i {
                        lemma_byte_len_monotone(n@, i as int, j);
                    }
                }
                lemma_chars_in_bytes_none(n@, 240);
            }
            0
        },
    };
    proof {
        lemma_chars_in_bytes(n@, k as int, 240);
        assert(chars_in_bytes(n@.skip(k as int), 0) == Some(0nat));
    }
    let head = slice_vec(&n, 0, k);
    let mut out = string_of(&head);
    out.append("...");
    out
}

/// Whether a body can be cut for an error message (the condition of
/// `truncate_runtime_body`).
pub fn runtime_body_is_cuttable(body: &str) -> (b: bool)
    ensures
        b == runtime_body_cuttable(body@),
{
    let n = chars_of(collapse_ws_str(body).as_str());
    let mut total: usize = 0;
    let mut i: usize = 0;
    let mut cut: Option<usize> = None;
    assert(n@.take(0) =~= Seq::<char>::empty());
    while i < n.len() && total <= 240
        invariant
            i <= n@.len(),
            total == byte_len(n@.take(i as int)),
            total <= 244,
            cut matches Some(k) ==> k <= i && byte_len(n@.take(k as int)) == 240,
            cut is None ==> forall|j: int| 0 <= j <= i ==> byte_len(#[trigger] n@.take(j)) != 240,
        decreases n@.len() - i,
    {
        proof {
            lemma_byte_len_take(n@, i as int);
        }
        total = total + utf8_len_of(n[i]);
        i = i + 1;
        if total == 240 && cut.is_none() {
            cut = Some(i);
        }
    }
    if i == n.len() && total <= 240 {
        assert(n@.take(n@.len() as int) =~= n@);
        return true;
    }
    proof {
        lemma_byte_len_monotone(n@, i as int, n@.len() as int);
        assert(n@.take(n@.len() as int) =~= n@);
    }
    match cut {
        Some(k) => {
            proof {
                lemma_chars_in_bytes(n@, k as int, 240);
                assert(chars_in_bytes(n@.skip(k as int), 0) == Some(0nat));
            }
            true
        },
        None => {
            proof {
                assert forall|j: int| 0 <= j <= n@.len() implies byte_len(#[trigger] n@.take(j)) != 240 by {
                    if j > i {
                        lemma_byte_len_monotone(n@, i as int, j);
                    }
                }
                lemma_chars_in_bytes_none(n@, 240);
            }
            false
        },
    }
}

proof fn lemma_chars_in_bytes_none(s: Seq<char>, bytes: nat)
    requires
        forall|j: int| 0 <= j <= s.len() ==> byte_len(#[trigger] s.take(j)) != bytes,
    ensures
        chars_in_bytes(s, bytes) is None,
    decreases s.len(),
{
    assert(s.take(0) =~= Seq::<char>::empty());
    if bytes > 0 && s.len() > 0 && utf8_len(s[0]) <= bytes {
        let r = s.drop_first();
        let b = (bytes - utf8_len(s[0])) as nat;
        assert forall|j: int| 0 <= j <= r.len() implies byte_len(#[trigger] r.take(j)) != b by {
            lemma_byte_len_prefix_shift(s, j);
            assert(byte_len(s.take(j + 1)) != bytes);
        }
        lemma_chars_in_bytes_none(r, b);
    }
}

proof fn lemma_byte_len_prefix_shift(s: Seq<char>, j: int)
    requires
        0 < s.len(),
        0 <= j <= s.len() - 1,
    ensures
        byte_len(s.take(j + 1)) == utf8_len(s[0]) + byte_len(s.drop_first().take(j)),
    decreases j,
{
    if j == 0 {
        assert(s.take(1).drop_last() =~= Seq::<char>::empty());
        assert(s.drop_first().take(0) =~= Seq::<char>::empty());
    } else {
        lemma_byte_len_prefix_shift(s, j - 1);
        assert(s.take(j + 1).drop_last() =~= s.take(j));
        assert(s.drop_first().take(j).drop_last() =~= s.drop_first().take(j - 1));
        assert(s.take(j + 1).last() == s.drop_first().take(j).last());
    }
}

/// `s` without its trailing carriage returns and line feeds.
pub open spec fn trim_end_newlines(s: Seq<char>) -> Seq<char>
    decreases s.len(),
{
    if s.len() > 0 && (s.last() == '\r' || s.last() == '\n') {
        trim_end_newlines(s.drop_last())
    } else {
        s
    }
}

/// `split_curl_response`: curl's output is the body, a line feed and the
/// HTTP status code. `None` when there is no line feed; `Some((body, None))`
/// when the status is not a number.
pub open spec fn split_curl_spec(stdout: Seq<char>) -> Option<(Seq<char>, Option<u16>)> {
    let t = trim_end_newlines(stdout);
    let i = after_last(t, '\n');
    if i == 0 {
        None
    } else {
        Some((t.take(i - 1), parse_u16_spec(trim(t.skip(i)))))
    }
}

/// Splits curl's output into the body and the HTTP status.
pub fn split_curl_response(stdout: &str) -> (r: Result<(String, u16), AppError>)
    ensures
        match r {
            Ok((body, code)) => split_curl_spec(stdout@) == Some((body@, Some(code))),
            Err(e) => e.kind() == ErrorKind::UpstreamUnavailable && match split_curl_spec(stdout@) {
                None => e.msg() == "curl response missing HTTP status marker"@,
                Some((_, None)) => crate::text::starts_with(
                    e.msg(),
                    "invalid HTTP status marker from curl: "@,
                ),
                Some((_, Some(_))) => false,
            },
        },
{
    let v = chars_of(stdout);
    let mut end = v.len();
    assert(v@.take(v@.len() as int) =~= v@);
    while end > 0 && (v[end - 1] == '\r' || v[end - 1] == '\n')
        invariant
            end <= v@.len(),
            trim_end_newlines(v@) == trim_end_newlines(v@.take(end as int)),
        decreases end,
    {
        proof {
            assert(v@.take(end as int).last() == v@[end - 1]);
            assert(v@.take(end as int).drop_last() =~= v@.take(end - 1));
        }
        end = end - 1;
    }
    let t = slice_vec(&v, 0, end);
    proof {
        assert(t@ =~= v@.take(end as int));
        if end > 0 {
            assert(t@.last() == v@[end - 1]);
        }
        assert(trim_end_newlines(t@) == t@);
    }
    let i = after_last_vec(&t, '\n');
    proof {
        lemma_after_last(t@, '\n');
    }
    if i == 0 {
        return Err(upstream("curl response missing HTTP status marker"));
    }
    let body = string_of(&slice_vec(&t, 0, i - 1));
    let status_text = trim_str(string_of(&slice_vec(&t, i, t.len())).as_str());
    proof {
        assert(t@.subrange(0, i - 1) =~= t@.take(i - 1));
        assert(t@.subrange(i as int, t@.len() as int) =~= t@.skip(i as int));
    }
    match parse_u16(status_text.as_str()) {
        Ok(code) => Ok((body, code)),
        Err(m) => {
            let msg = cat("invalid HTTP status marker from curl: ", m.as_str());
            proof {
                assert(msg@.take("invalid HTTP status marker from curl: "@.len() as int)
                    =~= "invalid HTTP status marker from curl: "@);
            }
            Err(AppError::UpstreamUnavailable(msg))
        },
    }
}

/// The error for a reply whose HTTP status is not a success.
pub open spec fn http_status_error(code: u16, body: Seq<char>) -> Seq<char> {
    "model endpoint returned HTTP "@ + decimal(code as nat) + ": "@ + truncate_runtime_spec(body)
}

/// The status check made on a model endpoint's reply: only a 2xx status is
/// a success.
pub fn check_http_status(code: u16, body: &str) -> (r: Result<(), AppError>)
    requires
        !(200 <= code && code < 300) ==> runtime_body_cuttable(body@),
    ensures
        r is Ok <==> (200 <= code && code < 300),
        r matches Err(e) ==> e.is(ErrorKind::UpstreamUnavailable, http_status_error(code, body@)),
{
    if 200 <= code && code < 300 {
        return Ok(());
    }
    let mut msg = owned("model endpoint returned HTTP ");
    msg.append(u16_text(code).as_str());
    msg.append(": ");
    msg.append(truncate_runtime_body(body).as_str());
    Err(AppError::UpstreamUnavailable(msg))
}

// ---------------------------------------------------------------------------
// Replies
// ---------------------------------------------------------------------------

/// The message of one choice of a chat completion.
pub struct ChatMessage {
    pub content: Option<String>,
}

/// One choice of a chat completion.
pub struct ChatChoice {
    pub message: ChatMessage,
}

/// Token counts of a chat completion.
pub struct ChatUsage {
    pub prompt_tokens: i64,
    pub completion_tokens: i64,
    pub total_tokens: i64,
}

/// A chat completion reply.
pub struct ChatCompletionResponse {
    pub choices: Vec<ChatChoice>,
    pub usage: Option<ChatUsage>,
}

/// One content part of a responses-API output item.
pub struct ResponsesContentItem {
    pub item_type: Option<String>,
    pub text: Option<String>,
}

/// One output item of a responses-API reply.
pub struct ResponsesOutputItem {
    pub item_type: Option<String>,
    pub content: Option<Vec<ResponsesContentItem>>,
}

/// Token counts of a responses-API reply.
pub struct ResponsesUsage {
    pub input_tokens: Option<i64>,
    pub output_tokens: Option<i64>,
    pub total_tokens: Option<i64>,
}

/// A responses-API reply.
pub struct ResponsesApiResponse {
    pub output: Option<Vec<ResponsesOutputItem>>,
    pub output_text: Option<String>,
    pub usage: Option<ResponsesUsage>,
}

/// The trimmed text of a part, if it is non-blank output text.
pub open spec fn part_text(p: ResponsesContentItem) -> Option<Seq<char>> {
    match p.text {
        Some(t) => if opt_view(p.item_type) == Some("output_text"@) && !is_blank(t@) {
            Some(trim(t@))
        } else {
            None
        },
        None => None,
    }
}

pub open spec fn first_part_text(ps: Seq<ResponsesContentItem>) -> Option<Seq<char>>
    decreases ps.len(),
{
    if ps.len() == 0 {
        None
    } else {
        match part_text(ps[0]) {
            Some(t) => Some(t),
            None => first_part_text(ps.drop_first()),
        }
    }
}

/// The text of a message item.
pub open spec fn item_text(i: ResponsesOutputItem) -> Option<Seq<char>> {
    if opt_view(i.item_type) == Some("message"@) {
        match i.content {
            Some(ps) => first_part_text(ps@),
            None => None,
        }
    } else {
        None
    }
}

pub open spec fn first_item_text(items: Seq<ResponsesOutputItem>) -> Option<Seq<char>>
    decreases items.len(),
{
    if items.len() == 0 {
        None
    } else {
        match item_text(items[0]) {
            Some(t) => Some(t),
            None => first_item_text(items.drop_first()),
        }
    }
}

/// `extract_responses_text`: the first non-blank output text of a message
/// item, else the reply's own non-blank `output_text`, trimmed.
pub open spec fn responses_text_spec(r: ResponsesApiResponse) -> Option<Seq<char>> {
    let from_items = match r.output {
        Some(items) => first_item_text(items@),
        None => None,
    };
    match from_items {
        Some(t) => Some(t),
        None => match r.output_text {
            Some(t) => if is_blank(t@) {
                None
            } else {
                Some(trim(t@))
            },
            None => None,
        },
    }
}

fn opt_is(o: &Option<String>, lit: &str) -> (b: bool)
    ensures
        b == (opt_view(*o) == Some(lit@)),
{
    match o {
        Some(s) => str_eq(s.as_str(), lit),
        None => false,
    }
}

fn first_part_text_exec(ps: &Vec<ResponsesContentItem>) -> (r: Option<String>)
    ensures
        opt_view(r) == first_part_text(ps@),
{
    let mut i: usize = 0;
    assert(ps@.skip(0) =~= ps@);
    while i < ps.len()
        invariant
            i <= ps@.len(),
            first_part_text(ps@) == first_part_text(ps@.skip(i as int)),
        decreases ps@.len() - i,
    {
        proof {
            assert(ps@.skip(i as int)[0] == ps@[i as int]);
            assert(ps@.skip(i as int).drop_first() =~= ps@.skip(i + 1));
        }
        let p = &ps[i];
        if opt_is(&p.item_type, "output_text") {
            match &p.text {
                Some(t) => if !is_blank_str(t.as_str()) {
                    return Some(trim_str(t.as_str()));
                },
                None => {},
            }
        }
        i = i + 1;
    }
    None
}

fn first_item_text_exec(items: &Vec<ResponsesOutputItem>) -> (r: Option<String>)
    ensures
        opt_view(r) == first_item_text(items@),
{
    let mut i: usize = 0;
    assert(items@.skip(0) =~= items@);
    while i < items.len()
        invariant
            i <= items@.len(),
            first_item_text(items@) == first_item_text(items@.skip(i as int)),
        decreases items@.len() - i,
    {
        proof {
            assert(items@.skip(i as int)[0] == items@[i as int]);
            assert(items@.skip(i as int).drop_first() =~= items@.skip(i + 1));
        }
        let it = &items[i];
        if opt_is(&it.item_type, "message") {
            match &it.content {
                Some(ps) => match first_part_text_exec(ps) {
                    Some(t) => {
                        return Some(t);
                    },
                    None => {},
                },
                None => {},
            }
        }
        i = i + 1;
    }
    None
}

/// The text of a responses-API reply, if it holds one.
pub fn responses_text_of(response: &ResponsesApiResponse) -> (r: Option<String>)
    ensures
        opt_view(r) == responses_text_spec(*response),
{
    match &response.output {
        Some(items) => match first_item_text_exec(items) {
            Some(t) => {
                return Some(t);
            },
            None => {},
        },
        None => {},
    }
    match &response.output_text {
        Some(t) => if !is_blank_str(t.as_str()) {
            return Some(trim_str(t.as_str()));
        },
        None => {},
    }
    None
}

/// The text of a responses-API reply.
pub fn extract_responses_text(response: &ResponsesApiResponse, raw_body: &str) -> (r: Result<
    String,
    AppError,
>)
    requires
        responses_text_spec(*response) is None ==> runtime_body_cuttable(raw_body@),
    ensures
        match r {
            Ok(t) => responses_text_spec(*response) == Some(t@),
            Err(e) => responses_text_spec(*response) is None && e.is(
                ErrorKind::UpstreamUnavailable,
                "responses endpoint payload did not contain output text: "@ + truncate_runtime_spec(
                    raw_body@,
                ),
            ),
        },
{
    match responses_text_of(response) {
        Some(t) => {
            return Ok(t);
        },
        None => {},
    }
    let msg = cat(
        "responses endpoint payload did not contain output text: ",
        truncate_runtime_body(raw_body).as_str(),
    );
    Err(AppError::UpstreamUnavailable(msg))
}

/// `completion_content`: the content of the first choice.
pub fn completion_content(completion: &ChatCompletionResponse) -> (r: Result<String, AppError>)
    ensures
        match r {
            Ok(c) => completion.choices@.len() > 0 && completion.choices@[0].message.content
                == Some(c),
            Err(e) => (completion.choices@.len() == 0 || completion.choices@[0].message.content is None)
                && e.is(
                ErrorKind::UpstreamUnavailable,
                "model response did not contain message content"@,
            ),
        },
{
    if completion.choices.len() > 0 {
        match &completion.choices[0].message.content {
            Some(c) => {
                return Ok(c.clone());
            },
            None => {},
        }
    }
    Err(upstream("model response did not contain message content"))
}

pub open spec fn usage_sum_fits(a: ChatUsage, b: ChatUsage) -> bool {
    i64::MIN <= a.prompt_tokens + b.prompt_tokens <= i64::MAX && i64::MIN <= a.completion_tokens
        + b.completion_tokens <= i64::MAX && i64::MIN <= a.total_tokens + b.total_tokens <= i64::MAX
}

/// `merge_usage`: the second reply's choices, with the token counts of both
/// replies added up (where only one has counts, those are kept).
pub fn merge_usage(first: ChatCompletionResponse, second: ChatCompletionResponse) -> (r:
    ChatCompletionResponse)
    requires
        first.usage matches Some(a) && second.usage matches Some(b) ==> usage_sum_fits(a, b),
    ensures
        r.choices == second.choices,
        r.usage == match (first.usage, second.usage) {
            (Some(a), Some(b)) => Some(
                ChatUsage {
                    prompt_tokens: (a.prompt_tokens + b.prompt_tokens) as i64,
                    completion_tokens: (a.completion_tokens + b.completion_tokens) as i64,
                    total_tokens: (a.total_tokens + b.total_tokens) as i64,
                },
            ),
            (Some(a), None) => Some(a),
            (None, Some(b)) => Some(b),
            (None, None) => None,
        },
{
    let usage = match (first.usage, second.usage) {
        (Some(left), Some(right)) => Some(
            ChatUsage {
                prompt_tokens: left.prompt_tokens + right.prompt_tokens,
                completion_tokens: left.completion_tokens + right.completion_tokens,
                total_tokens: left.total_tokens + right.total_tokens,
            },
        ),
        (Some(usage), None) => Some(usage),
        (None, Some(usage)) => Some(usage),
        (None, None) => None,
    };
    ChatCompletionResponse { choices: second.choices, usage }
}

pub open spec fn or_zero(o: Option<i64>) -> int {
    match o {
        Some(v) => v as int,
        None => 0,
    }
}

/// The responses-API token counts fit a chat usage record.
pub open spec fn responses_usage_fits(u: Option<ResponsesUsage>) -> bool {
    match u {
        Some(x) => x.total_tokens is None ==> i64::MIN <= or_zero(x.input_tokens) + or_zero(
            x.output_tokens,
        ) <= i64::MAX,
        None => true,
    }
}

/// The chat completion a responses-API reply stands for, once the reply is
/// parsed: one choice holding the reply's text, and its token counts under
/// the chat names.
pub fn responses_to_chat(parsed: ResponsesApiResponse, raw_body: &str) -> (r: Result<
    ChatCompletionResponse,
    AppError,
>)
    requires
        responses_text_spec(parsed) is None ==> runtime_body_cuttable(raw_body@),
        responses_usage_fits(parsed.usage),
    ensures
        match r {
            Ok(c) => responses_text_spec(parsed) matches Some(t) && c.choices@.len() == 1
                && opt_view(c.choices@[0].message.content) == Some(t) && c.usage == match parsed.usage {
                Some(u) => Some(
                    ChatUsage {
                        prompt_tokens: or_zero(u.input_tokens) as i64,
                        completion_tokens: or_zero(u.output_tokens) as i64,
                        total_tokens: match u.total_tokens {
                            Some(t) => t,
                            None => (or_zero(u.input_tokens) + or_zero(u.output_tokens)) as i64,
                        },
                    },
                ),
                None => None,
            },
            Err(e) => responses_text_spec(parsed) is None && e.kind()
                == ErrorKind::UpstreamUnavailable,
        },
{
    let content = match extract_responses_text(&parsed, raw_body) {
        Ok(c) => c,
        Err(e) => {
            return Err(e);
        },
    };
    let usage = match parsed.usage {
        Some(u) => {
            let input = match u.input_tokens {
                Some(v) => v,
                None => 0,
            };
            let output = match u.output_tokens {
                Some(v) => v,
                None => 0,
            };
            let total = match u.total_tokens {
                Some(t) => t,
                None => input + output,
            };
            Some(ChatUsage { prompt_tokens: input, completion_tokens: output, total_tokens: total })
        },
        None => None,
    };
    let mut choices: Vec<ChatChoice> = Vec::new();
    choices.push(ChatChoice { message: ChatMessage { content: Some(content) } });
    Ok(ChatCompletionResponse { choices, usage })
}

// ---------------------------------------------------------------------------
// Requests
// ---------------------------------------------------------------------------

/// `build_request_payload`: the JSON body sent to the endpoint.
pub open spec fn payload_spec(model: Seq<char>, prompt: Seq<char>, api_type: Seq<char>, temperature: Json) -> Json {
    if api_type == "responses"@ {
        Json::Obj(
            seq![("model"@, Json::Str(model)), ("input"@, Json::Str(prompt)), ("temperature"@, temperature)],
        )
    } else {
        Json::Obj(
            seq![
                ("model"@, Json::Str(model)),
                ("messages"@, Json::Arr(
                    seq![Json::Obj(seq![("role"@, Json::Str("user"@)), ("content"@, Json::Str(prompt))])],
                )),
                ("temperature"@, temperature),
            ],
        )
    }
}

/// The JSON body of a model request.
pub fn build_request_payload(model_name: &str, prompt: &str, api_type: &str, temperature: JsonNumber) -> (r:
    JsonValue)
    ensures
        r.model() == payload_spec(model_name@, prompt@, api_type@, JsonValue::Number(temperature).model()),
{
    let ghost tm = JsonValue::Number(temperature).model();
    let mut ms: Vec<JsonMember> = Vec::new();
    ms.push(JsonMember { key: owned("model"), value: JsonValue::Str(owned(model_name)) });
    if str_eq(api_type, "responses") {
        ms.push(JsonMember { key: owned("input"), value: JsonValue::Str(owned(prompt)) });
    } else {
        let mut msg: Vec<JsonMember> = Vec::new();
        msg.push(JsonMember { key: owned("role"), value: JsonValue::Str(owned("user")) });
        msg.push(JsonMember { key: owned("content"), value: JsonValue::Str(owned(prompt)) });
        proof {
            lemma_object_model(msg);
            assert(members_model(msg@) =~= seq![("role"@, Json::Str("user"@)), ("content"@, Json::Str(prompt@))]);
        }
        let mut arr: Vec<JsonValue> = Vec::new();
        arr.push(JsonValue::Object(msg));
        proof {
            lemma_array_model(arr);
            assert(seq_model(arr@) =~= seq![Json::Obj(seq![("role"@, Json::Str("user"@)), ("content"@, Json::Str(prompt@))])]);
        }
        ms.push(JsonMember { key: owned("messages"), value: JsonValue::Array(arr) });
    }
    ms.push(JsonMember { key: owned("temperature"), value: JsonValue::Number(temperature) });
    proof {
        lemma_object_model(ms);
        assert(members_model(ms@) =~= payload_spec(model_name@, prompt@, api_type@, tm)->Obj_0);
    }
    JsonValue::Object(ms)
}

/// A request ready to be sent to a model endpoint.
pub struct ModelRequest {
    pub endpoint: String,
    pub api_key: String,
    pub api_type: String,
    pub payload: JsonValue,
}

/// The key of a configuration, when one is stored that holds more than
/// whitespace.
pub open spec fn usable_key(c: StoredModelConfig) -> Option<Seq<char>> {
    match c.api_key {
        Some(k) => if is_blank(k@) {
            None
        } else {
            Some(k@)
        },
        None => None,
    }
}

/// The prompt as sent for an agent run.
pub open spec fn wrapped_prompt(agent_type: Seq<char>, prompt: Seq<char>) -> Seq<char> {
    "Return strict JSON only. Do not use markdown fences. Current agent: "@ + agent_type + ".\n\n"@
        + prompt
}

/// The request a configuration yields for a prompt; `None` without a key.
pub open spec fn request_spec(c: StoredModelConfig, prompt: Seq<char>, temperature: Json) -> Option<
    (Seq<char>, Seq<char>, Seq<char>, Json),
> {
    match usable_key(c) {
        None => None,
        Some(k) => {
            let t = api_type_spec(opt_view(c.api_type), c.base_url@);
            Some((endpoint_spec(c.base_url@, t), k, t, payload_spec(c.model_name@, prompt, t, temperature)))
        },
    }
}

/// The stored key, if it holds more than whitespace.
fn usable_key_exec(c: &StoredModelConfig) -> (r: Result<String, AppError>)
    ensures
        match r {
            Ok(k) => usable_key(*c) == Some(k@),
            Err(e) => usable_key(*c) is None && e.is(
                ErrorKind::Validation,
                "selected model config has no API key stored in keyring"@,
            ),
        },
{
    match &c.api_key {
        Some(k) => if !is_blank_str(k.as_str()) {
            return Ok(k.clone());
        },
        None => {},
    }
    Err(validation("selected model config has no API key stored in keyring"))
}

fn prepare_request(config: &StoredModelConfig, prompt: &str, temperature: JsonNumber) -> (r: Result<
    ModelRequest,
    AppError,
>)
    ensures
        match r {
            Ok(q) => request_spec(*config, prompt@, JsonValue::Number(temperature).model()) == Some(
                (q.endpoint@, q.api_key@, q.api_type@, q.payload.model()),
            ),
            Err(e) => request_spec(*config, prompt@, JsonValue::Number(temperature).model()) is None
                && e.is(ErrorKind::Validation, "selected model config has no API key stored in keyring"@),
        },
{
    let api_key = match usable_key_exec(config) {
        Ok(k) => k,
        Err(e) => {
            return Err(e);
        },
    };
    let api_type = match &config.api_type {
        Some(a) => normalize_api_type(Some(a.as_str()), config.base_url.as_str()),
        None => normalize_api_type(None, config.base_url.as_str()),
    };
    let endpoint = build_endpoint(config.base_url.as_str(), api_type.as_str());
    let payload = build_request_payload(config.model_name.as_str(), prompt, api_type.as_str(), temperature);
    Ok(ModelRequest { endpoint, api_key, api_type, payload })
}

/// The request for an agent run, before it is sent: the prompt is prefixed
/// with the strict-JSON instruction and sent at
/// temperature 0.7.
pub fn prepare_model_request(config: &StoredModelConfig, agent_type: &str, prompt: &str) -> (r: Result<
    ModelRequest,
    AppError,
>)
    ensures
        match r {
            Ok(q) => request_spec(
                *config,
                wrapped_prompt(agent_type@, prompt@),
                Json::OtherNum("0.7"@),
            ) == Some((q.endpoint@, q.api_key@, q.api_type@, q.payload.model())),
            Err(e) => usable_key(*config) is None && e.is(
                ErrorKind::Validation,
                "selected model config has no API key stored in keyring"@,
            ),
        },
{
    let mut text = owned("Return strict JSON only. Do not use markdown fences. Current agent: ");
    text.append(agent_type);
    text.append(".\n\n");
    text.append(prompt);
    prepare_request(config, text.as_str(), JsonNumber::Other(owned("0.7")))
}

/// The request for probing an endpoint, before it is sent: the prompt as
/// given, at temperature 0.0.
pub fn prepare_probe_request(config: &StoredModelConfig, prompt: &str) -> (r: Result<ModelRequest, AppError>)
    ensures
        match r {
            Ok(q) => request_spec(*config, prompt@, Json::OtherNum("0.0"@)) == Some(
                (q.endpoint@, q.api_key@, q.api_type@, q.payload.model()),
            ),
            Err(e) => usable_key(*config) is None && e.is(
                ErrorKind::Validation,
                "selected model config has no API key stored in keyring"@,
            ),
        },
{
    prepare_request(config, prompt, JsonNumber::Other(owned("0.0")))
}

/// The outcome of a successful endpoint probe.
pub struct ModelEndpointProbeResult {
    pub api_type: String,
    pub endpoint: String,
    pub status_code: u16,
    pub api_label: String,
}

/// The probe result for a request that succeeded with a status code.
pub fn probe_result(request: ModelRequest, status_code: u16) -> (r: ModelEndpointProbeResult)
    ensures
        r.api_type@ == request.api_type@,
        r.endpoint@ == request.endpoint@,
        r.status_code == status_code,
        r.api_label@ == api_label_spec(request.api_type@),
{
    let label = api_label(request.api_type.as_str());
    ModelEndpointProbeResult {
        api_type: request.api_type,
        endpoint: request.endpoint,
        status_code,
        api_label: label,
    }
}

/// The check made before an agent runs (`execute_agent`): only
/// OpenAI-compatible providers are supported.
pub fn check_runtime_provider(config: &StoredModelConfig) -> (r: Result<(), AppError>)
    ensures
        r is Ok <==> config.provider@ == "openai_compatible"@,
        r matches Err(e) ==> e.is(ErrorKind::Validation, "runtime only supports openai_compatible models"@),
{
    if str_eq(config.provider.as_str(), "openai_compatible") {
        Ok(())
    } else {
        Err(validation("runtime only supports openai_compatible models"))
    }
}

/// The token usage recorded for a run (`execute_agent`).
pub open spec fn token_usage_spec(u: Option<ChatUsage>) -> Option<Json> {
    match u {
        Some(x) => Some(
            Json::Obj(
                seq![
                    ("promptTokens"@, Json::Int(x.prompt_tokens)),
                    ("completionTokens"@, Json::Int(x.completion_tokens)),
                    ("totalTokens"@, Json::Int(x.total_tokens)),
                ],
            ),
        ),
        None => None,
    }
}

/// The token usage recorded for a run.
pub fn token_usage_json(usage: &Option<ChatUsage>) -> (r: Option<JsonValue>)
    ensures
        match r {
            Some(j) => token_usage_spec(*usage) == Some(j.model()),
            None => usage is None,
        },
{
    match usage {
        Some(u) => {
            let mut ms: Vec<JsonMember> = Vec::new();
            ms.push(JsonMember { key: owned("promptTokens"), value: JsonValue::Number(JsonNumber::Int(u.prompt_tokens)) });
            ms.push(JsonMember { key: owned("completionTokens"), value: JsonValue::Number(JsonNumber::Int(u.completion_tokens)) });
            ms.push(JsonMember { key: owned("totalTokens"), value: JsonValue::Number(JsonNumber::Int(u.total_tokens)) });
            proof {
                lemma_object_model(ms);
                assert(members_model(ms@) =~= token_usage_spec(*usage)->Some_0->Obj_0);
            }
            Some(JsonValue::Object(ms))
        },
        None => None,
    }
}

/// A connection test request.
pub struct TestModelConnectionRequest {
    pub provider: String,
    pub base_url: String,
    pub model_name: String,
    pub api_key: String,
    pub api_type: Option<String>,
    pub image_input_format: Option<String>,
}

/// The configuration a connection test probes (`test_model_connection`).
pub fn connection_test_config(request: &TestModelConnectionRequest) -> (r: Result<StoredModelConfig, AppError>)
    ensures
        match r {
            Ok(c) => trim(request.provider@) == "openai_compatible"@ && !is_blank(request.api_key@)
                && c.id@ == "test-connection"@ && c.provider@ == request.provider@ && c.base_url@
                == request.base_url@ && c.model_name@ == request.model_name@ && c.api_type
                == request.api_type && c.agent_type is None && !c.is_default && opt_view(c.api_key)
                == Some(request.api_key@),
            Err(e) => e.kind() == ErrorKind::Validation && if trim(request.provider@)
                != "openai_compatible"@ {
                e.msg() == "only openai_compatible provider is supported in this scaffold"@
            } else {
                is_blank(request.api_key@) && e.msg() == "apiKey is required for connection test"@
            },
        },
{
    let provider = trim_str(request.provider.as_str());
    if !str_eq(provider.as_str(), "openai_compatible") {
        return Err(validation("only openai_compatible provider is supported in this scaffold"));
    }
    if is_blank_str(request.api_key.as_str()) {
        return Err(validation("apiKey is required for connection test"));
    }
    Ok(
        StoredModelConfig {
            id: owned("test-connection"),
            provider: request.provider.clone(),
            base_url: request.base_url.clone(),
            model_name: request.model_name.clone(),
            api_type: crate::workflow::clone_opt(&request.api_type),
            image_input_format: crate::workflow::clone_opt(&request.image_input_format),
            agent_type: None,
            is_default: false,
            api_key: Some(request.api_key.clone()),
        },
    )
}

/// The reply to a successful connection test.
pub struct TestModelConnectionResponse {
    pub connected: bool,
    pub latency_ms: u128,
    pub model_identity: String,
    pub api_type: String,
    pub endpoint: String,
    pub status_code: Option<u16>,
    pub status_text: String,
    pub image_input_supported: bool,
    pub image_input_message: String,
    pub image_input_working_format: Option<String>,
    pub image_probe_attempted_formats: Vec<String>,
}

/// The reply to a successful connection test, given the probe's outcome and
/// the time it took.
pub fn connection_test_response(
    request: &TestModelConnectionRequest,
    probe: ModelEndpointProbeResult,
    latency_ms: u128,
) -> (r: TestModelConnectionResponse)
    ensures
        r.connected,
        r.latency_ms == latency_ms,
        r.model_identity@ == request.provider@ + ":"@ + request.model_name@,
        r.api_type@ == probe.api_type@,
        r.endpoint@ == probe.endpoint@,
        r.status_code == Some(probe.status_code),
        r.status_text@ == probe.api_label@ + " request succeeded"@,
        !r.image_input_supported,
        r.image_input_message@ == Seq::<char>::empty(),
        r.image_input_working_format is None,
        r.image_probe_attempted_formats@.len() == 0,
{
    let mut identity = request.provider.clone();
    identity.append(":");
    identity.append(request.model_name.as_str());
    let status_text = cat(probe.api_label.as_str(), " request succeeded");
    TestModelConnectionResponse {
        connected: true,
        latency_ms,
        model_identity: identity,
        api_type: probe.api_type,
        endpoint: probe.endpoint,
        status_code: Some(probe.status_code),
        status_text,
        image_input_supported: false,
        image_input_message: String::new(),
        image_input_working_format: None,
        image_probe_attempted_formats: Vec::new(),
    }
}

// ---------------------------------------------------------------------------
// Laws
// ---------------------------------------------------------------------------

proof fn lemma_decimal_digits(n: nat)
    ensures
        decimal(n).len() > 0,
        crate::text::all_digits(decimal(n)),
        digits_value(decimal(n)) == n,
    decreases n,
{
    assert((digit_char(n % 10) as int) == (n % 10) + 48);
    assert(n == (n / 10) * 10 + n % 10);
    if n >= 10 {
        lemma_decimal_digits(n / 10);
        let d = decimal(n / 10);
        assert(decimal(n).drop_last() =~= d);
        assert(decimal(n).last() == digit_char(n % 10));
        assert(digits_value(decimal(n)) == digits_value(d) * 10 + ((decimal(n).last() as int - 48) as nat));
        assert(digits_value(decimal(n)) == (n / 10) * 10 + n % 10);
        assert forall|i: int| 0 <= i < decimal(n).len() implies crate::text::is_digit(#[trigger] decimal(n)[i]) by {
            if i < d.len() {
                assert(decimal(n)[i] == d[i]);
            }
        }
    } else {
        assert(seq![digit_char(n)].drop_last() =~= Seq::<char>::empty());
        assert(n % 10 == n);
        assert(decimal(n) == seq![digit_char(n)]);
        assert(digits_value(decimal(n)) == digits_value(Seq::<char>::empty()) * 10 + ((digit_char(n) as int - 48) as nat));
    }
}

proof fn lemma_trim_digits(s: Seq<char>)
    requires
        crate::text::all_digits(s),
    ensures
        trim(s) == s,
{
    crate::text::lemma_trim_start_suffix(s);
    if s.len() > 0 {
        assert(!crate::text::is_ws(s[0]));
        assert(crate::text::trim_start(s) == s);
        assert(!crate::text::is_ws(s.last()));
    } else {
        assert(crate::text::trim_start(s) == s);
    }
}

/// Curl is asked to print the body, a line feed and the status code; reading
/// that output back gives the body and the status code again.
pub proof fn law_split_curl_roundtrip(body: Seq<char>, code: u16)
    ensures
        split_curl_spec(body + "\n"@ + decimal(code as nat)) == Some((body, Some(code))),
{
    reveal_strlit("\n");
    lemma_decimal_digits(code as nat);
    let d = decimal(code as nat);
    let s = body + "\n"@ + d;
    assert(s.last() == d.last());
    assert(trim_end_newlines(s) == s);
    assert(s[body.len() as int] == '\n');
    assert forall|j: int| body.len() + 1 <= j < s.len() implies s[j] != '\n' by {
        assert(s[j] == d[j - body.len() - 1]);
    }
    lemma_after_last(s, '\n');
    let i = after_last(s, '\n');
    if i > body.len() + 1 {
        assert(s[i - 1] == d[i - 1 - body.len() - 1]);
    }
    assert(i == body.len() + 1);
    assert(s.take(i - 1) =~= body);
    assert(s.skip(i) =~= d);
    lemma_trim_digits(d);
    assert(parse_u16_spec(d) == Some(code)) by {
        assert(d[0] != '+');
    }
}

/// The API flavour is always one of the two the runtime speaks.
pub proof fn law_api_type_is_known(api_type: Option<Seq<char>>, base_url: Seq<char>)
    ensures
        api_type_spec(api_type, base_url) == "responses"@ || api_type_spec(api_type, base_url)
            == "chat_completions"@,
{
}

} // verus!
