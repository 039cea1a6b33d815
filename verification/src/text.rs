//! Character-level text helpers: whitespace, trimming, truncation, prefixes
//! and suffixes, all over `Seq<char>` models of strings.
use vstd::prelude::*;
use vstd::string::*;

verus! {

broadcast use vstd::string::group_string_axioms;

/// The Unicode `White_Space` property, as used by `char::is_whitespace`.
pub open spec fn is_ws(c: char) -> bool {
    let u = c as u32;
    ||| (0x09 <= u && u <= 0x0d)
    ||| u == 0x20
    ||| u == 0x85
    ||| u == 0xa0
    ||| u == 0x1680
    ||| (0x2000 <= u && u <= 0x200a)
    ||| u == 0x2028
    ||| u == 0x2029
    ||| u == 0x202f
    ||| u == 0x205f
    ||| u == 0x3000
}

/// `s` with its leading whitespace removed.
pub open spec fn trim_start(s: Seq<char>) -> Seq<char>
    decreases s.len(),
{
    if s.len() > 0 && is_ws(s[0]) {
        trim_start(s.drop_first())
    } else {
        s
    }
}

/// `s` with its trailing whitespace removed.
pub open spec fn trim_end(s: Seq<char>) -> Seq<char>
    decreases s.len(),
{
    if s.len() > 0 && is_ws(s.last()) {
        trim_end(s.drop_last())
    } else {
        s
    }
}

/// `s` with whitespace removed at both ends (`str::trim`).
pub open spec fn trim(s: Seq<char>) -> Seq<char> {
    trim_end(trim_start(s))
}

/// Every character of `s` is whitespace.
pub open spec fn all_ws(s: Seq<char>) -> bool {
    forall|i: int| 0 <= i < s.len() ==> is_ws(#[trigger] s[i])
}

/// `s` holds nothing once trimmed.
pub open spec fn is_blank(s: Seq<char>) -> bool {
    trim(s).len() == 0
}

/// `p` is a prefix of `s`.
pub open spec fn starts_with(s: Seq<char>, p: Seq<char>) -> bool {
    p.len() <= s.len() && s.take(p.len() as int) == p
}

/// `p` is a suffix of `s`.
pub open spec fn ends_with(s: Seq<char>, p: Seq<char>) -> bool {
    p.len() <= s.len() && s.skip(s.len() - p.len()) == p
}

/// `c` occurs in `s`.
pub open spec fn has_char(s: Seq<char>, c: char) -> bool {
    exists|i: int| 0 <= i < s.len() && s[i] == c
}

/// `s` with every trailing copy of `p` removed (`str::trim_end_matches`).
pub open spec fn trim_end_matches(s: Seq<char>, p: Seq<char>) -> Seq<char>
    decreases s.len(),
{
    if p.len() > 0 && ends_with(s, p) {
        trim_end_matches(s.take(s.len() - p.len()), p)
    } else {
        s
    }
}

/// The ASCII lower-case form of a character.
pub open spec fn lower_char(c: char) -> char {
    if 'A' <= c && c <= 'Z' {
        ((c as u32) + 32) as char
    } else {
        c
    }
}

/// `s` with ASCII letters in lower case (`str::to_ascii_lowercase`).
pub open spec fn ascii_lower(s: Seq<char>) -> Seq<char> {
    s.map_values(|c: char| lower_char(c))
}

/// The first `max` characters of `s` followed by `...` when `s` is longer than
/// `max` (and `max` is not zero); `s` itself otherwise.
pub open spec fn truncate_chars(s: Seq<char>, max: nat) -> Seq<char> {
    if max == 0 || s.len() <= max {
        s
    } else {
        s.take(max as int) + "..."@
    }
}

/// The leading run of non-whitespace characters of `s`.
pub open spec fn leading_word(s: Seq<char>) -> Seq<char>
    decreases s.len(),
{
    if s.len() == 0 || is_ws(s[0]) {
        Seq::empty()
    } else {
        seq![s[0]] + leading_word(s.drop_first())
    }
}

/// The whitespace-separated words of `s` (`str::split_whitespace`).
pub open spec fn words(s: Seq<char>) -> Seq<Seq<char>>
    decreases s.len(),
{
    let t = trim_start(s);
    if t.len() == 0 {
        Seq::empty()
    } else {
        let w = leading_word(t);
        if w.len() == 0 || t.len() > s.len() || w.len() > t.len() {
            Seq::empty()
        } else {
            seq![w] + words(t.skip(w.len() as int))
        }
    }
}

/// The words of a list joined by single spaces.
pub open spec fn join_words(ws: Seq<Seq<char>>) -> Seq<char>
    decreases ws.len(),
{
    if ws.len() == 0 {
        Seq::empty()
    } else if ws.len() == 1 {
        ws[0]
    } else {
        join_words(ws.drop_last()) + " "@ + ws.last()
    }
}

/// `s.split_whitespace().collect::<Vec<_>>().join(" ")`.
pub open spec fn collapse_ws(s: Seq<char>) -> Seq<char> {
    join_words(words(s))
}

pub proof fn lemma_trim_start_suffix(s: Seq<char>)
    ensures
        trim_start(s).len() <= s.len(),
        trim_start(s) == s.skip(s.len() - trim_start(s).len()),
        trim_start(s).len() > 0 ==> !is_ws(trim_start(s)[0]),
        forall|i: int| 0 <= i < s.len() - trim_start(s).len() ==> is_ws(#[trigger] s[i]),
    decreases s.len(),
{
    if s.len() > 0 && is_ws(s[0]) {
        lemma_trim_start_suffix(s.drop_first());
        let t = trim_start(s.drop_first());
        assert(s.drop_first().skip(s.drop_first().len() - t.len()) =~= s.skip(s.len() - t.len()));
        assert forall|i: int| 0 <= i < s.len() - t.len() implies is_ws(#[trigger] s[i]) by {
            if i > 0 {
                assert(s[i] == s.drop_first()[i - 1]);
            }
        }
    } else {
        assert(s.skip(0) =~= s);
    }
}

pub proof fn lemma_trim_end_prefix(s: Seq<char>)
    ensures
        trim_end(s).len() <= s.len(),
        trim_end(s) == s.take(trim_end(s).len() as int),
        trim_end(s).len() > 0 ==> !is_ws(trim_end(s).last()),
        forall|i: int| trim_end(s).len() <= i < s.len() ==> is_ws(#[trigger] s[i]),
    decreases s.len(),
{
    if s.len() > 0 && is_ws(s.last()) {
        lemma_trim_end_prefix(s.drop_last());
        let t = trim_end(s.drop_last());
        assert(s.drop_last().take(t.len() as int) =~= s.take(t.len() as int));
        assert forall|i: int| t.len() <= i < s.len() implies is_ws(#[trigger] s[i]) by {
            if i < s.len() - 1 {
                assert(s[i] == s.drop_last()[i]);
            }
        }
    } else {
        assert(s.take(s.len() as int) =~= s);
    }
}

/// A string is blank exactly when every character of it is whitespace.
pub proof fn lemma_blank_iff_all_ws(s: Seq<char>)
    ensures
        is_blank(s) <==> all_ws(s),
        trim(s).len() > 0 ==> !is_ws(trim(s)[0]) && !is_ws(trim(s).last()),
{
    lemma_trim_start_suffix(s);
    let t = trim_start(s);
    lemma_trim_end_prefix(t);
    if all_ws(s) {
        if t.len() > 0 {
            assert(t[0] == s[s.len() - t.len()]);
        }
    }
    if is_blank(s) {
        assert forall|i: int| 0 <= i < s.len() implies is_ws(#[trigger] s[i]) by {
            if i >= s.len() - t.len() {
                assert(s[i] == t[i - (s.len() - t.len())]);
            }
        }
    }
    if trim(s).len() > 0 {
        assert(trim(s)[0] == t[0]);
    }
}

/// Exec view of a string slice as a vector of characters.
pub fn chars_of(s: &str) -> (v: Vec<char>)
    ensures
        v@ == s@,
{
    let n = s.unicode_len();
    let mut v: Vec<char> = Vec::new();
    let mut i: usize = 0;
    while i < n
        invariant
            n == s@.len(),
            i <= n,
            v@ == s@.take(i as int),
        decreases n - i,
    {
        v.push(s.get_char(i));
        i = i + 1;
        proof {
            assert(v@ =~= s@.take(i as int));
        }
    }
    assert(s@.take(n as int) =~= s@);
    v
}

/// A `String` holding exactly the given characters, built by collecting
/// them (`Iterator::collect` into a `String`). The contract states that the
/// string's characters are the vector's, as the documentation of `String`'s
/// `FromIterator<&char>` gives it.
#[verifier::external_body]
pub(crate) fn string_of(v: &Vec<char>) -> (s: String)
    ensures
        s@ == v@,
{
    v.iter().collect()
}

/// A `String` holding the given literal or slice.
pub fn owned(s: &str) -> (r: String)
    ensures
        r@ == s@,
{
    s.to_string()
}

/// Whether a character is whitespace (`char::is_whitespace`).
pub fn is_ws_char(c: char) -> (b: bool)
    ensures
        b == is_ws(c),
{
    let u = c as u32;
    (0x09 <= u && u <= 0x0d) || u == 0x20 || u == 0x85 || u == 0xa0 || u == 0x1680 || (0x2000
        <= u && u <= 0x200a) || u == 0x2028 || u == 0x2029 || u == 0x202f || u == 0x205f || u
        == 0x3000
}

/// The index range `[start, end)` that `trim` keeps of `v`.
fn trim_bounds(v: &Vec<char>) -> (r: (usize, usize))
    ensures
        r.0 <= r.1 <= v@.len(),
        v@.subrange(r.0 as int, r.1 as int) == trim(v@),
{
    let n = v.len();
    let mut a: usize = 0;
    assert(v@.skip(0) =~= v@);
    while a < n && is_ws_char(v[a])
        invariant
            n == v@.len(),
            a <= n,
            trim_start(v@) == trim_start(v@.skip(a as int)),
        decreases n - a,
    {
        proof {
            assert(v@.skip(a as int).drop_first() =~= v@.skip(a + 1));
        }
        a = a + 1;
    }
    let ghost t = v@.skip(a as int);
    proof {
        if a < n {
            assert(t[0] == v@[a as int]);
        }
        assert(trim_start(t) == t);
    }
    let mut b: usize = n;
    while b > a && is_ws_char(v[b - 1])
        invariant
            n == v@.len(),
            a <= b <= n,
            t == v@.skip(a as int),
            trim_end(t) == trim_end(v@.subrange(a as int, b as int)),
        decreases b - a,
    {
        proof {
            let u = v@.subrange(a as int, b as int);
            assert(u.last() == v@[b - 1]);
            assert(u.drop_last() =~= v@.subrange(a as int, b - 1));
        }
        b = b - 1;
    }
    proof {
        let u = v@.subrange(a as int, b as int);
        if b > a {
            assert(u.last() == v@[b - 1]);
        }
        assert(trim_end(u) == u);
        assert(t =~= v@.subrange(a as int, n as int));
    }
    (a, b)
}

/// `str::trim`, as an owned string.
pub fn trim_str(s: &str) -> (r: String)
    ensures
        r@ == trim(s@),
{
    let v = chars_of(s);
    let (a, b) = trim_bounds(&v);
    let w = slice_vec(&v, a, b);
    string_of(&w)
}

/// Whether `str::trim` leaves nothing of `s`.
pub fn is_blank_str(s: &str) -> (b: bool)
    ensures
        b == is_blank(s@),
{
    let v = chars_of(s);
    let (a, b) = trim_bounds(&v);
    a == b
}

/// A copy of `v[a..b]`.
pub fn slice_vec(v: &Vec<char>, a: usize, b: usize) -> (r: Vec<char>)
    requires
        a <= b <= v@.len(),
    ensures
        r@ == v@.subrange(a as int, b as int),
{
    let mut r: Vec<char> = Vec::new();
    let mut i = a;
    while i < b
        invariant
            a <= i <= b <= v@.len(),
            r@ == v@.subrange(a as int, i as int),
        decreases b - i,
    {
        r.push(v[i]);
        i = i + 1;
        proof {
            assert(r@ =~= v@.subrange(a as int, i as int));
        }
    }
    r
}

/// Whether two character sequences are equal.
pub fn chars_eq(x: &Vec<char>, y: &Vec<char>) -> (b: bool)
    ensures
        b == (x@ == y@),
{
    if x.len() != y.len() {
        return false;
    }
    let mut i: usize = 0;
    while i < x.len()
        invariant
            x@.len() == y@.len(),
            i <= x@.len(),
            forall|j: int| 0 <= j < i ==> x@[j] == y@[j],
        decreases x@.len() - i,
    {
        if x[i] != y[i] {
            return false;
        }
        i = i + 1;
    }
    assert(x@ =~= y@);
    true
}

/// Whether `s` equals the slice `t`.
pub fn str_eq(s: &str, t: &str) -> (b: bool)
    ensures
        b == (s@ == t@),
{
    let x = chars_of(s);
    let y = chars_of(t);
    chars_eq(&x, &y)
}

/// Whether `s` starts with `p` (`str::starts_with`).
pub fn starts_with_vec(s: &Vec<char>, p: &Vec<char>) -> (b: bool)
    ensures
        b == starts_with(s@, p@),
{
    if p.len() > s.len() {
        return false;
    }
    let mut i: usize = 0;
    while i < p.len()
        invariant
            p@.len() <= s@.len(),
            i <= p@.len(),
            forall|j: int| 0 <= j < i ==> s@[j] == p@[j],
        decreases p@.len() - i,
    {
        if s[i] != p[i] {
            assert(s@.take(p@.len() as int)[i as int] != p@[i as int]);
            return false;
        }
        i = i + 1;
    }
    assert(s@.take(p@.len() as int) =~= p@);
    true
}

/// Whether `s` ends with `p` (`str::ends_with`).
pub fn ends_with_vec(s: &Vec<char>, p: &Vec<char>) -> (b: bool)
    ensures
        b == ends_with(s@, p@),
{
    if p.len() > s.len() {
        return false;
    }
    let off = s.len() - p.len();
    let mut i: usize = 0;
    while i < p.len()
        invariant
            p@.len() <= s@.len(),
            off == s@.len() - p@.len(),
            off + p@.len() == s.len(),
            i <= p@.len(),
            forall|j: int| 0 <= j < i ==> s@[off + j] == p@[j],
        decreases p@.len() - i,
    {
        if s[off + i] != p[i] {
            assert(s@.skip(off as int)[i as int] != p@[i as int]);
            return false;
        }
        i = i + 1;
    }
    assert(s@.skip(off as int) =~= p@);
    true
}

/// Whether `c` occurs in `s`.
pub fn has_char_vec(s: &Vec<char>, c: char) -> (b: bool)
    ensures
        b == has_char(s@, c),
{
    let mut i: usize = 0;
    while i < s.len()
        invariant
            i <= s@.len(),
            forall|j: int| 0 <= j < i ==> s@[j] != c,
        decreases s@.len() - i,
    {
        if s[i] == c {
            return true;
        }
        i = i + 1;
    }
    false
}

/// `str::trim_end_matches` with a string pattern.
pub fn trim_end_matches_vec(s: &Vec<char>, p: &Vec<char>) -> (r: Vec<char>)
    ensures
        r@ == trim_end_matches(s@, p@),
{
    let mut cur = slice_vec(s, 0, s.len());
    assert(cur@ =~= s@);
    if p.len() == 0 {
        return cur;
    }
    while ends_with_vec(&cur, p)
        invariant
            p@.len() > 0,
            trim_end_matches(s@, p@) == trim_end_matches(cur@, p@),
        decreases cur@.len(),
    {
        let n = cur.len() - p.len();
        cur = slice_vec(&cur, 0, n);
        proof {
            assert(cur@ =~= cur@.take(n as int));
        }
    }
    cur
}

/// Characters with ASCII letters in lower case.
pub fn ascii_lower_vec(s: &Vec<char>) -> (r: Vec<char>)
    ensures
        r@ == ascii_lower(s@),
{
    let mut r: Vec<char> = Vec::new();
    let mut i: usize = 0;
    while i < s.len()
        invariant
            i <= s@.len(),
            r@ == ascii_lower(s@.take(i as int)),
        decreases s@.len() - i,
    {
        let c = s[i];
        let d = if 'A' <= c && c <= 'Z' {
            let u: u32 = (c as u32) + 32;
            char_from_ascii(u)
        } else {
            c
        };
        r.push(d);
        proof {
            assert(s@.take(i + 1) =~= s@.take(i as int).push(c));
            assert(ascii_lower(s@.take(i + 1)) =~= ascii_lower(s@.take(i as int)).push(
                lower_char(c),
            ));
        }
        i = i + 1;
    }
    assert(s@.take(s@.len() as int) =~= s@);
    r
}

/// The character with an ASCII code point.
fn char_from_ascii(u: u32) -> (c: char)
    requires
        u < 128,
    ensures
        c == u as char,
{
    let b: u8 = u as u8;
    b as char
}

/// `truncate_text`: keep at most `max` characters of `s`, marking a cut with `...`.
pub fn truncate_text(s: &str, max: usize) -> (r: String)
    ensures
        r@ == truncate_chars(s@, max as nat),
{
    let v = chars_of(s);
    if max == 0 || v.len() <= max {
        return string_of(&v);
    }
    let mut head = slice_vec(&v, 0, max);
    let dots = chars_of("...");
    let mut i: usize = 0;
    while i < dots.len()
        invariant
            i <= dots@.len(),
            dots@ == "..."@,
            head@ == v@.take(max as int) + dots@.take(i as int),
        decreases dots@.len() - i,
    {
        head.push(dots[i]);
        i = i + 1;
        proof {
            assert(head@ =~= v@.take(max as int) + dots@.take(i as int));
        }
    }
    assert(dots@.take(dots@.len() as int) =~= dots@);
    string_of(&head)
}

/// The character vector of `s` followed by that of `t`.
pub fn concat_vec(s: &Vec<char>, t: &Vec<char>) -> (r: Vec<char>)
    ensures
        r@ == s@ + t@,
{
    let mut r = slice_vec(s, 0, s.len());
    let mut i: usize = 0;
    while i < t.len()
        invariant
            i <= t@.len(),
            r@ == s@ + t@.take(i as int),
        decreases t@.len() - i,
    {
        r.push(t[i]);
        i = i + 1;
        proof {
            assert(r@ =~= s@ + t@.take(i as int));
        }
    }
    assert(t@.take(t@.len() as int) =~= t@);
    r
}

/// `a` followed by `b`, as a new string.
pub fn cat(a: &str, b: &str) -> (r: String)
    ensures
        r@ == a@ + b@,
{
    let mut r = a.to_string();
    r.append(b);
    r
}

/// `s.split_whitespace().collect::<Vec<_>>().join(" ")`: words separated by
/// single spaces, with no whitespace at either end.
pub fn collapse_ws_str(s: &str) -> (r: String)
    ensures
        r@ == collapse_ws(s@),
{
    let v = chars_of(s);
    let n = v.len();
    let space = chars_of(" ");
    let mut out: Vec<char> = Vec::new();
    let mut pos: usize = 0;
    let ghost mut acc: Seq<Seq<char>> = Seq::empty();
    let mut first = true;
    assert(v@.skip(0) =~= v@);
    loop
        invariant
            n == v@.len(),
            v@ == s@,
            pos <= n,
            space@ == " "@,
            out@ == join_words(acc),
            first == (acc.len() == 0),
            words(v@) == acc + words(v@.skip(pos as int)),
        decreases n - pos,
    {
        let mut a = pos;
        while a < n && is_ws_char(v[a])
            invariant
                n == v@.len(),
                pos <= a <= n,
                trim_start(v@.skip(pos as int)) == trim_start(v@.skip(a as int)),
            decreases n - a,
        {
            proof {
                assert(v@.skip(a as int).drop_first() =~= v@.skip(a + 1));
            }
            a = a + 1;
        }
        proof {
            let t = v@.skip(a as int);
            if a < n {
                assert(t[0] == v@[a as int]);
            }
            assert(trim_start(t) == t);
            lemma_trim_start_suffix(v@.skip(pos as int));
        }
        if a == n {
            proof {
                assert(v@.skip(a as int).len() == 0);
                assert(trim_start(v@.skip(pos as int)).len() == 0);
                assert(words(v@.skip(pos as int)) =~= Seq::<Seq<char>>::empty());
                assert(acc + Seq::<Seq<char>>::empty() =~= acc);
            }
            return string_of(&out);
        }
        let mut b = a;
        while b < n && !is_ws_char(v[b])
            invariant
                n == v@.len(),
                a <= b <= n,
                leading_word(v@.skip(a as int)) == v@.subrange(a as int, b as int) + leading_word(
                    v@.skip(b as int),
                ),
            decreases n - b,
        {
            proof {
                let t = v@.skip(b as int);
                assert(t[0] == v@[b as int]);
                assert(t.drop_first() =~= v@.skip(b + 1));
                assert(v@.subrange(a as int, b + 1) =~= v@.subrange(a as int, b as int) + seq![
                    v@[b as int],
                ]);
            }
            b = b + 1;
        }
        proof {
            let t = v@.skip(b as int);
            if b < n {
                assert(t[0] == v@[b as int]);
            }
            assert(leading_word(t) =~= Seq::<char>::empty());
            assert(v@.subrange(a as int, b as int) + Seq::<char>::empty() =~= v@.subrange(
                a as int,
                b as int,
            ));
        }
        let word = slice_vec(&v, a, b);
        proof {
            let rest = v@.skip(pos as int);
            let t = trim_start(rest);
            assert(t == v@.skip(a as int));
            assert(t[0] == v@[a as int]);
            assert(word@.len() > 0);
            assert(t.skip(word@.len() as int) =~= v@.skip(b as int));
            assert(words(rest) == seq![word@] + words(v@.skip(b as int)));
        }
        if !first {
            out = concat_vec(&out, &space);
        }
        first = false;
        let ghost old_acc = acc;
        out = concat_vec(&out, &word);
        proof {
            acc = acc.push(word@);
            assert(acc.drop_last() =~= old_acc);
            assert(old_acc + words(v@.skip(pos as int)) =~= acc + words(v@.skip(b as int)));
        }
        pos = b;
    }
}

/// The index of the first occurrence of `c` in `s`, or the length of `s`.
pub open spec fn index_of(s: Seq<char>, c: char) -> int
    decreases s.len(),
{
    if s.len() == 0 {
        0
    } else if s[0] == c {
        0
    } else {
        1 + index_of(s.drop_first(), c)
    }
}

/// The index just after the last occurrence of `c` in `s`, or zero.
pub open spec fn after_last(s: Seq<char>, c: char) -> int
    decreases s.len(),
{
    if s.len() == 0 {
        0
    } else if s.last() == c {
        s.len() as int
    } else {
        after_last(s.drop_last(), c)
    }
}

/// `p` occurs somewhere in `s` (`str::contains` with a string pattern).
pub open spec fn contains_sub(s: Seq<char>, p: Seq<char>) -> bool {
    exists|i: int| 0 <= i && i + p.len() <= s.len() && #[trigger] s.subrange(i, i + p.len()) == p
}

pub proof fn lemma_index_of(s: Seq<char>, c: char)
    ensures
        0 <= index_of(s, c) <= s.len(),
        index_of(s, c) < s.len() ==> s[index_of(s, c)] == c,
        forall|j: int| 0 <= j < index_of(s, c) ==> s[j] != c,
        has_char(s, c) <==> index_of(s, c) < s.len(),
    decreases s.len(),
{
    if s.len() > 0 && s[0] != c {
        lemma_index_of(s.drop_first(), c);
        assert forall|j: int| 0 <= j < index_of(s, c) implies s[j] != c by {
            if j > 0 {
                assert(s[j] == s.drop_first()[j - 1]);
            }
        }
        if has_char(s.drop_first(), c) {
            let j = choose|j: int| 0 <= j < s.drop_first().len() && s.drop_first()[j] == c;
            assert(s[j + 1] == c);
        }
        if has_char(s, c) {
            let j = choose|j: int| 0 <= j < s.len() && s[j] == c;
            assert(s.drop_first()[j - 1] == c);
        }
    }
}

pub proof fn lemma_after_last(s: Seq<char>, c: char)
    ensures
        0 <= after_last(s, c) <= s.len(),
        after_last(s, c) > 0 ==> s[after_last(s, c) - 1] == c,
        forall|j: int| after_last(s, c) <= j < s.len() ==> s[j] != c,
    decreases s.len(),
{
    if s.len() > 0 && s.last() != c {
        lemma_after_last(s.drop_last(), c);
        assert forall|j: int| after_last(s, c) <= j < s.len() implies s[j] != c by {
            if j < s.len() - 1 {
                assert(s[j] == s.drop_last()[j]);
            }
        }
    }
}

/// The index of the first occurrence of `c`, or the length.
pub fn index_of_vec(v: &Vec<char>, c: char) -> (r: usize)
    ensures
        r as int == index_of(v@, c),
{
    let mut i: usize = 0;
    assert(v@.skip(0) =~= v@);
    while i < v.len() && v[i] != c
        invariant
            i <= v@.len(),
            index_of(v@, c) == i + index_of(v@.skip(i as int), c),
        decreases v@.len() - i,
    {
        proof {
            assert(v@.skip(i as int)[0] == v@[i as int]);
            assert(v@.skip(i as int).drop_first() =~= v@.skip(i + 1));
        }
        i = i + 1;
    }
    proof {
        if i < v@.len() {
            assert(v@.skip(i as int)[0] == v@[i as int]);
        }
    }
    i
}

/// The index just after the last occurrence of `c`, or zero.
pub fn after_last_vec(v: &Vec<char>, c: char) -> (r: usize)
    ensures
        r as int == after_last(v@, c),
{
    let mut i: usize = v.len();
    assert(v@.take(v@.len() as int) =~= v@);
    while i > 0 && v[i - 1] != c
        invariant
            i <= v@.len(),
            after_last(v@, c) == after_last(v@.take(i as int), c),
        decreases i,
    {
        proof {
            assert(v@.take(i as int).last() == v@[i - 1]);
            assert(v@.take(i as int).drop_last() =~= v@.take(i - 1));
        }
        i = i - 1;
    }
    proof {
        if i > 0 {
            assert(v@.take(i as int).last() == v@[i - 1]);
        }
    }
    i
}

/// Whether `p` occurs in `s` (`str::contains`).
pub fn contains_sub_vec(s: &Vec<char>, p: &Vec<char>) -> (b: bool)
    ensures
        b == contains_sub(s@, p@),
{
    if p.len() > s.len() {
        return false;
    }
    let last = s.len() - p.len();
    let mut i: usize = 0;
    while i <= last
        invariant
            last + p@.len() == s@.len(),
            last + p.len() == s.len(),
            i <= last + 1,
            forall|k: int| 0 <= k < i ==> #[trigger] s@.subrange(k, k + p@.len()) != p@,
        decreases last + 1 - i,
    {
        let w = slice_vec(s, i, i + p.len());
        if chars_eq(&w, p) {
            return true;
        }
        if i == last {
            assert forall|k: int| 0 <= k && k + p@.len() <= s@.len() implies #[trigger] s@.subrange(
                k,
                k + p@.len(),
            ) != p@ by {
                assert(k <= last);
            }
            return false;
        }
        i = i + 1;
    }
    false
}

/// Whether a character is an ASCII digit.
pub open spec fn is_digit(c: char) -> bool {
    '0' <= c && c <= '9'
}

pub open spec fn all_digits(s: Seq<char>) -> bool {
    forall|i: int| 0 <= i < s.len() ==> is_digit(#[trigger] s[i])
}

/// Whether every character of `v[a..b]` is an ASCII digit (or, when
/// `dots` is set, a dot).
pub fn all_digits_in(v: &Vec<char>, a: usize, b: usize, dots: bool) -> (r: bool)
    requires
        a <= b <= v@.len(),
    ensures
        r == forall|i: int| a <= i < b ==> is_digit(#[trigger] v@[i]) || (dots && v@[i] == '.'),
{
    let mut i = a;
    while i < b
        invariant
            a <= i <= b <= v@.len(),
            forall|j: int| a <= j < i ==> is_digit(#[trigger] v@[j]) || (dots && v@[j] == '.'),
        decreases b - i,
    {
        let c = v[i];
        if !(('0' <= c && c <= '9') || (dots && c == '.')) {
            return false;
        }
        i = i + 1;
    }
    true
}

/// An optional text field as the application reads it: trimmed, and absent
/// when nothing but whitespace was given.
pub open spec fn given_text(v: Option<String>) -> Option<Seq<char>> {
    match v {
        Some(s) => if is_blank(s@) {
            None
        } else {
            Some(trim(s@))
        },
        None => None,
    }
}

/// Reads an optional text field (`as_deref().map(str::trim).filter(|v|
/// !v.is_empty())`).
pub fn given_text_of(v: &Option<String>) -> (r: Option<String>)
    ensures
        match r {
            Some(s) => given_text(*v) == Some(s@),
            None => given_text(*v) is None,
        },
{
    match v {
        Some(s) => if is_blank_str(s.as_str()) {
            None
        } else {
            Some(trim_str(s.as_str()))
        },
        None => None,
    }
}

} // verus!
