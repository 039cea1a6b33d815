//! arXiv identifiers and feed entries: recognising an identifier in a search
//! query, normalising PDF links, and turning a feed entry into a search hit.
use vstd::prelude::*;
use crate::error::AppError;
use crate::text::{
    after_last, after_last_vec, all_digits, all_digits_in, ascii_lower, ascii_lower_vec, chars_of,
    collapse_ws, collapse_ws_str, concat_vec, contains_sub, contains_sub_vec, ends_with, ends_with_vec,
    has_char, has_char_vec, index_of, index_of_vec, is_digit, lemma_after_last, lemma_index_of, owned,
    slice_vec, starts_with, starts_with_vec, string_of, trim, trim_end_matches, trim_end_matches_vec,
    trim_str, cat, is_ws, trim_start, trim_end,
};
use crate::workflow::{opt_view, strs_view};
use crate::model_api::{decimal, u64_text};

verus! {

/// The URL prefixes under which an arXiv abstract or PDF may be given.
pub open spec fn url_prefixes() -> Seq<Seq<char>> {
    seq![
        "https://arxiv.org/abs/"@,
        "http://arxiv.org/abs/"@,
        "https://www.arxiv.org/abs/"@,
        "http://www.arxiv.org/abs/"@,
        "https://arxiv.org/pdf/"@,
        "http://arxiv.org/pdf/"@,
        "https://www.arxiv.org/pdf/"@,
        "http://www.arxiv.org/pdf/"@,
    ]
}

/// `s` without the first of `ps` that it starts with.
pub open spec fn strip_first_prefix(s: Seq<char>, ps: Seq<Seq<char>>) -> Seq<char>
    decreases ps.len(),
{
    if ps.len() == 0 {
        s
    } else if starts_with(s, ps[0]) {
        s.skip(ps[0].len() as int)
    } else {
        strip_first_prefix(s, ps.drop_first())
    }
}

pub open spec fn is_query_sep(c: char) -> bool {
    c == '?' || c == '#'
}

/// The index of the first `?` or `#`, or the length.
pub open spec fn query_index(s: Seq<char>) -> int
    decreases s.len(),
{
    if s.len() == 0 {
        0
    } else if is_query_sep(s[0]) {
        0
    } else {
        1 + query_index(s.drop_first())
    }
}

/// `s` up to its first `?` or `#`.
pub open spec fn cut_query(s: Seq<char>) -> Seq<char> {
    s.take(query_index(s))
}

/// `looks_like_arxiv_id`: either `archive/digits` (old style, where the
/// number may hold dots) or `YYMM.NNNNN` (new style).
pub open spec fn looks_like_spec(v: Seq<char>) -> bool {
    let n = trim(v);
    if n.len() == 0 {
        false
    } else if has_char(n, '/') {
        let i = index_of(n, '/');
        let suffix = n.skip(i + 1);
        i > 0 && suffix.len() >= 4 && forall|k: int|
            0 <= k < suffix.len() ==> is_digit(#[trigger] suffix[k]) || suffix[k] == '.'
    } else if has_char(n, '.') {
        let i = index_of(n, '.');
        let right = n.skip(i + 1);
        !has_char(right, '.') && i == 4 && right.len() >= 4 && all_digits(n.take(i)) && all_digits(
            right,
        )
    } else {
        false
    }
}

/// `extract_arxiv_id`: the arXiv identifier a search query names, whether
/// bare or as an abstract or PDF URL.
pub open spec fn extract_arxiv_id_spec(q: Seq<char>) -> Option<Seq<char>> {
    let t = trim(q);
    if t.len() == 0 {
        None
    } else {
        let c = strip_first_prefix(t, url_prefixes());
        let c2 = trim(cut_query(trim_end_matches(c, ".pdf"@)));
        if c2.len() == 0 || !looks_like_spec(c2) {
            None
        } else {
            Some(c2)
        }
    }
}

/// `normalize_arxiv_pdf_url`: a PDF link ends in `.pdf`.
pub open spec fn normalize_pdf_url_spec(url: Seq<char>) -> Seq<char> {
    if ends_with(url, ".pdf"@) {
        url
    } else {
        trim_end_matches(url, "/"@) + ".pdf"@
    }
}

proof fn lemma_query_index(s: Seq<char>)
    ensures
        0 <= query_index(s) <= s.len(),
        query_index(s) < s.len() ==> is_query_sep(s[query_index(s)]),
    decreases s.len(),
{
    if s.len() > 0 && !is_query_sep(s[0]) {
        lemma_query_index(s.drop_first());
    }
}

fn query_index_vec(v: &Vec<char>) -> (r: usize)
    ensures
        r as int == query_index(v@),
{
    let mut i: usize = 0;
    assert(v@.skip(0) =~= v@);
    while i < v.len() && !(v[i] == '?' || v[i] == '#')
        invariant
            i <= v@.len(),
            query_index(v@) == i + query_index(v@.skip(i as int)),
        decreases v@.len() - i,
    {
        proof {
            assert(v@.skip(i as int)[0] == v@[i as int]);
            assert(v@.skip(i as int).drop_first() =~= v@.skip(i + 1));
        }
        i = i + 1;
    }
    proof {
        if i < v@.len() {
            assert(v@.skip(i as int)[0] == v@[i as int]);
        }
    }
    i
}

pub open spec fn vv_view(v: Seq<Vec<char>>) -> Seq<Seq<char>> {
    v.map_values(|x: Vec<char>| x@)
}

fn prefix_list() -> (r: Vec<Vec<char>>)
    ensures
        vv_view(r@) == url_prefixes(),
{
    let mut r: Vec<Vec<char>> = Vec::new();
    r.push(chars_of("https://arxiv.org/abs/"));
    r.push(chars_of("http://arxiv.org/abs/"));
    r.push(chars_of("https://www.arxiv.org/abs/"));
    r.push(chars_of("http://www.arxiv.org/abs/"));
    r.push(chars_of("https://arxiv.org/pdf/"));
    r.push(chars_of("http://arxiv.org/pdf/"));
    r.push(chars_of("https://www.arxiv.org/pdf/"));
    r.push(chars_of("http://www.arxiv.org/pdf/"));
    assert(vv_view(r@) =~= url_prefixes());
    r
}

fn strip_first_prefix_vec(s: &Vec<char>, ps: &Vec<Vec<char>>) -> (r: Vec<char>)
    ensures
        r@ == strip_first_prefix(s@, vv_view(ps@)),
{
    let mut i: usize = 0;
    assert(vv_view(ps@).skip(0) =~= vv_view(ps@));
    while i < ps.len()
        invariant
            i <= ps@.len(),
            strip_first_prefix(s@, vv_view(ps@)) == strip_first_prefix(s@, vv_view(ps@).skip(i as int)),
        decreases ps@.len() - i,
    {
        proof {
            assert(vv_view(ps@).skip(i as int)[0] == ps@[i as int]@);
            assert(vv_view(ps@).skip(i as int).drop_first() =~= vv_view(ps@).skip(i + 1));
        }
        if starts_with_vec(s, &ps[i]) {
            return slice_vec(s, ps[i].len(), s.len());
        }
        i = i + 1;
    }
    slice_vec(s, 0, s.len())
}

/// Whether a text has the shape of an arXiv identifier.
pub fn looks_like_arxiv_id(value: &str) -> (b: bool)
    ensures
        b == looks_like_spec(value@),
{
    let t = trim_str(value);
    let n = chars_of(t.as_str());
    if n.len() == 0 {
        return false;
    }
    let slash = index_of_vec(&n, '/');
    proof {
        lemma_index_of(n@, '/');
    }
    if slash < n.len() {
        if slash == 0 || n.len() - slash - 1 < 4 {
            return false;
        }
        let ok = all_digits_in(&n, slash + 1, n.len(), true);
        proof {
            let suffix = n@.skip(slash + 1);
            assert forall|k: int| 0 <= k < suffix.len() implies suffix[k] == n@[slash + 1 + k] by {}
            if ok {
                assert forall|k: int| 0 <= k < suffix.len() implies is_digit(#[trigger] suffix[k])
                    || suffix[k] == '.' by {
                    assert(suffix[k] == n@[slash + 1 + k]);
                }
            } else {
                let j = choose|j: int| slash + 1 <= j < n@.len() && !(is_digit(#[trigger] n@[j]) || n@[j] == '.');
                assert(suffix[j - slash - 1] == n@[j]);
            }
        }
        return ok;
    }
    let dot = index_of_vec(&n, '.');
    proof {
        lemma_index_of(n@, '.');
    }
    if dot == n.len() {
        return false;
    }
    let right = slice_vec(&n, dot + 1, n.len());
    assert(right@ =~= n@.skip(dot + 1));
    if has_char_vec(&right, '.') {
        return false;
    }
    if dot != 4 || right.len() < 4 {
        return false;
    }
    let l = all_digits_in(&n, 0, dot, false);
    let r = all_digits_in(&right, 0, right.len(), false);
    proof {
        if l {
            assert forall|k: int| 0 <= k < n@.take(dot as int).len() implies is_digit(
                #[trigger] n@.take(dot as int)[k],
            ) by {
                assert(n@.take(dot as int)[k] == n@[k]);
            }
        } else {
            let j = choose|j: int| 0 <= j < dot && !(is_digit(#[trigger] n@[j]) || (false && n@[j] == '.'));
            assert(n@.take(dot as int)[j] == n@[j]);
        }
    }
    l && r
}

/// `extract_arxiv_id`: the arXiv identifier a search query names.
pub fn extract_arxiv_id(query: &str) -> (r: Option<String>)
    ensures
        opt_view(r) == extract_arxiv_id_spec(query@),
{
    let t = trim_str(query);
    let tv = chars_of(t.as_str());
    if tv.len() == 0 {
        return None;
    }
    let ps = prefix_list();
    let c = strip_first_prefix_vec(&tv, &ps);
    let dot_pdf = chars_of(".pdf");
    let c1 = trim_end_matches_vec(&c, &dot_pdf);
    let qi = query_index_vec(&c1);
    proof {
        lemma_query_index(c1@);
    }
    let c2 = slice_vec(&c1, 0, qi);
    let c2s = string_of(&c2);
    let c3 = trim_str(c2s.as_str());
    if c3.unicode_len() == 0 || !looks_like_arxiv_id(c3.as_str()) {
        return None;
    }
    Some(c3)
}

/// `normalize_arxiv_pdf_url`: a link that does not end in `.pdf` loses its
/// trailing slashes and gains the extension.
pub fn normalize_arxiv_pdf_url(url: &str) -> (r: String)
    ensures
        r@ == normalize_pdf_url_spec(url@),
{
    let u = chars_of(url);
    let dot_pdf = chars_of(".pdf");
    if ends_with_vec(&u, &dot_pdf) {
        return string_of(&u);
    }
    let slash = chars_of("/");
    let base = trim_end_matches_vec(&u, &slash);
    string_of(&concat_vec(&base, &dot_pdf))
}

// ---------------------------------------------------------------------------
// Feed entries
// ---------------------------------------------------------------------------

/// An author of a feed entry.
pub struct ArxivAuthor {
    pub name: String,
}

/// A link of a feed entry.
pub struct ArxivLink {
    pub href: String,
    pub title: Option<String>,
}

/// One entry of an arXiv Atom feed.
pub struct ArxivEntry {
    pub id: String,
    pub title: String,
    pub summary: String,
    pub published: String,
    pub authors: Vec<ArxivAuthor>,
    pub links: Vec<ArxivLink>,
}

/// A paper found by a search.
pub struct SearchPaperItem {
    pub id: String,
    pub source: String,
    pub source_paper_id: String,
    pub title: String,
    pub authors: Vec<String>,
    pub year: Option<i32>,
    pub abstract_text: Option<String>,
    pub pdf_url: Option<String>,
    pub detail_url: String,
    pub has_pdf: bool,
    pub venue: String,
}

/// The search result a search hit stands for.
pub struct SearchPaperView {
    pub id: Seq<char>,
    pub source: Seq<char>,
    pub source_paper_id: Seq<char>,
    pub title: Seq<char>,
    pub authors: Seq<Seq<char>>,
    pub year: Option<i32>,
    pub abstract_text: Option<Seq<char>>,
    pub pdf_url: Option<Seq<char>>,
    pub detail_url: Seq<char>,
    pub has_pdf: bool,
    pub venue: Seq<char>,
}

impl View for SearchPaperItem {
    type V = SearchPaperView;

    open spec fn view(&self) -> SearchPaperView {
        SearchPaperView {
            id: self.id@,
            source: self.source@,
            source_paper_id: self.source_paper_id@,
            title: self.title@,
            authors: strs_view(self.authors@),
            year: self.year,
            abstract_text: opt_view(self.abstract_text),
            pdf_url: opt_view(self.pdf_url),
            detail_url: self.detail_url@,
            has_pdf: self.has_pdf,
            venue: self.venue@,
        }
    }
}

/// Whether a link points at the PDF of the entry.
pub open spec fn is_pdf_link(href: Seq<char>, title: Option<Seq<char>>) -> bool {
    title == Some("pdf"@) || contains_sub(href, "/pdf/"@) || ends_with(href, ".pdf"@)
}

pub open spec fn links_view(ls: Seq<ArxivLink>) -> Seq<(Seq<char>, Option<Seq<char>>)> {
    ls.map_values(|l: ArxivLink| (l.href@, opt_view(l.title)))
}

/// The href of the first PDF link.
pub open spec fn first_pdf_link(ls: Seq<(Seq<char>, Option<Seq<char>>)>) -> Option<Seq<char>>
    decreases ls.len(),
{
    if ls.len() == 0 {
        None
    } else if is_pdf_link(ls[0].0, ls[0].1) {
        Some(ls[0].0)
    } else {
        first_pdf_link(ls.drop_first())
    }
}

pub open spec fn digit_value(c: char) -> int {
    (c as int) - ('0' as int)
}

/// The year at the start of a publication date: its first four characters
/// read as an `i32` (an optional sign followed by digits).
pub open spec fn year_spec(p: Seq<char>) -> Option<i32> {
    if p.len() < 4 {
        None
    } else {
        let s = p.take(4);
        if s[0] == '+' || s[0] == '-' {
            if all_digits(s.skip(1)) {
                let v = digit_value(s[1]) * 100 + digit_value(s[2]) * 10 + digit_value(s[3]);
                Some(
                    if s[0] == '-' {
                        (-v) as i32
                    } else {
                        v as i32
                    },
                )
            } else {
                None
            }
        } else if all_digits(s) {
            Some(
                (digit_value(s[0]) * 1000 + digit_value(s[1]) * 100 + digit_value(s[2]) * 10
                    + digit_value(s[3])) as i32,
            )
        } else {
            None
        }
    }
}

/// The identifier of an entry: what follows the last `/` of its id URL.
pub open spec fn source_id_spec(id: Seq<char>) -> Seq<char> {
    id.skip(after_last(id, '/'))
}

pub open spec fn dots_to_underscores(s: Seq<char>) -> Seq<char> {
    s.map_values(|c: char| if c == '.' { '_' } else { c })
}

/// `map_entry`: the search hit a feed entry stands for.
pub open spec fn map_entry_spec(
    id: Seq<char>,
    title: Seq<char>,
    summary: Seq<char>,
    published: Seq<char>,
    authors: Seq<Seq<char>>,
    links: Seq<(Seq<char>, Option<Seq<char>>)>,
) -> SearchPaperView {
    let spid = source_id_spec(id);
    SearchPaperView {
        id: "src_arxiv_"@ + dots_to_underscores(spid),
        source: "arxiv"@,
        source_paper_id: spid,
        title: collapse_ws(title),
        authors: authors,
        year: year_spec(published),
        abstract_text: Some(collapse_ws(summary)),
        pdf_url: Some(
            match first_pdf_link(links) {
                Some(href) => normalize_pdf_url_spec(href),
                None => "https://arxiv.org/pdf/"@ + spid + ".pdf"@,
            },
        ),
        detail_url: id,
        has_pdf: true,
        venue: "arXiv"@,
    }
}

fn first_pdf_link_exec(ls: &Vec<ArxivLink>) -> (r: Option<String>)
    ensures
        opt_view(r) == first_pdf_link(links_view(ls@)),
{
    let ghost m = links_view(ls@);
    let pdf_mid = chars_of("/pdf/");
    let dot_pdf = chars_of(".pdf");
    let mut i: usize = 0;
    assert(m.skip(0) =~= m);
    while i < ls.len()
        invariant
            i <= ls@.len(),
            m == links_view(ls@),
            pdf_mid@ == "/pdf/"@,
            dot_pdf@ == ".pdf"@,
            first_pdf_link(m) == first_pdf_link(m.skip(i as int)),
        decreases ls@.len() - i,
    {
        proof {
            assert(m.skip(i as int)[0] == m[i as int]);
            assert(m.skip(i as int).drop_first() =~= m.skip(i + 1));
        }
        let link = &ls[i];
        let titled = match &link.title {
            Some(t) => crate::text::str_eq(t.as_str(), "pdf"),
            None => false,
        };
        let h = chars_of(link.href.as_str());
        if titled || contains_sub_vec(&h, &pdf_mid) || ends_with_vec(&h, &dot_pdf) {
            return Some(link.href.clone());
        }
        i = i + 1;
    }
    None
}

fn digit_of(c: char) -> (r: i32)
    requires
        is_digit(c),
    ensures
        r == digit_value(c),
{
    (c as u32 - '0' as u32) as i32
}

/// The year at the start of a publication date.
pub fn year_of(published: &str) -> (r: Option<i32>)
    ensures
        r == year_spec(published@),
{
    let p = chars_of(published);
    if p.len() < 4 {
        return None;
    }
    let s = slice_vec(&p, 0, 4);
    assert(s@ =~= p@.take(4));
    if s[0] == '+' || s[0] == '-' {
        if !all_digits_in(&s, 1, 4, false) {
            proof {
                let j = choose|j: int| 1 <= j < 4 && !(is_digit(#[trigger] s@[j]) || (false && s@[j] == '.'));
                assert(s@.skip(1)[j - 1] == s@[j]);
            }
            return None;
        }
        proof {
            assert forall|k: int| 0 <= k < s@.skip(1).len() implies is_digit(#[trigger] s@.skip(1)[k]) by {
                assert(s@.skip(1)[k] == s@[k + 1]);
            }
        }
        let v = digit_of(s[1]) * 100 + digit_of(s[2]) * 10 + digit_of(s[3]);
        if s[0] == '-' {
            Some(-v)
        } else {
            Some(v)
        }
    } else {
        if !all_digits_in(&s, 0, 4, false) {
            return None;
        }
        Some(digit_of(s[0]) * 1000 + digit_of(s[1]) * 100 + digit_of(s[2]) * 10 + digit_of(s[3]))
    }
}

pub open spec fn authors_view(a: Seq<ArxivAuthor>) -> Seq<Seq<char>> {
    a.map_values(|x: ArxivAuthor| x.name@)
}

/// `map_entry`: the search hit a feed entry stands for. It never fails: an id
/// without a `/` is used whole.
pub fn map_entry(entry: ArxivEntry) -> (r: Result<SearchPaperItem, AppError>)
    ensures
        r matches Ok(item) && item@ == map_entry_spec(
            entry.id@,
            entry.title@,
            entry.summary@,
            entry.published@,
            authors_view(entry.authors@),
            links_view(entry.links@),
        ),
{
    let idv = chars_of(entry.id.as_str());
    let cut = after_last_vec(&idv, '/');
    proof {
        lemma_after_last(idv@, '/');
    }
    let spid_v = slice_vec(&idv, cut, idv.len());
    assert(spid_v@ =~= idv@.skip(cut as int));
    let mut under: Vec<char> = Vec::new();
    let mut i: usize = 0;
    while i < spid_v.len()
        invariant
            i <= spid_v@.len(),
            under@ == dots_to_underscores(spid_v@.take(i as int)),
        decreases spid_v@.len() - i,
    {
        let c = spid_v[i];
        under.push(if c == '.' { '_' } else { c });
        i = i + 1;
        proof {
            assert(under@ =~= dots_to_underscores(spid_v@.take(i as int)));
        }
    }
    assert(spid_v@.take(spid_v@.len() as int) =~= spid_v@);
    let spid = string_of(&spid_v);
    let prefix = chars_of("src_arxiv_");
    let id = string_of(&concat_vec(&prefix, &under));
    let pdf_url = match first_pdf_link_exec(&entry.links) {
        Some(href) => normalize_arxiv_pdf_url(href.as_str()),
        None => {
            let head = chars_of("https://arxiv.org/pdf/");
            let tail = chars_of(".pdf");
            string_of(&concat_vec(&concat_vec(&head, &spid_v), &tail))
        },
    };
    let year = year_of(entry.published.as_str());
    let title = collapse_ws_str(entry.title.as_str());
    let abstract_text = collapse_ws_str(entry.summary.as_str());
    let mut authors: Vec<String> = Vec::new();
    let mut k: usize = 0;
    while k < entry.authors.len()
        invariant
            k <= entry.authors@.len(),
            authors@.len() == k,
            forall|j: int| 0 <= j < k ==> (#[trigger] authors@[j])@ == entry.authors@[j].name@,
        decreases entry.authors@.len() - k,
    {
        authors.push(entry.authors[k].name.clone());
        k = k + 1;
    }
    assert(strs_view(authors@) =~= authors_view(entry.authors@));
    let detail_url = entry.id;
    Ok(
        SearchPaperItem {
            id,
            source: owned("arxiv"),
            source_paper_id: spid,
            title,
            authors,
            year,
            abstract_text: Some(abstract_text),
            pdf_url: Some(pdf_url),
            detail_url,
            has_pdf: true,
            venue: owned("arXiv"),
        },
    )
}

// ---------------------------------------------------------------------------
// Links given for import
// ---------------------------------------------------------------------------

/// `default_file_name_from_url`: the last path segment of a download URL,
/// without its query, with `.pdf` added when it lacks the extension.
pub open spec fn default_file_name_spec(url: Seq<char>) -> Seq<char> {
    let last = url.skip(after_last(url, '/'));
    let without_query = last.take(index_of(last, '?'));
    let t = trim(without_query);
    if t.len() == 0 {
        "paper.pdf"@
    } else if ends_with(ascii_lower(t), ".pdf"@) {
        t
    } else {
        t + ".pdf"@
    }
}

/// The file name a download is given when none was chosen.
pub fn default_file_name_from_url(url: &str) -> (r: String)
    ensures
        r@ == default_file_name_spec(url@),
{
    let u = chars_of(url);
    let cut = after_last_vec(&u, '/');
    proof {
        lemma_after_last(u@, '/');
    }
    let last = slice_vec(&u, cut, u.len());
    assert(last@ =~= u@.skip(cut as int));
    let q = index_of_vec(&last, '?');
    proof {
        lemma_index_of(last@, '?');
    }
    let wq = slice_vec(&last, 0, q);
    let t = trim_str(string_of(&wq).as_str());
    let tv = chars_of(t.as_str());
    if tv.len() == 0 {
        return owned("paper.pdf");
    }
    let lower = ascii_lower_vec(&tv);
    let dot_pdf = chars_of(".pdf");
    if ends_with_vec(&lower, &dot_pdf) {
        return t;
    }
    string_of(&concat_vec(&tv, &dot_pdf))
}

/// `extract_arxiv_id_from_url`: the identifier named by an arXiv abstract or
/// PDF link, given the link's host and path.
pub open spec fn arxiv_id_from_url_spec(host: Option<Seq<char>>, path: Seq<char>) -> Option<Seq<char>> {
    match host {
        None => None,
        Some(h) => {
            let lh = ascii_lower(h);
            if lh != "arxiv.org"@ && lh != "www.arxiv.org"@ {
                None
            } else {
                let raw = if starts_with(path, "/abs/"@) {
                    Some(path.skip(5))
                } else if starts_with(path, "/pdf/"@) {
                    Some(path.skip(5))
                } else {
                    None
                };
                match raw {
                    None => None,
                    Some(r) => {
                        let c = trim_slashes(trim_end_matches(r, ".pdf"@));
                        if c.len() == 0 {
                            None
                        } else {
                            Some(c)
                        }
                    },
                }
            }
        },
    }
}

// ---------------------------------------------------------------------------
// Searching
// ---------------------------------------------------------------------------

/// The query parameters of a feed search: an identifier in the query asks
/// for that one paper; anything else is searched in all fields, one page at
/// a time.
pub open spec fn search_params_spec(query: Seq<char>, page: nat, page_size: nat) -> Seq<
    (Seq<char>, Seq<char>),
> {
    let q = trim(query);
    match extract_arxiv_id_spec(q) {
        Some(id) => seq![("id_list"@, id), ("start"@, "0"@), ("max_results"@, "1"@)],
        None => seq![
            ("search_query"@, "all:"@ + q),
            ("start"@, decimal(crate::library::page_offset_spec(page, page_size))),
            ("max_results"@, decimal(page_size)),
        ],
    }
}

/// The parameters as text pairs.
pub open spec fn pairs_view(v: Seq<(String, String)>) -> Seq<(Seq<char>, Seq<char>)> {
    v.map_values(|p: (String, String)| (p.0@, p.1@))
}

fn pair(a: &str, b: String) -> (r: (String, String))
    ensures
        r.0@ == a@,
        r.1@ == b@,
{
    (owned(a), b)
}

/// The query parameters of a feed search (`ArxivProvider::search`).
pub fn search_query_params(query: &str, page: usize, page_size: usize) -> (r: Vec<(String, String)>)
    requires
        crate::library::page_offset_spec(page as nat, page_size as nat) <= u64::MAX,
    ensures
        pairs_view(r@) == search_params_spec(query@, page as nat, page_size as nat),
{
    let q = trim_str(query);
    let mut v: Vec<(String, String)> = Vec::new();
    match extract_arxiv_id(q.as_str()) {
        Some(id) => {
            v.push(pair("id_list", id));
            v.push(pair("start", owned("0")));
            v.push(pair("max_results", owned("1")));
        },
        None => {
            let start: u64 = if page == 0 {
                0
            } else {
                ((page - 1) as u64) * (page_size as u64)
            };
            v.push(pair("search_query", cat("all:", q.as_str())));
            v.push(pair("start", u64_text(start)));
            v.push(pair("max_results", u64_text(page_size as u64)));
        },
    }
    assert(pairs_view(v@) =~= search_params_spec(query@, page as nat, page_size as nat));
    v
}

/// The search hit each feed entry stands for.
pub open spec fn entry_view(e: ArxivEntry) -> SearchPaperView {
    map_entry_spec(
        e.id@,
        e.title@,
        e.summary@,
        e.published@,
        authors_view(e.authors@),
        links_view(e.links@),
    )
}

/// The hits of a search, one per feed entry, in feed order.
pub fn search_results(entries: Vec<ArxivEntry>) -> (r: Vec<SearchPaperItem>)
    ensures
        r@.len() == entries@.len(),
        forall|i: int| 0 <= i < r@.len() ==> (#[trigger] r@[i])@ == entry_view(entries@[i]),
{
    let ghost original = entries@;
    let mut rest = entries;
    let mut out: Vec<SearchPaperItem> = Vec::new();
    let mut taken: usize = 0;
    let total: usize = rest.len();
    assert(rest@ =~= original.skip(0));
    while rest.len() > 0
        invariant
            taken + rest@.len() == original.len(),
            original.len() == total,
            out@.len() == taken,
            rest@ =~= original.skip(taken as int),
            forall|i: int| 0 <= i < taken ==> (#[trigger] out@[i])@ == entry_view(original[i]),
        decreases rest@.len(),
    {
        let e = rest.remove(0);
        proof {
            assert(e == original[taken as int]);
        }
        match map_entry(e) {
            Ok(item) => out.push(item),
            Err(_) => {},
        }
        taken = taken + 1;
        proof {
            assert(rest@ =~= original.skip(taken as int));
        }
    }
    out
}

/// `s` without the slashes at either end (`str::trim_matches('/')`).
pub open spec fn trim_slashes(s: Seq<char>) -> Seq<char>
    decreases s.len(),
{
    if s.len() > 0 && s[0] == '/' {
        trim_slashes(s.drop_first())
    } else if s.len() > 0 && s.last() == '/' {
        trim_slashes(s.drop_last())
    } else {
        s
    }
}

/// `str::trim_matches('/')` on a character vector.
pub fn trim_slashes_vec(v: &Vec<char>) -> (r: Vec<char>)
    ensures
        r@ == trim_slashes(v@),
{
    let mut a: usize = 0;
    let mut b: usize = v.len();
    assert(v@.subrange(0, v@.len() as int) =~= v@);
    while a < b && (v[a] == '/' || v[b - 1] == '/')
        invariant
            a <= b <= v@.len(),
            trim_slashes(v@) == trim_slashes(v@.subrange(a as int, b as int)),
        decreases b - a,
    {
        let ghost w = v@.subrange(a as int, b as int);
        if v[a] == '/' {
            proof {
                assert(w[0] == v@[a as int]);
                assert(w.drop_first() =~= v@.subrange(a + 1, b as int));
            }
            a = a + 1;
        } else {
            proof {
                assert(w[0] == v@[a as int]);
                assert(w.last() == v@[b - 1]);
                assert(w.drop_last() =~= v@.subrange(a as int, b - 1));
            }
            b = b - 1;
        }
    }
    let r = slice_vec(v, a, b);
    proof {
        let w = v@.subrange(a as int, b as int);
        if a < b {
            assert(w[0] == v@[a as int]);
            assert(w.last() == v@[b - 1]);
        }
        assert(trim_slashes(w) == w);
    }
    r
}

/// The arXiv identifier of an abstract or PDF page link, if it is one.
pub fn extract_arxiv_id_from_url(host: Option<&str>, path: &str) -> (r: Option<String>)
    ensures
        opt_view(r) == arxiv_id_from_url_spec(
            match host {
                Some(h) => Some(h@),
                None => None,
            },
            path@,
        ),
{
    let h = match host {
        Some(h) => h,
        None => {
            return None;
        },
    };
    let lh = ascii_lower_vec(&chars_of(h));
    if !crate::text::chars_eq(&lh, &chars_of("arxiv.org")) && !crate::text::chars_eq(
        &lh,
        &chars_of("www.arxiv.org"),
    ) {
        return None;
    }
    let p = chars_of(path);
    let abs = chars_of("/abs/");
    let pdf = chars_of("/pdf/");
    proof {
        reveal_strlit("/abs/");
        reveal_strlit("/pdf/");
    }
    let raw = if starts_with_vec(&p, &abs) {
        slice_vec(&p, 5, p.len())
    } else if starts_with_vec(&p, &pdf) {
        slice_vec(&p, 5, p.len())
    } else {
        return None;
    };
    let dot_pdf = chars_of(".pdf");
    let c = trim_slashes_vec(&trim_end_matches_vec(&raw, &dot_pdf));
    if c.len() == 0 {
        return None;
    }
    Some(string_of(&c))
}

/// An extracted identifier is trimmed, not empty, and has the shape of an
/// arXiv identifier.
pub proof fn law_extracted_id_is_well_formed(q: Seq<char>)
    ensures
        extract_arxiv_id_spec(q) matches Some(id) ==> id.len() > 0 && looks_like_spec(id),
{
}

proof fn lemma_ends_with_concat(a: Seq<char>, b: Seq<char>)
    ensures
        ends_with(a + b, b),
{
    assert((a + b).skip((a + b).len() - b.len()) =~= b);
}

/// A normalised PDF link always ends in `.pdf`, so normalising it again
/// changes nothing.
pub proof fn law_pdf_url_normalization(url: Seq<char>)
    ensures
        ends_with(normalize_pdf_url_spec(url), ".pdf"@),
        normalize_pdf_url_spec(normalize_pdf_url_spec(url)) == normalize_pdf_url_spec(url),
{
    if !ends_with(url, ".pdf"@) {
        lemma_ends_with_concat(trim_end_matches(url, "/"@), ".pdf"@);
    }
}

/// The file name chosen for a downloaded paper always ends in `.pdf`, in
/// upper or lower case.
pub proof fn law_default_file_name_is_pdf(url: Seq<char>)
    ensures
        ends_with(ascii_lower(default_file_name_spec(url)), ".pdf"@),
{
    reveal_strlit(".pdf");
    reveal_strlit("paper.pdf");
    let last = url.skip(after_last(url, '/'));
    let t = trim(last.take(index_of(last, '?')));
    let r = default_file_name_spec(url);
    if t.len() == 0 {
        assert(ascii_lower("paper.pdf"@).skip(5) =~= ".pdf"@);
    } else if !ends_with(ascii_lower(t), ".pdf"@) {
        assert(ascii_lower(t + ".pdf"@) =~= ascii_lower(t) + ascii_lower(".pdf"@));
        assert(ascii_lower(".pdf"@) =~= ".pdf"@);
        lemma_ends_with_concat(ascii_lower(t), ".pdf"@);
    }
}

/// An identifier holds no whitespace and no `?` or `#`.
pub open spec fn is_id_token(id: Seq<char>) -> bool {
    forall|k: int| 0 <= k < id.len() ==> !is_ws(#[trigger] id[k]) && !is_query_sep(id[k])
}

proof fn lemma_not_prefixed(s: Seq<char>, q: Seq<char>, m: int)
    requires
        0 <= m < q.len(),
        m < s.len(),
        s[m] != q[m],
    ensures
        !starts_with(s, q),
{
    if starts_with(s, q) {
        assert(s.take(q.len() as int)[m] == s[m]);
    }
}

proof fn lemma_strip_at(s: Seq<char>, ps: Seq<Seq<char>>, j: int)
    requires
        0 <= j < ps.len(),
        forall|k: int| 0 <= k < j ==> !starts_with(s, #[trigger] ps[k]),
        starts_with(s, ps[j]),
    ensures
        strip_first_prefix(s, ps) == s.skip(ps[j].len() as int),
    decreases j,
{
    if j > 0 {
        assert(!starts_with(s, ps[0]));
        assert forall|k: int| 0 <= k < j - 1 implies !starts_with(s, #[trigger] ps.drop_first()[k]) by {
            assert(ps.drop_first()[k] == ps[k + 1]);
        }
        assert(ps.drop_first()[j - 1] == ps[j]);
        lemma_strip_at(s, ps.drop_first(), j - 1);
    }
}

proof fn lemma_clean_trim(s: Seq<char>)
    requires
        s.len() > 0,
        !is_ws(s[0]),
        !is_ws(s.last()),
    ensures
        trim(s) == s,
{
    assert(trim_start(s) == s);
    assert(trim_end(s) == s);
}

/// An identifier that looks like one ends in a digit or a dot.
proof fn lemma_id_end(id: Seq<char>)
    requires
        looks_like_spec(id),
        is_id_token(id),
    ensures
        id.len() > 0,
        is_digit(id.last()) || id.last() == '.',
        !ends_with(id, ".pdf"@),
        trim(id) == id,
        cut_query(id) == id,
{
    let n = trim(id);
    assert(n.len() > 0);
    crate::text::lemma_trim_start_suffix(id);
    crate::text::lemma_trim_end_prefix(trim_start(id));
    assert(id.len() > 0);
    lemma_clean_trim(id);
    if has_char(n, '/') {
        let i = index_of(n, '/');
        lemma_index_of(n, '/');
        let suffix = n.skip(i + 1);
        assert(suffix[suffix.len() - 1] == id.last());
    } else {
        let i = index_of(n, '.');
        lemma_index_of(n, '.');
        let right = n.skip(i + 1);
        assert(right[right.len() - 1] == id.last());
    }
    reveal_strlit(".pdf");
    if ends_with(id, ".pdf"@) {
        assert(id.skip(id.len() - 4)[3] == id.last());
    }
    lemma_query_index(id);
    if query_index(id) < id.len() {
        assert(is_query_sep(id[query_index(id)]));
    }
    assert(id.take(id.len() as int) =~= id);
}

/// A query that is an identifier, possibly followed by `.pdf`, after one of
/// the URL prefixes names that identifier.
proof fn lemma_prefixed_id(id: Seq<char>, j: int, tail: Seq<char>)
    requires
        0 <= j < 8,
        looks_like_spec(id),
        is_id_token(id),
        tail == Seq::<char>::empty() || tail == ".pdf"@,
    ensures
        extract_arxiv_id_spec(url_prefixes()[j] + id + tail) == Some(id),
{
    reveal_strlit("https://arxiv.org/abs/");
    reveal_strlit("http://arxiv.org/abs/");
    reveal_strlit("https://www.arxiv.org/abs/");
    reveal_strlit("http://www.arxiv.org/abs/");
    reveal_strlit("https://arxiv.org/pdf/");
    reveal_strlit("http://arxiv.org/pdf/");
    reveal_strlit("https://www.arxiv.org/pdf/");
    reveal_strlit("http://www.arxiv.org/pdf/");
    reveal_strlit(".pdf");
    lemma_id_end(id);
    let ps = url_prefixes();
    let p = ps[j];
    let s = p + id + tail;
    assert(p[0] == 'h');
    assert(s[0] == p[0]);
    if tail.len() == 0 {
        assert(s.last() == id.last());
    } else {
        assert(s.last() == 'f');
    }
    lemma_clean_trim(s);
    assert forall|m: int| 0 <= m < p.len() implies s[m] == #[trigger] p[m] by {}
        if j == 0 {
        } else if j == 1 {
            lemma_not_prefixed(s, ps[0], 4);
        } else if j == 2 {
            lemma_not_prefixed(s, ps[0], 8);
            lemma_not_prefixed(s, ps[1], 4);
        } else if j == 3 {
            lemma_not_prefixed(s, ps[0], 4);
            lemma_not_prefixed(s, ps[1], 7);
            lemma_not_prefixed(s, ps[2], 4);
        } else if j == 4 {
            lemma_not_prefixed(s, ps[0], 18);
            lemma_not_prefixed(s, ps[1], 4);
            lemma_not_prefixed(s, ps[2], 8);
            lemma_not_prefixed(s, ps[3], 4);
        } else if j == 5 {
            lemma_not_prefixed(s, ps[0], 4);
            lemma_not_prefixed(s, ps[1], 17);
            lemma_not_prefixed(s, ps[2], 4);
            lemma_not_prefixed(s, ps[3], 7);
            lemma_not_prefixed(s, ps[4], 4);
        } else if j == 6 {
            lemma_not_prefixed(s, ps[0], 8);
            lemma_not_prefixed(s, ps[1], 4);
            lemma_not_prefixed(s, ps[2], 22);
            lemma_not_prefixed(s, ps[3], 4);
            lemma_not_prefixed(s, ps[4], 8);
            lemma_not_prefixed(s, ps[5], 4);
        } else if j == 7 {
            lemma_not_prefixed(s, ps[0], 4);
            lemma_not_prefixed(s, ps[1], 7);
            lemma_not_prefixed(s, ps[2], 4);
            lemma_not_prefixed(s, ps[3], 21);
            lemma_not_prefixed(s, ps[4], 4);
            lemma_not_prefixed(s, ps[5], 7);
            lemma_not_prefixed(s, ps[6], 4);
        }
    assert(s.take(p.len() as int) =~= p);
    lemma_strip_at(s, ps, j);
    let c = s.skip(p.len() as int);
    assert(c =~= id + tail);
    if tail.len() == 0 {
        assert(c =~= id);
        assert(trim_end_matches(c, ".pdf"@) == id);
    } else {
        assert(ends_with(c, ".pdf"@)) by {
            assert(c.skip(c.len() - 4) =~= ".pdf"@);
        }
        assert(c.take(c.len() - 4) =~= id);
        assert(trim_end_matches(c, ".pdf"@) == trim_end_matches(id, ".pdf"@));
        assert(trim_end_matches(id, ".pdf"@) == id);
    }
}

/// An identifier that looks like one does not start with an `http://` or
/// `https://` URL prefix.
proof fn lemma_id_is_not_a_url(id: Seq<char>, q: Seq<char>)
    requires
        looks_like_spec(id),
        is_id_token(id),
        q.len() >= 8,
        q[0] == 'h' && q[1] == 't' && q[2] == 't' && q[3] == 'p',
        (q[4] == ':' && q[5] == '/' && q[6] == '/') || (q[4] == 's' && q[5] == ':' && q[6] == '/' && q[7]
            == '/'),
    ensures
        !starts_with(id, q),
{
    if starts_with(id, q) {
        lemma_id_end(id);
        assert forall|m: int| 0 <= m < q.len() implies id[m] == #[trigger] q[m] by {
            assert(id.take(q.len() as int)[m] == id[m]);
        }
        let w = if q[4] == ':' { 5int } else { 6int };
        assert(id[w] == '/');
        assert(has_char(id, '/'));
        lemma_index_of(id, '/');
        let i = index_of(id, '/');
        assert(i == w);
        let suffix = id.skip(i + 1);
        assert(suffix[0] == id[w + 1]);
        assert(id[w + 1] == '/');
    }
}

proof fn lemma_strip_none(s: Seq<char>, ps: Seq<Seq<char>>)
    requires
        forall|k: int| 0 <= k < ps.len() ==> !starts_with(s, #[trigger] ps[k]),
    ensures
        strip_first_prefix(s, ps) == s,
    decreases ps.len(),
{
    if ps.len() > 0 {
        assert(!starts_with(s, ps[0]));
        assert forall|k: int| 0 <= k < ps.len() - 1 implies !starts_with(s, #[trigger] ps.drop_first()[k]) by {
            assert(ps.drop_first()[k] == ps[k + 1]);
        }
        lemma_strip_none(s, ps.drop_first());
    }
}

/// A bare identifier names itself.
proof fn lemma_bare_id(id: Seq<char>)
    requires
        looks_like_spec(id),
        is_id_token(id),
    ensures
        extract_arxiv_id_spec(id) == Some(id),
{
    reveal_strlit("https://arxiv.org/abs/");
    reveal_strlit("http://arxiv.org/abs/");
    reveal_strlit("https://www.arxiv.org/abs/");
    reveal_strlit("http://www.arxiv.org/abs/");
    reveal_strlit("https://arxiv.org/pdf/");
    reveal_strlit("http://arxiv.org/pdf/");
    reveal_strlit("https://www.arxiv.org/pdf/");
    reveal_strlit("http://www.arxiv.org/pdf/");
    lemma_id_end(id);
    let ps = url_prefixes();
    assert forall|k: int| 0 <= k < ps.len() implies !starts_with(id, #[trigger] ps[k]) by {
        lemma_id_is_not_a_url(id, ps[k]);
    }
    lemma_strip_none(id, ps);
    reveal_strlit(".pdf");
    assert(trim_end_matches(id, ".pdf"@) == id);
}

/// An arXiv identifier is recognised whether it is given bare or behind any of the
/// eight abstract or PDF URL prefixes (`http` or `https`, with or without
/// `www.`, under `/abs/` or `/pdf/`), with or without a trailing `.pdf`.
pub proof fn law_url_forms_name_their_id(id: Seq<char>)
    requires
        looks_like_spec(id),
        is_id_token(id),
    ensures
        extract_arxiv_id_spec(id) == Some(id),
        extract_arxiv_id_spec("https://arxiv.org/abs/"@ + id) == Some(id),
        extract_arxiv_id_spec("http://arxiv.org/abs/"@ + id) == Some(id),
        extract_arxiv_id_spec("https://www.arxiv.org/abs/"@ + id) == Some(id),
        extract_arxiv_id_spec("http://www.arxiv.org/abs/"@ + id) == Some(id),
        extract_arxiv_id_spec("https://arxiv.org/pdf/"@ + id) == Some(id),
        extract_arxiv_id_spec("http://arxiv.org/pdf/"@ + id) == Some(id),
        extract_arxiv_id_spec("https://www.arxiv.org/pdf/"@ + id) == Some(id),
        extract_arxiv_id_spec("http://www.arxiv.org/pdf/"@ + id) == Some(id),
        extract_arxiv_id_spec("https://arxiv.org/pdf/"@ + id + ".pdf"@) == Some(id),
        extract_arxiv_id_spec("http://arxiv.org/pdf/"@ + id + ".pdf"@) == Some(id),
        extract_arxiv_id_spec("https://www.arxiv.org/pdf/"@ + id + ".pdf"@) == Some(id),
        extract_arxiv_id_spec("http://www.arxiv.org/pdf/"@ + id + ".pdf"@) == Some(id),
{
    let e = Seq::<char>::empty();
    let ps = url_prefixes();
    lemma_bare_id(id);
    lemma_prefixed_id(id, 0, e);
    assert(ps[0] + id + e =~= ps[0] + id);
    lemma_prefixed_id(id, 1, e);
    assert(ps[1] + id + e =~= ps[1] + id);
    lemma_prefixed_id(id, 2, e);
    assert(ps[2] + id + e =~= ps[2] + id);
    lemma_prefixed_id(id, 3, e);
    assert(ps[3] + id + e =~= ps[3] + id);
    lemma_prefixed_id(id, 4, e);
    assert(ps[4] + id + e =~= ps[4] + id);
    lemma_prefixed_id(id, 5, e);
    assert(ps[5] + id + e =~= ps[5] + id);
    lemma_prefixed_id(id, 6, e);
    assert(ps[6] + id + e =~= ps[6] + id);
    lemma_prefixed_id(id, 7, e);
    assert(ps[7] + id + e =~= ps[7] + id);
    lemma_prefixed_id(id, 4, ".pdf"@);
    lemma_prefixed_id(id, 5, ".pdf"@);
    lemma_prefixed_id(id, 6, ".pdf"@);
    lemma_prefixed_id(id, 7, ".pdf"@);
}

} // verus!
