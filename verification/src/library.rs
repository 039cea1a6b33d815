//! The reading list: which statuses an item may have, which requests are
//! accepted, how an update merges into a stored item, and how a page of items
//! is selected and reported.
use vstd::prelude::*;
use crate::error::{validation, AppError, ErrorKind};
use crate::text::{given_text, given_text_of, owned, str_eq, cat};
use crate::workflow::{clone_strs, opt_view};

verus! {

/// Adds a paper to the reading list.
pub struct SaveToLibraryRequest {
    pub paper_id: String,
    pub status: Option<String>,
    pub tags: Option<Vec<String>>,
    pub starred: Option<bool>,
}

/// Changes the status, tags or star of a reading-list item.
pub struct UpdateLibraryItemRequest {
    pub id: String,
    pub status: Option<String>,
    pub tags: Option<Vec<String>>,
    pub starred: Option<bool>,
}

/// A reading-list item as the front end shows it.
pub struct LibraryItemResponse {
    pub id: String,
    pub paper_id: String,
    pub title: String,
    pub status: String,
    pub tags: Vec<String>,
    pub starred: bool,
    pub updated_at: String,
}

/// The item that a save or an update left behind.
pub struct LibraryItemMutationResponse {
    pub item: LibraryItemResponse,
}

/// Asks for one page of the reading list, optionally filtered.
pub struct ListLibraryItemsRequest {
    pub status: Option<String>,
    pub keyword: Option<String>,
    pub page: usize,
    pub page_size: usize,
}

/// One page of the reading list.
pub struct ListLibraryItemsResponse {
    pub items: Vec<LibraryItemResponse>,
    pub page: usize,
    pub page_size: usize,
    pub has_more: bool,
}

/// The stored, editable part of a reading-list item.
pub struct LibraryEntry {
    pub status: String,
    pub tags: Vec<String>,
    pub starred: bool,
}

/// The statuses a reading-list item may have.
pub open spec fn is_library_status(s: Seq<char>) -> bool {
    s == "queued"@ || s == "reading"@ || s == "completed"@ || s == "archived"@
}

/// Whether an optional status is acceptable: absent, or one of the four.
pub open spec fn status_acceptable(status: Option<String>) -> bool {
    match status {
        None => true,
        Some(s) => is_library_status(s@),
    }
}

/// Checks an optional status (`validate_status`).
pub fn validate_status(status: &Option<String>) -> (r: Result<(), AppError>)
    ensures
        r is Ok <==> status_acceptable(*status),
        r matches Err(e) ==> e.is(ErrorKind::Validation, "invalid library status"@),
{
    match status {
        None => Ok(()),
        Some(s) => {
            if str_eq(s.as_str(), "queued") || str_eq(s.as_str(), "reading") || str_eq(
                s.as_str(),
                "completed",
            ) || str_eq(s.as_str(), "archived") {
                Ok(())
            } else {
                Err(validation("invalid library status"))
            }
        },
    }
}

/// Checks a save request: only its status can be wrong.
pub fn check_save_request(request: &SaveToLibraryRequest) -> (r: Result<(), AppError>)
    ensures
        r is Ok <==> status_acceptable(request.status),
        r matches Err(e) ==> e.is(ErrorKind::Validation, "invalid library status"@),
{
    validate_status(&request.status)
}

/// Whether an update request changes anything at all.
pub open spec fn update_touches_something(request: UpdateLibraryItemRequest) -> bool {
    request.status is Some || request.tags is Some || request.starred is Some
}

/// Checks an update request: the status first, then that at least one field
/// is given.
pub fn check_update_request(request: &UpdateLibraryItemRequest) -> (r: Result<(), AppError>)
    ensures
        r is Ok <==> status_acceptable(request.status) && update_touches_something(*request),
        r matches Err(e) ==> {
            if !status_acceptable(request.status) {
                e.is(ErrorKind::Validation, "invalid library status"@)
            } else {
                e.is(ErrorKind::Validation, "at least one field must be provided"@)
            }
        },
{
    validate_status(&request.status)?;
    if request.status.is_none() && request.tags.is_none() && request.starred.is_none() {
        return Err(validation("at least one field must be provided"));
    }
    Ok(())
}

/// Checks a list request: both the page and the page size must be positive.
pub fn check_list_request(request: &ListLibraryItemsRequest) -> (r: Result<(), AppError>)
    ensures
        r is Ok <==> request.page > 0 && request.page_size > 0,
        r matches Err(e) ==> e.is(ErrorKind::Validation, "page and pageSize must be positive"@),
{
    if request.page == 0 || request.page_size == 0 {
        return Err(validation("page and pageSize must be positive"));
    }
    Ok(())
}

/// The entry that a save stores: absent fields take their defaults, a
/// queued, untagged, unstarred item.
pub fn new_entry(request: &SaveToLibraryRequest) -> (e: LibraryEntry)
    ensures
        e.status@ == (match request.status {
            Some(s) => s@,
            None => "queued"@,
        }),
        e.tags@ == (match request.tags {
            Some(t) => t@,
            None => Seq::<String>::empty(),
        }),
        e.starred == (match request.starred {
            Some(b) => b,
            None => false,
        }),
{
    let status = match &request.status {
        Some(s) => s.clone(),
        None => owned("queued"),
    };
    let tags = match &request.tags {
        Some(t) => clone_strs(t),
        None => Vec::new(),
    };
    let starred = match request.starred {
        Some(b) => b,
        None => false,
    };
    LibraryEntry { status, tags, starred }
}

/// The stored fields of an entry: status, tags, star.
pub type EntryView = (Seq<char>, Seq<String>, bool);

impl View for LibraryEntry {
    type V = EntryView;

    open spec fn view(&self) -> EntryView {
        (self.status@, self.tags@, self.starred)
    }
}

/// The entry after an update: each given field replaces the stored one, each
/// absent field keeps it.
pub open spec fn merged_entry(existing: EntryView, request: UpdateLibraryItemRequest) -> EntryView {
    (
        match request.status {
            Some(s) => s@,
            None => existing.0,
        },
        match request.tags {
            Some(t) => t@,
            None => existing.1,
        },
        match request.starred {
            Some(b) => b,
            None => existing.2,
        },
    )
}

/// Merges an update into a stored entry.
pub fn merge_update(existing: LibraryEntry, request: &UpdateLibraryItemRequest) -> (e: LibraryEntry)
    ensures
        e@ == merged_entry(existing@, *request),
{
    let ghost old_view = existing@;
    let status = match &request.status {
        Some(s) => s.clone(),
        None => existing.status,
    };
    let tags = match &request.tags {
        Some(t) => clone_strs(t),
        None => existing.tags,
    };
    let starred = match request.starred {
        Some(b) => b,
        None => existing.starred,
    };
    let e = LibraryEntry { status, tags, starred };
    assert(e@ == merged_entry(old_view, *request));
    e
}

/// Checks that a paper can be saved: it must exist and not be saved yet.
pub fn check_can_save(paper_exists: bool, already_saved: bool) -> (r: Result<(), AppError>)
    ensures
        r is Ok <==> paper_exists && !already_saved,
        r matches Err(e) ==> {
            if !paper_exists {
                e.is(ErrorKind::NotFound, "paper not found"@)
            } else {
                e.is(ErrorKind::Validation, "paper is already saved to library"@)
            }
        },
{
    if !paper_exists {
        return Err(crate::error::not_found("paper not found"));
    }
    if already_saved {
        return Err(validation("paper is already saved to library"));
    }
    Ok(())
}

/// The number of items before the requested page.
pub open spec fn page_offset_spec(page: nat, page_size: nat) -> nat {
    if page == 0 {
        0
    } else {
        ((page - 1) as nat * page_size) as nat
    }
}

/// The number of items skipped before the requested page
/// (`page.saturating_sub(1) * page_size`).
pub fn page_offset(page: usize, page_size: usize) -> (r: usize)
    requires
        page_offset_spec(page as nat, page_size as nat) <= usize::MAX,
    ensures
        r == page_offset_spec(page as nat, page_size as nat),
{
    if page == 0 {
        0
    } else {
        (page - 1) * page_size
    }
}

/// The status filter and the keyword pattern of a list request: each
/// trimmed and dropped when empty; the keyword matches anywhere in a title
/// or abstract, so it is wrapped in `%`.
pub fn list_filters(request: &ListLibraryItemsRequest) -> (r: (Option<String>, Option<String>))
    ensures
        opt_view(r.0) == given_text(request.status),
        opt_view(r.1) == (match given_text(request.keyword) {
            Some(k) => Some("%"@ + k + "%"@),
            None => None,
        }),
{
    let status = given_text_of(&request.status);
    let keyword = match given_text_of(&request.keyword) {
        Some(t) => {
            let a = cat("%", t.as_str());
            Some(cat(a.as_str(), "%"))
        },
        None => None,
    };
    (status, keyword)
}

/// A page of items: there may be more when the page came back full.
pub fn list_response(items: Vec<LibraryItemResponse>, page: usize, page_size: usize) -> (r:
    ListLibraryItemsResponse)
    ensures
        r.items@ == items@,
        r.page == page,
        r.page_size == page_size,
        r.has_more == (items@.len() == page_size),
{
    let has_more = items.len() == page_size;
    ListLibraryItemsResponse { items, page, page_size, has_more }
}

/// Updating an item twice with the same request leaves it as updating it
/// once did.
pub proof fn law_update_is_idempotent(existing: EntryView, request: UpdateLibraryItemRequest)
    ensures
        merged_entry(merged_entry(existing, request), request) == merged_entry(existing, request),
{
}

/// An update that gives every field replaces the whole entry, whatever was
/// stored before.
pub proof fn law_full_update_replaces_entry(a: EntryView, b: EntryView, request: UpdateLibraryItemRequest)
    requires
        request.status is Some,
        request.tags is Some,
        request.starred is Some,
    ensures
        merged_entry(a, request) == merged_entry(b, request),
{
}

/// Consecutive pages do not overlap: page `p + 1` starts exactly where page
/// `p` ends.
pub proof fn law_pages_are_contiguous(page: nat, page_size: nat)
    requires
        page >= 1,
    ensures
        page_offset_spec(page + 1, page_size) == page_offset_spec(page, page_size) + page_size,
{
    assert(((page + 1 - 1) as nat * page_size) == ((page - 1) as nat * page_size) + page_size)
        by (nonlinear_arith)
        requires
            page >= 1,
    ;
}

/// An update changes exactly the fields it gives: a given status, tag list
/// or star replaces the stored one, and each absent one keeps its stored
/// value.
pub proof fn law_update_changes_only_given_fields(existing: EntryView, request: UpdateLibraryItemRequest)
    ensures
        request.status is None ==> merged_entry(existing, request).0 == existing.0,
        request.status matches Some(s) ==> merged_entry(existing, request).0 == s@,
        request.tags is None ==> merged_entry(existing, request).1 == existing.1,
        request.tags matches Some(t) ==> merged_entry(existing, request).1 == t@,
        request.starred is None ==> merged_entry(existing, request).2 == existing.2,
        request.starred matches Some(b) ==> merged_entry(existing, request).2 == b,
{
}

} // verus!
