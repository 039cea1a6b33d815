//! Saved model configurations: which are accepted, how their API key is kept,
//! what the front end is told about them, and which one a run uses.
use vstd::prelude::*;
use crate::error::{AppError, ErrorKind, not_found, validation};
use crate::model_api::StoredModelConfig;
use crate::text::{is_blank, is_blank_str, owned, str_eq};
use crate::workflow::opt_view;

verus! {

/// A new model configuration.
pub struct ModelConfigRequest {
    pub display_name: String,
    pub provider: String,
    pub base_url: String,
    pub model_name: String,
    pub api_key: String,
    pub api_type: Option<String>,
    pub image_input_format: Option<String>,
    pub agent_type: Option<String>,
    pub is_default: bool,
}

/// A changed model configuration.
pub struct UpdateModelConfigRequest {
    pub id: String,
    pub display_name: String,
    pub provider: String,
    pub base_url: String,
    pub model_name: String,
    pub api_key: String,
    pub api_type: Option<String>,
    pub image_input_format: Option<String>,
    pub agent_type: Option<String>,
    pub is_default: bool,
}

/// A model configuration as the front end lists it; the key is not shown.
pub struct ModelConfigResponse {
    pub id: String,
    pub display_name: String,
    pub provider: String,
    pub base_url: String,
    pub model_name: String,
    pub api_type: Option<String>,
    pub image_input_format: Option<String>,
    pub agent_type: Option<String>,
    pub is_default: bool,
    pub is_recent: bool,
    pub has_credential: bool,
    pub updated_at: String,
}

/// A model configuration with its key, for editing.
pub struct ModelConfigDetailResponse {
    pub id: String,
    pub display_name: String,
    pub provider: String,
    pub base_url: String,
    pub model_name: String,
    pub api_key: String,
    pub api_type: Option<String>,
    pub image_input_format: Option<String>,
    pub agent_type: Option<String>,
    pub is_default: bool,
    pub is_recent: bool,
    pub has_credential: bool,
    pub updated_at: String,
}

/// All saved configurations, and which one was used last.
pub struct ModelConfigListResponse {
    pub items: Vec<ModelConfigResponse>,
    pub recent_id: Option<String>,
}

/// Names a configuration to select or to show.
pub struct SelectModelConfigRequest {
    pub id: String,
}

/// Names a configuration to delete.
pub struct DeleteModelConfigRequest {
    pub id: String,
}

/// Whether the descriptive fields of a configuration all have content.
pub open spec fn fields_given(
    display_name: Seq<char>,
    provider: Seq<char>,
    base_url: Seq<char>,
    model_name: Seq<char>,
) -> bool {
    !is_blank(display_name) && !is_blank(provider) && !is_blank(base_url) && !is_blank(model_name)
}

/// Checks a new configuration: its fields, then its key.
pub fn check_new_config(request: &ModelConfigRequest) -> (r: Result<(), AppError>)
    ensures
        r is Ok <==> fields_given(
            request.display_name@,
            request.provider@,
            request.base_url@,
            request.model_name@,
        ) && !is_blank(request.api_key@),
        r matches Err(e) ==> {
            if !fields_given(
                request.display_name@,
                request.provider@,
                request.base_url@,
                request.model_name@,
            ) {
                e.is(
                    ErrorKind::Validation,
                    "displayName, provider, baseUrl, and modelName are required"@,
                )
            } else {
                e.is(ErrorKind::Validation, "apiKey is required when saving a model config"@)
            }
        },
{
    if is_blank_str(request.display_name.as_str()) || is_blank_str(request.provider.as_str())
        || is_blank_str(request.base_url.as_str()) || is_blank_str(request.model_name.as_str()) {
        return Err(validation("displayName, provider, baseUrl, and modelName are required"));
    }
    if is_blank_str(request.api_key.as_str()) {
        return Err(validation("apiKey is required when saving a model config"));
    }
    Ok(())
}

/// Checks a changed configuration: it must be named, and its fields given;
/// the key may stay as it is.
pub fn check_changed_config(request: &UpdateModelConfigRequest) -> (r: Result<(), AppError>)
    ensures
        r is Ok <==> !is_blank(request.id@) && fields_given(
            request.display_name@,
            request.provider@,
            request.base_url@,
            request.model_name@,
        ),
        r matches Err(e) ==> e.is(
            ErrorKind::Validation,
            "id, displayName, provider, baseUrl, and modelName are required"@,
        ),
{
    if is_blank_str(request.id.as_str()) || is_blank_str(request.display_name.as_str())
        || is_blank_str(request.provider.as_str()) || is_blank_str(request.base_url.as_str())
        || is_blank_str(request.model_name.as_str()) {
        return Err(validation("id, displayName, provider, baseUrl, and modelName are required"));
    }
    Ok(())
}

/// Checks the id of a configuration to show, select or delete.
pub fn check_config_id(id: &str) -> (r: Result<(), AppError>)
    ensures
        r is Ok <==> !is_blank(id@),
        r matches Err(e) ==> e.is(ErrorKind::Validation, "model config id is required"@),
{
    if is_blank_str(id) {
        return Err(validation("model config id is required"));
    }
    Ok(())
}

/// The key kept in the database beside the credential store: the submitted
/// key, unless it is blank.
pub fn key_fallback(api_key: &str) -> (r: Option<String>)
    ensures
        match r {
            Some(k) => !is_blank(api_key@) && k@ == api_key@,
            None => is_blank(api_key@),
        },
{
    if is_blank_str(api_key) {
        None
    } else {
        Some(owned(api_key))
    }
}

/// The reply to a saved configuration: it becomes the recent one, and it
/// has a credential when a key was given.
pub fn saved_config_response(request: &ModelConfigRequest, id: String, updated_at: String) -> (r:
    ModelConfigResponse)
    ensures
        r.id == id,
        r.display_name == request.display_name,
        r.provider == request.provider,
        r.base_url == request.base_url,
        r.model_name == request.model_name,
        r.api_type == request.api_type,
        r.image_input_format == request.image_input_format,
        r.agent_type == request.agent_type,
        r.is_default == request.is_default,
        r.is_recent,
        r.has_credential == (request.api_key@.len() > 0),
        r.updated_at == updated_at,
{
    ModelConfigResponse {
        id,
        display_name: request.display_name.clone(),
        provider: request.provider.clone(),
        base_url: request.base_url.clone(),
        model_name: request.model_name.clone(),
        api_type: request.api_type.clone(),
        image_input_format: request.image_input_format.clone(),
        agent_type: request.agent_type.clone(),
        is_default: request.is_default,
        is_recent: true,
        has_credential: request.api_key.unicode_len() > 0,
        updated_at,
    }
}

/// The key a configuration is used with: the one in the credential store,
/// else the stored fallback.
pub fn effective_key(stored: Option<String>, fallback: Option<String>) -> (r: Option<String>)
    ensures
        r == (match stored {
            Some(k) => Some(k),
            None => fallback,
        }),
{
    match stored {
        Some(k) => Some(k),
        None => fallback,
    }
}

/// The key shown for editing: the effective key, or nothing.
pub fn detail_key(stored: Option<String>, fallback: Option<String>) -> (r: (String, bool))
    ensures
        r.0@ == (match stored {
            Some(k) => k@,
            None => match fallback {
                Some(f) => f@,
                None => Seq::<char>::empty(),
            },
        }),
        r.1 == (r.0@.len() > 0),
{
    let key = match effective_key(stored, fallback) {
        Some(k) => k,
        None => String::new(),
    };
    let has = key.unicode_len() > 0;
    (key, has)
}

/// The configuration a run uses: the newest one made for its agent, else the
/// recent or default one.
pub fn runtime_config_choice(
    for_agent: Option<StoredModelConfig>,
    recent_or_default: Option<StoredModelConfig>,
) -> (r: Result<StoredModelConfig, AppError>)
    ensures
        match for_agent {
            Some(c) => r == Ok::<StoredModelConfig, AppError>(c),
            None => match recent_or_default {
                Some(c) => r == Ok::<StoredModelConfig, AppError>(c),
                None => r matches Err(e) && e.is(
                    ErrorKind::NotFound,
                    "no saved model config available for runtime execution"@,
                ),
            },
        },
{
    match for_agent {
        Some(c) => Ok(c),
        None => match recent_or_default {
            Some(c) => Ok(c),
            None => Err(not_found("no saved model config available for runtime execution")),
        },
    }
}

/// The id of the first recent configuration.
pub open spec fn recent_id_spec(items: Seq<ModelConfigResponse>) -> Option<Seq<char>>
    decreases items.len(),
{
    if items.len() == 0 {
        None
    } else if items[0].is_recent {
        Some(items[0].id@)
    } else {
        recent_id_spec(items.drop_first())
    }
}

/// The list of configurations, with the recent one named.
pub fn config_list(items: Vec<ModelConfigResponse>) -> (r: ModelConfigListResponse)
    ensures
        r.items@ == items@,
        opt_view(r.recent_id) == recent_id_spec(items@),
{
    let mut i: usize = 0;
    let mut found: Option<String> = None;
    assert(items@.skip(0) =~= items@);
    while i < items.len() && found.is_none()
        invariant
            i <= items@.len(),
            found is None ==> recent_id_spec(items@) == recent_id_spec(items@.skip(i as int)),
            found is Some ==> opt_view(found) == recent_id_spec(items@),
        decreases items@.len() - i,
    {
        proof {
            assert(items@.skip(i as int).drop_first() =~= items@.skip(i + 1));
            assert(items@.skip(i as int)[0] == items@[i as int]);
        }
        if items[i].is_recent {
            found = Some(items[i].id.clone());
        }
        i = i + 1;
    }
    proof {
        if found is None {
            assert(items@.skip(i as int) =~= Seq::<ModelConfigResponse>::empty());
        }
    }
    ModelConfigListResponse { items, recent_id: found }
}

/// The recent and default flags of a stored model configuration.
pub struct ConfigFlags {
    pub id: String,
    pub is_recent: bool,
    pub is_default: bool,
}

/// The flags of a stored configuration, its id as text.
pub struct FlagsView {
    pub id: Seq<char>,
    pub is_recent: bool,
    pub is_default: bool,
}

pub open spec fn flags_view(f: ConfigFlags) -> FlagsView {
    FlagsView { id: f.id@, is_recent: f.is_recent, is_default: f.is_default }
}

pub open spec fn flags_seq(rows: Seq<ConfigFlags>) -> Seq<FlagsView> {
    rows.map_values(|f: ConfigFlags| flags_view(f))
}

/// Whether a configuration with this id is stored.
pub open spec fn has_config(rows: Seq<FlagsView>, id: Seq<char>) -> bool {
    exists|i: int| 0 <= i < rows.len() && rows[i].id == id
}

/// Saving a configuration: a new default takes the default flag from every
/// other row, and the new row is the only recent one.
pub open spec fn saved_flags(rows: Seq<FlagsView>, id: Seq<char>, is_default: bool) -> Seq<FlagsView> {
    rows.map_values(
        |f: FlagsView|
            FlagsView {
                id: f.id,
                is_recent: false,
                is_default: if is_default {
                    false
                } else {
                    f.is_default
                },
            },
    ).push(FlagsView { id, is_recent: true, is_default })
}

/// Updating a configuration: a new default takes the default flag from every
/// other row (whether or not the updated row exists), the updated row gets
/// the flag it asks for, and the recent flags stay.
pub open spec fn updated_flags(rows: Seq<FlagsView>, id: Seq<char>, is_default: bool) -> Seq<FlagsView> {
    rows.map_values(
        |f: FlagsView|
            FlagsView {
                id: f.id,
                is_recent: f.is_recent,
                is_default: if f.id == id {
                    is_default
                } else if is_default {
                    false
                } else {
                    f.is_default
                },
            },
    )
}

/// Marking a configuration recent: it is the only recent row afterwards
/// (every other recent flag is cleared even when no row has the id).
pub open spec fn marked_recent_flags(rows: Seq<FlagsView>, id: Seq<char>) -> Seq<FlagsView> {
    rows.map_values(|f: FlagsView| FlagsView { id: f.id, is_recent: f.id == id, is_default: f.is_default })
}

/// Whether marking touches any row: the row with the id, or a recent one.
pub open spec fn mark_touches(rows: Seq<FlagsView>, id: Seq<char>) -> bool {
    exists|i: int| 0 <= i < rows.len() && (rows[i].id == id || rows[i].is_recent)
}

fn flag_row(id: &String, is_recent: bool, is_default: bool) -> (r: ConfigFlags)
    ensures
        flags_view(r) == (FlagsView { id: id@, is_recent, is_default }),
{
    ConfigFlags { id: id.clone(), is_recent, is_default }
}

/// The flags after saving a new configuration with id `id` (the decisions of
/// `ModelRepository::save`): the stored rows first, then the new row.
pub fn flags_after_save(rows: &Vec<ConfigFlags>, id: &str, is_default: bool) -> (r: Vec<ConfigFlags>)
    ensures
        flags_seq(r@) == saved_flags(flags_seq(rows@), id@, is_default),
{
    let mut out: Vec<ConfigFlags> = Vec::new();
    let mut i: usize = 0;
    while i < rows.len()
        invariant
            i <= rows@.len(),
            flags_seq(out@) == saved_flags(flags_seq(rows@), id@, is_default).take(i as int),
        decreases rows@.len() - i,
    {
        let d = if is_default {
            false
        } else {
            rows[i].is_default
        };
        let row = flag_row(&rows[i].id, false, d);
        let ghost before = out@;
        out.push(row);
        proof {
            assert(flags_seq(out@) =~= flags_seq(before).push(flags_view(row)));
            assert(saved_flags(flags_seq(rows@), id@, is_default).take(i + 1) =~= saved_flags(
                flags_seq(rows@),
                id@,
                is_default,
            ).take(i as int).push(flags_view(row)));
        }
        i = i + 1;
    }
    let ghost before = out@;
    let new_row = ConfigFlags { id: owned(id), is_recent: true, is_default };
    out.push(new_row);
    proof {
        assert(flags_seq(out@) =~= flags_seq(before).push(flags_view(new_row)));
        assert(saved_flags(flags_seq(rows@), id@, is_default).take(rows@.len() as int) =~= flags_seq(
            before,
        ));
        assert(flags_seq(out@) =~= saved_flags(flags_seq(rows@), id@, is_default));
    }
    out
}

/// The flags after updating configuration `id` (the decisions of
/// `ModelRepository::update`), and whether a row with that id is stored; the
/// update fails as not found when none is.
pub fn flags_after_update(rows: &Vec<ConfigFlags>, id: &str, is_default: bool) -> (r: (Vec<ConfigFlags>, bool))
    ensures
        flags_seq(r.0@) == updated_flags(flags_seq(rows@), id@, is_default),
        r.1 == has_config(flags_seq(rows@), id@),
{
    let mut out: Vec<ConfigFlags> = Vec::new();
    let mut found = false;
    let mut i: usize = 0;
    while i < rows.len()
        invariant
            i <= rows@.len(),
            flags_seq(out@) == updated_flags(flags_seq(rows@), id@, is_default).take(i as int),
            found == exists|j: int| 0 <= j < i && rows@[j].id@ == id@,
        decreases rows@.len() - i,
    {
        let same = str_eq(rows[i].id.as_str(), id);
        let d = if same {
            is_default
        } else if is_default {
            false
        } else {
            rows[i].is_default
        };
        let row = flag_row(&rows[i].id, rows[i].is_recent, d);
        let ghost before = out@;
        out.push(row);
        proof {
            assert(flags_seq(out@) =~= flags_seq(before).push(flags_view(row)));
            assert(updated_flags(flags_seq(rows@), id@, is_default).take(i + 1) =~= updated_flags(
                flags_seq(rows@),
                id@,
                is_default,
            ).take(i as int).push(flags_view(row)));
        }
        found = found || same;
        i = i + 1;
    }
    proof {
        assert(updated_flags(flags_seq(rows@), id@, is_default).take(rows@.len() as int) =~= updated_flags(
            flags_seq(rows@),
            id@,
            is_default,
        ));
        if has_config(flags_seq(rows@), id@) {
            let j = choose|j: int| 0 <= j < flags_seq(rows@).len() && flags_seq(rows@)[j].id == id@;
            assert(rows@[j].id@ == id@);
        }
        if found {
            let j = choose|j: int| 0 <= j < rows@.len() && rows@[j].id@ == id@;
            assert(flags_seq(rows@)[j].id == id@);
        }
    }
    (out, found)
}

/// The flags after marking configuration `id` recent (the decisions of
/// `ModelRepository::mark_recent`), and whether the marking touched a row:
/// when it touched none the configuration is not found.
pub fn flags_after_mark_recent(rows: &Vec<ConfigFlags>, id: &str) -> (r: (Vec<ConfigFlags>, bool))
    ensures
        flags_seq(r.0@) == marked_recent_flags(flags_seq(rows@), id@),
        r.1 == mark_touches(flags_seq(rows@), id@),
{
    let mut out: Vec<ConfigFlags> = Vec::new();
    let mut touched = false;
    let mut i: usize = 0;
    while i < rows.len()
        invariant
            i <= rows@.len(),
            flags_seq(out@) == marked_recent_flags(flags_seq(rows@), id@).take(i as int),
            touched == exists|j: int| 0 <= j < i && (rows@[j].id@ == id@ || rows@[j].is_recent),
        decreases rows@.len() - i,
    {
        let same = str_eq(rows[i].id.as_str(), id);
        let row = flag_row(&rows[i].id, same, rows[i].is_default);
        let ghost before = out@;
        out.push(row);
        proof {
            assert(flags_seq(out@) =~= flags_seq(before).push(flags_view(row)));
            assert(marked_recent_flags(flags_seq(rows@), id@).take(i + 1) =~= marked_recent_flags(
                flags_seq(rows@),
                id@,
            ).take(i as int).push(flags_view(row)));
        }
        touched = touched || same || rows[i].is_recent;
        i = i + 1;
    }
    proof {
        assert(marked_recent_flags(flags_seq(rows@), id@).take(rows@.len() as int) =~= marked_recent_flags(
            flags_seq(rows@),
            id@,
        ));
        if mark_touches(flags_seq(rows@), id@) {
            let j = choose|j: int|
                0 <= j < flags_seq(rows@).len() && (flags_seq(rows@)[j].id == id@ || flags_seq(
                    rows@,
                )[j].is_recent);
            assert(rows@[j].id@ == flags_seq(rows@)[j].id);
        }
        if touched {
            let j = choose|j: int| 0 <= j < rows@.len() && (rows@[j].id@ == id@ || rows@[j].is_recent);
            assert(flags_seq(rows@)[j] == flags_view(rows@[j]));
        }
    }
    (out, touched)
}

/// A saved configuration is the only recent one; a saved default is the
/// only default, and saving a configuration that is not the default leaves
/// the default flags of the stored ones as they were.
pub proof fn law_saved_config_is_the_only_recent(rows: Seq<FlagsView>, id: Seq<char>, is_default: bool)
    ensures
        ({
            let after = saved_flags(rows, id, is_default);
            &&& after.len() == rows.len() + 1
            &&& after.last() == (FlagsView { id, is_recent: true, is_default })
            &&& forall|i: int| 0 <= i < after.len() && (#[trigger] after[i]).is_recent ==> after[i].id == id
            &&& is_default ==> forall|i: int| 0 <= i < after.len() && (#[trigger] after[i]).is_default ==> after[i].id == id
            &&& !is_default ==> forall|i: int| 0 <= i < rows.len() ==> (#[trigger] after[i]).is_default == rows[i].is_default
        }),
{
}

/// After marking a configuration recent, it is the only recent one, and no
/// default flag changes.
pub proof fn law_marked_config_is_the_only_recent(rows: Seq<FlagsView>, id: Seq<char>)
    ensures
        ({
            let after = marked_recent_flags(rows, id);
            &&& after.len() == rows.len()
            &&& forall|i: int| 0 <= i < after.len() ==> ((#[trigger] after[i]).is_recent <==> after[i].id == id)
            &&& forall|i: int| 0 <= i < after.len() ==> (#[trigger] after[i]).is_default == rows[i].is_default
        }),
{
}

/// Updating a configuration to be the default leaves it the only default
/// among the rows with other ids; no recent flag changes.
pub proof fn law_updated_default_is_the_only_default(rows: Seq<FlagsView>, id: Seq<char>, is_default: bool)
    ensures
        ({
            let after = updated_flags(rows, id, is_default);
            &&& after.len() == rows.len()
            &&& is_default ==> forall|i: int| 0 <= i < after.len() ==> ((#[trigger] after[i]).is_default <==> after[i].id == id)
            &&& forall|i: int| 0 <= i < after.len() ==> (#[trigger] after[i]).is_recent == rows[i].is_recent
        }),
{
}

/// The recent flags after a deletion, the remaining rows newest first: when
/// the deleted row was the recent one, the newest remaining row becomes the
/// only recent one.
pub open spec fn recent_after_delete(rows: Seq<FlagsView>, was_recent: bool) -> Seq<bool> {
    Seq::new(rows.len(), |i: int| if was_recent { i == 0 } else { rows[i].is_recent })
}

/// The first index holding `true`, if any.
pub open spec fn first_true(bs: Seq<bool>) -> Option<int>
    decreases bs.len(),
{
    if bs.len() == 0 {
        None
    } else if bs.last() {
        match first_true(bs.drop_last()) {
            Some(k) => Some(k),
            None => Some(bs.len() - 1),
        }
    } else {
        first_true(bs.drop_last())
    }
}

/// The row that inherits the default flag of a deleted default: the newest
/// recent row, else the newest row.
pub open spec fn heir_of_default(rows: Seq<FlagsView>, was_recent: bool) -> int {
    match first_true(recent_after_delete(rows, was_recent)) {
        Some(k) => k,
        None => 0,
    }
}

/// Deleting a configuration (the decisions of `ModelRepository::delete`),
/// from the remaining rows newest first: the recent flag moves to the newest
/// row when the deleted one held it, and a deleted default passes its flag
/// on to the newest recent row (else the newest row); other flags stay.
pub open spec fn deleted_flags(rows: Seq<FlagsView>, was_recent: bool, was_default: bool) -> Seq<FlagsView> {
    Seq::new(
        rows.len(),
        |i: int|
            FlagsView {
                id: rows[i].id,
                is_recent: recent_after_delete(rows, was_recent)[i],
                is_default: rows[i].is_default || (was_default && i == heir_of_default(rows, was_recent)),
            },
    )
}

proof fn lemma_first_true(bs: Seq<bool>, n: int)
    requires
        0 <= n <= bs.len(),
    ensures
        first_true(bs.take(n)) matches Some(k) ==> 0 <= k < n && bs[k] && forall|j: int| 0 <= j < k ==> !bs[j],
        first_true(bs.take(n)) is None ==> forall|j: int| 0 <= j < n ==> !bs[j],
    decreases n,
{
    if n > 0 {
        lemma_first_true(bs, n - 1);
        assert(bs.take(n).drop_last() =~= bs.take(n - 1));
    }
}

/// The remaining flags after deleting a configuration, given the remaining
/// rows newest first, and whether the deleted one was recent or default.
pub fn flags_after_delete(rows: &Vec<ConfigFlags>, was_recent: bool, was_default: bool) -> (r: Vec<ConfigFlags>)
    ensures
        flags_seq(r@) == deleted_flags(flags_seq(rows@), was_recent, was_default),
{
    let ghost v = flags_seq(rows@);
    let ghost rec = recent_after_delete(v, was_recent);
    let mut heir: usize = 0;
    let mut found = false;
    let mut j: usize = 0;
    while j < rows.len()
        invariant
            j <= rows@.len(),
            v == flags_seq(rows@),
            rec == recent_after_delete(v, was_recent),
            first_true(rec.take(j as int)) == (if found {
                Some(heir as int)
            } else {
                None::<int>
            }),
            !found ==> heir == 0,
        decreases rows@.len() - j,
    {
        let r = if was_recent {
            j == 0
        } else {
            rows[j].is_recent
        };
        proof {
            assert(rec.take(j + 1).drop_last() =~= rec.take(j as int));
            assert(rec.take(j + 1).last() == r);
        }
        if r && !found {
            heir = j;
            found = true;
        }
        j = j + 1;
    }
    proof {
        assert(rec.take(rows@.len() as int) =~= rec);
    }
    let mut out: Vec<ConfigFlags> = Vec::new();
    let mut i: usize = 0;
    while i < rows.len()
        invariant
            i <= rows@.len(),
            v == flags_seq(rows@),
            heir as int == heir_of_default(v, was_recent),
            flags_seq(out@) == deleted_flags(v, was_recent, was_default).take(i as int),
        decreases rows@.len() - i,
    {
        let recent = if was_recent {
            i == 0
        } else {
            rows[i].is_recent
        };
        let row = flag_row(&rows[i].id, recent, rows[i].is_default || (was_default && i == heir));
        let ghost before = out@;
        out.push(row);
        proof {
            assert(flags_seq(out@) =~= flags_seq(before).push(flags_view(row)));
            assert(deleted_flags(v, was_recent, was_default).take(i + 1) =~= deleted_flags(
                v,
                was_recent,
                was_default,
            ).take(i as int).push(flags_view(row)));
        }
        i = i + 1;
    }
    proof {
        assert(deleted_flags(v, was_recent, was_default).take(rows@.len() as int) =~= deleted_flags(
            v,
            was_recent,
            was_default,
        ));
    }
    out
}

/// Deleting the recent configuration leaves exactly one recent one (the
/// newest) while any remain, and deleting the default leaves a default.
pub proof fn law_delete_keeps_a_recent_and_a_default(rows: Seq<FlagsView>, was_recent: bool, was_default: bool)
    requires
        rows.len() > 0,
    ensures
        ({
            let after = deleted_flags(rows, was_recent, was_default);
            &&& was_recent ==> forall|i: int| 0 <= i < after.len() ==> ((#[trigger] after[i]).is_recent <==> i == 0)
            &&& was_default ==> exists|i: int| 0 <= i < after.len() && (#[trigger] after[i]).is_default
            &&& forall|i: int| 0 <= i < after.len() ==> (#[trigger] after[i]).id == rows[i].id
        }),
{
    let rec = recent_after_delete(rows, was_recent);
    lemma_first_true(rec, rec.len() as int);
    assert(rec.take(rec.len() as int) =~= rec);
    let k = heir_of_default(rows, was_recent);
    assert(0 <= k < rows.len());
    let after = deleted_flags(rows, was_recent, was_default);
    if was_default {
        assert(after[k].is_default);
    }
}

/// An update gives the updated configuration exactly the default flag it
/// asks for (set or cleared); other rows lose their default flag only to a
/// new default, and keep their ids and recent flags.
pub proof fn law_update_sets_the_requested_default(rows: Seq<FlagsView>, id: Seq<char>, is_default: bool)
    ensures
        ({
            let after = updated_flags(rows, id, is_default);
            &&& after.len() == rows.len()
            &&& forall|i: int| 0 <= i < after.len() ==> (#[trigger] after[i]).id == rows[i].id
            &&& forall|i: int| 0 <= i < after.len() && (#[trigger] after[i]).id == id ==> after[i].is_default == is_default
            &&& forall|i: int| 0 <= i < after.len() && (#[trigger] after[i]).id != id && !is_default ==> after[i].is_default == rows[i].is_default
            &&& forall|i: int| 0 <= i < after.len() ==> (#[trigger] after[i]).is_recent == rows[i].is_recent
        }),
{
}

} // verus!
