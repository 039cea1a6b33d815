//! Bringing the database schema up to date: which upgrade steps an existing
//! database still needs, judged from the columns its tables already have.
use vstd::prelude::*;
use crate::text::str_eq;
use crate::workflow::strs_view;

verus! {

/// One step of bringing the schema up to date.
#[derive(Debug, Clone, Copy, PartialEq, Eq, Structural)]
pub enum MigrationStep {
    /// The initial tables (always run; the script is idempotent).
    InitialSchema,
    /// The indexes (always run; the script is idempotent).
    Indexes,
    ModelConfigKeyFallback,
    ModelConfigApiType,
    ModelConfigImageInputFormat,
    ModelConfigPresets,
    ProfileRepoOwner,
    ProfileRepoName,
    ProfileRepoBranch,
    ProfileRepoPathPrefix,
    ProfileCdnBaseUrl,
    ProfileTokenFallback,
    ArtifactFigureCount,
    ArtifactTableCount,
    ArtifactVisualEnabled,
    ArtifactVisualMode,
    ArtifactVisualSummaryCount,
    CreateVisualArtifacts,
    VisualCropSuccessCount,
    VisualCropFailedCount,
    VisualSampleCaption,
    VisualSampleSummary,
    VisualDiagnostics,
}

/// The columns of the tables that upgrades extend, read once the initial
/// schema is in place. `visual_artifacts` is `None` while that table does
/// not exist.
pub struct SchemaColumns {
    pub model_configs: Vec<String>,
    pub user_profiles: Vec<String>,
    pub parsed_paper_artifacts: Vec<String>,
    pub visual_artifacts: Option<Vec<String>>,
}

/// The steps that are always run first.
pub open spec fn base_steps() -> Seq<MigrationStep> {
    seq![MigrationStep::InitialSchema, MigrationStep::Indexes]
}

/// The steps that are always run first.
pub fn base_migrations() -> (r: Vec<MigrationStep>)
    ensures
        r@ == base_steps(),
{
    let mut v: Vec<MigrationStep> = Vec::new();
    v.push(MigrationStep::InitialSchema);
    v.push(MigrationStep::Indexes);
    assert(v@ =~= base_steps());
    v
}

/// `step` when `name` is missing from `cols`, else nothing.
pub open spec fn unless_has(cols: Seq<Seq<char>>, name: Seq<char>, step: MigrationStep) -> Seq<
    MigrationStep,
> {
    if cols.contains(name) {
        Seq::empty()
    } else {
        seq![step]
    }
}

/// The upgrades of the model configuration table. The presets script adds
/// both the display name and the recent flag, so it runs when either is
/// missing.
pub open spec fn model_config_steps(cols: Seq<Seq<char>>) -> Seq<MigrationStep> {
    unless_has(cols, "api_key_fallback"@, MigrationStep::ModelConfigKeyFallback) + unless_has(
        cols,
        "api_type"@,
        MigrationStep::ModelConfigApiType,
    ) + unless_has(cols, "image_input_format"@, MigrationStep::ModelConfigImageInputFormat) + (
    if cols.contains("display_name"@) && cols.contains("is_recent"@) {
        Seq::empty()
    } else {
        seq![MigrationStep::ModelConfigPresets]
    })
}

/// The upgrades of the profile table.
pub open spec fn profile_steps(cols: Seq<Seq<char>>) -> Seq<MigrationStep> {
    unless_has(cols, "github_repo_owner"@, MigrationStep::ProfileRepoOwner) + unless_has(
        cols,
        "github_repo_name"@,
        MigrationStep::ProfileRepoName,
    ) + unless_has(cols, "github_repo_branch"@, MigrationStep::ProfileRepoBranch) + unless_has(
        cols,
        "github_repo_path_prefix"@,
        MigrationStep::ProfileRepoPathPrefix,
    ) + unless_has(cols, "github_cdn_base_url"@, MigrationStep::ProfileCdnBaseUrl) + unless_has(
        cols,
        "github_token_fallback"@,
        MigrationStep::ProfileTokenFallback,
    )
}

/// The upgrades of the parsed artifact table.
pub open spec fn artifact_steps(cols: Seq<Seq<char>>) -> Seq<MigrationStep> {
    unless_has(cols, "figure_count"@, MigrationStep::ArtifactFigureCount) + unless_has(
        cols,
        "table_count"@,
        MigrationStep::ArtifactTableCount,
    ) + unless_has(cols, "visual_enabled"@, MigrationStep::ArtifactVisualEnabled) + unless_has(
        cols,
        "visual_mode"@,
        MigrationStep::ArtifactVisualMode,
    ) + unless_has(cols, "visual_summary_count"@, MigrationStep::ArtifactVisualSummaryCount)
}

/// The upgrades of the visual artifact table, once it exists.
pub open spec fn visual_column_steps(cols: Seq<Seq<char>>) -> Seq<MigrationStep> {
    unless_has(cols, "crop_success_count"@, MigrationStep::VisualCropSuccessCount) + unless_has(
        cols,
        "crop_failed_count"@,
        MigrationStep::VisualCropFailedCount,
    ) + unless_has(cols, "sample_caption"@, MigrationStep::VisualSampleCaption) + unless_has(
        cols,
        "sample_summary"@,
        MigrationStep::VisualSampleSummary,
    ) + unless_has(cols, "diagnostics_json"@, MigrationStep::VisualDiagnostics)
}

/// The columns the visual artifact table is created with.
pub open spec fn created_visual_columns() -> Seq<Seq<char>> {
    seq![
        "paper_id"@,
        "version"@,
        "asset_dir"@,
        "figure_count"@,
        "table_count"@,
        "visual_mode"@,
        "multimodal_interpreted"@,
        "warnings_json"@,
        "updated_at"@,
    ]
}

/// The steps for the visual artifact table: create it when it is missing,
/// then add the columns it lacks.
pub open spec fn visual_steps(cols: Option<Seq<Seq<char>>>) -> Seq<MigrationStep> {
    match cols {
        Some(c) => visual_column_steps(c),
        None => seq![MigrationStep::CreateVisualArtifacts] + visual_column_steps(
            created_visual_columns(),
        ),
    }
}

/// The upgrades a database still needs, in the order they are applied.
pub open spec fn upgrade_steps(
    model_configs: Seq<Seq<char>>,
    user_profiles: Seq<Seq<char>>,
    parsed_paper_artifacts: Seq<Seq<char>>,
    visual_artifacts: Option<Seq<Seq<char>>>,
) -> Seq<MigrationStep> {
    model_config_steps(model_configs) + profile_steps(user_profiles) + artifact_steps(
        parsed_paper_artifacts,
    ) + visual_steps(visual_artifacts)
}

/// The columns of the visual artifact table, if it exists.
pub open spec fn visual_view(cols: Option<Vec<String>>) -> Option<Seq<Seq<char>>> {
    match cols {
        Some(c) => Some(strs_view(c@)),
        None => None,
    }
}

/// Whether a table has a column.
pub fn has_column(cols: &Vec<String>, name: &str) -> (b: bool)
    ensures
        b == strs_view(cols@).contains(name@),
{
    let mut i: usize = 0;
    while i < cols.len()
        invariant
            i <= cols@.len(),
            forall|j: int| 0 <= j < i ==> (#[trigger] cols@[j])@ != name@,
        decreases cols@.len() - i,
    {
        if str_eq(cols[i].as_str(), name) {
            assert(strs_view(cols@)[i as int] == name@);
            return true;
        }
        i = i + 1;
    }
    proof {
        if strs_view(cols@).contains(name@) {
            let j = choose|j: int| 0 <= j < strs_view(cols@).len() && strs_view(cols@)[j] == name@;
            assert(cols@[j]@ == name@);
        }
    }
    false
}

fn push_unless(v: &mut Vec<MigrationStep>, cols: &Vec<String>, name: &str, step: MigrationStep)
    ensures
        final(v)@ == old(v)@ + unless_has(strs_view(cols@), name@, step),
{
    if has_column(cols, name) {
        assert(old(v)@ + unless_has(strs_view(cols@), name@, step) =~= old(v)@);
    } else {
        v.push(step);
        assert(final(v)@ =~= old(v)@ + unless_has(strs_view(cols@), name@, step));
    }
}

fn push_visual_columns(v: &mut Vec<MigrationStep>, cols: &Vec<String>)
    ensures
        final(v)@ == old(v)@ + visual_column_steps(strs_view(cols@)),
{
    let ghost c = strs_view(cols@);
    push_unless(v, cols, "crop_success_count", MigrationStep::VisualCropSuccessCount);
    push_unless(v, cols, "crop_failed_count", MigrationStep::VisualCropFailedCount);
    push_unless(v, cols, "sample_caption", MigrationStep::VisualSampleCaption);
    push_unless(v, cols, "sample_summary", MigrationStep::VisualSampleSummary);
    push_unless(v, cols, "diagnostics_json", MigrationStep::VisualDiagnostics);
    assert(final(v)@ =~= old(v)@ + visual_column_steps(c));
}

fn push_model_config_steps(v: &mut Vec<MigrationStep>, m: &Vec<String>)
    ensures
        final(v)@ == old(v)@ + model_config_steps(strs_view(m@)),
{
    push_unless(v, m, "api_key_fallback", MigrationStep::ModelConfigKeyFallback);
    push_unless(v, m, "api_type", MigrationStep::ModelConfigApiType);
    push_unless(v, m, "image_input_format", MigrationStep::ModelConfigImageInputFormat);
    if !(has_column(m, "display_name") && has_column(m, "is_recent")) {
        v.push(MigrationStep::ModelConfigPresets);
    }
    assert(final(v)@ =~= old(v)@ + model_config_steps(strs_view(m@)));
}

fn push_profile_steps(v: &mut Vec<MigrationStep>, p: &Vec<String>)
    ensures
        final(v)@ == old(v)@ + profile_steps(strs_view(p@)),
{
    push_unless(v, p, "github_repo_owner", MigrationStep::ProfileRepoOwner);
    push_unless(v, p, "github_repo_name", MigrationStep::ProfileRepoName);
    push_unless(v, p, "github_repo_branch", MigrationStep::ProfileRepoBranch);
    push_unless(v, p, "github_repo_path_prefix", MigrationStep::ProfileRepoPathPrefix);
    push_unless(v, p, "github_cdn_base_url", MigrationStep::ProfileCdnBaseUrl);
    push_unless(v, p, "github_token_fallback", MigrationStep::ProfileTokenFallback);
    assert(final(v)@ =~= old(v)@ + profile_steps(strs_view(p@)));
}

fn push_artifact_steps(v: &mut Vec<MigrationStep>, a: &Vec<String>)
    ensures
        final(v)@ == old(v)@ + artifact_steps(strs_view(a@)),
{
    push_unless(v, a, "figure_count", MigrationStep::ArtifactFigureCount);
    push_unless(v, a, "table_count", MigrationStep::ArtifactTableCount);
    push_unless(v, a, "visual_enabled", MigrationStep::ArtifactVisualEnabled);
    push_unless(v, a, "visual_mode", MigrationStep::ArtifactVisualMode);
    push_unless(v, a, "visual_summary_count", MigrationStep::ArtifactVisualSummaryCount);
    assert(final(v)@ =~= old(v)@ + artifact_steps(strs_view(a@)));
}

fn push_visual_steps(v: &mut Vec<MigrationStep>, cols: &Option<Vec<String>>)
    ensures
        final(v)@ == old(v)@ + visual_steps(visual_view(*cols)),
{
    match cols {
        Some(c) => {
            push_visual_columns(v, c);
        },
        None => {
            v.push(MigrationStep::CreateVisualArtifacts);
            let mut created: Vec<String> = Vec::new();
            created.push(crate::text::owned("paper_id"));
            created.push(crate::text::owned("version"));
            created.push(crate::text::owned("asset_dir"));
            created.push(crate::text::owned("figure_count"));
            created.push(crate::text::owned("table_count"));
            created.push(crate::text::owned("visual_mode"));
            created.push(crate::text::owned("multimodal_interpreted"));
            created.push(crate::text::owned("warnings_json"));
            created.push(crate::text::owned("updated_at"));
            assert(strs_view(created@) =~= created_visual_columns());
            push_visual_columns(v, &created);
            assert(final(v)@ =~= old(v)@ + visual_steps(visual_view(*cols)));
        },
    }
}

/// The upgrades a database still needs (the decisions of `run_migrations`).
pub fn upgrade_plan(columns: &SchemaColumns) -> (r: Vec<MigrationStep>)
    ensures
        r@ == upgrade_steps(
            strs_view(columns.model_configs@),
            strs_view(columns.user_profiles@),
            strs_view(columns.parsed_paper_artifacts@),
            visual_view(columns.visual_artifacts),
        ),
{
    let mut v: Vec<MigrationStep> = Vec::new();
    push_model_config_steps(&mut v, &columns.model_configs);
    push_profile_steps(&mut v, &columns.user_profiles);
    push_artifact_steps(&mut v, &columns.parsed_paper_artifacts);
    push_visual_steps(&mut v, &columns.visual_artifacts);
    assert(v@ =~= upgrade_steps(
        strs_view(columns.model_configs@),
        strs_view(columns.user_profiles@),
        strs_view(columns.parsed_paper_artifacts@),
        visual_view(columns.visual_artifacts),
    ));
    v
}

/// A database that already has every column needs no upgrade: running the
/// upgrades is idempotent.
pub proof fn law_complete_schema_needs_nothing(
    model_configs: Seq<Seq<char>>,
    user_profiles: Seq<Seq<char>>,
    parsed_paper_artifacts: Seq<Seq<char>>,
    visual_artifacts: Seq<Seq<char>>,
)
    requires
        model_configs.contains("api_key_fallback"@),
        model_configs.contains("api_type"@),
        model_configs.contains("image_input_format"@),
        model_configs.contains("display_name"@),
        model_configs.contains("is_recent"@),
        user_profiles.contains("github_repo_owner"@),
        user_profiles.contains("github_repo_name"@),
        user_profiles.contains("github_repo_branch"@),
        user_profiles.contains("github_repo_path_prefix"@),
        user_profiles.contains("github_cdn_base_url"@),
        user_profiles.contains("github_token_fallback"@),
        parsed_paper_artifacts.contains("figure_count"@),
        parsed_paper_artifacts.contains("table_count"@),
        parsed_paper_artifacts.contains("visual_enabled"@),
        parsed_paper_artifacts.contains("visual_mode"@),
        parsed_paper_artifacts.contains("visual_summary_count"@),
        visual_artifacts.contains("crop_success_count"@),
        visual_artifacts.contains("crop_failed_count"@),
        visual_artifacts.contains("sample_caption"@),
        visual_artifacts.contains("sample_summary"@),
        visual_artifacts.contains("diagnostics_json"@),
    ensures
        upgrade_steps(
            model_configs,
            user_profiles,
            parsed_paper_artifacts,
            Some(visual_artifacts),
        ).len() == 0,
{
}

proof fn lemma_absent_by_length(cols: Seq<Seq<char>>, name: Seq<char>)
    requires
        forall|i: int| 0 <= i < cols.len() ==> (#[trigger] cols[i]).len() != name.len(),
    ensures
        !cols.contains(name),
{
    if cols.contains(name) {
        let i = choose|i: int| 0 <= i < cols.len() && cols[i] == name;
        assert(cols[i].len() == name.len());
    }
}

/// A missing visual artifact table is created, and then given all five
/// later columns.
pub proof fn law_missing_visual_table_is_created()
    ensures
        visual_steps(None) == seq![
            MigrationStep::CreateVisualArtifacts,
            MigrationStep::VisualCropSuccessCount,
            MigrationStep::VisualCropFailedCount,
            MigrationStep::VisualSampleCaption,
            MigrationStep::VisualSampleSummary,
            MigrationStep::VisualDiagnostics,
        ],
{
    reveal_strlit("paper_id");
    reveal_strlit("version");
    reveal_strlit("asset_dir");
    reveal_strlit("figure_count");
    reveal_strlit("table_count");
    reveal_strlit("visual_mode");
    reveal_strlit("multimodal_interpreted");
    reveal_strlit("warnings_json");
    reveal_strlit("updated_at");
    reveal_strlit("crop_success_count");
    reveal_strlit("crop_failed_count");
    reveal_strlit("sample_caption");
    reveal_strlit("sample_summary");
    reveal_strlit("diagnostics_json");
    let c = created_visual_columns();
    lemma_absent_by_length(c, "crop_success_count"@);
    lemma_absent_by_length(c, "crop_failed_count"@);
    lemma_absent_by_length(c, "sample_caption"@);
    lemma_absent_by_length(c, "sample_summary"@);
    lemma_absent_by_length(c, "diagnostics_json"@);
    assert(visual_steps(None) =~= seq![
        MigrationStep::CreateVisualArtifacts,
        MigrationStep::VisualCropSuccessCount,
        MigrationStep::VisualCropFailedCount,
        MigrationStep::VisualSampleCaption,
        MigrationStep::VisualSampleSummary,
        MigrationStep::VisualDiagnostics,
    ]);
}

} // verus!

verus! {

/// The tables that upgrades extend.
#[derive(PartialEq, Eq, Structural)]
pub enum SchemaTable {
    ModelConfigs,
    UserProfiles,
    ParsedArtifacts,
    VisualArtifacts,
}

/// The columns of the tables that upgrades extend; `visual_artifacts` is
/// `None` while that table does not exist.
pub struct SchemaView {
    pub model_configs: Seq<Seq<char>>,
    pub user_profiles: Seq<Seq<char>>,
    pub parsed_paper_artifacts: Seq<Seq<char>>,
    pub visual_artifacts: Option<Seq<Seq<char>>>,
}

/// The columns of a table (none for a table that does not exist).
pub open spec fn table_cols(s: SchemaView, t: SchemaTable) -> Seq<Seq<char>> {
    match t {
        SchemaTable::ModelConfigs => s.model_configs,
        SchemaTable::UserProfiles => s.user_profiles,
        SchemaTable::ParsedArtifacts => s.parsed_paper_artifacts,
        SchemaTable::VisualArtifacts => match s.visual_artifacts {
            Some(c) => c,
            None => Seq::empty(),
        },
    }
}

/// The table a column step alters and the columns it adds; `None` for the
/// steps that add no column (the initial schema, the indexes, and the
/// creation of the visual artifact table).
pub open spec fn step_columns(step: MigrationStep) -> Option<(SchemaTable, Seq<Seq<char>>)> {
    match step {
        MigrationStep::InitialSchema => None,
        MigrationStep::Indexes => None,
        MigrationStep::CreateVisualArtifacts => None,
        MigrationStep::ModelConfigKeyFallback => Some((SchemaTable::ModelConfigs, seq!["api_key_fallback"@])),
        MigrationStep::ModelConfigApiType => Some((SchemaTable::ModelConfigs, seq!["api_type"@])),
        MigrationStep::ModelConfigImageInputFormat => Some(
            (SchemaTable::ModelConfigs, seq!["image_input_format"@]),
        ),
        MigrationStep::ModelConfigPresets => Some(
            (SchemaTable::ModelConfigs, seq!["display_name"@, "is_recent"@]),
        ),
        MigrationStep::ProfileRepoOwner => Some((SchemaTable::UserProfiles, seq!["github_repo_owner"@])),
        MigrationStep::ProfileRepoName => Some((SchemaTable::UserProfiles, seq!["github_repo_name"@])),
        MigrationStep::ProfileRepoBranch => Some((SchemaTable::UserProfiles, seq!["github_repo_branch"@])),
        MigrationStep::ProfileRepoPathPrefix => Some(
            (SchemaTable::UserProfiles, seq!["github_repo_path_prefix"@]),
        ),
        MigrationStep::ProfileCdnBaseUrl => Some((SchemaTable::UserProfiles, seq!["github_cdn_base_url"@])),
        MigrationStep::ProfileTokenFallback => Some(
            (SchemaTable::UserProfiles, seq!["github_token_fallback"@]),
        ),
        MigrationStep::ArtifactFigureCount => Some((SchemaTable::ParsedArtifacts, seq!["figure_count"@])),
        MigrationStep::ArtifactTableCount => Some((SchemaTable::ParsedArtifacts, seq!["table_count"@])),
        MigrationStep::ArtifactVisualEnabled => Some((SchemaTable::ParsedArtifacts, seq!["visual_enabled"@])),
        MigrationStep::ArtifactVisualMode => Some((SchemaTable::ParsedArtifacts, seq!["visual_mode"@])),
        MigrationStep::ArtifactVisualSummaryCount => Some(
            (SchemaTable::ParsedArtifacts, seq!["visual_summary_count"@]),
        ),
        MigrationStep::VisualCropSuccessCount => Some(
            (SchemaTable::VisualArtifacts, seq!["crop_success_count"@]),
        ),
        MigrationStep::VisualCropFailedCount => Some((SchemaTable::VisualArtifacts, seq!["crop_failed_count"@])),
        MigrationStep::VisualSampleCaption => Some((SchemaTable::VisualArtifacts, seq!["sample_caption"@])),
        MigrationStep::VisualSampleSummary => Some((SchemaTable::VisualArtifacts, seq!["sample_summary"@])),
        MigrationStep::VisualDiagnostics => Some((SchemaTable::VisualArtifacts, seq!["diagnostics_json"@])),
    }
}

/// A schema with columns added to one table (to the visual artifact table
/// only where it exists).
pub open spec fn add_columns(s: SchemaView, t: SchemaTable, names: Seq<Seq<char>>) -> SchemaView {
    match t {
        SchemaTable::ModelConfigs => SchemaView { model_configs: s.model_configs + names, ..s },
        SchemaTable::UserProfiles => SchemaView { user_profiles: s.user_profiles + names, ..s },
        SchemaTable::ParsedArtifacts => SchemaView {
            parsed_paper_artifacts: s.parsed_paper_artifacts + names,
            ..s
        },
        SchemaTable::VisualArtifacts => SchemaView {
            visual_artifacts: match s.visual_artifacts {
                Some(c) => Some(c + names),
                None => None,
            },
            ..s
        },
    }
}

/// The schema after one step: a column step adds the columns it is named
/// for, the creation of the visual artifact table creates it with its first
/// columns, and the other steps leave the columns as they are.
pub open spec fn apply_step(s: SchemaView, step: MigrationStep) -> SchemaView {
    if step == MigrationStep::CreateVisualArtifacts {
        SchemaView { visual_artifacts: Some(created_visual_columns()), ..s }
    } else {
        match step_columns(step) {
            Some((t, names)) => add_columns(s, t, names),
            None => s,
        }
    }
}

/// The schema after the steps, in order.
pub open spec fn apply_steps(s: SchemaView, steps: Seq<MigrationStep>) -> SchemaView
    decreases steps.len(),
{
    if steps.len() == 0 {
        s
    } else {
        apply_steps(apply_step(s, steps[0]), steps.drop_first())
    }
}

/// The upgrades a schema still needs.
pub open spec fn plan_of(s: SchemaView) -> Seq<MigrationStep> {
    upgrade_steps(s.model_configs, s.user_profiles, s.parsed_paper_artifacts, s.visual_artifacts)
}

/// Every column of `a` is a column of `b`.
pub open spec fn grows(a: Seq<Seq<char>>, b: Seq<Seq<char>>) -> bool {
    forall|x: Seq<char>| #[trigger] a.contains(x) ==> b.contains(x)
}

proof fn lemma_apply_concat(s: SchemaView, a: Seq<MigrationStep>, b: Seq<MigrationStep>)
    ensures
        apply_steps(s, a + b) == apply_steps(apply_steps(s, a), b),
    decreases a.len(),
{
    if a.len() == 0 {
        assert(a + b =~= b);
    } else {
        assert((a + b).drop_first() =~= a.drop_first() + b);
        assert((a + b)[0] == a[0]);
        lemma_apply_concat(apply_step(s, a[0]), a.drop_first(), b);
    }
}

proof fn lemma_append_grows(a: Seq<Seq<char>>, names: Seq<Seq<char>>)
    ensures
        grows(a, a + names),
        forall|i: int| 0 <= i < names.len() ==> (a + names).contains(#[trigger] names[i]),
{
    assert forall|x: Seq<char>| #[trigger] a.contains(x) implies (a + names).contains(x) by {
        let i = choose|i: int| 0 <= i < a.len() && a[i] == x;
        assert((a + names)[i] == x);
    }
    assert forall|i: int| 0 <= i < names.len() implies (a + names).contains(#[trigger] names[i]) by {
        assert((a + names)[a.len() + i] == names[i]);
    }
}

/// One step that adds `names` to table `t` (which exists): the table grows
/// by them, and the other tables keep their columns.
proof fn lemma_column_step(s: SchemaView, step: MigrationStep, t: SchemaTable, names: Seq<Seq<char>>)
    requires
        step_columns(step) == Some((t, names)),
        t == SchemaTable::VisualArtifacts ==> s.visual_artifacts is Some,
    ensures
        ({
            let r = apply_steps(s, seq![step]);
            &&& grows(table_cols(s, t), table_cols(r, t))
            &&& forall|i: int| 0 <= i < names.len() ==> table_cols(r, t).contains(#[trigger] names[i])
            &&& forall|u: SchemaTable| u != t ==> #[trigger] table_cols(r, u) == table_cols(s, u)
            &&& (r.visual_artifacts is Some <==> s.visual_artifacts is Some)
        }),
{
    assert(seq![step].drop_first() =~= Seq::<MigrationStep>::empty());
    assert(step != MigrationStep::CreateVisualArtifacts);
    let r = apply_steps(s, seq![step]);
    assert(seq![step][0] == step);
    assert(apply_steps(apply_step(s, step), Seq::<MigrationStep>::empty()) == apply_step(s, step));
    assert(r == apply_step(s, step));
    assert(r == add_columns(s, t, names));
    assert(table_cols(r, t) == table_cols(s, t) + names);
    lemma_append_grows(table_cols(s, t), names);
}

/// A step taken only when a column is missing: afterwards the table has the
/// column, keeps what it had, and no other table changes.
proof fn lemma_unless(s: SchemaView, cols: Seq<Seq<char>>, name: Seq<char>, step: MigrationStep, t: SchemaTable)
    requires
        step_columns(step) == Some((t, seq![name])),
        t == SchemaTable::VisualArtifacts ==> s.visual_artifacts is Some,
        grows(cols, table_cols(s, t)),
    ensures
        ({
            let r = apply_steps(s, unless_has(cols, name, step));
            &&& grows(table_cols(s, t), table_cols(r, t))
            &&& table_cols(r, t).contains(name)
            &&& forall|u: SchemaTable| u != t ==> #[trigger] table_cols(r, u) == table_cols(s, u)
            &&& (r.visual_artifacts is Some <==> s.visual_artifacts is Some)
        }),
{
    if cols.contains(name) {
        assert(unless_has(cols, name, step) =~= Seq::<MigrationStep>::empty());
    } else {
        lemma_column_step(s, step, t, seq![name]);
        assert(seq![name][0] == name);
    }
}

proof fn lemma_grows_trans(a: Seq<Seq<char>>, b: Seq<Seq<char>>, c: Seq<Seq<char>>)
    requires
        grows(a, b),
        grows(b, c),
    ensures
        grows(a, c),
{
}

/// Table `t` of `x` has every column of `c`, and `x` agrees with `s0` on
/// the other tables and on whether the visual artifact table exists.
pub open spec fn kept(s0: SchemaView, x: SchemaView, t: SchemaTable, c: Seq<Seq<char>>) -> bool {
    &&& grows(c, table_cols(x, t))
    &&& forall|u: SchemaTable| u != t ==> #[trigger] table_cols(x, u) == table_cols(s0, u)
    &&& (x.visual_artifacts is Some <==> s0.visual_artifacts is Some)
}

proof fn lemma_link(
    s0: SchemaView,
    acc: Seq<MigrationStep>,
    c: Seq<Seq<char>>,
    name: Seq<char>,
    step: MigrationStep,
    t: SchemaTable,
)
    requires
        step_columns(step) == Some((t, seq![name])),
        t == SchemaTable::VisualArtifacts ==> s0.visual_artifacts is Some,
        kept(s0, apply_steps(s0, acc), t, c),
    ensures
        ({
            let x = apply_steps(s0, acc);
            let y = apply_steps(s0, acc + unless_has(c, name, step));
            &&& kept(s0, y, t, c)
            &&& grows(table_cols(x, t), table_cols(y, t))
            &&& table_cols(y, t).contains(name)
        }),
{
    let x = apply_steps(s0, acc);
    lemma_apply_concat(s0, acc, unless_has(c, name, step));
    lemma_unless(x, c, name, step, t);
    let y = apply_steps(s0, acc + unless_has(c, name, step));
    lemma_grows_trans(c, table_cols(x, t), table_cols(y, t));
}

proof fn lemma_model_config_group(s: SchemaView)
    ensures
        ({
            let r = apply_steps(s, model_config_steps(s.model_configs));
            &&& kept(s, r, SchemaTable::ModelConfigs, s.model_configs)
            &&& r.model_configs.contains("api_key_fallback"@)
            &&& r.model_configs.contains("api_type"@)
            &&& r.model_configs.contains("image_input_format"@)
            &&& r.model_configs.contains("display_name"@)
            &&& r.model_configs.contains("is_recent"@)
        }),
{
    let t = SchemaTable::ModelConfigs;
    let c = s.model_configs;
    let e = Seq::<MigrationStep>::empty();
    let a1 = unless_has(c, "api_key_fallback"@, MigrationStep::ModelConfigKeyFallback);
    let a2 = unless_has(c, "api_type"@, MigrationStep::ModelConfigApiType);
    let a3 = unless_has(c, "image_input_format"@, MigrationStep::ModelConfigImageInputFormat);
    let p = if c.contains("display_name"@) && c.contains("is_recent"@) {
        Seq::<MigrationStep>::empty()
    } else {
        seq![MigrationStep::ModelConfigPresets]
    };
    assert(e + a1 =~= a1);
    assert(apply_steps(s, e) == s);
    lemma_link(s, e, c, "api_key_fallback"@, MigrationStep::ModelConfigKeyFallback, t);
    lemma_link(s, a1, c, "api_type"@, MigrationStep::ModelConfigApiType, t);
    lemma_link(s, a1 + a2, c, "image_input_format"@, MigrationStep::ModelConfigImageInputFormat, t);
    let x1 = apply_steps(s, a1);
    let x2 = apply_steps(s, a1 + a2);
    let x3 = apply_steps(s, a1 + a2 + a3);
    lemma_grows_trans(x1.model_configs, x2.model_configs, x3.model_configs);
    assert(model_config_steps(c) == a1 + a2 + a3 + p);
    lemma_apply_concat(s, a1 + a2 + a3, p);
    let r = apply_steps(s, a1 + a2 + a3 + p);
    if c.contains("display_name"@) && c.contains("is_recent"@) {
        assert(p =~= Seq::<MigrationStep>::empty());
        assert(apply_steps(x3, p) == x3);
    } else {
        lemma_column_step(x3, MigrationStep::ModelConfigPresets, t, seq!["display_name"@, "is_recent"@]);
        assert(seq!["display_name"@, "is_recent"@][0] == "display_name"@);
        assert(seq!["display_name"@, "is_recent"@][1] == "is_recent"@);
        lemma_grows_trans(c, x3.model_configs, r.model_configs);
    }
}

proof fn lemma_profile_group(s: SchemaView, c: Seq<Seq<char>>)
    requires
        grows(c, table_cols(s, SchemaTable::UserProfiles)),
    ensures
        ({
            let r = apply_steps(s, profile_steps(c));
            &&& kept(s, r, SchemaTable::UserProfiles, c)
            &&& table_cols(r, SchemaTable::UserProfiles).contains("github_repo_owner"@)
            &&& table_cols(r, SchemaTable::UserProfiles).contains("github_repo_name"@)
            &&& table_cols(r, SchemaTable::UserProfiles).contains("github_repo_branch"@)
            &&& table_cols(r, SchemaTable::UserProfiles).contains("github_repo_path_prefix"@)
            &&& table_cols(r, SchemaTable::UserProfiles).contains("github_cdn_base_url"@)
            &&& table_cols(r, SchemaTable::UserProfiles).contains("github_token_fallback"@)
        }),
{
    let t = SchemaTable::UserProfiles;
    let e = Seq::<MigrationStep>::empty();
    let a0 = unless_has(c, "github_repo_owner"@, MigrationStep::ProfileRepoOwner);
    let a1 = unless_has(c, "github_repo_name"@, MigrationStep::ProfileRepoName);
    let a2 = unless_has(c, "github_repo_branch"@, MigrationStep::ProfileRepoBranch);
    let a3 = unless_has(c, "github_repo_path_prefix"@, MigrationStep::ProfileRepoPathPrefix);
    let a4 = unless_has(c, "github_cdn_base_url"@, MigrationStep::ProfileCdnBaseUrl);
    let a5 = unless_has(c, "github_token_fallback"@, MigrationStep::ProfileTokenFallback);
    assert(apply_steps(s, e) == s);
    lemma_link(s, e, c, "github_repo_owner"@, MigrationStep::ProfileRepoOwner, t);
    assert(e + a0 =~= a0);
    let x0 = apply_steps(s, a0);
    lemma_link(s, a0, c, "github_repo_name"@, MigrationStep::ProfileRepoName, t);
    let x1 = apply_steps(s, a0 + a1);
    lemma_link(s, a0 + a1, c, "github_repo_branch"@, MigrationStep::ProfileRepoBranch, t);
    let x2 = apply_steps(s, a0 + a1 + a2);
    lemma_link(s, a0 + a1 + a2, c, "github_repo_path_prefix"@, MigrationStep::ProfileRepoPathPrefix, t);
    let x3 = apply_steps(s, a0 + a1 + a2 + a3);
    lemma_link(s, a0 + a1 + a2 + a3, c, "github_cdn_base_url"@, MigrationStep::ProfileCdnBaseUrl, t);
    let x4 = apply_steps(s, a0 + a1 + a2 + a3 + a4);
    lemma_link(s, a0 + a1 + a2 + a3 + a4, c, "github_token_fallback"@, MigrationStep::ProfileTokenFallback, t);
    let x5 = apply_steps(s, a0 + a1 + a2 + a3 + a4 + a5);
    lemma_grows_trans(table_cols(x3, t), table_cols(x4, t), table_cols(x5, t));
    lemma_grows_trans(table_cols(x2, t), table_cols(x3, t), table_cols(x5, t));
    lemma_grows_trans(table_cols(x1, t), table_cols(x2, t), table_cols(x5, t));
    lemma_grows_trans(table_cols(x0, t), table_cols(x1, t), table_cols(x5, t));
    assert(profile_steps(c) == a0 + a1 + a2 + a3 + a4 + a5);
}

proof fn lemma_artifact_group(s: SchemaView, c: Seq<Seq<char>>)
    requires
        grows(c, table_cols(s, SchemaTable::ParsedArtifacts)),
    ensures
        ({
            let r = apply_steps(s, artifact_steps(c));
            &&& kept(s, r, SchemaTable::ParsedArtifacts, c)
            &&& table_cols(r, SchemaTable::ParsedArtifacts).contains("figure_count"@)
            &&& table_cols(r, SchemaTable::ParsedArtifacts).contains("table_count"@)
            &&& table_cols(r, SchemaTable::ParsedArtifacts).contains("visual_enabled"@)
            &&& table_cols(r, SchemaTable::ParsedArtifacts).contains("visual_mode"@)
            &&& table_cols(r, SchemaTable::ParsedArtifacts).contains("visual_summary_count"@)
        }),
{
    let t = SchemaTable::ParsedArtifacts;
    let e = Seq::<MigrationStep>::empty();
    let a0 = unless_has(c, "figure_count"@, MigrationStep::ArtifactFigureCount);
    let a1 = unless_has(c, "table_count"@, MigrationStep::ArtifactTableCount);
    let a2 = unless_has(c, "visual_enabled"@, MigrationStep::ArtifactVisualEnabled);
    let a3 = unless_has(c, "visual_mode"@, MigrationStep::ArtifactVisualMode);
    let a4 = unless_has(c, "visual_summary_count"@, MigrationStep::ArtifactVisualSummaryCount);
    assert(apply_steps(s, e) == s);
    lemma_link(s, e, c, "figure_count"@, MigrationStep::ArtifactFigureCount, t);
    assert(e + a0 =~= a0);
    let x0 = apply_steps(s, a0);
    lemma_link(s, a0, c, "table_count"@, MigrationStep::ArtifactTableCount, t);
    let x1 = apply_steps(s, a0 + a1);
    lemma_link(s, a0 + a1, c, "visual_enabled"@, MigrationStep::ArtifactVisualEnabled, t);
    let x2 = apply_steps(s, a0 + a1 + a2);
    lemma_link(s, a0 + a1 + a2, c, "visual_mode"@, MigrationStep::ArtifactVisualMode, t);
    let x3 = apply_steps(s, a0 + a1 + a2 + a3);
    lemma_link(s, a0 + a1 + a2 + a3, c, "visual_summary_count"@, MigrationStep::ArtifactVisualSummaryCount, t);
    let x4 = apply_steps(s, a0 + a1 + a2 + a3 + a4);
    lemma_grows_trans(table_cols(x2, t), table_cols(x3, t), table_cols(x4, t));
    lemma_grows_trans(table_cols(x1, t), table_cols(x2, t), table_cols(x4, t));
    lemma_grows_trans(table_cols(x0, t), table_cols(x1, t), table_cols(x4, t));
    assert(artifact_steps(c) == a0 + a1 + a2 + a3 + a4);
}

proof fn lemma_visual_column_group(s: SchemaView, c: Seq<Seq<char>>)
    requires
        grows(c, table_cols(s, SchemaTable::VisualArtifacts)),
        s.visual_artifacts is Some,
    ensures
        ({
            let r = apply_steps(s, visual_column_steps(c));
            &&& kept(s, r, SchemaTable::VisualArtifacts, c)
            &&& table_cols(r, SchemaTable::VisualArtifacts).contains("crop_success_count"@)
            &&& table_cols(r, SchemaTable::VisualArtifacts).contains("crop_failed_count"@)
            &&& table_cols(r, SchemaTable::VisualArtifacts).contains("sample_caption"@)
            &&& table_cols(r, SchemaTable::VisualArtifacts).contains("sample_summary"@)
            &&& table_cols(r, SchemaTable::VisualArtifacts).contains("diagnostics_json"@)
        }),
{
    let t = SchemaTable::VisualArtifacts;
    let e = Seq::<MigrationStep>::empty();
    let a0 = unless_has(c, "crop_success_count"@, MigrationStep::VisualCropSuccessCount);
    let a1 = unless_has(c, "crop_failed_count"@, MigrationStep::VisualCropFailedCount);
    let a2 = unless_has(c, "sample_caption"@, MigrationStep::VisualSampleCaption);
    let a3 = unless_has(c, "sample_summary"@, MigrationStep::VisualSampleSummary);
    let a4 = unless_has(c, "diagnostics_json"@, MigrationStep::VisualDiagnostics);
    assert(apply_steps(s, e) == s);
    lemma_link(s, e, c, "crop_success_count"@, MigrationStep::VisualCropSuccessCount, t);
    assert(e + a0 =~= a0);
    let x0 = apply_steps(s, a0);
    lemma_link(s, a0, c, "crop_failed_count"@, MigrationStep::VisualCropFailedCount, t);
    let x1 = apply_steps(s, a0 + a1);
    lemma_link(s, a0 + a1, c, "sample_caption"@, MigrationStep::VisualSampleCaption, t);
    let x2 = apply_steps(s, a0 + a1 + a2);
    lemma_link(s, a0 + a1 + a2, c, "sample_summary"@, MigrationStep::VisualSampleSummary, t);
    let x3 = apply_steps(s, a0 + a1 + a2 + a3);
    lemma_link(s, a0 + a1 + a2 + a3, c, "diagnostics_json"@, MigrationStep::VisualDiagnostics, t);
    let x4 = apply_steps(s, a0 + a1 + a2 + a3 + a4);
    lemma_grows_trans(table_cols(x2, t), table_cols(x3, t), table_cols(x4, t));
    lemma_grows_trans(table_cols(x1, t), table_cols(x2, t), table_cols(x4, t));
    lemma_grows_trans(table_cols(x0, t), table_cols(x1, t), table_cols(x4, t));
    assert(visual_column_steps(c) == a0 + a1 + a2 + a3 + a4);
}

proof fn lemma_visual_group(s: SchemaView)
    ensures
        ({
            let r = apply_steps(s, visual_steps(s.visual_artifacts));
            &&& r.model_configs == s.model_configs
            &&& r.user_profiles == s.user_profiles
            &&& r.parsed_paper_artifacts == s.parsed_paper_artifacts
            &&& r.visual_artifacts is Some
            &&& r.visual_artifacts->0.contains("crop_success_count"@)
            &&& r.visual_artifacts->0.contains("crop_failed_count"@)
            &&& r.visual_artifacts->0.contains("sample_caption"@)
            &&& r.visual_artifacts->0.contains("sample_summary"@)
            &&& r.visual_artifacts->0.contains("diagnostics_json"@)
        }),
{
    let v = SchemaTable::VisualArtifacts;
    match s.visual_artifacts {
        Some(c) => {
            assert(table_cols(s, v) == c);
            lemma_visual_column_group(s, c);
            let r = apply_steps(s, visual_column_steps(c));
            assert(table_cols(r, SchemaTable::ModelConfigs) == table_cols(s, SchemaTable::ModelConfigs));
            assert(table_cols(r, SchemaTable::UserProfiles) == table_cols(s, SchemaTable::UserProfiles));
            assert(table_cols(r, SchemaTable::ParsedArtifacts) == table_cols(
                s,
                SchemaTable::ParsedArtifacts,
            ));
        },
        None => {
            let create = seq![MigrationStep::CreateVisualArtifacts];
            let x = apply_steps(s, create);
            assert(create[0] == MigrationStep::CreateVisualArtifacts);
            assert(create.drop_first() =~= Seq::<MigrationStep>::empty());
            assert(apply_steps(apply_step(s, create[0]), Seq::<MigrationStep>::empty()) == apply_step(
                s,
                create[0],
            ));
            assert(x == SchemaView { visual_artifacts: Some(created_visual_columns()), ..s });
            assert(table_cols(x, v) == created_visual_columns());
            lemma_apply_concat(s, create, visual_column_steps(created_visual_columns()));
            lemma_visual_column_group(x, created_visual_columns());
            let r = apply_steps(x, visual_column_steps(created_visual_columns()));
            assert(table_cols(r, SchemaTable::ModelConfigs) == table_cols(x, SchemaTable::ModelConfigs));
            assert(table_cols(r, SchemaTable::UserProfiles) == table_cols(x, SchemaTable::UserProfiles));
            assert(table_cols(r, SchemaTable::ParsedArtifacts) == table_cols(
                x,
                SchemaTable::ParsedArtifacts,
            ));
        },
    }
}

/// Running the upgrades a database needs, each adding the columns it is
/// named for (and the creation of the visual artifact table creating it),
/// leaves a database that needs none: a second run of the migrations
/// changes nothing.
pub proof fn law_second_run_needs_nothing(s: SchemaView)
    ensures
        plan_of(apply_steps(s, plan_of(s))).len() == 0,
{
    let a = model_config_steps(s.model_configs);
    let b = profile_steps(s.user_profiles);
    let c = artifact_steps(s.parsed_paper_artifacts);
    let d = visual_steps(s.visual_artifacts);
    assert(plan_of(s) == a + b + c + d);
    lemma_apply_concat(s, a + b + c, d);
    lemma_apply_concat(s, a + b, c);
    lemma_apply_concat(s, a, b);
    let mc = SchemaTable::ModelConfigs;
    let up = SchemaTable::UserProfiles;
    let pa = SchemaTable::ParsedArtifacts;
    let va = SchemaTable::VisualArtifacts;
    lemma_model_config_group(s);
    let x1 = apply_steps(s, a);
    assert(table_cols(x1, up) == table_cols(s, up));
    assert(table_cols(x1, pa) == table_cols(s, pa));
    assert(table_cols(x1, va) == table_cols(s, va));
    lemma_profile_group(x1, s.user_profiles);
    let x2 = apply_steps(x1, b);
    assert(table_cols(x2, mc) == table_cols(x1, mc));
    assert(table_cols(x2, pa) == table_cols(x1, pa));
    assert(table_cols(x2, va) == table_cols(x1, va));
    lemma_artifact_group(x2, s.parsed_paper_artifacts);
    let x3 = apply_steps(x2, c);
    assert(table_cols(x3, mc) == table_cols(x2, mc));
    assert(table_cols(x3, up) == table_cols(x2, up));
    assert(table_cols(x3, va) == table_cols(x2, va));
    assert(x3.visual_artifacts == s.visual_artifacts);
    lemma_visual_group(x3);
    let f = apply_steps(x3, d);
    law_complete_schema_needs_nothing(
        f.model_configs,
        f.user_profiles,
        f.parsed_paper_artifacts,
        f.visual_artifacts->0,
    );
    assert(f.visual_artifacts == Some(f.visual_artifacts->0));
}

} // verus!
