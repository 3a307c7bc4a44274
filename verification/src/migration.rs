//! The upgrade plan of databases kept by the marker-table migration scheme,
//! where each applied version is recorded as a row of `schema_migrations`.
//!
//! Once the marker table exists, the host reads which versions are marked and
//! runs the plan below step by step; a step that depends on the live schema
//! (whether a column exists) is checked by the host when it is reached.

use vstd::prelude::*;

verus! {

/// The version marked once every upgrade of this scheme has run.
pub const CURRENT_SCHEMA_VERSION: i64 = 10;

/// The SQL scripts of the upgrade.
#[derive(Copy, Clone, Debug, PartialEq, Eq, Structural)]
pub enum LegacyScript {
    ApiKeyRegistry,
    Schema,
    PromptResources,
    PromptPresetBehavior,
    Settings,
    JobHistory,
    GenerationBatchHistoryIndex,
    RunOutputLifecycle,
    GenerationBatchHistory,
    GalleryEffectiveSafety,
    RunOutputTombstones,
}

/// Columns whose presence decides whether a script runs.
#[derive(Copy, Clone, Debug, PartialEq, Eq, Structural)]
pub enum LegacyColumn {
    /// `prompt_presets.prompt_mode`
    PromptPresetsPromptMode,
    /// `run_outputs.output_state`
    RunOutputsOutputState,
}

/// One step of the upgrade.
#[derive(Copy, Clone, Debug, PartialEq, Eq, Structural)]
pub enum LegacyMigrationStep {
    BeginTransaction,
    Execute(LegacyScript),
    /// Runs the script only when the column is missing.
    ExecuteIfColumnMissing(LegacyColumn, LegacyScript),
    MarkApplied(i64),
    Commit,
}

/// Which versions the marker table records.
#[derive(Copy, Clone, Debug, PartialEq, Eq, Structural)]
pub struct LegacyAppliedVersions {
    pub current: bool,
    pub v1: bool,
    pub v2: bool,
    pub v3: bool,
    pub v4: bool,
    pub v5: bool,
    pub v6: bool,
    pub v7: bool,
}

/// Marks `version` unless it is already marked.
pub open spec fn mark_unless(applied: bool, version: i64) -> Seq<LegacyMigrationStep> {
    if applied {
        Seq::empty()
    } else {
        seq![LegacyMigrationStep::MarkApplied(version)]
    }
}

/// The upgrade plan for a database whose marker table records `applied`.
///
/// A database already at the current version only gets the idempotent
/// scripts that later releases rely on. Any other database is upgraded in one
/// transaction: every idempotent script runs, each version not yet marked is
/// marked, version 6's script runs when version 6 is missing, the batch
/// history backfill runs for a database that has job history (version 4) but
/// not the backfill (version 7), missing columns are added, and the current
/// version is marked last.
pub open spec fn legacy_plan(applied: LegacyAppliedVersions) -> Seq<LegacyMigrationStep> {
    if applied.current {
        seq![
            LegacyMigrationStep::Execute(LegacyScript::ApiKeyRegistry),
            LegacyMigrationStep::Execute(LegacyScript::PromptResources),
            LegacyMigrationStep::Execute(LegacyScript::Settings),
            LegacyMigrationStep::Execute(LegacyScript::JobHistory),
            LegacyMigrationStep::ExecuteIfColumnMissing(LegacyColumn::RunOutputsOutputState, LegacyScript::RunOutputLifecycle),
            LegacyMigrationStep::Execute(LegacyScript::GenerationBatchHistoryIndex),
        ]
    } else {
        upgrade_head(applied) + upgrade_backfills(applied) + upgrade_tail()
    }
}

/// The first part of an upgrade: the idempotent scripts and the markers of
/// versions 1 to 5.
pub open spec fn upgrade_head(applied: LegacyAppliedVersions) -> Seq<LegacyMigrationStep> {
    seq![
        LegacyMigrationStep::BeginTransaction,
        LegacyMigrationStep::Execute(LegacyScript::Schema),
    ] + mark_unless(applied.v1, 1) + seq![
        LegacyMigrationStep::Execute(LegacyScript::ApiKeyRegistry),
        LegacyMigrationStep::Execute(LegacyScript::PromptResources),
    ] + mark_unless(applied.v2, 2) + seq![
        LegacyMigrationStep::Execute(LegacyScript::Settings),
    ] + mark_unless(applied.v3, 3) + seq![
        LegacyMigrationStep::Execute(LegacyScript::JobHistory),
    ] + mark_unless(applied.v4, 4) + mark_unless(applied.v5, 5)
}

/// The backfills of an upgrade: version 6's script when version 6 is missing,
/// and the batch history backfill for job history without it.
pub open spec fn upgrade_backfills(applied: LegacyAppliedVersions) -> Seq<LegacyMigrationStep> {
    (if applied.v6 {
        Seq::empty()
    } else {
        seq![
            LegacyMigrationStep::Execute(LegacyScript::GalleryEffectiveSafety),
            LegacyMigrationStep::MarkApplied(6),
        ]
    }) + (if applied.v4 && !applied.v7 {
        seq![LegacyMigrationStep::Execute(LegacyScript::GenerationBatchHistory)]
    } else {
        Seq::empty()
    })
}

/// The end of an upgrade: missing columns, the tombstone rebuild, the current
/// version's marker and the commit.
pub open spec fn upgrade_tail() -> Seq<LegacyMigrationStep> {
    seq![
        LegacyMigrationStep::ExecuteIfColumnMissing(LegacyColumn::PromptPresetsPromptMode, LegacyScript::PromptPresetBehavior),
        LegacyMigrationStep::ExecuteIfColumnMissing(LegacyColumn::RunOutputsOutputState, LegacyScript::RunOutputLifecycle),
        LegacyMigrationStep::Execute(LegacyScript::RunOutputTombstones),
        LegacyMigrationStep::MarkApplied(CURRENT_SCHEMA_VERSION),
        LegacyMigrationStep::Commit,
    ]
}

fn push_mark_unless(steps: &mut Vec<LegacyMigrationStep>, applied: bool, version: i64)
    ensures
        final(steps)@ == old(steps)@ + mark_unless(applied, version),
{
    if !applied {
        steps.push(LegacyMigrationStep::MarkApplied(version));
    }
    assert(final(steps)@ =~= old(steps)@ + mark_unless(applied, version));
}

fn push_upgrade_head(steps: &mut Vec<LegacyMigrationStep>, applied: LegacyAppliedVersions)
    ensures
        final(steps)@ == old(steps)@ + upgrade_head(applied),
{
    let ghost start = steps@;
    steps.push(LegacyMigrationStep::BeginTransaction);
    steps.push(LegacyMigrationStep::Execute(LegacyScript::Schema));
    push_mark_unless(steps, applied.v1, 1);
    let ghost p1 = steps@;
    steps.push(LegacyMigrationStep::Execute(LegacyScript::ApiKeyRegistry));
    steps.push(LegacyMigrationStep::Execute(LegacyScript::PromptResources));
    push_mark_unless(steps, applied.v2, 2);
    let ghost p2 = steps@;
    steps.push(LegacyMigrationStep::Execute(LegacyScript::Settings));
    push_mark_unless(steps, applied.v3, 3);
    let ghost p3 = steps@;
    steps.push(LegacyMigrationStep::Execute(LegacyScript::JobHistory));
    push_mark_unless(steps, applied.v4, 4);
    push_mark_unless(steps, applied.v5, 5);
    proof {
        let h1 = seq![
            LegacyMigrationStep::BeginTransaction,
            LegacyMigrationStep::Execute(LegacyScript::Schema),
        ] + mark_unless(applied.v1, 1);
        assert(p1 =~= start + h1);
        let h2 = h1 + seq![
            LegacyMigrationStep::Execute(LegacyScript::ApiKeyRegistry),
            LegacyMigrationStep::Execute(LegacyScript::PromptResources),
        ] + mark_unless(applied.v2, 2);
        assert(p2 =~= start + h2);
        let h3 = h2 + seq![LegacyMigrationStep::Execute(LegacyScript::Settings)] + mark_unless(applied.v3, 3);
        assert(p3 =~= start + h3);
        let h4 = h3 + seq![LegacyMigrationStep::Execute(LegacyScript::JobHistory)]
            + mark_unless(applied.v4, 4) + mark_unless(applied.v5, 5);
        assert(steps@ =~= start + h4);
    }
}

fn push_upgrade_backfills(steps: &mut Vec<LegacyMigrationStep>, applied: LegacyAppliedVersions)
    ensures
        final(steps)@ == old(steps)@ + upgrade_backfills(applied),
{
    let ghost start = steps@;
    if !applied.v6 {
        steps.push(LegacyMigrationStep::Execute(LegacyScript::GalleryEffectiveSafety));
        steps.push(LegacyMigrationStep::MarkApplied(6));
    }
    let ghost middle = steps@;
    if applied.v4 && !applied.v7 {
        steps.push(LegacyMigrationStep::Execute(LegacyScript::GenerationBatchHistory));
    }
    proof {
        let v6_part: Seq<LegacyMigrationStep> = if applied.v6 {
            Seq::empty()
        } else {
            seq![
                LegacyMigrationStep::Execute(LegacyScript::GalleryEffectiveSafety),
                LegacyMigrationStep::MarkApplied(6),
            ]
        };
        assert(middle =~= start + v6_part);
    }
    assert(steps@ =~= start + upgrade_backfills(applied));
}

/// The upgrade steps for a database whose marker table records `applied`
/// (the earlier versions are read only when the current one is not marked).
pub fn run_migrations(applied: LegacyAppliedVersions) -> (steps: Vec<LegacyMigrationStep>)
    ensures
        steps@ == legacy_plan(applied),
{
    let mut steps = Vec::new();
    if applied.current {
        steps.push(LegacyMigrationStep::Execute(LegacyScript::ApiKeyRegistry));
        steps.push(LegacyMigrationStep::Execute(LegacyScript::PromptResources));
        steps.push(LegacyMigrationStep::Execute(LegacyScript::Settings));
        steps.push(LegacyMigrationStep::Execute(LegacyScript::JobHistory));
        steps.push(LegacyMigrationStep::ExecuteIfColumnMissing(
            LegacyColumn::RunOutputsOutputState,
            LegacyScript::RunOutputLifecycle,
        ));
        steps.push(LegacyMigrationStep::Execute(LegacyScript::GenerationBatchHistoryIndex));
        assert(steps@ =~= legacy_plan(applied));
        return steps;
    }
    push_upgrade_head(&mut steps, applied);
    push_upgrade_backfills(&mut steps, applied);
    let ghost before_tail = steps@;
    steps.push(LegacyMigrationStep::ExecuteIfColumnMissing(
        LegacyColumn::PromptPresetsPromptMode,
        LegacyScript::PromptPresetBehavior,
    ));
    steps.push(LegacyMigrationStep::ExecuteIfColumnMissing(
        LegacyColumn::RunOutputsOutputState,
        LegacyScript::RunOutputLifecycle,
    ));
    steps.push(LegacyMigrationStep::Execute(LegacyScript::RunOutputTombstones));
    steps.push(LegacyMigrationStep::MarkApplied(CURRENT_SCHEMA_VERSION));
    steps.push(LegacyMigrationStep::Commit);
    assert(steps@ =~= before_tail + upgrade_tail());
    assert(before_tail =~= upgrade_head(applied) + upgrade_backfills(applied));
    steps
}

/// An upgrade marks every version that was not yet marked, runs inside one
/// transaction, and marks the current version just before committing.
pub proof fn lemma_upgrade_marks_missing_versions(applied: LegacyAppliedVersions)
    requires
        !applied.current,
    ensures
        ({
            let plan = legacy_plan(applied);
            &&& plan[0] == LegacyMigrationStep::BeginTransaction
            &&& plan.last() == LegacyMigrationStep::Commit
            &&& plan[plan.len() - 2] == LegacyMigrationStep::MarkApplied(CURRENT_SCHEMA_VERSION)
            &&& !applied.v1 ==> plan.contains(LegacyMigrationStep::MarkApplied(1))
            &&& !applied.v2 ==> plan.contains(LegacyMigrationStep::MarkApplied(2))
            &&& !applied.v3 ==> plan.contains(LegacyMigrationStep::MarkApplied(3))
            &&& !applied.v4 ==> plan.contains(LegacyMigrationStep::MarkApplied(4))
            &&& !applied.v5 ==> plan.contains(LegacyMigrationStep::MarkApplied(5))
            &&& !applied.v6 ==> plan.contains(LegacyMigrationStep::MarkApplied(6))
        }),
{
    let plan = legacy_plan(applied);
    let head = seq![LegacyMigrationStep::BeginTransaction, LegacyMigrationStep::Execute(LegacyScript::Schema)];
    let p1 = head + mark_unless(applied.v1, 1);
    let p2 = p1 + seq![
        LegacyMigrationStep::Execute(LegacyScript::ApiKeyRegistry),
        LegacyMigrationStep::Execute(LegacyScript::PromptResources),
    ];
    let p3 = p2 + mark_unless(applied.v2, 2);
    let p4 = p3 + seq![LegacyMigrationStep::Execute(LegacyScript::Settings)];
    let p5 = p4 + mark_unless(applied.v3, 3);
    let p6 = p5 + seq![LegacyMigrationStep::Execute(LegacyScript::JobHistory)];
    let p7 = p6 + mark_unless(applied.v4, 4);
    let p8 = p7 + mark_unless(applied.v5, 5);
    let v6_part: Seq<LegacyMigrationStep> = if applied.v6 {
        Seq::empty()
    } else {
        seq![
            LegacyMigrationStep::Execute(LegacyScript::GalleryEffectiveSafety),
            LegacyMigrationStep::MarkApplied(6),
        ]
    };
    let p9 = p8 + v6_part;
    let v7_part: Seq<LegacyMigrationStep> = if applied.v4 && !applied.v7 {
        seq![LegacyMigrationStep::Execute(LegacyScript::GenerationBatchHistory)]
    } else {
        Seq::empty()
    };
    let p10 = p9 + v7_part;
    let tail = seq![
        LegacyMigrationStep::ExecuteIfColumnMissing(LegacyColumn::PromptPresetsPromptMode, LegacyScript::PromptPresetBehavior),
        LegacyMigrationStep::ExecuteIfColumnMissing(LegacyColumn::RunOutputsOutputState, LegacyScript::RunOutputLifecycle),
        LegacyMigrationStep::Execute(LegacyScript::RunOutputTombstones),
        LegacyMigrationStep::MarkApplied(CURRENT_SCHEMA_VERSION),
        LegacyMigrationStep::Commit,
    ];
    assert(plan =~= p10 + tail);
    assert(plan[0] == p10[0]);
    if !applied.v1 {
        assert(plan[2] == LegacyMigrationStep::MarkApplied(1));
    }
    if !applied.v2 {
        assert(plan[p2.len() as int] == p3[p2.len() as int]);
    }
    if !applied.v3 {
        assert(plan[p4.len() as int] == p5[p4.len() as int]);
    }
    if !applied.v4 {
        assert(plan[p6.len() as int] == p7[p6.len() as int]);
    }
    if !applied.v5 {
        assert(plan[p7.len() as int] == p8[p7.len() as int]);
    }
    if !applied.v6 {
        assert(plan[p8.len() + 1int] == p9[p8.len() + 1int]);
    }
}

/// A database already at the current version is not marked again and needs
/// no transaction.
pub proof fn lemma_current_database_is_not_marked(applied: LegacyAppliedVersions)
    requires
        applied.current,
    ensures
        forall|i: int| 0 <= i < legacy_plan(applied).len() ==> !(#[trigger] legacy_plan(applied)[i] is MarkApplied)
            && !(legacy_plan(applied)[i] is BeginTransaction) && !(legacy_plan(applied)[i] is Commit),
{
}

} // verus!
