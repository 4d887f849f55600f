//! The migration registry: the ordered, forward-only sequence of schema
//! migrations that takes a fresh database file to the final timer schema.
//! Versions 1 through 5 shape `timer_settings` and `session_history`;
//! versions 6 and 7 add the `daily_stats` and `streak_info` tables.
//! [`lemma_initial_migration_run`] proves that running the whole sequence on
//! a fresh file succeeds and yields exactly the documented final state.

use vstd::prelude::*;

use crate::db::{Database, DbModel, daily_dates_unique, singletons_wf, spec_fresh_db};
use crate::migrate::{DbError, MigrationKind, SchemaChange, spec_apply_change, spec_backfill_rows,
    spec_seeded_settings_row};
use crate::rows::{BreakActivity, TimerSettingsRow, spec_default_settings_row,
    spec_default_streak_row};
use crate::runner::{MigModel, Migration, RunOutcome, apply_migrations, migs_view,
    spec_apply_changes, spec_run};
use crate::schema::{ColumnId, IndexId, TableColumn, TableId, spec_initial_columns};

verus! {

/// Shorthand for a column catalogue entry.
spec fn tcol(t: TableId, c: ColumnId) -> TableColumn {
    TableColumn { table: t, column: c }
}

/// The fixed logical name of the embedded database file, one per
/// installation.
pub const DB_NAME: &'static str = "sqlite:standclock.db";

pub const V1_DESC: &'static str = "create timer_settings table";

pub const V1_SQL: &'static str = "CREATE TABLE IF NOT EXISTS timer_settings (
    id INTEGER PRIMARY KEY CHECK (id = 1),
    work_duration INTEGER NOT NULL DEFAULT 25,
    short_break_duration INTEGER NOT NULL DEFAULT 5,
    long_break_duration INTEGER NOT NULL DEFAULT 15,
    sessions_before_long_break INTEGER NOT NULL DEFAULT 4,
    updated_at TIMESTAMP DEFAULT CURRENT_TIMESTAMP
);
INSERT OR IGNORE INTO timer_settings (id, work_duration, short_break_duration, long_break_duration, sessions_before_long_break)
VALUES (1, 25, 5, 15, 4);";

pub const V2_DESC: &'static str = "add sound_enabled to timer_settings";

pub const V2_SQL: &'static str =
    "ALTER TABLE timer_settings ADD COLUMN sound_enabled INTEGER NOT NULL DEFAULT 1;";

pub const V3_DESC: &'static str = "create session_history table";

pub const V3_SQL: &'static str = "CREATE TABLE IF NOT EXISTS session_history (
    id INTEGER PRIMARY KEY AUTOINCREMENT,
    session_type TEXT NOT NULL CHECK (session_type IN ('pomodoro', 'shortBreak', 'longBreak')),
    event_type TEXT NOT NULL CHECK (event_type IN ('completed', 'skipped', 'abandoned', 'manual_switch')),
    timestamp TEXT NOT NULL DEFAULT (datetime('now')),
    duration INTEGER NOT NULL,
    expected_duration INTEGER NOT NULL,
    session_number INTEGER,
    activity_type TEXT CHECK (activity_type IN ('stretch', 'walk', 'exercise', 'hydrate', 'rest', 'other')),
    created_at TEXT DEFAULT (datetime('now'))
);
CREATE INDEX idx_session_history_timestamp ON session_history(timestamp DESC);
CREATE INDEX idx_session_history_type ON session_history(session_type, event_type);";

pub const V4_DESC: &'static str = "add default_break_activity to timer_settings";

pub const V4_SQL: &'static str =
    "ALTER TABLE timer_settings ADD COLUMN default_break_activity TEXT DEFAULT 'ask' CHECK (default_break_activity IN ('ask', 'stretch', 'walk', 'exercise', 'hydrate', 'rest', 'other'));";

pub const V5_DESC: &'static str = "add show_cycle_preview to timer_settings";

pub const V5_SQL: &'static str =
    "ALTER TABLE timer_settings ADD COLUMN show_cycle_preview INTEGER NOT NULL DEFAULT 1;";

pub const V6_DESC: &'static str = "create daily_stats table";

pub const V6_SQL: &'static str = "CREATE TABLE IF NOT EXISTS daily_stats (
    id INTEGER PRIMARY KEY AUTOINCREMENT,
    date TEXT NOT NULL UNIQUE,
    completed_sessions INTEGER NOT NULL DEFAULT 0,
    skipped_sessions INTEGER NOT NULL DEFAULT 0,
    total_work_seconds INTEGER NOT NULL DEFAULT 0,
    completion_rate INTEGER NOT NULL DEFAULT 0,
    focus_score INTEGER NOT NULL DEFAULT 0,
    streak_day INTEGER NOT NULL DEFAULT 0
);";

pub const V7_DESC: &'static str = "create streak_info table";

pub const V7_SQL: &'static str = "CREATE TABLE IF NOT EXISTS streak_info (
    id INTEGER PRIMARY KEY CHECK (id = 1),
    current_streak INTEGER NOT NULL DEFAULT 0,
    longest_streak INTEGER NOT NULL DEFAULT 0,
    last_activity_date TEXT
);
INSERT OR IGNORE INTO streak_info (id, current_streak, longest_streak)
VALUES (1, 0, 0);";

/// Model of migration 1: create and seed `timer_settings`.
pub open spec fn mig_v1_model() -> MigModel {
    MigModel {
        version: 1,
        kind: MigrationKind::Up,
        changes: seq![
            SchemaChange::CreateTable(TableId::TimerSettings),
            SchemaChange::SeedSingleton(TableId::TimerSettings),
        ],
    }
}

/// Model of migration 2: add `sound_enabled`.
pub open spec fn mig_v2_model() -> MigModel {
    MigModel {
        version: 2,
        kind: MigrationKind::Up,
        changes: seq![
            SchemaChange::AddColumn(
                TableColumn { table: TableId::TimerSettings, column: ColumnId::TsSoundEnabled },
            ),
        ],
    }
}

/// Model of migration 3: create `session_history` and its indexes.
pub open spec fn mig_v3_model() -> MigModel {
    MigModel {
        version: 3,
        kind: MigrationKind::Up,
        changes: seq![
            SchemaChange::CreateTable(TableId::SessionHistory),
            SchemaChange::CreateIndex(IndexId::SessionHistoryTimestamp),
            SchemaChange::CreateIndex(IndexId::SessionHistoryType),
        ],
    }
}

/// Model of migration 4: add `default_break_activity`.
pub open spec fn mig_v4_model() -> MigModel {
    MigModel {
        version: 4,
        kind: MigrationKind::Up,
        changes: seq![
            SchemaChange::AddColumn(
                TableColumn {
                    table: TableId::TimerSettings,
                    column: ColumnId::TsDefaultBreakActivity,
                },
            ),
        ],
    }
}

/// Model of migration 5: add `show_cycle_preview`.
pub open spec fn mig_v5_model() -> MigModel {
    MigModel {
        version: 5,
        kind: MigrationKind::Up,
        changes: seq![
            SchemaChange::AddColumn(
                TableColumn {
                    table: TableId::TimerSettings,
                    column: ColumnId::TsShowCyclePreview,
                },
            ),
        ],
    }
}

/// Model of migration 6: create `daily_stats`.
pub open spec fn mig_v6_model() -> MigModel {
    MigModel {
        version: 6,
        kind: MigrationKind::Up,
        changes: seq![SchemaChange::CreateTable(TableId::DailyStats)],
    }
}

/// Model of migration 7: create and seed `streak_info`.
pub open spec fn mig_v7_model() -> MigModel {
    MigModel {
        version: 7,
        kind: MigrationKind::Up,
        changes: seq![
            SchemaChange::CreateTable(TableId::StreakInfo),
            SchemaChange::SeedSingleton(TableId::StreakInfo),
        ],
    }
}

/// The whole registry, in ascending version order.
pub open spec fn spec_migration_models() -> Seq<MigModel> {
    seq![
        mig_v1_model(),
        mig_v2_model(),
        mig_v3_model(),
        mig_v4_model(),
        mig_v5_model(),
        mig_v6_model(),
        mig_v7_model(),
    ]
}

/// The fully settled `timer_settings` row after every migration has run: the
/// documented defaults.
pub open spec fn spec_final_settings_row() -> TimerSettingsRow {
    TimerSettingsRow {
        id: 1,
        work_duration: 25,
        short_break_duration: 5,
        long_break_duration: 15,
        sessions_before_long_break: 4,
        sound_enabled: Some(1),
        default_break_activity: Some(BreakActivity::Ask),
        show_cycle_preview: Some(1),
    }
}

/// The state a fresh database reaches after the full registry has run: every
/// documented table, column and index present, both singleton tables seeded
/// with their defaults, the logs empty.
pub open spec fn spec_initialized_db() -> DbModel {
    DbModel {
        user_version: 7,
        tables: seq![
            TableId::TimerSettings,
            TableId::SessionHistory,
            TableId::DailyStats,
            TableId::StreakInfo,
        ],
        columns: spec_initial_columns(TableId::TimerSettings) + seq![
            TableColumn { table: TableId::TimerSettings, column: ColumnId::TsSoundEnabled },
        ] + spec_initial_columns(TableId::SessionHistory) + seq![
            TableColumn {
                table: TableId::TimerSettings,
                column: ColumnId::TsDefaultBreakActivity,
            },
            TableColumn { table: TableId::TimerSettings, column: ColumnId::TsShowCyclePreview },
        ] + spec_initial_columns(TableId::DailyStats) + spec_initial_columns(TableId::StreakInfo),
        indexes: seq![IndexId::SessionHistoryTimestamp, IndexId::SessionHistoryType],
        timer_settings: seq![spec_final_settings_row()],
        session_history: Seq::empty(),
        daily_stats: Seq::empty(),
        streak_info: seq![spec_default_streak_row()],
    }
}

/// Builds the migration registry: seven records, versions 1 through 7, all
/// upgrades, each carrying its description, its SQL batch, and the schema
/// changes the batch performs.
pub fn migrations() -> (r: Vec<Migration>)
    ensures
        migs_view(r@) == spec_migration_models(),
        r@.len() == 7,
        r@[0].sql@ == V1_SQL@ && r@[0].description@ == V1_DESC@,
        r@[1].sql@ == V2_SQL@ && r@[1].description@ == V2_DESC@,
        r@[2].sql@ == V3_SQL@ && r@[2].description@ == V3_DESC@,
        r@[3].sql@ == V4_SQL@ && r@[3].description@ == V4_DESC@,
        r@[4].sql@ == V5_SQL@ && r@[4].description@ == V5_DESC@,
        r@[5].sql@ == V6_SQL@ && r@[5].description@ == V6_DESC@,
        r@[6].sql@ == V7_SQL@ && r@[6].description@ == V7_DESC@,
{
    let mut r: Vec<Migration> = Vec::new();

    let mut c1: Vec<SchemaChange> = Vec::new();
    c1.push(SchemaChange::CreateTable(TableId::TimerSettings));
    c1.push(SchemaChange::SeedSingleton(TableId::TimerSettings));
    let m1 = Migration {
        version: 1,
        description: V1_DESC.to_owned(),
        sql: V1_SQL.to_owned(),
        kind: MigrationKind::Up,
        changes: c1,
    };
    proof {
        assert(m1@.changes =~= mig_v1_model().changes);
        assert(m1@ =~= mig_v1_model());
    }
    r.push(m1);

    let mut c2: Vec<SchemaChange> = Vec::new();
    c2.push(
        SchemaChange::AddColumn(
            TableColumn { table: TableId::TimerSettings, column: ColumnId::TsSoundEnabled },
        ),
    );
    let m2 = Migration {
        version: 2,
        description: V2_DESC.to_owned(),
        sql: V2_SQL.to_owned(),
        kind: MigrationKind::Up,
        changes: c2,
    };
    proof {
        assert(m2@.changes =~= mig_v2_model().changes);
        assert(m2@ =~= mig_v2_model());
    }
    r.push(m2);

    let mut c3: Vec<SchemaChange> = Vec::new();
    c3.push(SchemaChange::CreateTable(TableId::SessionHistory));
    c3.push(SchemaChange::CreateIndex(IndexId::SessionHistoryTimestamp));
    c3.push(SchemaChange::CreateIndex(IndexId::SessionHistoryType));
    let m3 = Migration {
        version: 3,
        description: V3_DESC.to_owned(),
        sql: V3_SQL.to_owned(),
        kind: MigrationKind::Up,
        changes: c3,
    };
    proof {
        assert(m3@.changes =~= mig_v3_model().changes);
        assert(m3@ =~= mig_v3_model());
    }
    r.push(m3);

    let mut c4: Vec<SchemaChange> = Vec::new();
    c4.push(
        SchemaChange::AddColumn(
            TableColumn {
                table: TableId::TimerSettings,
                column: ColumnId::TsDefaultBreakActivity,
            },
        ),
    );
    let m4 = Migration {
        version: 4,
        description: V4_DESC.to_owned(),
        sql: V4_SQL.to_owned(),
        kind: MigrationKind::Up,
        changes: c4,
    };
    proof {
        assert(m4@.changes =~= mig_v4_model().changes);
        assert(m4@ =~= mig_v4_model());
    }
    r.push(m4);

    let mut c5: Vec<SchemaChange> = Vec::new();
    c5.push(
        SchemaChange::AddColumn(
            TableColumn { table: TableId::TimerSettings, column: ColumnId::TsShowCyclePreview },
        ),
    );
    let m5 = Migration {
        version: 5,
        description: V5_DESC.to_owned(),
        sql: V5_SQL.to_owned(),
        kind: MigrationKind::Up,
        changes: c5,
    };
    proof {
        assert(m5@.changes =~= mig_v5_model().changes);
        assert(m5@ =~= mig_v5_model());
    }
    r.push(m5);

    let mut c6: Vec<SchemaChange> = Vec::new();
    c6.push(SchemaChange::CreateTable(TableId::DailyStats));
    let m6 = Migration {
        version: 6,
        description: V6_DESC.to_owned(),
        sql: V6_SQL.to_owned(),
        kind: MigrationKind::Up,
        changes: c6,
    };
    proof {
        assert(m6@.changes =~= mig_v6_model().changes);
        assert(m6@ =~= mig_v6_model());
    }
    r.push(m6);

    let mut c7: Vec<SchemaChange> = Vec::new();
    c7.push(SchemaChange::CreateTable(TableId::StreakInfo));
    c7.push(SchemaChange::SeedSingleton(TableId::StreakInfo));
    let m7 = Migration {
        version: 7,
        description: V7_DESC.to_owned(),
        sql: V7_SQL.to_owned(),
        kind: MigrationKind::Up,
        changes: c7,
    };
    proof {
        assert(m7@.changes =~= mig_v7_model().changes);
        assert(m7@ =~= mig_v7_model());
    }
    r.push(m7);

    proof {
        assert(r@.len() == 7);
        assert(migs_view(r@).len() == 7);
        assert(r@[0]@ == mig_v1_model());
        assert(r@[1]@ == mig_v2_model());
        assert(r@[2]@ == mig_v3_model());
        assert(r@[3]@ == mig_v4_model());
        assert(r@[4]@ == mig_v5_model());
        assert(r@[5]@ == mig_v6_model());
        assert(r@[6]@ == mig_v7_model());
        assert(migs_view(r@) =~= spec_migration_models());
    }
    r
}

/// One pending upgrade at the head of the list, unfolded.
proof fn lemma_run_apply(d: DbModel, ms: Seq<MigModel>, d2: DbModel)
    requires
        ms.len() > 0,
        ms.first().version > d.user_version,
        ms.first().kind == MigrationKind::Up,
        spec_apply_changes(d, ms.first().changes) == Ok::<DbModel, DbError>(d2),
    ensures
        spec_run(d, ms) == spec_run(
            DbModel { user_version: ms.first().version, ..d2 },
            ms.drop_first(),
        ),
{
}

/// A one-change batch, unfolded.
proof fn lemma_changes1(d: DbModel, c0: SchemaChange, d1: DbModel)
    requires
        spec_apply_change(d, c0) == Ok::<DbModel, DbError>(d1),
    ensures
        spec_apply_changes(d, seq![c0]) == Ok::<DbModel, DbError>(d1),
{
    let cs = seq![c0];
    assert(cs.first() == c0);
    assert(cs.drop_first() =~= Seq::<SchemaChange>::empty());
    assert(spec_apply_changes(d1, cs.drop_first()) == Ok::<DbModel, DbError>(d1));
}

/// A two-change batch, unfolded.
proof fn lemma_changes2(d: DbModel, c0: SchemaChange, c1: SchemaChange, d1: DbModel, d2: DbModel)
    requires
        spec_apply_change(d, c0) == Ok::<DbModel, DbError>(d1),
        spec_apply_change(d1, c1) == Ok::<DbModel, DbError>(d2),
    ensures
        spec_apply_changes(d, seq![c0, c1]) == Ok::<DbModel, DbError>(d2),
{
    let cs = seq![c0, c1];
    assert(cs.first() == c0);
    assert(cs.drop_first() =~= seq![c1]);
    lemma_changes1(d1, c1, d2);
}

/// A three-change batch, unfolded.
proof fn lemma_changes3(
    d: DbModel,
    c0: SchemaChange,
    c1: SchemaChange,
    c2: SchemaChange,
    d1: DbModel,
    d2: DbModel,
    d3: DbModel,
)
    requires
        spec_apply_change(d, c0) == Ok::<DbModel, DbError>(d1),
        spec_apply_change(d1, c1) == Ok::<DbModel, DbError>(d2),
        spec_apply_change(d2, c2) == Ok::<DbModel, DbError>(d3),
    ensures
        spec_apply_changes(d, seq![c0, c1, c2]) == Ok::<DbModel, DbError>(d3),
{
    let cs = seq![c0, c1, c2];
    assert(cs.first() == c0);
    assert(cs.drop_first() =~= seq![c1, c2]);
    lemma_changes2(d1, c1, c2, d2, d3);
}

/// Initialization of a fresh database file: running the full registry
/// succeeds and produces exactly the documented final state — every table,
/// column and index present, both singleton tables holding their one default
/// row, the logs empty, version 7 recorded.
pub proof fn lemma_initial_migration_run()
    ensures
        spec_run(spec_fresh_db(), spec_migration_models()) == (RunOutcome {
            state: spec_initialized_db(),
            err: None,
        }),
{
    let ms = spec_migration_models();
    let s0 = spec_fresh_db();

    // migration 1: create and seed timer_settings
    assert(ms.first() == mig_v1_model());
    let c10 = SchemaChange::CreateTable(TableId::TimerSettings);
    let c11 = SchemaChange::SeedSingleton(TableId::TimerSettings);
    assert(!s0.tables.contains(TableId::TimerSettings));
    let s1a = DbModel {
        tables: s0.tables.push(TableId::TimerSettings),
        columns: s0.columns + spec_initial_columns(TableId::TimerSettings),
        ..s0
    };
    assert(spec_apply_change(s0, c10) == Ok::<DbModel, DbError>(s1a));
    assert(s1a.tables.contains(TableId::TimerSettings)) by {
        assert(s1a.tables[0] == TableId::TimerSettings);
    }
    assert(s1a.columns =~= spec_initial_columns(TableId::TimerSettings));
    assert(!s1a.columns.contains(tcol(TableId::TimerSettings, ColumnId::TsSoundEnabled)));
    assert(!s1a.columns.contains(tcol(TableId::TimerSettings, ColumnId::TsDefaultBreakActivity)));
    assert(!s1a.columns.contains(tcol(TableId::TimerSettings, ColumnId::TsShowCyclePreview)));
    assert(spec_seeded_settings_row(s1a) == spec_default_settings_row());
    let s1b = DbModel { timer_settings: seq![spec_default_settings_row()], ..s1a };
    assert(spec_apply_change(s1a, c11) == Ok::<DbModel, DbError>(s1b));
    lemma_changes2(s0, c10, c11, s1a, s1b);
    lemma_run_apply(s0, ms, s1b);
    let s1 = DbModel { user_version: 1, ..s1b };
    let ms1 = ms.drop_first();
    assert(ms1 =~= seq![
        mig_v2_model(),
        mig_v3_model(),
        mig_v4_model(),
        mig_v5_model(),
        mig_v6_model(),
        mig_v7_model(),
    ]);
    assert(spec_run(s0, ms) == spec_run(s1, ms1));

    // migration 2: add sound_enabled, backfilled with 1
    assert(ms1.first() == mig_v2_model());
    let tc2 = tcol(TableId::TimerSettings, ColumnId::TsSoundEnabled);
    let c20 = SchemaChange::AddColumn(tc2);
    assert(s1.tables.contains(TableId::TimerSettings)) by {
        assert(s1.tables[0] == TableId::TimerSettings);
    }
    assert(!s1.columns.contains(tc2));
    let s2a = DbModel {
        columns: s1.columns.push(tc2),
        timer_settings: spec_backfill_rows(s1.timer_settings, ColumnId::TsSoundEnabled),
        ..s1
    };
    assert(spec_apply_change(s1, c20) == Ok::<DbModel, DbError>(s2a));
    let row2 = TimerSettingsRow { sound_enabled: Some(1), ..spec_default_settings_row() };
    assert(s2a.timer_settings =~= seq![row2]);
    lemma_changes1(s1, c20, s2a);
    lemma_run_apply(s1, ms1, s2a);
    let s2 = DbModel { user_version: 2, ..s2a };
    let ms2 = ms1.drop_first();
    assert(ms2 =~= seq![
        mig_v3_model(),
        mig_v4_model(),
        mig_v5_model(),
        mig_v6_model(),
        mig_v7_model(),
    ]);
    assert(spec_run(s0, ms) == spec_run(s2, ms2));

    // migration 3: create session_history and its two indexes
    assert(ms2.first() == mig_v3_model());
    let c30 = SchemaChange::CreateTable(TableId::SessionHistory);
    let c31 = SchemaChange::CreateIndex(IndexId::SessionHistoryTimestamp);
    let c32 = SchemaChange::CreateIndex(IndexId::SessionHistoryType);
    assert(!s2.tables.contains(TableId::SessionHistory));
    let s3a = DbModel {
        tables: s2.tables.push(TableId::SessionHistory),
        columns: s2.columns + spec_initial_columns(TableId::SessionHistory),
        ..s2
    };
    assert(spec_apply_change(s2, c30) == Ok::<DbModel, DbError>(s3a));
    assert(s3a.tables.contains(TableId::SessionHistory)) by {
        assert(s3a.tables[1] == TableId::SessionHistory);
    }
    assert(!s3a.indexes.contains(IndexId::SessionHistoryTimestamp));
    let s3b = DbModel { indexes: s3a.indexes.push(IndexId::SessionHistoryTimestamp), ..s3a };
    assert(spec_apply_change(s3a, c31) == Ok::<DbModel, DbError>(s3b));
    assert(s3b.tables.contains(TableId::SessionHistory)) by {
        assert(s3b.tables[1] == TableId::SessionHistory);
    }
    assert(!s3b.indexes.contains(IndexId::SessionHistoryType)) by {
        assert(s3b.indexes[0] == IndexId::SessionHistoryTimestamp);
        assert(s3b.indexes.len() == 1);
    }
    let s3c = DbModel { indexes: s3b.indexes.push(IndexId::SessionHistoryType), ..s3b };
    assert(spec_apply_change(s3b, c32) == Ok::<DbModel, DbError>(s3c));
    lemma_changes3(s2, c30, c31, c32, s3a, s3b, s3c);
    lemma_run_apply(s2, ms2, s3c);
    let s3 = DbModel { user_version: 3, ..s3c };
    let ms3 = ms2.drop_first();
    assert(ms3 =~= seq![mig_v4_model(), mig_v5_model(), mig_v6_model(), mig_v7_model()]);
    assert(spec_run(s0, ms) == spec_run(s3, ms3));

    // migration 4: add default_break_activity, backfilled with 'ask'
    assert(ms3.first() == mig_v4_model());
    let tc4 = tcol(TableId::TimerSettings, ColumnId::TsDefaultBreakActivity);
    let c40 = SchemaChange::AddColumn(tc4);
    assert(s3.tables.contains(TableId::TimerSettings)) by {
        assert(s3.tables[0] == TableId::TimerSettings);
    }
    assert(!s3.columns.contains(tc4));
    let s4a = DbModel {
        columns: s3.columns.push(tc4),
        timer_settings: spec_backfill_rows(s3.timer_settings, ColumnId::TsDefaultBreakActivity),
        ..s3
    };
    assert(spec_apply_change(s3, c40) == Ok::<DbModel, DbError>(s4a));
    let row4 = TimerSettingsRow { default_break_activity: Some(BreakActivity::Ask), ..row2 };
    assert(s4a.timer_settings =~= seq![row4]);
    lemma_changes1(s3, c40, s4a);
    lemma_run_apply(s3, ms3, s4a);
    let s4 = DbModel { user_version: 4, ..s4a };
    let ms4 = ms3.drop_first();
    assert(ms4 =~= seq![mig_v5_model(), mig_v6_model(), mig_v7_model()]);
    assert(spec_run(s0, ms) == spec_run(s4, ms4));

    // migration 5: add show_cycle_preview, backfilled with 1
    assert(ms4.first() == mig_v5_model());
    let tc5 = tcol(TableId::TimerSettings, ColumnId::TsShowCyclePreview);
    let c50 = SchemaChange::AddColumn(tc5);
    assert(s4.tables.contains(TableId::TimerSettings)) by {
        assert(s4.tables[0] == TableId::TimerSettings);
    }
    assert(!s4.columns.contains(tc5));
    let s5a = DbModel {
        columns: s4.columns.push(tc5),
        timer_settings: spec_backfill_rows(s4.timer_settings, ColumnId::TsShowCyclePreview),
        ..s4
    };
    assert(spec_apply_change(s4, c50) == Ok::<DbModel, DbError>(s5a));
    assert(s5a.timer_settings =~= seq![spec_final_settings_row()]);
    lemma_changes1(s4, c50, s5a);
    lemma_run_apply(s4, ms4, s5a);
    let s5 = DbModel { user_version: 5, ..s5a };
    let ms5 = ms4.drop_first();
    assert(ms5 =~= seq![mig_v6_model(), mig_v7_model()]);
    assert(spec_run(s0, ms) == spec_run(s5, ms5));

    // migration 6: create daily_stats
    assert(ms5.first() == mig_v6_model());
    let c60 = SchemaChange::CreateTable(TableId::DailyStats);
    assert(!s5.tables.contains(TableId::DailyStats));
    let s6a = DbModel {
        tables: s5.tables.push(TableId::DailyStats),
        columns: s5.columns + spec_initial_columns(TableId::DailyStats),
        ..s5
    };
    assert(spec_apply_change(s5, c60) == Ok::<DbModel, DbError>(s6a));
    lemma_changes1(s5, c60, s6a);
    lemma_run_apply(s5, ms5, s6a);
    let s6 = DbModel { user_version: 6, ..s6a };
    let ms6 = ms5.drop_first();
    assert(ms6 =~= seq![mig_v7_model()]);
    assert(spec_run(s0, ms) == spec_run(s6, ms6));

    // migration 7: create and seed streak_info
    assert(ms6.first() == mig_v7_model());
    let c70 = SchemaChange::CreateTable(TableId::StreakInfo);
    let c71 = SchemaChange::SeedSingleton(TableId::StreakInfo);
    assert(!s6.tables.contains(TableId::StreakInfo));
    let s7a = DbModel {
        tables: s6.tables.push(TableId::StreakInfo),
        columns: s6.columns + spec_initial_columns(TableId::StreakInfo),
        ..s6
    };
    assert(spec_apply_change(s6, c70) == Ok::<DbModel, DbError>(s7a));
    assert(s7a.tables.contains(TableId::StreakInfo)) by {
        assert(s7a.tables[3] == TableId::StreakInfo);
    }
    let s7b = DbModel { streak_info: seq![spec_default_streak_row()], ..s7a };
    assert(spec_apply_change(s7a, c71) == Ok::<DbModel, DbError>(s7b));
    lemma_changes2(s6, c70, c71, s7a, s7b);
    lemma_run_apply(s6, ms6, s7b);
    let s7 = DbModel { user_version: 7, ..s7b };
    let ms7 = ms6.drop_first();
    assert(ms7 =~= Seq::<MigModel>::empty());
    assert(spec_run(s0, ms) == spec_run(s7, ms7));
    assert(spec_run(s7, ms7) == (RunOutcome { state: s7, err: None }));
    assert(s7 =~= spec_initialized_db());
}

/// Opens a fresh store and brings it to the final schema: the registry is
/// proved to apply cleanly, so this cannot fail.
pub fn initialize_store() -> (db: Database)
    ensures
        db@ == spec_initialized_db(),
{
    let mut db = Database::fresh();
    let migs = migrations();
    proof {
        lemma_initial_migration_run();
    }
    let r = apply_migrations(&mut db, &migs);
    assert(r is Ok);
    db
}

/// After initialization the singleton tables hold exactly one row each, with
/// the documented defaults, and the store's standing invariants hold.
pub proof fn lemma_initialized_singletons()
    ensures
        spec_initialized_db().timer_settings =~= seq![spec_final_settings_row()],
        spec_initialized_db().streak_info =~= seq![spec_default_streak_row()],
        singletons_wf(spec_initialized_db()),
        daily_dates_unique(spec_initialized_db()),
        spec_final_settings_row().work_duration == 25,
        spec_final_settings_row().short_break_duration == 5,
        spec_final_settings_row().long_break_duration == 15,
        spec_final_settings_row().sessions_before_long_break == 4,
        spec_final_settings_row().sound_enabled == Some(1i64),
        spec_final_settings_row().default_break_activity == Some(BreakActivity::Ask),
        spec_final_settings_row().show_cycle_preview == Some(1i64),
        spec_default_streak_row().current_streak == 0,
        spec_default_streak_row().longest_streak == 0,
{
}

} // verus!
