use standclock::db::Database;
use standclock::migrate::{DbError, MigrationKind, SchemaChange};
use standclock::registry::{DB_NAME, initialize_store, migrations};
use standclock::rows::BreakActivity;
use standclock::runner::{Migration, apply_migrations};
use standclock::schema::{ColumnId, IndexId, TableColumn, TableId};

fn tc(table: TableId, column: ColumnId) -> TableColumn {
    TableColumn { table, column }
}

#[test]
fn registry_shape() {
    let migs = migrations();
    assert_eq!(migs.len(), 7);
    for (i, m) in migs.iter().enumerate() {
        assert_eq!(m.version, i as u64 + 1);
        assert_eq!(m.kind, MigrationKind::Up);
        assert!(!m.sql.is_empty());
        assert!(!m.description.is_empty());
    }
    assert_eq!(migs[0].description, "create timer_settings table");
    assert!(migs[0].sql.contains("CREATE TABLE IF NOT EXISTS timer_settings"));
    assert!(migs[0].sql.contains("INSERT OR IGNORE INTO timer_settings"));
    assert!(migs[1].sql.contains("ADD COLUMN sound_enabled INTEGER NOT NULL DEFAULT 1"));
    assert_eq!(migs[2].description, "create session_history table");
    assert!(migs[2].sql.contains("CREATE TABLE IF NOT EXISTS session_history"));
    assert!(migs[2].sql.contains("idx_session_history_timestamp"));
    assert!(migs[2].sql.contains("idx_session_history_type"));
    assert!(migs[3].sql.contains("ADD COLUMN default_break_activity TEXT DEFAULT 'ask'"));
    assert!(migs[4].sql.contains("ADD COLUMN show_cycle_preview INTEGER NOT NULL DEFAULT 1"));
    assert!(migs[5].sql.contains("CREATE TABLE IF NOT EXISTS daily_stats"));
    assert!(migs[6].sql.contains("CREATE TABLE IF NOT EXISTS streak_info"));
}

#[test]
fn store_name_is_fixed() {
    assert_eq!(DB_NAME, "sqlite:standclock.db");
}

#[test]
fn initialize_store_reaches_final_state() {
    let ready = initialize_store();
    let mut by_hand = Database::fresh();
    assert_eq!(apply_migrations(&mut by_hand, &migrations()), Ok(()));
    assert_eq!(ready, by_hand);
    assert_eq!(ready.version(), 7);
}

#[test]
fn fresh_full_run_creates_schema() {
    let mut db = Database::fresh();
    let migs = migrations();
    assert_eq!(apply_migrations(&mut db, &migs), Ok(()));
    assert_eq!(db.version(), 7);

    assert!(db.table_exists(TableId::TimerSettings));
    assert!(db.table_exists(TableId::SessionHistory));
    assert!(db.table_exists(TableId::DailyStats));
    assert!(db.table_exists(TableId::StreakInfo));

    // timer_settings columns, including the three added by later migrations
    for c in [
        ColumnId::TsId,
        ColumnId::TsWorkDuration,
        ColumnId::TsShortBreakDuration,
        ColumnId::TsLongBreakDuration,
        ColumnId::TsSessionsBeforeLongBreak,
        ColumnId::TsUpdatedAt,
        ColumnId::TsSoundEnabled,
        ColumnId::TsDefaultBreakActivity,
        ColumnId::TsShowCyclePreview,
    ] {
        assert!(db.column_exists(tc(TableId::TimerSettings, c)), "{:?}", c);
    }
    for c in [
        ColumnId::ShId,
        ColumnId::ShSessionType,
        ColumnId::ShEventType,
        ColumnId::ShTimestamp,
        ColumnId::ShDuration,
        ColumnId::ShExpectedDuration,
        ColumnId::ShSessionNumber,
        ColumnId::ShActivityType,
        ColumnId::ShCreatedAt,
    ] {
        assert!(db.column_exists(tc(TableId::SessionHistory, c)), "{:?}", c);
    }
    for c in [
        ColumnId::DsId,
        ColumnId::DsDate,
        ColumnId::DsCompletedSessions,
        ColumnId::DsSkippedSessions,
        ColumnId::DsTotalWorkSeconds,
        ColumnId::DsCompletionRate,
        ColumnId::DsFocusScore,
        ColumnId::DsStreakDay,
    ] {
        assert!(db.column_exists(tc(TableId::DailyStats, c)), "{:?}", c);
    }
    for c in [
        ColumnId::SiId,
        ColumnId::SiCurrentStreak,
        ColumnId::SiLongestStreak,
        ColumnId::SiLastActivityDate,
    ] {
        assert!(db.column_exists(tc(TableId::StreakInfo, c)), "{:?}", c);
    }

    assert!(db.index_exists(IndexId::SessionHistoryTimestamp));
    assert!(db.index_exists(IndexId::SessionHistoryType));

    // both singletons hold exactly one row, with the documented defaults
    let settings = db.timer_settings_row().expect("settings row");
    assert_eq!(settings.id, 1);
    assert_eq!(settings.work_duration, 25);
    assert_eq!(settings.short_break_duration, 5);
    assert_eq!(settings.long_break_duration, 15);
    assert_eq!(settings.sessions_before_long_break, 4);
    assert_eq!(settings.sound_enabled, Some(1));
    assert_eq!(settings.default_break_activity, Some(BreakActivity::Ask));
    assert_eq!(settings.show_cycle_preview, Some(1));

    let streak = db.streak_row().expect("streak row");
    assert_eq!(streak.id, 1);
    assert_eq!(streak.current_streak, 0);
    assert_eq!(streak.longest_streak, 0);
    assert_eq!(streak.last_activity_date, None);

    // the logs start empty
    assert_eq!(db.session_count(), 0);
    assert_eq!(db.daily_stats_count(), 0);
}

#[test]
fn settings_after_first_five_migrations() {
    // fresh install, migrations 1 through 5 of the timer app
    let mut db = Database::fresh();
    let mut migs = migrations();
    migs.truncate(5);
    assert_eq!(apply_migrations(&mut db, &migs), Ok(()));
    assert_eq!(db.version(), 5);

    let settings = db.timer_settings_row().expect("settings row");
    assert_eq!(settings.id, 1);
    assert_eq!(settings.work_duration, 25);
    assert_eq!(settings.short_break_duration, 5);
    assert_eq!(settings.long_break_duration, 15);
    assert_eq!(settings.sessions_before_long_break, 4);
    assert_eq!(settings.sound_enabled, Some(1));
    assert_eq!(settings.default_break_activity, Some(BreakActivity::Ask));
    assert_eq!(settings.show_cycle_preview, Some(1));

    assert!(!db.table_exists(TableId::DailyStats));
    assert!(!db.table_exists(TableId::StreakInfo));
}

#[test]
fn second_run_is_idempotent() {
    let migs = migrations();

    let mut once = Database::fresh();
    assert_eq!(apply_migrations(&mut once, &migs), Ok(()));

    let mut twice = Database::fresh();
    assert_eq!(apply_migrations(&mut twice, &migs), Ok(()));
    assert_eq!(apply_migrations(&mut twice, &migs), Ok(()));

    assert_eq!(once, twice);
    assert_eq!(twice.version(), 7);
}

#[test]
fn failing_migration_is_atomic() {
    // a batch that creates a table and then errs must leave no trace of itself
    let bad = Migration {
        version: 2,
        description: String::from("broken batch"),
        sql: String::from("CREATE TABLE IF NOT EXISTS daily_stats (id INTEGER); ALTER TABLE session_history ADD COLUMN id INTEGER;"),
        kind: MigrationKind::Up,
        changes: vec![
            SchemaChange::CreateTable(TableId::DailyStats),
            SchemaChange::AddColumn(tc(TableId::SessionHistory, ColumnId::ShId)),
        ],
    };
    let mut migs = migrations();
    migs.truncate(1);
    migs.push(bad);

    let mut db = Database::fresh();
    let r = apply_migrations(&mut db, &migs);
    let err = r.expect_err("second migration must fail");
    assert_eq!(err.version, 2);
    assert_eq!(err.cause, DbError::NoSuchTable);

    // the first migration is recorded; the failing batch left nothing behind
    assert_eq!(db.version(), 1);
    assert!(db.table_exists(TableId::TimerSettings));
    assert!(!db.table_exists(TableId::DailyStats));
    assert!(db.timer_settings_row().is_some());
}

#[test]
fn already_recorded_versions_are_skipped() {
    let migs = migrations();
    let mut db = Database::fresh();
    let mut first_two = migrations();
    first_two.truncate(2);
    assert_eq!(apply_migrations(&mut db, &first_two), Ok(()));
    assert_eq!(db.version(), 2);

    // the full list picks up where the recorded version left off
    assert_eq!(apply_migrations(&mut db, &migs), Ok(()));
    assert_eq!(db.version(), 7);
    assert!(db.table_exists(TableId::StreakInfo));
}

#[test]
fn downgrade_records_are_skipped() {
    let down = Migration {
        version: 1,
        description: String::from("drop timer_settings"),
        sql: String::from("DROP TABLE timer_settings;"),
        kind: MigrationKind::Down,
        changes: vec![SchemaChange::CreateTable(TableId::TimerSettings)],
    };
    let mut db = Database::fresh();
    assert_eq!(apply_migrations(&mut db, &vec![down]), Ok(()));
    assert_eq!(db.version(), 0);
    assert!(!db.table_exists(TableId::TimerSettings));
}

#[test]
fn duplicate_index_in_one_batch_fails() {
    let bad = Migration {
        version: 1,
        description: String::from("index twice"),
        sql: String::from("CREATE INDEX idx_session_history_timestamp ON session_history(timestamp DESC); CREATE INDEX idx_session_history_timestamp ON session_history(timestamp DESC);"),
        kind: MigrationKind::Up,
        changes: vec![
            SchemaChange::CreateTable(TableId::SessionHistory),
            SchemaChange::CreateIndex(IndexId::SessionHistoryTimestamp),
            SchemaChange::CreateIndex(IndexId::SessionHistoryTimestamp),
        ],
    };
    let mut db = Database::fresh();
    let err = apply_migrations(&mut db, &vec![bad]).expect_err("duplicate index");
    assert_eq!(err.version, 1);
    assert_eq!(err.cause, DbError::DuplicateIndex);
    // atomic: not even the table creation survives
    assert!(!db.table_exists(TableId::SessionHistory));
    assert_eq!(db.version(), 0);
}
