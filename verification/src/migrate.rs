//! Schema changes and their semantics: what one step of a migration does to
//! the database state. A change either succeeds and yields the new state, or
//! fails with a [`DbError`] and leaves the state alone; the spec functions
//! here define that outcome exactly, and the executable functions are proved
//! to match it.

use vstd::pervasive::VecAdditionalExecFns;
use vstd::prelude::*;

use crate::db::{Database, DbModel, singletons_wf};
use crate::rows::{BreakActivity, TimerSettingsRow};
use crate::rows::{default_streak_row, spec_default_streak_row};
use crate::schema::{
    ColumnId, IndexId, TableColumn, TableId, index_table, initial_columns, is_singleton_table,
    spec_index_table, spec_initial_columns,
};

verus! {

/// Why a schema change or a write was rejected.
#[derive(Clone, Copy, Debug, PartialEq, Eq, Structural)]
pub enum DbError {
    /// The statement names a table the schema does not have.
    NoSuchTable,
    /// ALTER TABLE would add a column that already exists.
    DuplicateColumn,
    /// CREATE INDEX would add an index that already exists.
    DuplicateIndex,
    /// A value falls outside the column's allowed set.
    CheckViolation,
    /// A second row would carry a value a unique column already holds.
    UniqueViolation,
    /// The statement is not one this store supports.
    Unsupported,
}

/// Direction of a migration.
#[derive(Clone, Copy, Debug, PartialEq, Eq, Structural)]
pub enum MigrationKind {
    Up,
    Down,
}

/// One step of a migration's statement batch.
#[derive(Clone, Copy, Debug, PartialEq, Eq, Structural)]
pub enum SchemaChange {
    /// CREATE TABLE IF NOT EXISTS, with the table's initial columns.
    CreateTable(TableId),
    /// ALTER TABLE ADD COLUMN, backfilling existing rows with the default.
    AddColumn(TableColumn),
    /// CREATE INDEX; fails if the index already exists.
    CreateIndex(IndexId),
    /// INSERT OR IGNORE of a singleton table's default row.
    SeedSingleton(TableId),
}

/// A `timer_settings` row after an added column has been backfilled with its
/// default value. Columns whose values this store does not model leave the
/// row alone.
pub open spec fn spec_backfill_row(r: TimerSettingsRow, c: ColumnId) -> TimerSettingsRow {
    match c {
        ColumnId::TsSoundEnabled => TimerSettingsRow { sound_enabled: Some(1), ..r },
        ColumnId::TsDefaultBreakActivity => TimerSettingsRow {
            default_break_activity: Some(BreakActivity::Ask),
            ..r
        },
        ColumnId::TsShowCyclePreview => TimerSettingsRow { show_cycle_preview: Some(1), ..r },
        _ => r,
    }
}

/// Backfill of a whole table of settings rows.
pub open spec fn spec_backfill_rows(s: Seq<TimerSettingsRow>, c: ColumnId) -> Seq<
    TimerSettingsRow,
> {
    s.map_values(|r: TimerSettingsRow| spec_backfill_row(r, c))
}

/// The `timer_settings` row INSERT OR IGNORE seeds: the documented defaults,
/// with a value for exactly the columns the schema has at seeding time.
pub open spec fn spec_seeded_settings_row(d: DbModel) -> TimerSettingsRow {
    TimerSettingsRow {
        id: 1,
        work_duration: 25,
        short_break_duration: 5,
        long_break_duration: 15,
        sessions_before_long_break: 4,
        sound_enabled: if d.columns.contains(
            TableColumn { table: TableId::TimerSettings, column: ColumnId::TsSoundEnabled },
        ) {
            Some(1)
        } else {
            None
        },
        default_break_activity: if d.columns.contains(
            TableColumn {
                table: TableId::TimerSettings,
                column: ColumnId::TsDefaultBreakActivity,
            },
        ) {
            Some(BreakActivity::Ask)
        } else {
            None
        },
        show_cycle_preview: if d.columns.contains(
            TableColumn { table: TableId::TimerSettings, column: ColumnId::TsShowCyclePreview },
        ) {
            Some(1)
        } else {
            None
        },
    }
}

/// What one schema change does to the database state: the new state, or the
/// error that rejects it (leaving the state as it was).
pub open spec fn spec_apply_change(d: DbModel, c: SchemaChange) -> Result<DbModel, DbError> {
    match c {
        SchemaChange::CreateTable(t) => if d.tables.contains(t) {
            Ok(d)
        } else {
            Ok(
                DbModel {
                    tables: d.tables.push(t),
                    columns: d.columns + spec_initial_columns(t),
                    ..d
                },
            )
        },
        SchemaChange::AddColumn(tc) => if !d.tables.contains(tc.table) {
            Err(DbError::NoSuchTable)
        } else if d.columns.contains(tc) {
            Err(DbError::DuplicateColumn)
        } else if tc.table == TableId::TimerSettings {
            Ok(
                DbModel {
                    columns: d.columns.push(tc),
                    timer_settings: spec_backfill_rows(d.timer_settings, tc.column),
                    ..d
                },
            )
        } else {
            Ok(DbModel { columns: d.columns.push(tc), ..d })
        },
        SchemaChange::CreateIndex(i) => if !d.tables.contains(spec_index_table(i)) {
            Err(DbError::NoSuchTable)
        } else if d.indexes.contains(i) {
            Err(DbError::DuplicateIndex)
        } else {
            Ok(DbModel { indexes: d.indexes.push(i), ..d })
        },
        SchemaChange::SeedSingleton(t) => if !is_singleton_table(t) {
            Err(DbError::Unsupported)
        } else if !d.tables.contains(t) {
            Err(DbError::NoSuchTable)
        } else if t == TableId::TimerSettings {
            if d.timer_settings.len() > 0 {
                Ok(d)
            } else {
                Ok(DbModel { timer_settings: seq![spec_seeded_settings_row(d)], ..d })
            }
        } else {
            if d.streak_info.len() > 0 {
                Ok(d)
            } else {
                Ok(DbModel { streak_info: seq![spec_default_streak_row()], ..d })
            }
        },
    }
}

/// Backfills every settings row with the added column's default.
fn backfill_settings(rows: &mut Vec<TimerSettingsRow>, c: ColumnId)
    ensures
        final(rows)@ == spec_backfill_rows(old(rows)@, c),
{
    let mut i: usize = 0;
    while i < rows.len()
        invariant
            i <= rows@.len(),
            rows@.len() == old(rows)@.len(),
            forall|j: int| 0 <= j < i ==> rows@[j] == spec_backfill_row(old(rows)@[j], c),
            forall|j: int| i <= j < rows@.len() ==> rows@[j] == old(rows)@[j],
        decreases rows@.len() - i,
    {
        let r = rows[i];
        let updated = match c {
            ColumnId::TsSoundEnabled => TimerSettingsRow { sound_enabled: Some(1), ..r },
            ColumnId::TsDefaultBreakActivity => TimerSettingsRow {
                default_break_activity: Some(BreakActivity::Ask),
                ..r
            },
            ColumnId::TsShowCyclePreview => TimerSettingsRow { show_cycle_preview: Some(1), ..r },
            _ => r,
        };
        assert(updated == spec_backfill_row(old(rows)@[i as int], c));
        rows.set(i, updated);
        i += 1;
    }
    assert(rows@ =~= spec_backfill_rows(old(rows)@, c));
}

/// Builds the seed row for `timer_settings` against the current schema.
fn seeded_settings_row(db: &Database) -> (r: TimerSettingsRow)
    ensures
        r == spec_seeded_settings_row(db@),
{
    TimerSettingsRow {
        id: 1,
        work_duration: 25,
        short_break_duration: 5,
        long_break_duration: 15,
        sessions_before_long_break: 4,
        sound_enabled: if db.column_exists(
            TableColumn { table: TableId::TimerSettings, column: ColumnId::TsSoundEnabled },
        ) {
            Some(1)
        } else {
            None
        },
        default_break_activity: if db.column_exists(
            TableColumn {
                table: TableId::TimerSettings,
                column: ColumnId::TsDefaultBreakActivity,
            },
        ) {
            Some(BreakActivity::Ask)
        } else {
            None
        },
        show_cycle_preview: if db.column_exists(
            TableColumn { table: TableId::TimerSettings, column: ColumnId::TsShowCyclePreview },
        ) {
            Some(1)
        } else {
            None
        },
    }
}

/// Applies one schema change; each change is atomic on its own: on an error
/// the state is untouched.
pub fn apply_change(db: &mut Database, c: SchemaChange) -> (r: Result<(), DbError>)
    ensures
        match spec_apply_change(old(db)@, c) {
            Ok(d) => r is Ok && final(db)@ == d,
            Err(e) => r == Err::<(), DbError>(e) && final(db)@ == old(db)@,
        },
{
    match c {
        SchemaChange::CreateTable(t) => {
            if db.table_exists(t) {
                return Ok(());
            }
            db.tables.push(t);
            let mut cols = initial_columns(t);
            db.columns.append(&mut cols);
            assert(db@ =~= (DbModel {
                tables: old(db)@.tables.push(t),
                columns: old(db)@.columns + spec_initial_columns(t),
                ..old(db)@
            }));
            Ok(())
        },
        SchemaChange::AddColumn(tc) => {
            if !db.table_exists(tc.table) {
                return Err(DbError::NoSuchTable);
            }
            if db.column_exists(tc) {
                return Err(DbError::DuplicateColumn);
            }
            db.columns.push(tc);
            if tc.table == TableId::TimerSettings {
                backfill_settings(&mut db.timer_settings, tc.column);
            }
            Ok(())
        },
        SchemaChange::CreateIndex(i) => {
            if !db.table_exists(index_table(i)) {
                return Err(DbError::NoSuchTable);
            }
            if db.index_exists(i) {
                return Err(DbError::DuplicateIndex);
            }
            db.indexes.push(i);
            Ok(())
        },
        SchemaChange::SeedSingleton(t) => {
            match t {
                TableId::TimerSettings => {
                    if !db.table_exists(t) {
                        return Err(DbError::NoSuchTable);
                    }
                    if db.timer_settings.len() == 0 {
                        let row = seeded_settings_row(db);
                        db.timer_settings.push(row);
                        assert(db@.timer_settings =~= seq![spec_seeded_settings_row(old(db)@)]);
                    }
                    Ok(())
                },
                TableId::StreakInfo => {
                    if !db.table_exists(t) {
                        return Err(DbError::NoSuchTable);
                    }
                    if db.streak_info.len() == 0 {
                        db.streak_info.push(default_streak_row());
                        assert(db@.streak_info =~= seq![spec_default_streak_row()]);
                    }
                    Ok(())
                },
                _ => Err(DbError::Unsupported),
            }
        },
    }
}

/// No schema change breaks the singleton-table invariant: creating a table
/// adds no rows, backfill keeps every row's key, and a seed only fills an
/// empty singleton with its one default row.
pub proof fn lemma_change_preserves_singletons(d: DbModel, c: SchemaChange)
    requires
        singletons_wf(d),
    ensures
        spec_apply_change(d, c) matches Ok(d2) ==> singletons_wf(d2),
{
    match c {
        SchemaChange::AddColumn(tc) => {
            if d.tables.contains(tc.table) && !d.columns.contains(tc) && tc.table
                == TableId::TimerSettings {
                let rows2 = spec_backfill_rows(d.timer_settings, tc.column);
                assert(rows2.len() == d.timer_settings.len());
                assert forall|j: int| 0 <= j < rows2.len() implies rows2[j].id == 1 by {
                    assert(rows2[j] == spec_backfill_row(d.timer_settings[j], tc.column));
                }
            }
        },
        SchemaChange::SeedSingleton(t) => {
            if is_singleton_table(t) && d.tables.contains(t) {
                if t == TableId::TimerSettings && d.timer_settings.len() == 0 {
                    let d2 = spec_apply_change(d, c)->Ok_0;
                    assert(d2.timer_settings[0] == spec_seeded_settings_row(d));
                } else if t == TableId::StreakInfo && d.streak_info.len() == 0 {
                    let d2 = spec_apply_change(d, c)->Ok_0;
                    assert(d2.streak_info[0] == spec_default_streak_row());
                }
            }
        },
        _ => {},
    }
}

} // verus!
