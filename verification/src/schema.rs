//! Identifiers for the fixed schema domain of the timer database: its tables,
//! their columns, and its indexes, together with the structural facts the
//! migration registry relies on (which columns a table starts with, which
//! table an index belongs to, which tables are singletons).

use vstd::prelude::*;

verus! {

/// The tables of the final schema.
#[derive(Clone, Copy, Debug, PartialEq, Eq, Structural)]
pub enum TableId {
    TimerSettings,
    SessionHistory,
    DailyStats,
    StreakInfo,
}

/// Every column of the final schema, one variant per (table, column) pair.
#[derive(Clone, Copy, Debug, PartialEq, Eq, Structural)]
pub enum ColumnId {
    // timer_settings
    TsId,
    TsWorkDuration,
    TsShortBreakDuration,
    TsLongBreakDuration,
    TsSessionsBeforeLongBreak,
    TsUpdatedAt,
    TsSoundEnabled,
    TsDefaultBreakActivity,
    TsShowCyclePreview,
    // session_history
    ShId,
    ShSessionType,
    ShEventType,
    ShTimestamp,
    ShDuration,
    ShExpectedDuration,
    ShSessionNumber,
    ShActivityType,
    ShCreatedAt,
    // daily_stats
    DsId,
    DsDate,
    DsCompletedSessions,
    DsSkippedSessions,
    DsTotalWorkSeconds,
    DsCompletionRate,
    DsFocusScore,
    DsStreakDay,
    // streak_info
    SiId,
    SiCurrentStreak,
    SiLongestStreak,
    SiLastActivityDate,
}

/// The indexes of the final schema.
#[derive(Clone, Copy, Debug, PartialEq, Eq, Structural)]
pub enum IndexId {
    SessionHistoryTimestamp,
    SessionHistoryType,
}

/// A column together with the table it belongs to, as recorded in the
/// database's column catalogue.
#[derive(Clone, Copy, Debug, PartialEq, Eq, Structural)]
pub struct TableColumn {
    pub table: TableId,
    pub column: ColumnId,
}

/// The columns a table has right after its CREATE TABLE statement, before any
/// ALTER TABLE migration adds more.
pub open spec fn spec_initial_columns(t: TableId) -> Seq<TableColumn> {
    match t {
        TableId::TimerSettings => seq![
            TableColumn { table: t, column: ColumnId::TsId },
            TableColumn { table: t, column: ColumnId::TsWorkDuration },
            TableColumn { table: t, column: ColumnId::TsShortBreakDuration },
            TableColumn { table: t, column: ColumnId::TsLongBreakDuration },
            TableColumn { table: t, column: ColumnId::TsSessionsBeforeLongBreak },
            TableColumn { table: t, column: ColumnId::TsUpdatedAt },
        ],
        TableId::SessionHistory => seq![
            TableColumn { table: t, column: ColumnId::ShId },
            TableColumn { table: t, column: ColumnId::ShSessionType },
            TableColumn { table: t, column: ColumnId::ShEventType },
            TableColumn { table: t, column: ColumnId::ShTimestamp },
            TableColumn { table: t, column: ColumnId::ShDuration },
            TableColumn { table: t, column: ColumnId::ShExpectedDuration },
            TableColumn { table: t, column: ColumnId::ShSessionNumber },
            TableColumn { table: t, column: ColumnId::ShActivityType },
            TableColumn { table: t, column: ColumnId::ShCreatedAt },
        ],
        TableId::DailyStats => seq![
            TableColumn { table: t, column: ColumnId::DsId },
            TableColumn { table: t, column: ColumnId::DsDate },
            TableColumn { table: t, column: ColumnId::DsCompletedSessions },
            TableColumn { table: t, column: ColumnId::DsSkippedSessions },
            TableColumn { table: t, column: ColumnId::DsTotalWorkSeconds },
            TableColumn { table: t, column: ColumnId::DsCompletionRate },
            TableColumn { table: t, column: ColumnId::DsFocusScore },
            TableColumn { table: t, column: ColumnId::DsStreakDay },
        ],
        TableId::StreakInfo => seq![
            TableColumn { table: t, column: ColumnId::SiId },
            TableColumn { table: t, column: ColumnId::SiCurrentStreak },
            TableColumn { table: t, column: ColumnId::SiLongestStreak },
            TableColumn { table: t, column: ColumnId::SiLastActivityDate },
        ],
    }
}

/// Executable counterpart of [`spec_initial_columns`].
pub fn initial_columns(t: TableId) -> (r: Vec<TableColumn>)
    ensures
        r@ == spec_initial_columns(t),
{
    let mut r: Vec<TableColumn> = Vec::new();
    match t {
        TableId::TimerSettings => {
            r.push(TableColumn { table: t, column: ColumnId::TsId });
            r.push(TableColumn { table: t, column: ColumnId::TsWorkDuration });
            r.push(TableColumn { table: t, column: ColumnId::TsShortBreakDuration });
            r.push(TableColumn { table: t, column: ColumnId::TsLongBreakDuration });
            r.push(TableColumn { table: t, column: ColumnId::TsSessionsBeforeLongBreak });
            r.push(TableColumn { table: t, column: ColumnId::TsUpdatedAt });
        },
        TableId::SessionHistory => {
            r.push(TableColumn { table: t, column: ColumnId::ShId });
            r.push(TableColumn { table: t, column: ColumnId::ShSessionType });
            r.push(TableColumn { table: t, column: ColumnId::ShEventType });
            r.push(TableColumn { table: t, column: ColumnId::ShTimestamp });
            r.push(TableColumn { table: t, column: ColumnId::ShDuration });
            r.push(TableColumn { table: t, column: ColumnId::ShExpectedDuration });
            r.push(TableColumn { table: t, column: ColumnId::ShSessionNumber });
            r.push(TableColumn { table: t, column: ColumnId::ShActivityType });
            r.push(TableColumn { table: t, column: ColumnId::ShCreatedAt });
        },
        TableId::DailyStats => {
            r.push(TableColumn { table: t, column: ColumnId::DsId });
            r.push(TableColumn { table: t, column: ColumnId::DsDate });
            r.push(TableColumn { table: t, column: ColumnId::DsCompletedSessions });
            r.push(TableColumn { table: t, column: ColumnId::DsSkippedSessions });
            r.push(TableColumn { table: t, column: ColumnId::DsTotalWorkSeconds });
            r.push(TableColumn { table: t, column: ColumnId::DsCompletionRate });
            r.push(TableColumn { table: t, column: ColumnId::DsFocusScore });
            r.push(TableColumn { table: t, column: ColumnId::DsStreakDay });
        },
        TableId::StreakInfo => {
            r.push(TableColumn { table: t, column: ColumnId::SiId });
            r.push(TableColumn { table: t, column: ColumnId::SiCurrentStreak });
            r.push(TableColumn { table: t, column: ColumnId::SiLongestStreak });
            r.push(TableColumn { table: t, column: ColumnId::SiLastActivityDate });
        },
    }
    assert(r@ == spec_initial_columns(t));
    r
}

/// The table an index is declared on.
pub open spec fn spec_index_table(i: IndexId) -> TableId {
    match i {
        IndexId::SessionHistoryTimestamp => TableId::SessionHistory,
        IndexId::SessionHistoryType => TableId::SessionHistory,
    }
}

/// Executable counterpart of [`spec_index_table`].
pub fn index_table(i: IndexId) -> (r: TableId)
    ensures
        r == spec_index_table(i),
{
    match i {
        IndexId::SessionHistoryTimestamp => TableId::SessionHistory,
        IndexId::SessionHistoryType => TableId::SessionHistory,
    }
}

/// Tables constrained to hold at most one row, via a fixed-value primary key.
pub open spec fn is_singleton_table(t: TableId) -> bool {
    t == TableId::TimerSettings || t == TableId::StreakInfo
}

} // verus!
