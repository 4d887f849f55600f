//! Write operations of the store, enforcing at write time what the schema's
//! constraints state: enumerated text columns admit only their fixed allowed
//! sets, and `daily_stats` admits at most one row per date. A rejected write
//! leaves the database untouched.

use vstd::prelude::*;

use crate::db::{Database, DbModel, daily_dates_unique, singletons_wf};
use crate::migrate::DbError;
use crate::rows::{
    DailyStatsRow, SessionRow, spec_parse_activity_type, spec_parse_event_type,
    spec_parse_session_type, parse_activity_type, parse_event_type, parse_session_type,
};
use crate::schema::TableId;

verus! {

/// A session-history entry as the application hands it in: the enumerated
/// columns still as text, exactly as the SQL INSERT would carry them.
pub struct SessionInput {
    pub session_type: String,
    pub event_type: String,
    pub activity_type: Option<String>,
    pub timestamp: i64,
    pub duration: i64,
    pub expected_duration: i64,
    pub session_number: Option<i64>,
}

/// Model of a [`SessionInput`]: the text fields as character sequences.
#[verifier::ext_equal]
pub struct SessionInputModel {
    pub session_type: Seq<char>,
    pub event_type: Seq<char>,
    pub activity_type: Option<Seq<char>>,
    pub timestamp: i64,
    pub duration: i64,
    pub expected_duration: i64,
    pub session_number: Option<i64>,
}

impl View for SessionInput {
    type V = SessionInputModel;

    open spec fn view(&self) -> SessionInputModel {
        SessionInputModel {
            session_type: self.session_type@,
            event_type: self.event_type@,
            activity_type: match self.activity_type {
                Some(s) => Some(s@),
                None => None,
            },
            timestamp: self.timestamp,
            duration: self.duration,
            expected_duration: self.expected_duration,
            session_number: self.session_number,
        }
    }
}

/// Whether every enumerated text field of the input lies in its column's
/// allowed set — the CHECK constraints of `session_history`.
pub open spec fn session_input_valid(inp: SessionInputModel) -> bool {
    &&& spec_parse_session_type(inp.session_type) is Some
    &&& spec_parse_event_type(inp.event_type) is Some
    &&& match inp.activity_type {
        Some(s) => spec_parse_activity_type(s) is Some,
        None => true,
    }
}

/// The row a valid input becomes, appended at the end of the log with the
/// next rowid.
pub open spec fn spec_session_row_of(d: DbModel, inp: SessionInputModel) -> SessionRow {
    SessionRow {
        id: (d.session_history.len() + 1) as i64,
        session_type: spec_parse_session_type(inp.session_type)->Some_0,
        event_type: spec_parse_event_type(inp.event_type)->Some_0,
        timestamp: inp.timestamp,
        duration: inp.duration,
        expected_duration: inp.expected_duration,
        session_number: inp.session_number,
        activity_type: match inp.activity_type {
            Some(s) => Some(spec_parse_activity_type(s)->Some_0),
            None => None,
        },
        created_at: inp.timestamp,
    }
}

/// What inserting a session-history entry does: rejected with `NoSuchTable`
/// before the table exists, rejected with `CheckViolation` when an enumerated
/// text field falls outside its allowed set, otherwise appended to the log.
pub open spec fn spec_insert_session(d: DbModel, inp: SessionInputModel) -> Result<
    DbModel,
    DbError,
> {
    if !d.tables.contains(TableId::SessionHistory) {
        Err(DbError::NoSuchTable)
    } else if !session_input_valid(inp) {
        Err(DbError::CheckViolation)
    } else {
        Ok(DbModel { session_history: d.session_history.push(spec_session_row_of(d, inp)), ..d })
    }
}

/// Inserts one session-history entry, enforcing the CHECK constraints: an
/// out-of-enum `session_type`, `event_type` or `activity_type` is rejected
/// and the database is left untouched. Returns the new entry's rowid.
pub fn insert_session(db: &mut Database, input: &SessionInput) -> (r: Result<i64, DbError>)
    requires
        old(db)@.session_history.len() < 0x7fff_ffff_ffff_ffff,
    ensures
        match spec_insert_session(old(db)@, input@) {
            Ok(d) => r == Ok::<i64, DbError>(d.session_history.last().id) && final(db)@ == d,
            Err(e) => r == Err::<i64, DbError>(e) && final(db)@ == old(db)@,
        },
        !session_input_valid(input@) ==> r is Err && final(db)@ == old(db)@,
{
    if !db.table_exists(TableId::SessionHistory) {
        return Err(DbError::NoSuchTable);
    }
    let st = parse_session_type(input.session_type.as_str());
    let et = parse_event_type(input.event_type.as_str());
    let at: Option<Option<crate::rows::ActivityType>> = match &input.activity_type {
        Some(s) => match parse_activity_type(s.as_str()) {
            Some(a) => Some(Some(a)),
            None => None,
        },
        None => Some(None),
    };
    match (st, et, at) {
        (Some(session_type), Some(event_type), Some(activity_type)) => {
            let id = db.session_history.len() as i64 + 1;
            let row = SessionRow {
                id,
                session_type,
                event_type,
                timestamp: input.timestamp,
                duration: input.duration,
                expected_duration: input.expected_duration,
                session_number: input.session_number,
                activity_type,
                created_at: input.timestamp,
            };
            db.session_history.push(row);
            assert(final(db)@.session_history.last() == row);
            Ok(id)
        },
        _ => Err(DbError::CheckViolation),
    }
}

/// What inserting a `daily_stats` row does: rejected with `NoSuchTable`
/// before the table exists, rejected with `UniqueViolation` when some row
/// already carries the same date, otherwise appended with the next rowid.
pub open spec fn spec_insert_daily_stats(d: DbModel, row: DailyStatsRow) -> Result<
    DbModel,
    DbError,
> {
    if !d.tables.contains(TableId::DailyStats) {
        Err(DbError::NoSuchTable)
    } else if exists|j: int| 0 <= j < d.daily_stats.len() && d.daily_stats[j].date == row.date {
        Err(DbError::UniqueViolation)
    } else {
        Ok(
            DbModel {
                daily_stats: d.daily_stats.push(
                    DailyStatsRow { id: (d.daily_stats.len() + 1) as i64, ..row },
                ),
                ..d
            },
        )
    }
}

/// Inserts one `daily_stats` row, enforcing the UNIQUE constraint on the
/// date: a duplicate date is rejected and the database is left untouched.
/// The given row's `id` field is ignored; the store assigns the next rowid,
/// which is returned.
pub fn insert_daily_stats(db: &mut Database, row: DailyStatsRow) -> (r: Result<i64, DbError>)
    requires
        old(db)@.daily_stats.len() < 0x7fff_ffff_ffff_ffff,
    ensures
        match spec_insert_daily_stats(old(db)@, row) {
            Ok(d) => r == Ok::<i64, DbError>(d.daily_stats.last().id) && final(db)@ == d,
            Err(e) => r == Err::<i64, DbError>(e) && final(db)@ == old(db)@,
        },
        old(db)@.tables.contains(TableId::DailyStats) && (exists|j: int|
            0 <= j < old(db)@.daily_stats.len() && old(db)@.daily_stats[j].date == row.date)
            ==> r == Err::<i64, DbError>(DbError::UniqueViolation) && final(db)@ == old(db)@,
{
    if !db.table_exists(TableId::DailyStats) {
        return Err(DbError::NoSuchTable);
    }
    if db.date_taken(row.date) {
        return Err(DbError::UniqueViolation);
    }
    let id = db.daily_stats.len() as i64 + 1;
    let stored = DailyStatsRow { id, ..row };
    db.daily_stats.push(stored);
    assert(final(db)@.daily_stats.last() == stored);
    Ok(id)
}

/// Date uniqueness is an invariant of the store: if no two `daily_stats`
/// rows share a date, none do after any accepted insert either.
pub proof fn lemma_insert_daily_stats_keeps_dates_unique(d: DbModel, row: DailyStatsRow)
    requires
        daily_dates_unique(d),
    ensures
        spec_insert_daily_stats(d, row) matches Ok(d2) ==> daily_dates_unique(d2),
{
    match spec_insert_daily_stats(d, row) {
        Ok(d2) => {
            assert forall|j: int, k: int|
                0 <= j < k < d2.daily_stats.len() implies d2.daily_stats[j].date
                != d2.daily_stats[k].date by {
                if k < d.daily_stats.len() {
                } else {
                    assert(d2.daily_stats[k].date == row.date);
                    assert(!(exists|i: int|
                        0 <= i < d.daily_stats.len() && d.daily_stats[i].date == row.date));
                }
            }
        },
        Err(_) => {},
    }
}

/// Writes to the log tables never touch the singleton tables: the invariant
/// that `timer_settings` and `streak_info` hold exactly their one row
/// survives every insert.
pub proof fn lemma_inserts_preserve_singletons(
    d: DbModel,
    inp: SessionInputModel,
    row: DailyStatsRow,
)
    requires
        singletons_wf(d),
    ensures
        spec_insert_session(d, inp) matches Ok(d2) ==> singletons_wf(d2),
        spec_insert_daily_stats(d, row) matches Ok(d3) ==> singletons_wf(d3),
{
}

} // verus!
