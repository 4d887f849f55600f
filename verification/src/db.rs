//! The database state: the schema catalogue (tables, columns, indexes), the
//! contents of each table, and the last applied migration version. Its
//! mathematical model [`DbModel`] is what every contract in the crate speaks
//! of.

use vstd::prelude::*;

use crate::rows::{DailyStatsRow, SessionRow, StreakRow, TimerSettingsRow};
use crate::schema::{IndexId, TableColumn, TableId};

verus! {

/// Mathematical model of a [`Database`]: the same information over `Seq`.
#[verifier::ext_equal]
pub struct DbModel {
    pub user_version: u64,
    pub tables: Seq<TableId>,
    pub columns: Seq<TableColumn>,
    pub indexes: Seq<IndexId>,
    pub timer_settings: Seq<TimerSettingsRow>,
    pub session_history: Seq<SessionRow>,
    pub daily_stats: Seq<DailyStatsRow>,
    pub streak_info: Seq<StreakRow>,
}

/// The whole state of one embedded database: its schema catalogue, the rows
/// of each table, and the version of the last applied migration
/// (`0` on a fresh file).
#[derive(Debug, PartialEq, Eq)]
pub struct Database {
    pub user_version: u64,
    pub tables: Vec<TableId>,
    pub columns: Vec<TableColumn>,
    pub indexes: Vec<IndexId>,
    pub timer_settings: Vec<TimerSettingsRow>,
    pub session_history: Vec<SessionRow>,
    pub daily_stats: Vec<DailyStatsRow>,
    pub streak_info: Vec<StreakRow>,
}

impl View for Database {
    type V = DbModel;

    open spec fn view(&self) -> DbModel {
        DbModel {
            user_version: self.user_version,
            tables: self.tables@,
            columns: self.columns@,
            indexes: self.indexes@,
            timer_settings: self.timer_settings@,
            session_history: self.session_history@,
            daily_stats: self.daily_stats@,
            streak_info: self.streak_info@,
        }
    }
}

/// The model of a fresh database file: no schema, no rows, version 0.
pub open spec fn spec_fresh_db() -> DbModel {
    DbModel {
        user_version: 0,
        tables: Seq::empty(),
        columns: Seq::empty(),
        indexes: Seq::empty(),
        timer_settings: Seq::empty(),
        session_history: Seq::empty(),
        daily_stats: Seq::empty(),
        streak_info: Seq::empty(),
    }
}

impl Database {
    /// A fresh database file, before any migration has run.
    pub fn fresh() -> (r: Database)
        ensures
            r@ == spec_fresh_db(),
    {
        let r = Database {
            user_version: 0,
            tables: Vec::new(),
            columns: Vec::new(),
            indexes: Vec::new(),
            timer_settings: Vec::new(),
            session_history: Vec::new(),
            daily_stats: Vec::new(),
            streak_info: Vec::new(),
        };
        assert(r@ == spec_fresh_db());
        r
    }

    /// Whether a table exists in the schema catalogue.
    pub fn table_exists(&self, t: TableId) -> (r: bool)
        ensures
            r == self@.tables.contains(t),
    {
        let mut i: usize = 0;
        while i < self.tables.len()
            invariant
                i <= self.tables@.len(),
                forall|j: int| 0 <= j < i ==> self.tables@[j] != t,
            decreases self.tables@.len() - i,
        {
            if self.tables[i] == t {
                return true;
            }
            i += 1;
        }
        false
    }

    /// Whether a column exists on a table, per the schema catalogue.
    pub fn column_exists(&self, c: TableColumn) -> (r: bool)
        ensures
            r == self@.columns.contains(c),
    {
        let mut i: usize = 0;
        while i < self.columns.len()
            invariant
                i <= self.columns@.len(),
                forall|j: int| 0 <= j < i ==> self.columns@[j] != c,
            decreases self.columns@.len() - i,
        {
            if self.columns[i] == c {
                return true;
            }
            i += 1;
        }
        false
    }

    /// Whether an index exists in the schema catalogue.
    pub fn index_exists(&self, i: IndexId) -> (r: bool)
        ensures
            r == self@.indexes.contains(i),
    {
        let mut k: usize = 0;
        while k < self.indexes.len()
            invariant
                k <= self.indexes@.len(),
                forall|j: int| 0 <= j < k ==> self.indexes@[j] != i,
            decreases self.indexes@.len() - k,
        {
            if self.indexes[k] == i {
                return true;
            }
            k += 1;
        }
        false
    }

    /// Whether some `daily_stats` row already carries this date.
    pub fn date_taken(&self, date: i64) -> (r: bool)
        ensures
            r == exists|j: int|
                0 <= j < self@.daily_stats.len() && self@.daily_stats[j].date == date,
    {
        let mut i: usize = 0;
        while i < self.daily_stats.len()
            invariant
                i <= self.daily_stats@.len(),
                forall|j: int| 0 <= j < i ==> self.daily_stats@[j].date != date,
            decreases self.daily_stats@.len() - i,
        {
            if self.daily_stats[i].date == date {
                assert(0 <= i < self@.daily_stats.len() && self@.daily_stats[i as int].date
                    == date);
                return true;
            }
            i += 1;
        }
        false
    }

    /// The version of the last applied migration; `0` on a fresh file.
    pub fn version(&self) -> (r: u64)
        ensures
            r == self@.user_version,
    {
        self.user_version
    }

    /// The `timer_settings` row, if the table has been seeded.
    pub fn timer_settings_row(&self) -> (r: Option<TimerSettingsRow>)
        ensures
            r == if self@.timer_settings.len() > 0 {
                Some(self@.timer_settings[0])
            } else {
                Option::<TimerSettingsRow>::None
            },
    {
        if self.timer_settings.len() > 0 {
            Some(self.timer_settings[0])
        } else {
            None
        }
    }

    /// The `streak_info` row, if the table has been seeded.
    pub fn streak_row(&self) -> (r: Option<StreakRow>)
        ensures
            r == if self@.streak_info.len() > 0 {
                Some(self@.streak_info[0])
            } else {
                Option::<StreakRow>::None
            },
    {
        if self.streak_info.len() > 0 {
            Some(self.streak_info[0])
        } else {
            None
        }
    }

    /// How many sessions the history log holds.
    pub fn session_count(&self) -> (r: usize)
        ensures
            r == self@.session_history.len(),
    {
        self.session_history.len()
    }

    /// A session-history entry, by position in the log.
    pub fn session_at(&self, i: usize) -> (r: Option<SessionRow>)
        ensures
            r == if i < self@.session_history.len() {
                Some(self@.session_history[i as int])
            } else {
                Option::<SessionRow>::None
            },
    {
        if i < self.session_history.len() {
            Some(self.session_history[i])
        } else {
            None
        }
    }

    /// How many dates `daily_stats` holds.
    pub fn daily_stats_count(&self) -> (r: usize)
        ensures
            r == self@.daily_stats.len(),
    {
        self.daily_stats.len()
    }

    /// A `daily_stats` row, by position.
    pub fn daily_stats_at(&self, i: usize) -> (r: Option<DailyStatsRow>)
        ensures
            r == if i < self@.daily_stats.len() {
                Some(self@.daily_stats[i as int])
            } else {
                Option::<DailyStatsRow>::None
            },
    {
        if i < self.daily_stats.len() {
            Some(self.daily_stats[i])
        } else {
            None
        }
    }
}

/// Copies a vector of plain values, element by element.
pub fn copy_vec<T: Copy>(v: &Vec<T>) -> (r: Vec<T>)
    ensures
        r@ == v@,
{
    let mut r: Vec<T> = Vec::new();
    let mut i: usize = 0;
    while i < v.len()
        invariant
            i <= v@.len(),
            r@ == v@.subrange(0, i as int),
        decreases v@.len() - i,
    {
        r.push(v[i]);
        i += 1;
    }
    assert(r@ == v@);
    r
}

/// Copies the whole database state, for transactional rollback.
pub fn snapshot(db: &Database) -> (r: Database)
    ensures
        r@ == db@,
{
    let r = Database {
        user_version: db.user_version,
        tables: copy_vec(&db.tables),
        columns: copy_vec(&db.columns),
        indexes: copy_vec(&db.indexes),
        timer_settings: copy_vec(&db.timer_settings),
        session_history: copy_vec(&db.session_history),
        daily_stats: copy_vec(&db.daily_stats),
        streak_info: copy_vec(&db.streak_info),
    };
    assert(r@ == db@);
    r
}

/// The singleton-table invariant: `timer_settings` and `streak_info` never
/// hold more than one row, and that row's fixed primary key is 1.
pub open spec fn singletons_wf(d: DbModel) -> bool {
    &&& d.timer_settings.len() <= 1
    &&& d.streak_info.len() <= 1
    &&& forall|j: int| 0 <= j < d.timer_settings.len() ==> d.timer_settings[j].id == 1
    &&& forall|j: int| 0 <= j < d.streak_info.len() ==> d.streak_info[j].id == 1
}

/// The `daily_stats` uniqueness invariant: no two rows share a date.
pub open spec fn daily_dates_unique(d: DbModel) -> bool {
    forall|j: int, k: int|
        0 <= j < k < d.daily_stats.len() ==> d.daily_stats[j].date != d.daily_stats[k].date
}

} // verus!
