//! Row values of the timer database, and the parsers that stand where the
//! schema's CHECK constraints stand in SQL: each enumerated text column admits
//! a fixed set of strings, and any other string is rejected at write time.

use vstd::prelude::*;

verus! {

/// Allowed values of the `session_type` column.
#[derive(Clone, Copy, Debug, PartialEq, Eq, Structural)]
pub enum SessionType {
    Pomodoro,
    ShortBreak,
    LongBreak,
}

/// Allowed values of the `event_type` column: the outcome of a session.
#[derive(Clone, Copy, Debug, PartialEq, Eq, Structural)]
pub enum EventType {
    Completed,
    Skipped,
    Abandoned,
    ManualSwitch,
}

/// Allowed values of the `activity_type` column: what was done during a break.
#[derive(Clone, Copy, Debug, PartialEq, Eq, Structural)]
pub enum ActivityType {
    Stretch,
    Walk,
    Exercise,
    Hydrate,
    Rest,
    Other,
}

/// Allowed values of the `default_break_activity` setting: a break activity,
/// or `Ask` to prompt the user each time.
#[derive(Clone, Copy, Debug, PartialEq, Eq, Structural)]
pub enum BreakActivity {
    Ask,
    Stretch,
    Walk,
    Exercise,
    Hydrate,
    Rest,
    Other,
}

/// String equality on character sequences, used by the parsers below.
fn str_eq(a: &str, b: &str) -> (r: bool)
    ensures
        r == (a@ == b@),
{
    let x: String = a.to_owned();
    let y: String = b.to_owned();
    x == y
}

/// The `session_type` CHECK constraint: which strings name a session type.
pub open spec fn spec_parse_session_type(s: Seq<char>) -> Option<SessionType> {
    if s == "pomodoro"@ {
        Some(SessionType::Pomodoro)
    } else if s == "shortBreak"@ {
        Some(SessionType::ShortBreak)
    } else if s == "longBreak"@ {
        Some(SessionType::LongBreak)
    } else {
        None
    }
}

/// Parses a `session_type` string; any string outside the allowed set yields
/// `None`.
pub fn parse_session_type(s: &str) -> (r: Option<SessionType>)
    ensures
        r == spec_parse_session_type(s@),
{
    if str_eq(s, "pomodoro") {
        Some(SessionType::Pomodoro)
    } else if str_eq(s, "shortBreak") {
        Some(SessionType::ShortBreak)
    } else if str_eq(s, "longBreak") {
        Some(SessionType::LongBreak)
    } else {
        None
    }
}

/// The `event_type` CHECK constraint: which strings name a session outcome.
pub open spec fn spec_parse_event_type(s: Seq<char>) -> Option<EventType> {
    if s == "completed"@ {
        Some(EventType::Completed)
    } else if s == "skipped"@ {
        Some(EventType::Skipped)
    } else if s == "abandoned"@ {
        Some(EventType::Abandoned)
    } else if s == "manual_switch"@ {
        Some(EventType::ManualSwitch)
    } else {
        None
    }
}

/// Parses an `event_type` string; any string outside the allowed set yields
/// `None`.
pub fn parse_event_type(s: &str) -> (r: Option<EventType>)
    ensures
        r == spec_parse_event_type(s@),
{
    if str_eq(s, "completed") {
        Some(EventType::Completed)
    } else if str_eq(s, "skipped") {
        Some(EventType::Skipped)
    } else if str_eq(s, "abandoned") {
        Some(EventType::Abandoned)
    } else if str_eq(s, "manual_switch") {
        Some(EventType::ManualSwitch)
    } else {
        None
    }
}

/// The `activity_type` CHECK constraint: which strings name a break activity.
pub open spec fn spec_parse_activity_type(s: Seq<char>) -> Option<ActivityType> {
    if s == "stretch"@ {
        Some(ActivityType::Stretch)
    } else if s == "walk"@ {
        Some(ActivityType::Walk)
    } else if s == "exercise"@ {
        Some(ActivityType::Exercise)
    } else if s == "hydrate"@ {
        Some(ActivityType::Hydrate)
    } else if s == "rest"@ {
        Some(ActivityType::Rest)
    } else if s == "other"@ {
        Some(ActivityType::Other)
    } else {
        None
    }
}

/// Parses an `activity_type` string; any string outside the allowed set
/// yields `None`.
pub fn parse_activity_type(s: &str) -> (r: Option<ActivityType>)
    ensures
        r == spec_parse_activity_type(s@),
{
    if str_eq(s, "stretch") {
        Some(ActivityType::Stretch)
    } else if str_eq(s, "walk") {
        Some(ActivityType::Walk)
    } else if str_eq(s, "exercise") {
        Some(ActivityType::Exercise)
    } else if str_eq(s, "hydrate") {
        Some(ActivityType::Hydrate)
    } else if str_eq(s, "rest") {
        Some(ActivityType::Rest)
    } else if str_eq(s, "other") {
        Some(ActivityType::Other)
    } else {
        None
    }
}

/// The single row of `timer_settings`. Columns added by later migrations are
/// `Option`s: `None` while the column does not exist yet, `Some` of its value
/// once the column has been added and backfilled.
#[derive(Clone, Copy, Debug, PartialEq, Eq)]
pub struct TimerSettingsRow {
    pub id: i64,
    pub work_duration: i64,
    pub short_break_duration: i64,
    pub long_break_duration: i64,
    pub sessions_before_long_break: i64,
    pub sound_enabled: Option<i64>,
    pub default_break_activity: Option<BreakActivity>,
    pub show_cycle_preview: Option<i64>,
}

/// An immutable entry of the `session_history` log. Timestamps are carried as
/// plain integers (seconds); the shell converts to and from its clock's form.
#[derive(Clone, Copy, Debug, PartialEq, Eq)]
pub struct SessionRow {
    pub id: i64,
    pub session_type: SessionType,
    pub event_type: EventType,
    pub timestamp: i64,
    pub duration: i64,
    pub expected_duration: i64,
    pub session_number: Option<i64>,
    pub activity_type: Option<ActivityType>,
    pub created_at: i64,
}

/// One row of `daily_stats`: per-date aggregates. The date is carried as a
/// day number; rates and scores are integers (percent and points).
#[derive(Clone, Copy, Debug, PartialEq, Eq)]
pub struct DailyStatsRow {
    pub id: i64,
    pub date: i64,
    pub completed_sessions: i64,
    pub skipped_sessions: i64,
    pub total_work_seconds: i64,
    pub completion_rate: i64,
    pub focus_score: i64,
    pub streak_day: bool,
}

/// The single row of `streak_info`.
#[derive(Clone, Copy, Debug, PartialEq, Eq)]
pub struct StreakRow {
    pub id: i64,
    pub current_streak: i64,
    pub longest_streak: i64,
    pub last_activity_date: Option<i64>,
}

/// The default `timer_settings` row seeded by the first migration: the
/// documented defaults for the columns that exist at seeding time, with the
/// later columns absent.
pub open spec fn spec_default_settings_row() -> TimerSettingsRow {
    TimerSettingsRow {
        id: 1,
        work_duration: 25,
        short_break_duration: 5,
        long_break_duration: 15,
        sessions_before_long_break: 4,
        sound_enabled: None,
        default_break_activity: None,
        show_cycle_preview: None,
    }
}

/// The default `streak_info` row: no streak yet, no activity recorded.
pub open spec fn spec_default_streak_row() -> StreakRow {
    StreakRow { id: 1, current_streak: 0, longest_streak: 0, last_activity_date: None }
}

/// Executable counterpart of [`spec_default_streak_row`].
pub fn default_streak_row() -> (r: StreakRow)
    ensures
        r == spec_default_streak_row(),
{
    StreakRow { id: 1, current_streak: 0, longest_streak: 0, last_activity_date: None }
}

} // verus!
