use standclock::db::Database;
use standclock::migrate::DbError;
use standclock::registry::migrations;
use standclock::rows::{ActivityType, DailyStatsRow, EventType, SessionType};
use standclock::runner::apply_migrations;
use standclock::store::{SessionInput, insert_daily_stats, insert_session};

fn migrated() -> Database {
    let mut db = Database::fresh();
    apply_migrations(&mut db, &migrations()).expect("migrations apply");
    db
}

fn session(session_type: &str, event_type: &str, activity: Option<&str>) -> SessionInput {
    SessionInput {
        session_type: String::from(session_type),
        event_type: String::from(event_type),
        activity_type: activity.map(String::from),
        timestamp: 1_700_000_000,
        duration: 1500,
        expected_duration: 1500,
        session_number: Some(1),
    }
}

fn stats(date: i64) -> DailyStatsRow {
    DailyStatsRow {
        id: 0,
        date,
        completed_sessions: 4,
        skipped_sessions: 1,
        total_work_seconds: 6000,
        completion_rate: 80,
        focus_score: 72,
        streak_day: true,
    }
}

#[test]
fn valid_session_is_logged() {
    let mut db = migrated();
    let r = insert_session(&mut db, &session("pomodoro", "completed", Some("stretch")));
    assert_eq!(r, Ok(1));
    assert_eq!(db.session_count(), 1);
    let row = db.session_at(0).expect("row");
    assert_eq!(row.id, 1);
    assert_eq!(row.session_type, SessionType::Pomodoro);
    assert_eq!(row.event_type, EventType::Completed);
    assert_eq!(row.activity_type, Some(ActivityType::Stretch));
    assert_eq!(row.duration, 1500);
    assert_eq!(row.expected_duration, 1500);
    assert_eq!(row.session_number, Some(1));
    assert_eq!(row.timestamp, 1_700_000_000);
}

#[test]
fn session_rowids_are_sequential() {
    let mut db = migrated();
    assert_eq!(insert_session(&mut db, &session("pomodoro", "completed", None)), Ok(1));
    assert_eq!(insert_session(&mut db, &session("shortBreak", "skipped", Some("walk"))), Ok(2));
    assert_eq!(
        insert_session(&mut db, &session("longBreak", "manual_switch", Some("rest"))),
        Ok(3)
    );
    assert_eq!(db.session_count(), 3);
    assert_eq!(db.session_at(1).expect("row").session_type, SessionType::ShortBreak);
    assert_eq!(db.session_at(2).expect("row").event_type, EventType::ManualSwitch);
}

#[test]
fn out_of_enum_session_type_is_rejected() {
    let mut db = migrated();
    let r = insert_session(&mut db, &session("nap", "completed", None));
    assert_eq!(r, Err(DbError::CheckViolation));
    assert_eq!(db.session_count(), 0);
}

#[test]
fn out_of_enum_event_type_is_rejected() {
    let mut db = migrated();
    let r = insert_session(&mut db, &session("pomodoro", "paused", None));
    assert_eq!(r, Err(DbError::CheckViolation));
    assert_eq!(db.session_count(), 0);
}

#[test]
fn out_of_enum_activity_type_is_rejected() {
    let mut db = migrated();
    let r = insert_session(&mut db, &session("pomodoro", "completed", Some("nap")));
    assert_eq!(r, Err(DbError::CheckViolation));
    assert_eq!(db.session_count(), 0);
}

#[test]
fn session_type_check_is_case_sensitive() {
    let mut db = migrated();
    let r = insert_session(&mut db, &session("Pomodoro", "completed", None));
    assert_eq!(r, Err(DbError::CheckViolation));
    assert_eq!(db.session_count(), 0);
}

#[test]
fn abandoned_outcome_is_allowed() {
    let mut db = migrated();
    assert_eq!(insert_session(&mut db, &session("pomodoro", "abandoned", None)), Ok(1));
    assert_eq!(db.session_at(0).expect("row").event_type, EventType::Abandoned);
}

#[test]
fn session_insert_without_table_fails() {
    let mut db = Database::fresh();
    let r = insert_session(&mut db, &session("pomodoro", "completed", None));
    assert_eq!(r, Err(DbError::NoSuchTable));
}

#[test]
fn duplicate_date_is_rejected() {
    let mut db = migrated();
    assert_eq!(insert_daily_stats(&mut db, stats(19_700)), Ok(1));
    let r = insert_daily_stats(&mut db, stats(19_700));
    assert_eq!(r, Err(DbError::UniqueViolation));
    assert_eq!(db.daily_stats_count(), 1);

    // a fresh date is accepted and gets the next rowid
    assert_eq!(insert_daily_stats(&mut db, stats(19_701)), Ok(2));
    assert_eq!(db.daily_stats_count(), 2);
    let row = db.daily_stats_at(0).expect("row");
    assert_eq!(row.id, 1);
    assert_eq!(row.date, 19_700);
    assert_eq!(row.completed_sessions, 4);
    assert_eq!(row.completion_rate, 80);
    assert!(row.streak_day);
}

#[test]
fn daily_stats_insert_without_table_fails() {
    let mut db = Database::fresh();
    let r = insert_daily_stats(&mut db, stats(19_700));
    assert_eq!(r, Err(DbError::NoSuchTable));
}

#[test]
fn writes_leave_singletons_alone() {
    let mut db = migrated();
    insert_session(&mut db, &session("pomodoro", "completed", None)).expect("session");
    insert_daily_stats(&mut db, stats(19_700)).expect("stats");
    let settings = db.timer_settings_row().expect("settings");
    assert_eq!(settings.work_duration, 25);
    let streak = db.streak_row().expect("streak");
    assert_eq!(streak.current_streak, 0);
}
