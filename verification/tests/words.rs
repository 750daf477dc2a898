use mdt8::command::{report, signed_decimal_string, Command};
use mdt8::duration::{decimal_string, Duration};
use mdt8::state::{SessionError, State, TrackedDay};
use mdt8::time::Timestamp;

fn day(ordinal: u32, seconds: i64) -> Timestamp {
    Timestamp { year: 2024, ordinal, seconds, nanos: 0 }
}

#[test]
fn forty_five_minutes() {
    assert_eq!(Duration::minutes(45).to_text(), "45 minutes");
}

#[test]
fn ninety_minutes() {
    assert_eq!(Duration::minutes(90).to_text(), "1 hours and 30 minutes");
}

#[test]
fn the_hour_boundary() {
    assert_eq!(Duration::minutes(59).to_text(), "59 minutes");
    assert_eq!(Duration::minutes(60).to_text(), "1 hours and 0 minutes");
    assert_eq!(Duration::minutes(61).to_text(), "1 hours and 1 minutes");
    assert_eq!(Duration::seconds(3599).to_text(), "59 minutes");
    assert_eq!(Duration::seconds(3600).to_text(), "1 hours and 0 minutes");
    assert_eq!(Duration::minutes(0).to_text(), "0 minutes");
    assert_eq!(Duration::seconds(59).to_text(), "0 minutes");
}

#[test]
fn long_durations() {
    assert_eq!(Duration::minutes(1505).to_text(), "25 hours and 5 minutes");
    assert_eq!(
        Duration::minutes(u64::MAX).to_text(),
        "307445734561825860 hours and 15 minutes"
    );
    assert_eq!(
        Duration::seconds(u64::MAX).to_text(),
        "5124095576030431 hours and 0 minutes"
    );
}

#[test]
fn parts_of_a_duration() {
    let d = Duration::seconds(7384);
    assert_eq!(d, Duration { minutes: 123, seconds: 4 });
    assert_eq!(d.num_minutes(), 123);
    assert_eq!(d.num_hours(), 2);
    let g = Duration::minutes(30);
    assert_eq!(g, Duration { minutes: 30, seconds: 0 });
    assert_eq!(g.num_minutes(), 30);
    assert_eq!(g.num_hours(), 0);
}

#[test]
fn goal_and_completed_in_words() {
    let mut s = State::new(day(10, 1_704_900_000));
    assert_eq!(s.goal_duration(), Duration { minutes: 30, seconds: 0 });
    assert_eq!(s.goal_string(), "30 minutes");
    assert_eq!(s.completed_today_string(), "0 minutes");
    s.goal_minutes = 90;
    s.completed_today_seconds = 2700;
    assert_eq!(s.goal_string(), "1 hours and 30 minutes");
    assert_eq!(s.completed_today_duration(), Duration { minutes: 45, seconds: 0 });
    assert_eq!(s.completed_today_string(), "45 minutes");
    s.completed_today_seconds = 5400 + 59;
    assert_eq!(s.completed_today_string(), "1 hours and 30 minutes");
    assert_eq!(
        s.status_report(),
        "You plan to spend 1 hours and 30 minutes per day on mindfulness.\nSo far, you've spent 1 hours and 30 minutes."
    );
}

#[test]
fn decimal_digits() {
    assert_eq!(decimal_string(0), "0");
    assert_eq!(decimal_string(7), "7");
    assert_eq!(decimal_string(10), "10");
    assert_eq!(decimal_string(1234567890), "1234567890");
    assert_eq!(decimal_string(u64::MAX), "18446744073709551615");
    assert_eq!(signed_decimal_string(0), "0");
    assert_eq!(signed_decimal_string(-5), "-5");
    assert_eq!(signed_decimal_string(i32::MIN), "-2147483648");
    assert_eq!(signed_decimal_string(i32::MAX), "2147483647");
}

#[test]
fn reports_of_success() {
    assert_eq!(report(Command::Status, Ok(())), "");
    assert_eq!(
        report(Command::Start, Ok(())),
        "Started timer.\nRemember to breathe deeply and relax."
    );
    assert_eq!(report(Command::Stop, Ok(())), "Stopped timer.");
    assert_eq!(report(Command::Cancel, Ok(())), "Cancelled ongoing session.");
    assert_eq!(
        report(Command::Mod(-15), Ok(())),
        "Modified today's total time by -15 minutes."
    );
    assert_eq!(report(Command::Mod(20), Ok(())), "Modified today's total time by 20 minutes.");
}

#[test]
fn reports_of_failure() {
    assert_eq!(
        report(Command::Start, Err(SessionError::AlreadyInSession)),
        "Could not start session: There is already a session in progress."
    );
    assert_eq!(
        report(Command::Stop, Err(SessionError::NoActiveSession)),
        "Could not stop session: There is no session in progress."
    );
    assert_eq!(
        report(Command::Cancel, Err(SessionError::NoActiveSession)),
        "Could not cancel session: There is no session in progress."
    );
    assert_eq!(
        report(Command::Status, Err(SessionError::NoActiveSession)),
        "Unknown error: There is no session in progress."
    );
}

#[test]
fn commands_on_the_day_being_tracked() {
    let now = day(10, 1_704_900_100);
    let mut s = State::new(day(10, 1_704_900_000));
    assert_eq!(s.apply(Command::Status, now), Ok(()));
    assert_eq!(s, State::new(day(10, 1_704_900_000)));
    assert_eq!(s.apply(Command::Stop, now), Err(SessionError::NoActiveSession));
    assert_eq!(s.apply(Command::Cancel, now), Err(SessionError::NoActiveSession));
    assert_eq!(s.apply(Command::Start, now), Ok(()));
    assert_eq!(s.current_session_start, Some(now));
    assert_eq!(s.apply(Command::Start, now), Err(SessionError::AlreadyInSession));
    assert_eq!(s.apply(Command::Stop, day(10, 1_704_900_130)), Ok(()));
    assert_eq!(s.completed_today_seconds, 30);
    assert_eq!(s.apply(Command::Mod(2), now), Ok(()));
    assert_eq!(s.completed_today_seconds, 150);
    assert_eq!(s.apply(Command::Start, now), Ok(()));
    assert_eq!(s.apply(Command::Cancel, now), Ok(()));
    assert_eq!(s.completed_today_seconds, 150);
    assert_eq!(s.current_session_start, None);
}

#[test]
fn a_command_on_a_new_day_rolls_first() {
    let mut s = State::new(day(10, 1_704_900_000));
    s.completed_today_seconds = 1800;
    s.current_session_start = Some(day(10, 1_704_986_340));
    let now = day(11, 1_704_986_400);
    // The session was closed by the day change, so there is none to stop.
    assert_eq!(s.run_at(Command::Stop, now), Err(SessionError::NoActiveSession));
    assert_eq!(
        s.prior_days,
        vec![TrackedDay { year: 2024, ordinal: 10, completed_seconds: 1860 }]
    );
    assert_eq!(s.tracking_date, now);
    assert_eq!(s.completed_today_seconds, 0);
    assert_eq!(s.run_at(Command::Mod(3), now), Ok(()));
    assert_eq!(s.completed_today_seconds, 180);
    assert_eq!(s.prior_days.len(), 1);
}

#[test]
fn a_command_on_the_clock() {
    let mut s = State::new(Timestamp { year: 2000, ordinal: 1, seconds: 946_684_800, nanos: 0 });
    s.completed_today_seconds = 10;
    assert_eq!(s.run(Command::Start), Ok(()));
    assert_eq!(s.prior_days.len(), 1);
    assert!(s.in_session());
    assert!(s.is_today_tracked());
    assert_eq!(s.run(Command::Start), Err(SessionError::AlreadyInSession));
    assert_eq!(s.run(Command::Cancel), Ok(()));
    assert_eq!(s.completed_today_seconds, 0);
    assert_eq!(s.prior_days.len(), 1);
}
