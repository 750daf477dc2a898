//! One requested operation, carried out on a record and put into words.

use vstd::prelude::*;
use crate::duration::{decimal, decimal_string, duration_text};
use crate::state::{SessionError, State, StateModel};
use crate::time::Timestamp;

verus! {

/// What the user asks for.
#[derive(Clone, Copy, Debug, PartialEq, Eq, Structural)]
pub enum Command {
    /// Show the goal and the time recorded for the day.
    Status,
    /// Begin a session.
    Start,
    /// End the session and keep its time.
    Stop,
    /// End the session and drop its time.
    Cancel,
    /// Change the time recorded for the day by so many minutes.
    Mod(i32),
}

/// What `command` answers on record `s`.
pub open spec fn answer(s: StateModel, command: Command) -> Result<(), SessionError> {
    match command {
        Command::Status => Ok(()),
        Command::Start => s.start_result(),
        Command::Stop => s.end_result(),
        Command::Cancel => s.end_result(),
        Command::Mod(_) => Ok(()),
    }
}

/// Record `s` after `command` at the instant `now`.
pub open spec fn applied(s: StateModel, command: Command, now: Timestamp) -> StateModel {
    match command {
        Command::Status => s,
        Command::Start => s.after_start(now),
        Command::Stop => s.after_stop(now),
        Command::Cancel => s.after_cancel(),
        Command::Mod(minutes) => s.adjusted(minutes as int),
    }
}

/// A whole number in decimal digits, with a minus sign where it is negative.
pub open spec fn signed_decimal(n: int) -> Seq<char> {
    if n < 0 {
        "-"@ + decimal((-n) as nat)
    } else {
        decimal(n as nat)
    }
}

/// The line that tells how `command` went; empty where there is nothing to
/// tell.
pub open spec fn report_text(command: Command, result: Result<(), SessionError>) -> Seq<char> {
    match result {
        Ok(_) => match command {
            Command::Status => Seq::empty(),
            Command::Start => "Started timer.\nRemember to breathe deeply and relax."@,
            Command::Stop => "Stopped timer."@,
            Command::Cancel => "Cancelled ongoing session."@,
            Command::Mod(minutes) => "Modified today's total time by "@ + signed_decimal(
                minutes as int,
            ) + " minutes."@,
        },
        Err(e) => match command {
            Command::Start => "Could not start session: "@ + e.text(),
            Command::Stop => "Could not stop session: "@ + e.text(),
            Command::Cancel => "Could not cancel session: "@ + e.text(),
            _ => "Unknown error: "@ + e.text(),
        },
    }
}

/// The two lines that show the goal and the time recorded for the day.
pub open spec fn status_text(s: StateModel) -> Seq<char> {
    "You plan to spend "@ + duration_text((60 * s.goal_minutes) as nat)
        + " per day on mindfulness.\nSo far, you've spent "@ + duration_text(
        s.completed_today_seconds as nat,
    ) + "."@
}

/// Writes a whole number in decimal digits, with a minus sign where it is
/// negative.
pub fn signed_decimal_string(n: i32) -> (s: String)
    ensures
        s@ == signed_decimal(n as int),
{
    if n < 0 {
        let magnitude: u64 = (-(n as i64)) as u64;
        let digits = decimal_string(magnitude);
        let mut s = String::from_str("-");
        s.append(digits.as_str());
        s
    } else {
        decimal_string(n as u64)
    }
}

impl State {
    /// Carries out `command` at the instant `now` on the day being tracked.
    pub fn apply(&mut self, command: Command, now: Timestamp) -> (r: Result<(), SessionError>)
        requires
            old(self).wf(),
            now.wf(),
        ensures
            r == answer(old(self)@, command),
            final(self)@ == applied(old(self)@, command, now),
            r is Err ==> *final(self) == *old(self),
            final(self).wf(),
    {
        match command {
            Command::Status => Ok(()),
            Command::Start => self.start_session_at(now),
            Command::Stop => self.stop_session_at(now),
            Command::Cancel => self.cancel_session(),
            Command::Mod(minutes) => {
                self.modify(minutes);
                Ok(())
            },
        }
    }

    /// Brings the record to the day of `now`, then carries out `command`
    /// there: the command always works on the day of `now`.
    pub fn run_at(&mut self, command: Command, now: Timestamp) -> (r: Result<(), SessionError>)
        requires
            old(self).wf(),
            now.wf(),
        ensures
            r == answer(old(self)@.rolled(now), command),
            final(self)@ == applied(old(self)@.rolled(now), command, now),
            final(self)@.is_current_day(now),
            final(self).wf(),
    {
        self.roll_day_if_needed(now);
        self.apply(command, now)
    }

    /// Reads the clock once, brings the record to that day and carries out
    /// `command` there.
    pub fn run(&mut self, command: Command) -> (r: Result<(), SessionError>)
        requires
            old(self).wf(),
        ensures
            exists|now: Timestamp|
                now.wf() && final(self)@ == #[trigger] applied(
                    old(self)@.rolled(now),
                    command,
                    now,
                ) && r == answer(old(self)@.rolled(now), command),
            final(self).wf(),
    {
        let now = Timestamp::now();
        let r = self.run_at(command, now);
        assert(self@ == applied(old(self)@.rolled(now), command, now));
        r
    }

    /// The two lines that show the goal and the time recorded for the day.
    pub fn status_report(&self) -> (s: String)
        ensures
            s@ == status_text(self@),
    {
        let goal = self.goal_string();
        let today = self.completed_today_string();
        let mut s = String::from_str("You plan to spend ");
        s.append(goal.as_str());
        s.append(" per day on mindfulness.\nSo far, you've spent ");
        s.append(today.as_str());
        s.append(".");
        s
    }
}

/// The line that tells how `command` went: see `report_text`.
pub fn report(command: Command, result: Result<(), SessionError>) -> (s: String)
    ensures
        s@ == report_text(command, result),
{
    match result {
        Ok(_) => match command {
            Command::Status => {
                let s = String::new();
                assert(s@ =~= Seq::<char>::empty());
                s
            },
            Command::Start => String::from_str(
                "Started timer.\nRemember to breathe deeply and relax.",
            ),
            Command::Stop => String::from_str("Stopped timer."),
            Command::Cancel => String::from_str("Cancelled ongoing session."),
            Command::Mod(minutes) => {
                let digits = signed_decimal_string(minutes);
                let mut s = String::from_str("Modified today's total time by ");
                s.append(digits.as_str());
                s.append(" minutes.");
                s
            },
        },
        Err(e) => {
            let reason = e.message();
            let mut s = match command {
                Command::Start => String::from_str("Could not start session: "),
                Command::Stop => String::from_str("Could not stop session: "),
                Command::Cancel => String::from_str("Could not cancel session: "),
                _ => String::from_str("Unknown error: "),
            };
            s.append(reason.as_str());
            s
        },
    }
}

} // verus!
