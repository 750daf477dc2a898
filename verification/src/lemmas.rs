//! What holds of the operations on a record, taken together.

use vstd::prelude::*;
use crate::command::{applied, Command};
use crate::state::{SessionError, StateModel};
use crate::time::{elapsed_seconds, Timestamp, NANOS_PER_SECOND};

verus! {

/// A session that is started and then stopped leaves no session in progress
/// and takes nothing from the day: the day gains the whole seconds between
/// the two instants, none if the clock was set back, and nothing at all where
/// the two instants are one.
pub proof fn lemma_start_then_stop(s: StateModel, begin: Timestamp, end: Timestamp)
    ensures
        s.after_start(begin).end_result() == Ok::<(), SessionError>(()),
        !s.after_start(begin).after_stop(end).in_session(),
        s.after_start(begin).after_stop(end).completed_today_seconds
            >= s.completed_today_seconds,
        !s.in_session() && begin == end ==> s.after_start(begin).after_stop(end) == s,
{
}

/// Stopping a session begun on an idle record adds exactly the whole seconds
/// between the two instants, where the clock ran forward and the sum fits.
pub proof fn lemma_session_adds_elapsed(s: StateModel, begin: Timestamp, end: Timestamp)
    requires
        !s.in_session(),
        begin.nanos < NANOS_PER_SECOND,
        end.nanos < NANOS_PER_SECOND,
        begin.total_nanos() <= end.total_nanos(),
        s.completed_today_seconds + (end.seconds - begin.seconds) <= u64::MAX,
    ensures
        s.after_start(begin).after_stop(end).completed_today_seconds
            == s.completed_today_seconds + elapsed_seconds(&begin, &end),
        end.seconds - begin.seconds - 1 <= elapsed_seconds(&begin, &end) <= end.seconds
            - begin.seconds,
{
}

/// Once a session is in progress, starting again is refused and changes
/// nothing, whatever the record was before the first start.
pub proof fn lemma_second_start_refused(s: StateModel, first: Timestamp, second: Timestamp)
    ensures
        s.after_start(first).start_result() == Err::<(), SessionError>(
            SessionError::AlreadyInSession,
        ),
        s.after_start(first).after_start(second) == s.after_start(first),
{
}

/// Without a session, stopping and cancelling are refused and change nothing.
pub proof fn lemma_end_without_session(s: StateModel, now: Timestamp)
    requires
        !s.in_session(),
    ensures
        s.end_result() == Err::<(), SessionError>(SessionError::NoActiveSession),
        s.after_stop(now) == s,
        s.after_cancel() == s,
{
}

/// Taking away at least as many minutes as the day holds leaves exactly zero.
pub proof fn lemma_adjust_floors_at_zero(s: StateModel, delta_minutes: int)
    requires
        s.completed_today_seconds + 60 * delta_minutes <= 0,
    ensures
        s.adjusted(delta_minutes).completed_today_seconds == 0,
{
}

/// Adding minutes and taking the same minutes away again gives the record
/// back, as long as the sum in between fits in 64 bits.
pub proof fn lemma_adjust_round_trip(s: StateModel, minutes: int)
    requires
        minutes >= 0,
        s.completed_today_seconds + 60 * minutes <= u64::MAX,
    ensures
        s.adjusted(minutes).adjusted(-minutes) == s,
{
}

/// Bringing a record to the day of `now` a second time changes nothing, and
/// reports that nothing changed.
pub proof fn lemma_roll_idempotent(s: StateModel, now: Timestamp)
    ensures
        s.rolled(now).is_current_day(now),
        s.rolled(now).rolled(now) == s.rolled(now),
{
}

/// A day change keeps the goal and the history so far, appends one entry for
/// the day left behind, with the seconds of a session still running counted
/// in, and begins the new day empty and idle.
pub proof fn lemma_roll_appends_one(s: StateModel, now: Timestamp)
    requires
        !s.is_current_day(now),
    ensures
        s.rolled(now).goal_minutes == s.goal_minutes,
        s.rolled(now).tracking_date == now,
        s.rolled(now).completed_today_seconds == 0,
        !s.rolled(now).in_session(),
        s.rolled(now).prior_days.len() == s.prior_days.len() + 1,
        s.rolled(now).prior_days.subrange(0, s.prior_days.len() as int) == s.prior_days,
        s.rolled(now).prior_days.last().is_day_of(&s.tracking_date),
        s.rolled(now).prior_days.last().completed_seconds >= s.completed_today_seconds,
        !s.in_session() ==> s.rolled(now).prior_days.last().completed_seconds
            == s.completed_today_seconds,
{
    assert(s.rolled(now).prior_days.subrange(0, s.prior_days.len() as int) =~= s.prior_days);
}

/// A history without an entry for the day of `now` has none for the day
/// being tracked after the record was brought to that day.
pub proof fn lemma_roll_keeps_today_out_of_history(s: StateModel, now: Timestamp)
    requires
        !s.has_day(now),
    ensures
        !s.rolled(now).has_day(s.rolled(now).tracking_date),
{
    if s.is_current_day(now) {
        let r = s.rolled(now);
        if r.has_day(r.tracking_date) {
            let i = choose|i: int|
                0 <= i < r.prior_days.len() && (#[trigger] r.prior_days[i]).is_day_of(
                    &r.tracking_date,
                );
            assert(s.prior_days[i].is_day_of(&now));
        }
    } else {
        let r = s.rolled(now);
        if r.has_day(now) {
            let i = choose|i: int|
                0 <= i < r.prior_days.len() && (#[trigger] r.prior_days[i]).is_day_of(&now);
            if i < s.prior_days.len() {
                assert(s.prior_days[i].is_day_of(&now));
            }
        }
    }
}

/// A command changes neither the goal, nor the day being tracked, nor the
/// history: only a day change does, so running a command adds at most one
/// entry to the history.
pub proof fn lemma_command_keeps_day_and_history(s: StateModel, command: Command, now: Timestamp)
    ensures
        applied(s, command, now).goal_minutes == s.goal_minutes,
        applied(s, command, now).tracking_date == s.tracking_date,
        applied(s, command, now).prior_days == s.prior_days,
        applied(s.rolled(now), command, now).prior_days.len() <= s.prior_days.len() + 1,
{
}

/// Every operation keeps a well-formed record well-formed.
pub proof fn lemma_operations_keep_wf(s: StateModel, now: Timestamp, delta_minutes: int)
    requires
        s.wf(),
        now.wf(),
    ensures
        s.after_start(now).wf(),
        s.after_stop(now).wf(),
        s.after_cancel().wf(),
        s.rolled(now).wf(),
        s.adjusted(delta_minutes).wf(),
{
}

} // verus!
