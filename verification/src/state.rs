//! The live record of the day being tracked and the operations on it.

use vstd::prelude::*;
use crate::duration::{duration_text, Duration};
use crate::time::{elapsed_seconds, seconds_between, Timestamp};

verus! {

/// Daily goal of a fresh record, in minutes.
pub const DEFAULT_GOAL_MINUTES: u64 = 30;

/// The time recorded for one finished day.
#[derive(Clone, Copy, Debug, PartialEq, Eq, Structural)]
pub struct TrackedDay {
    pub year: i32,
    /// Day of the year, counted from 1.
    pub ordinal: u32,
    pub completed_seconds: u64,
}

impl TrackedDay {
    /// The day of the year lies in a year.
    pub open spec fn wf(&self) -> bool {
        1 <= self.ordinal <= 366
    }

    /// Whether this entry stands for the calendar day of `t`.
    pub open spec fn is_day_of(&self, t: &Timestamp) -> bool {
        self.year == t.year && self.ordinal == t.ordinal
    }
}

/// Why a session could not be started, stopped or cancelled.
#[derive(Clone, Copy, Debug, PartialEq, Eq, Structural)]
pub enum SessionError {
    /// A session is already in progress.
    AlreadyInSession,
    /// No session is in progress.
    NoActiveSession,
}

impl SessionError {
    /// The sentence shown to the user.
    pub open spec fn text(&self) -> Seq<char> {
        match self {
            SessionError::AlreadyInSession => "There is already a session in progress."@,
            SessionError::NoActiveSession => "There is no session in progress."@,
        }
    }

    /// The sentence shown to the user.
    pub fn message(&self) -> (s: String)
        ensures
            s@ == self.text(),
    {
        match self {
            SessionError::AlreadyInSession => String::from_str(
                "There is already a session in progress.",
            ),
            SessionError::NoActiveSession => String::from_str("There is no session in progress."),
        }
    }
}

/// A count of seconds brought into the range of `u64`.
pub open spec fn clamp_seconds(total: int) -> u64 {
    if total < 0 {
        0
    } else if total > u64::MAX {
        u64::MAX
    } else {
        total as u64
    }
}

/// The record as a mathematical value: what `State` holds, with the history
/// as a sequence, oldest day first.
pub struct StateModel {
    pub goal_minutes: u64,
    pub tracking_date: Timestamp,
    pub completed_today_seconds: u64,
    pub current_session_start: Option<Timestamp>,
    pub prior_days: Seq<TrackedDay>,
}

impl StateModel {
    /// Every instant is one chrono can hold and every day of the history lies
    /// in a year.
    pub open spec fn wf(self) -> bool {
        &&& self.tracking_date.wf()
        &&& self.current_session_start matches Some(t) ==> t.wf()
        &&& forall|i: int| 0 <= i < self.prior_days.len() ==> (#[trigger] self.prior_days[i]).wf()
    }

    /// The record made where none could be loaded.
    pub open spec fn fresh(now: Timestamp) -> StateModel {
        StateModel {
            goal_minutes: DEFAULT_GOAL_MINUTES,
            tracking_date: now,
            completed_today_seconds: 0,
            current_session_start: None,
            prior_days: Seq::empty(),
        }
    }

    /// Whether a session is in progress.
    pub open spec fn in_session(self) -> bool {
        self.current_session_start is Some
    }

    /// A session begun at `now`.
    pub open spec fn started(self, now: Timestamp) -> StateModel {
        StateModel { current_session_start: Some(now), ..self }
    }

    /// What an attempt to begin a session answers.
    pub open spec fn start_result(self) -> Result<(), SessionError> {
        if self.in_session() {
            Err(SessionError::AlreadyInSession)
        } else {
            Ok(())
        }
    }

    /// The record after an attempt to begin a session at `now`.
    pub open spec fn after_start(self, now: Timestamp) -> StateModel {
        if self.in_session() {
            self
        } else {
            self.started(now)
        }
    }

    /// What an attempt to stop or cancel a session answers.
    pub open spec fn end_result(self) -> Result<(), SessionError> {
        if self.in_session() {
            Ok(())
        } else {
            Err(SessionError::NoActiveSession)
        }
    }

    /// The record after an attempt to stop a session at `now`.
    pub open spec fn after_stop(self, now: Timestamp) -> StateModel {
        if self.in_session() {
            self.stopped(now)
        } else {
            self
        }
    }

    /// The record after an attempt to cancel a session.
    pub open spec fn after_cancel(self) -> StateModel {
        if self.in_session() {
            self.cancelled()
        } else {
            self
        }
    }

    /// Seconds that a session ended at `now` adds to the day; zero without a
    /// session.
    pub open spec fn session_seconds(self, now: Timestamp) -> nat {
        match self.current_session_start {
            Some(start) => elapsed_seconds(&start, &now),
            None => 0,
        }
    }

    /// The session ended at `now` and its time added to the day.
    pub open spec fn stopped(self, now: Timestamp) -> StateModel {
        StateModel {
            completed_today_seconds: clamp_seconds(
                self.completed_today_seconds + self.session_seconds(now),
            ),
            current_session_start: None,
            ..self
        }
    }

    /// The session ended and its time dropped.
    pub open spec fn cancelled(self) -> StateModel {
        StateModel { current_session_start: None, ..self }
    }

    /// Whether `now` falls on the day being tracked.
    pub open spec fn is_current_day(self, now: Timestamp) -> bool {
        now.same_day(&self.tracking_date)
    }

    /// The entry that the day being tracked leaves in the history when it ends
    /// at `now`: a session still running is counted up to `now`.
    pub open spec fn closing_entry(self, now: Timestamp) -> TrackedDay {
        TrackedDay {
            year: self.tracking_date.year,
            ordinal: self.tracking_date.ordinal,
            completed_seconds: self.stopped(now).completed_today_seconds,
        }
    }

    /// The record brought to the day of `now`: unchanged on the day being
    /// tracked, else the old day moved to the history and an empty day begun.
    pub open spec fn rolled(self, now: Timestamp) -> StateModel {
        if self.is_current_day(now) {
            self
        } else {
            StateModel {
                goal_minutes: self.goal_minutes,
                tracking_date: now,
                completed_today_seconds: 0,
                current_session_start: None,
                prior_days: self.prior_days.push(self.closing_entry(now)),
            }
        }
    }

    /// The day's seconds changed by `delta_minutes` minutes, kept in range.
    pub open spec fn adjusted(self, delta_minutes: int) -> StateModel {
        StateModel {
            completed_today_seconds: clamp_seconds(
                self.completed_today_seconds + 60 * delta_minutes,
            ),
            ..self
        }
    }

    /// Whether the history holds an entry for the calendar day of `t`.
    pub open spec fn has_day(self, t: Timestamp) -> bool {
        exists|i: int| 0 <= i < self.prior_days.len() && (#[trigger] self.prior_days[i]).is_day_of(&t)
    }
}

/// The record of the day being tracked, of a session in progress and of the
/// days before.
#[derive(Clone, Debug, PartialEq, Eq)]
pub struct State {
    /// Minutes to spend per day.
    pub goal_minutes: u64,
    /// When the day being tracked began to be tracked.
    pub tracking_date: Timestamp,
    /// Seconds recorded for the day being tracked.
    pub completed_today_seconds: u64,
    /// When the session in progress began, if there is one.
    pub current_session_start: Option<Timestamp>,
    /// The days before, oldest first.
    pub prior_days: Vec<TrackedDay>,
}

impl View for State {
    type V = StateModel;

    open spec fn view(&self) -> StateModel {
        StateModel {
            goal_minutes: self.goal_minutes,
            tracking_date: self.tracking_date,
            completed_today_seconds: self.completed_today_seconds,
            current_session_start: self.current_session_start,
            prior_days: self.prior_days@,
        }
    }
}

impl State {
    /// Every instant held is one chrono can hold outside a leap second, and
    /// every day of the history lies in a year.
    pub open spec fn wf(&self) -> bool {
        self@.wf()
    }

    /// A fresh record for the day of `now`.
    pub fn new(now: Timestamp) -> (r: State)
        ensures
            r@ == StateModel::fresh(now),
    {
        State {
            goal_minutes: DEFAULT_GOAL_MINUTES,
            tracking_date: now,
            completed_today_seconds: 0,
            current_session_start: None,
            prior_days: Vec::new(),
        }
    }

    /// Whether an attempt to load a record gave one that is well-formed.
    pub open spec fn usable(loaded: Option<State>) -> bool {
        match loaded {
            Some(s) => s.wf(),
            None => false,
        }
    }

    /// The record to work on after an attempt to load one: the loaded record
    /// where there is one and it is well-formed, else a fresh one for the day
    /// of `now`.
    pub fn loaded_or_new(loaded: Option<State>, now: Timestamp) -> (r: State)
        requires
            now.wf(),
        ensures
            r.wf(),
            State::usable(loaded) ==> loaded == Some(r),
            !State::usable(loaded) ==> r@ == StateModel::fresh(now),
    {
        match loaded {
            Some(s) => {
                if s.is_valid() {
                    s
                } else {
                    State::new(now)
                }
            },
            None => State::new(now),
        }
    }

    /// As `loaded_or_new`, with a fresh record for the day the clock shows.
    pub fn loaded_or_default(loaded: Option<State>) -> (r: State)
        ensures
            r.wf(),
            State::usable(loaded) ==> loaded == Some(r),
            !State::usable(loaded) ==> r@ == StateModel::fresh(r.tracking_date),
    {
        State::loaded_or_new(loaded, Timestamp::now())
    }

    /// Decides `wf`.
    pub fn is_valid(&self) -> (r: bool)
        ensures
            r == self.wf(),
    {
        if !self.tracking_date.is_valid() {
            return false;
        }
        if let Some(t) = self.current_session_start {
            if !t.is_valid() {
                return false;
            }
        }
        let mut i: usize = 0;
        while i < self.prior_days.len()
            invariant
                i <= self.prior_days.len(),
                self.tracking_date.wf(),
                self.current_session_start matches Some(t) ==> t.wf(),
                forall|j: int| 0 <= j < i ==> (#[trigger] self.prior_days@[j]).wf(),
            decreases self.prior_days.len() - i,
        {
            let ordinal: u32 = self.prior_days[i].ordinal;
            if ordinal < 1 || ordinal > 366 {
                assert(!self@.prior_days[i as int].wf());
                return false;
            }
            i += 1;
        }
        true
    }

    /// Whether a session is in progress.
    pub fn in_session(&self) -> (r: bool)
        ensures
            r == self@.in_session(),
    {
        self.current_session_start.is_some()
    }

    /// Begins a session at `now`, unless one is in progress.
    pub fn start_session_at(&mut self, now: Timestamp) -> (r: Result<(), SessionError>)
        ensures
            r == old(self)@.start_result(),
            final(self)@ == old(self)@.after_start(now),
            r is Err ==> *final(self) == *old(self),
            old(self).wf() && now.wf() ==> final(self).wf(),
    {
        if self.in_session() {
            return Err(SessionError::AlreadyInSession);
        }
        self.current_session_start = Some(now);
        Ok(())
    }

    /// Ends the session in progress at `now` and adds its whole seconds to the
    /// day, unless none is in progress. A session that ends before it began
    /// adds nothing, and the day's seconds stop at the largest 64-bit number.
    pub fn stop_session_at(&mut self, now: Timestamp) -> (r: Result<(), SessionError>)
        requires
            old(self).wf(),
            now.wf(),
        ensures
            r == old(self)@.end_result(),
            final(self)@ == old(self)@.after_stop(now),
            r is Err ==> *final(self) == *old(self),
            final(self).wf(),
    {
        match self.current_session_start {
            None => Err(SessionError::NoActiveSession),
            Some(start) => {
                let elapsed: u64 = seconds_between(&start, &now);
                self.completed_today_seconds = self.completed_today_seconds.saturating_add(elapsed);
                self.current_session_start = None;
                Ok(())
            },
        }
    }

    /// Ends the session in progress and drops its time, unless none is in
    /// progress.
    pub fn cancel_session(&mut self) -> (r: Result<(), SessionError>)
        ensures
            r == old(self)@.end_result(),
            final(self)@ == old(self)@.after_cancel(),
            r is Err ==> *final(self) == *old(self),
            old(self).wf() ==> final(self).wf(),
    {
        if !self.in_session() {
            return Err(SessionError::NoActiveSession);
        }
        self.current_session_start = None;
        Ok(())
    }

    /// Whether `now` falls on the day being tracked.
    pub fn is_current_day(&self, now: &Timestamp) -> (r: bool)
        ensures
            r == self@.is_current_day(*now),
    {
        now.is_same_day(&self.tracking_date)
    }

    /// Brings the record to the day of `now`. Returns whether the day changed.
    pub fn roll_day_if_needed(&mut self, now: Timestamp) -> (r: bool)
        requires
            old(self).wf(),
            now.wf(),
        ensures
            r == !old(self)@.is_current_day(now),
            final(self)@ == old(self)@.rolled(now),
            final(self).wf(),
    {
        if self.is_current_day(&now) {
            return false;
        }
        let completed: u64 = match self.current_session_start {
            Some(start) => self.completed_today_seconds.saturating_add(
                seconds_between(&start, &now),
            ),
            None => self.completed_today_seconds,
        };
        self.prior_days.push(
            TrackedDay {
                year: self.tracking_date.year,
                ordinal: self.tracking_date.ordinal,
                completed_seconds: completed,
            },
        );
        self.tracking_date = now;
        self.completed_today_seconds = 0;
        self.current_session_start = None;
        true
    }

    /// Begins a session at the instant the clock shows, unless one is in
    /// progress.
    pub fn start_session(&mut self) -> (r: Result<(), SessionError>)
        ensures
            r == old(self)@.start_result(),
            r is Err ==> *final(self) == *old(self),
            r is Ok ==> (final(self).current_session_start matches Some(now) && now.wf()
                && final(self)@ == old(self)@.started(now)),
            old(self).wf() ==> final(self).wf(),
    {
        let now = Timestamp::now();
        self.start_session_at(now)
    }

    /// Ends the session in progress at the instant the clock shows and adds
    /// its whole seconds to the day, unless none is in progress.
    pub fn stop_session(&mut self) -> (r: Result<(), SessionError>)
        requires
            old(self).wf(),
        ensures
            r == old(self)@.end_result(),
            r is Err ==> *final(self) == *old(self),
            exists|now: Timestamp| now.wf() && final(self)@ == #[trigger] old(self)@.after_stop(now),
            final(self).wf(),
    {
        let now = Timestamp::now();
        let r = self.stop_session_at(now);
        assert(self@ == old(self)@.after_stop(now));
        r
    }

    /// Whether the instant the clock shows falls on the day being tracked.
    pub fn is_today_tracked(&self) -> (r: bool)
        ensures
            exists|now: Timestamp| now.wf() && r == #[trigger] self@.is_current_day(now),
    {
        let now = Timestamp::now();
        let r = self.is_current_day(&now);
        assert(r == self@.is_current_day(now));
        r
    }

    /// Brings the record to the day the clock shows. Returns whether the day
    /// changed.
    pub fn set_today_tracked(&mut self) -> (r: bool)
        requires
            old(self).wf(),
        ensures
            exists|now: Timestamp|
                now.wf() && final(self)@ == #[trigger] old(self)@.rolled(now) && r == !old(
                    self,
                )@.is_current_day(now),
            final(self).wf(),
    {
        let now = Timestamp::now();
        let r = self.roll_day_if_needed(now);
        assert(self@ == old(self)@.rolled(now) && r == !old(self)@.is_current_day(now));
        r
    }

    /// Changes the seconds recorded for the day by `value` minutes. Taking
    /// away more than is recorded leaves zero, and the day's seconds stop at
    /// the largest 64-bit number.
    pub fn modify(&mut self, value: i32)
        ensures
            final(self)@ == old(self)@.adjusted(value as int),
            old(self).wf() ==> final(self).wf(),
    {
        let seconds: i64 = (value as i64) * 60;
        if seconds >= 0 {
            self.completed_today_seconds = self.completed_today_seconds.saturating_add(
                seconds as u64,
            );
        } else {
            self.completed_today_seconds = self.completed_today_seconds.saturating_sub(
                (-seconds) as u64,
            );
        }
    }
}

impl State {
    /// The daily goal as a span of time.
    pub fn goal_duration(&self) -> (r: Duration)
        ensures
            r.wf(),
            r.total_seconds() == 60 * self.goal_minutes,
    {
        Duration::minutes(self.goal_minutes)
    }

    /// The daily goal in words.
    pub fn goal_string(&self) -> (s: String)
        ensures
            s@ == duration_text((60 * self.goal_minutes) as nat),
    {
        self.goal_duration().to_text()
    }

    /// The time recorded for the day as a span of time.
    pub fn completed_today_duration(&self) -> (r: Duration)
        ensures
            r.wf(),
            r.total_seconds() == self.completed_today_seconds,
    {
        Duration::seconds(self.completed_today_seconds)
    }

    /// The time recorded for the day in words.
    pub fn completed_today_string(&self) -> (s: String)
        ensures
            s@ == duration_text(self.completed_today_seconds as nat),
    {
        self.completed_today_duration().to_text()
    }
}

impl Default for State {
    /// A fresh record for the day the clock shows.
    fn default() -> (r: State)
        ensures
            r@ == StateModel::fresh(r.tracking_date),
            r.wf(),
    {
        State::new(Timestamp::now())
    }
}

} // verus!
