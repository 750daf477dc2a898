//! Spans of time in whole seconds and the sentence that shows one.

use vstd::prelude::*;

verus! {

/// A span of time: whole minutes and the seconds beyond them.
#[derive(Clone, Copy, Debug, PartialEq, Eq, Structural)]
pub struct Duration {
    pub minutes: u64,
    /// Seconds beyond the whole minutes, below 60.
    pub seconds: u8,
}

impl Duration {
    /// The seconds beyond the whole minutes make no minute of their own.
    pub open spec fn wf(&self) -> bool {
        self.seconds < 60
    }

    /// The span in seconds.
    pub open spec fn total_seconds(&self) -> nat {
        (self.minutes * 60 + self.seconds) as nat
    }

    /// A span of `minutes` minutes.
    pub fn minutes(minutes: u64) -> (r: Duration)
        ensures
            r.wf(),
            r.total_seconds() == 60 * minutes,
            r == (Duration { minutes, seconds: 0 }),
    {
        Duration { minutes, seconds: 0 }
    }

    /// A span of `seconds` seconds.
    pub fn seconds(seconds: u64) -> (r: Duration)
        ensures
            r.wf(),
            r.total_seconds() == seconds,
    {
        Duration { minutes: seconds / 60, seconds: (seconds % 60) as u8 }
    }

    /// Whole minutes in the span.
    pub fn num_minutes(&self) -> (r: u64)
        requires
            self.wf(),
        ensures
            r == self.total_seconds() / 60,
    {
        self.minutes
    }

    /// Whole hours in the span.
    pub fn num_hours(&self) -> (r: u64)
        requires
            self.wf(),
        ensures
            r == self.total_seconds() / 3600,
    {
        self.minutes / 60
    }

    /// The span in words: see `duration_text`.
    pub fn to_text(&self) -> (s: String)
        requires
            self.wf(),
        ensures
            s@ == duration_text(self.total_seconds()),
    {
        let hours: u64 = self.num_hours();
        let minutes: u64 = self.num_minutes();
        if hours < 1 {
            decimal_string(minutes).concat(" minutes")
        } else {
            let rest: u64 = minutes - hours * 60;
            let mut s = decimal_string(hours).concat(" hours and ");
            let tail = decimal_string(rest).concat(" minutes");
            s.append(tail.as_str());
            s
        }
    }
}

/// The character of one decimal digit.
pub open spec fn digit_char(d: nat) -> char {
    if d == 0 {
        '0'
    } else if d == 1 {
        '1'
    } else if d == 2 {
        '2'
    } else if d == 3 {
        '3'
    } else if d == 4 {
        '4'
    } else if d == 5 {
        '5'
    } else if d == 6 {
        '6'
    } else if d == 7 {
        '7'
    } else if d == 8 {
        '8'
    } else {
        '9'
    }
}

/// A number in decimal digits, without leading zeros.
pub open spec fn decimal(n: nat) -> Seq<char>
    decreases n,
{
    if n < 10 {
        seq![digit_char(n)]
    } else {
        decimal(n / 10).push(digit_char(n % 10))
    }
}

/// A span in words. Below one hour: the whole minutes and `" minutes"`.
/// From one hour on: the whole hours, `" hours and "`, the whole minutes
/// beyond them and `" minutes"`. Seconds beyond the whole minutes are dropped.
pub open spec fn duration_text(total_seconds: nat) -> Seq<char> {
    let minutes = total_seconds / 60;
    if minutes < 60 {
        decimal(minutes) + " minutes"@
    } else {
        decimal(minutes / 60) + " hours and "@ + (decimal(minutes % 60) + " minutes"@)
    }
}

fn digit_str(d: u64) -> (s: &'static str)
    requires
        d < 10,
    ensures
        s@ == seq![digit_char(d as nat)],
{
    proof {
        reveal_strlit("0");
        reveal_strlit("1");
        reveal_strlit("2");
        reveal_strlit("3");
        reveal_strlit("4");
        reveal_strlit("5");
        reveal_strlit("6");
        reveal_strlit("7");
        reveal_strlit("8");
        reveal_strlit("9");
    }
    let s = if d == 0 {
        "0"
    } else if d == 1 {
        "1"
    } else if d == 2 {
        "2"
    } else if d == 3 {
        "3"
    } else if d == 4 {
        "4"
    } else if d == 5 {
        "5"
    } else if d == 6 {
        "6"
    } else if d == 7 {
        "7"
    } else if d == 8 {
        "8"
    } else {
        "9"
    };
    assert(s@ =~= seq![digit_char(d as nat)]);
    s
}

/// Writes a number in decimal digits.
pub fn decimal_string(n: u64) -> (s: String)
    ensures
        s@ == decimal(n as nat),
    decreases n,
{
    if n < 10 {
        String::from_str(digit_str(n))
    } else {
        let s = decimal_string(n / 10).concat(digit_str(n % 10));
        assert(s@ =~= decimal((n / 10) as nat).push(digit_char((n % 10) as nat)));
        s
    }
}

} // verus!
