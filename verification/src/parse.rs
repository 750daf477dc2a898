//! Reading a command from the words it was given in.

use vstd::prelude::*;
use crate::command::Command;

verus! {

/// Largest magnitude a 32-bit signed number can have: that of the least one.
pub const MAX_MAGNITUDE: u64 = 2_147_483_648;

/// The value of a decimal digit; none for any other character.
pub open spec fn digit_value(c: char) -> Option<nat> {
    if c == '0' {
        Some(0)
    } else if c == '1' {
        Some(1)
    } else if c == '2' {
        Some(2)
    } else if c == '3' {
        Some(3)
    } else if c == '4' {
        Some(4)
    } else if c == '5' {
        Some(5)
    } else if c == '6' {
        Some(6)
    } else if c == '7' {
        Some(7)
    } else if c == '8' {
        Some(8)
    } else if c == '9' {
        Some(9)
    } else {
        None
    }
}

/// The number that a run of decimal digits writes, zero for the empty run;
/// none where a character is no digit.
pub open spec fn digits_value(s: Seq<char>) -> Option<nat>
    decreases s.len(),
{
    if s.len() == 0 {
        Some(0)
    } else {
        match (digits_value(s.drop_last()), digit_value(s.last())) {
            (Some(v), Some(d)) => Some(10 * v + d),
            _ => None,
        }
    }
}

/// The number that `s` writes: an optional `+` or `-`, then at least one
/// decimal digit and nothing else, the value within 32 bits. None otherwise.
pub open spec fn parsed_minutes(s: Seq<char>) -> Option<i32> {
    let signed = s.len() > 0 && (s[0] == '-' || s[0] == '+');
    let negative = s.len() > 0 && s[0] == '-';
    let body = if signed { s.subrange(1, s.len() as int) } else { s };
    if body.len() == 0 {
        None
    } else {
        match digits_value(body) {
            Some(v) => {
                let n: int = if negative { -(v as int) } else { v as int };
                if i32::MIN <= n <= i32::MAX {
                    Some(n as i32)
                } else {
                    None
                }
            },
            None => None,
        }
    }
}

/// A run of digits is worth no less than any run it begins with, and is no
/// number where one it begins with is none.
pub proof fn lemma_digits_prefix(s: Seq<char>, k: int)
    requires
        0 <= k <= s.len(),
    ensures
        digits_value(s.subrange(0, k)) is None ==> digits_value(s) is None,
        digits_value(s) matches Some(w) ==> (digits_value(s.subrange(0, k)) matches Some(v) && v
            <= w),
    decreases s.len() - k,
{
    if k == s.len() {
        assert(s.subrange(0, k) =~= s);
    } else {
        assert(s.drop_last().subrange(0, k) =~= s.subrange(0, k));
        lemma_digits_prefix(s.drop_last(), k);
    }
}

fn digit_of(c: char) -> (r: Option<u64>)
    ensures
        r matches Some(d) ==> d < 10 && digit_value(c) == Some(d as nat),
        r is None ==> digit_value(c) is None,
{
    if c == '0' {
        Some(0)
    } else if c == '1' {
        Some(1)
    } else if c == '2' {
        Some(2)
    } else if c == '3' {
        Some(3)
    } else if c == '4' {
        Some(4)
    } else if c == '5' {
        Some(5)
    } else if c == '6' {
        Some(6)
    } else if c == '7' {
        Some(7)
    } else if c == '8' {
        Some(8)
    } else if c == '9' {
        Some(9)
    } else {
        None
    }
}

/// Reads a number of minutes written in decimal, with or without a sign.
pub fn parse_minutes(text: &str) -> (r: Option<i32>)
    ensures
        r == parsed_minutes(text@),
{
    let len: usize = text.unicode_len();
    if len == 0 {
        return None;
    }
    let first: char = text.get_char(0);
    let negative: bool = first == '-';
    let start: usize = if first == '-' || first == '+' { 1 } else { 0 };
    if start == len {
        return None;
    }
    let ghost body: Seq<char> = if start == 1 { text@.subrange(1, len as int) } else { text@ };
    let mut magnitude: u64 = 0;
    let mut i: usize = start;
    while i < len
        invariant
            start <= i <= len,
            len == text@.len(),
            0 < len,
            start <= 1,
            start == 1 <==> text@[0] == '-' || text@[0] == '+',
            body == if start == 1 { text@.subrange(1, len as int) } else { text@ },
            digits_value(body.subrange(0, i - start)) == Some(magnitude as nat),
            magnitude <= MAX_MAGNITUDE,
        decreases len - i,
    {
        let c: char = text.get_char(i);
        proof {
            let next = body.subrange(0, i - start + 1);
            assert(next.drop_last() =~= body.subrange(0, i - start));
            assert(next.last() == c);
            assert(digits_value(next) == match digit_value(c) {
                Some(d) => Some(10 * (magnitude as nat) + d),
                None => None,
            });
            lemma_digits_prefix(body, i - start + 1);
        }
        match digit_of(c) {
            None => {
                return None;
            },
            Some(d) => {
                magnitude = magnitude * 10 + d;
                if magnitude > MAX_MAGNITUDE {
                    return None;
                }
            },
        }
        i += 1;
    }
    proof {
        assert(body.subrange(0, len - start) =~= body);
    }
    if negative {
        Some((-(magnitude as i64)) as i32)
    } else if magnitude == MAX_MAGNITUDE {
        None
    } else {
        Some(magnitude as i32)
    }
}

/// The command that `word` names. `mod` takes its minutes from `value`, the
/// other words ignore it. None for another word, and for `mod` without a
/// number of minutes.
pub open spec fn parsed_command(word: Seq<char>, value: Option<Seq<char>>) -> Option<Command> {
    if word == "status"@ {
        Some(Command::Status)
    } else if word == "start"@ {
        Some(Command::Start)
    } else if word == "stop"@ {
        Some(Command::Stop)
    } else if word == "cancel"@ {
        Some(Command::Cancel)
    } else if word == "mod"@ {
        match value {
            Some(v) => match parsed_minutes(v) {
                Some(minutes) => Some(Command::Mod(minutes)),
                None => None,
            },
            None => None,
        }
    } else {
        None
    }
}

/// Whether two texts hold the same characters.
pub fn same_text(a: &str, b: &str) -> (r: bool)
    ensures
        r == (a@ == b@),
{
    let len: usize = a.unicode_len();
    if len != b.unicode_len() {
        return false;
    }
    let mut i: usize = 0;
    while i < len
        invariant
            i <= len,
            len == a@.len(),
            len == b@.len(),
            forall|j: int| 0 <= j < i ==> a@[j] == b@[j],
        decreases len - i,
    {
        if a.get_char(i) != b.get_char(i) {
            return false;
        }
        i += 1;
    }
    assert(a@ =~= b@);
    true
}

/// Reads a command from the word that names it and the value given with it.
pub fn parse_command(word: &str, value: Option<&str>) -> (r: Option<Command>)
    ensures
        r == parsed_command(
            word@,
            match value {
                Some(v) => Some(v@),
                None => None,
            },
        ),
{
    if same_text(word, "status") {
        Some(Command::Status)
    } else if same_text(word, "start") {
        Some(Command::Start)
    } else if same_text(word, "stop") {
        Some(Command::Stop)
    } else if same_text(word, "cancel") {
        Some(Command::Cancel)
    } else if same_text(word, "mod") {
        match value {
            Some(v) => match parse_minutes(v) {
                Some(minutes) => Some(Command::Mod(minutes)),
                None => None,
            },
            None => None,
        }
    } else {
        None
    }
}

} // verus!
