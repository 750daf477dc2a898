//! Day-tracking core of a meditation timer: session timing, day rollover and
//! manual adjustment of the time recorded for the current day.

pub mod command;
pub mod duration;
pub mod lemmas;
pub mod parse;
pub mod state;
pub mod time;
