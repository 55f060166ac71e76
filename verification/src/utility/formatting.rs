//! Timestamps as the platform renders them.

use vstd::prelude::*;
use vstd::string::*;

use crate::utility::text::push_char;
use crate::utility::text::signed_decimal;
use crate::utility::text::signed_decimal_seq;

verus! {

/// How the platform shows a timestamp.
#[derive(Clone, Copy, Debug, PartialEq, Eq, Structural)]
pub enum TimeFlag {
    ShortTime,
    LongTime,
    ShortDate,
    LongDate,
    ShortDateTime,
    LongDateTime,
    Relative,
}

impl TimeFlag {
    /// The letter that selects the style.
    pub open spec fn letter(self) -> char {
        match self {
            TimeFlag::ShortTime => 't',
            TimeFlag::LongTime => 'T',
            TimeFlag::ShortDate => 'd',
            TimeFlag::LongDate => 'D',
            TimeFlag::ShortDateTime => 'f',
            TimeFlag::LongDateTime => 'F',
            TimeFlag::Relative => 'R',
        }
    }

    /// The letter that selects the style.
    pub fn to_char(&self) -> (c: char)
        ensures
            c == self.letter(),
    {
        match self {
            TimeFlag::ShortTime => 't',
            TimeFlag::LongTime => 'T',
            TimeFlag::ShortDate => 'd',
            TimeFlag::LongDate => 'D',
            TimeFlag::ShortDateTime => 'f',
            TimeFlag::LongDateTime => 'F',
            TimeFlag::Relative => 'R',
        }
    }
}

impl Default for TimeFlag {
    fn default() -> (flag: Self)
        ensures
            flag == TimeFlag::Relative,
    {
        TimeFlag::Relative
    }
}

/// A moment in milliseconds since 1970, and how to show it.
#[derive(Clone, Copy, Debug, PartialEq, Eq, Structural)]
pub struct TimeString(pub i64, pub Option<TimeFlag>);

/// Whole seconds of a millisecond count, rounded toward zero.
pub open spec fn whole_seconds(ms: int) -> int {
    if ms >= 0 {
        ms / 1000
    } else {
        -((-ms) / 1000)
    }
}

impl TimeString {
    /// The moment `ms`, shown in the default style.
    pub fn new(ms: i64) -> (t: Self)
        ensures
            t == TimeString(ms, None),
    {
        TimeString(ms, None)
    }

    /// The same moment, shown as `flag` says.
    pub fn flag(self, flag: TimeFlag) -> (t: Self)
        ensures
            t == TimeString(self.0, Some(flag)),
    {
        TimeString(self.0, Some(flag))
    }

    /// The style in effect: the one set, or the relative one.
    pub open spec fn style(self) -> TimeFlag {
        match self.1 {
            Some(flag) => flag,
            None => TimeFlag::Relative,
        }
    }

    /// The platform's markup: `<t:SECONDS:LETTER>`.
    pub open spec fn markup(self) -> Seq<char> {
        "<t:"@ + signed_decimal_seq(whole_seconds(self.0 as int)) + seq![':', self.style().letter(), '>']
    }

    /// The platform's markup of the moment.
    pub fn to_string(&self) -> (s: String)
        ensures
            s@ == self.markup(),
    {
        let seconds: i64 = self.0 / 1000;
        let flag = match self.1 {
            Some(flag) => flag,
            None => TimeFlag::Relative,
        };
        let mut s = String::from_str("<t:");
        s.append(signed_decimal(seconds).as_str());
        let ghost body = s@;
        push_char(&mut s, ':');
        push_char(&mut s, flag.to_char());
        push_char(&mut s, '>');
        assert(s@ == body + seq![':', flag.letter(), '>']);
        s
    }
}

} // verus!
