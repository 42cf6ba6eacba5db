//! Wall-clock times of day at minute granularity, written `HH:MM`.
use chrono::Timelike;
use vstd::prelude::*;

verus! {

/// A time of day on a 24-hour clock.
#[derive(Clone, Copy, Debug, PartialEq, Eq)]
pub struct ClockTime {
    pub hour: u8,
    pub minute: u8,
}

/// The decimal digit for `d`.
pub open spec fn digit_char(d: int) -> char {
    ((d + '0' as int) as u32) as char
}

/// A number below 100 as two decimal digits.
pub open spec fn two_digits(n: int) -> Seq<char> {
    seq![digit_char(n / 10), digit_char(n % 10)]
}

/// `HH:MM` for the given hour and minute.
pub open spec fn hhmm(hour: int, minute: int) -> Seq<char> {
    two_digits(hour) + seq![':'] + two_digits(minute)
}

/// The hour and minute that `s` writes as `HH:MM`, if it is a time of day.
pub open spec fn clock_of(s: Seq<char>) -> Option<(int, int)> {
    if s.len() == 5 && s[2] == ':' && '0' <= s[0] <= '9' && '0' <= s[1] <= '9' && '0' <= s[3]
        <= '9' && '0' <= s[4] <= '9' {
        let h = (s[0] as int - '0' as int) * 10 + (s[1] as int - '0' as int);
        let m = (s[3] as int - '0' as int) * 10 + (s[4] as int - '0' as int);
        if h < 24 && m < 60 {
            Some((h, m))
        } else {
            None
        }
    } else {
        None
    }
}

impl ClockTime {
    /// Hour and minute are in range.
    pub open spec fn wf(&self) -> bool {
        self.hour < 24 && self.minute < 60
    }

    /// The time written as `HH:MM`.
    pub open spec fn text(&self) -> Seq<char> {
        hhmm(self.hour as int, self.minute as int)
    }

    /// The time at `hour`:`minute`, if both are in range.
    pub fn new(hour: u8, minute: u8) -> (r: Option<ClockTime>)
        ensures
            match r {
                Some(t) => hour < 24 && minute < 60 && t.hour == hour && t.minute == minute,
                None => !(hour < 24 && minute < 60),
            },
    {
        if hour < 24 && minute < 60 {
            Some(ClockTime { hour, minute })
        } else {
            None
        }
    }

    /// Writes the time as `HH:MM`, with leading zeros.
    pub fn format(&self) -> (r: String)
        requires
            self.wf(),
        ensures
            r@ == self.text(),
    {
        let mut r = String::new();
        r.append(digit_text(self.hour / 10));
        r.append(digit_text(self.hour % 10));
        r.append(":");
        r.append(digit_text(self.minute / 10));
        r.append(digit_text(self.minute % 10));
        proof {
            reveal_strlit(":");
            assert(r@ =~= self.text());
        }
        r
    }

    /// Reads a time written as `HH:MM`.
    pub fn parse(s: &str) -> (r: Option<ClockTime>)
        ensures
            match r {
                Some(t) => t.wf() && clock_of(s@) == Some((t.hour as int, t.minute as int)),
                None => clock_of(s@).is_none(),
            },
    {
        if s.unicode_len() != 5 {
            return None;
        }
        let c0 = s.get_char(0);
        let c1 = s.get_char(1);
        let c2 = s.get_char(2);
        let c3 = s.get_char(3);
        let c4 = s.get_char(4);
        if !(c2 == ':' && '0' <= c0 && c0 <= '9' && '0' <= c1 && c1 <= '9' && '0' <= c3 && c3
            <= '9' && '0' <= c4 && c4 <= '9') {
            return None;
        }
        let h: u32 = (c0 as u32 - '0' as u32) * 10 + (c1 as u32 - '0' as u32);
        let m: u32 = (c3 as u32 - '0' as u32) * 10 + (c4 as u32 - '0' as u32);
        if h < 24 && m < 60 {
            Some(ClockTime { hour: h as u8, minute: m as u8 })
        } else {
            None
        }
    }
}

/// The one-character text of a decimal digit.
fn digit_text(d: u8) -> (r: &'static str)
    requires
        d < 10,
    ensures
        r@ == seq![digit_char(d as int)],
{
    let r = match d {
        0 => "0",
        1 => "1",
        2 => "2",
        3 => "3",
        4 => "4",
        5 => "5",
        6 => "6",
        7 => "7",
        8 => "8",
        _ => "9",
    };
    proof {
        reveal_strlit("0");
        reveal_strlit("1");
        reveal_strlit("2");
        reveal_strlit("3");
        reveal_strlit("4");
        reveal_strlit("5");
        reveal_strlit("6");
        reveal_strlit("7");
        reveal_strlit("8");
        reveal_strlit("9");
        assert(r@ =~= seq![digit_char(d as int)]);
    }
    r
}

/// Relies on `chrono::Local::now` and `chrono::Timelike`: the local time of
/// day, whose hour is below 24 and whose minute is below 60.
#[verifier::external_body]
pub(crate) fn local_now() -> (r: ClockTime)
    ensures
        r.wf(),
{
    let now = chrono::Local::now();
    ClockTime { hour: now.hour() as u8, minute: now.minute() as u8 }
}

} // verus!
