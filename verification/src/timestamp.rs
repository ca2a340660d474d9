//! Date-times with an explicit UTC offset, and their offset-preserving
//! standard rendering.
//!
//! A [`Timestamp`] holds plain civil fields plus an offset in whole minutes.
//! It renders as `YYYY-MM-DDTHH:MM:SS+HH:MM` (or `-HH:MM`); the offset is
//! never normalized away. Parsing accepts that form with in-range fields
//! and a valid calendar day, with `T`, `t`, or a space between date and
//! time, and with `Z` or `z` standing for offset zero, so rendering and
//! parsing round-trip; see [`lemma_rfc3339_round_trip`].
//!
//! The model stops at second resolution: a string with fractional seconds
//! or a leap second 60 is not parsed as a timestamp.

use vstd::prelude::*;

use crate::decimal::{digit_char, digit_char_exec};
use crate::keys::is_digit_char;
use crate::text::push_char;

verus! {

/// A date-time with an explicit UTC offset, at second resolution.
#[derive(Debug, Clone, Copy, PartialEq, Eq, Structural)]
pub struct Timestamp {
    pub year: u16,
    pub month: u8,
    pub day: u8,
    pub hour: u8,
    pub minute: u8,
    pub second: u8,
    /// Offset from UTC in minutes, negative for west of UTC.
    pub offset_minutes: i16,
}

/// A leap year in the proleptic Gregorian calendar.
pub open spec fn is_leap_year(y: int) -> bool {
    y % 4 == 0 && (y % 100 != 0 || y % 400 == 0)
}

/// The number of days in the given month.
pub open spec fn days_in_month(y: int, m: int) -> int
    recommends
        1 <= m <= 12,
{
    if m == 2 {
        if is_leap_year(y) {
            29
        } else {
            28
        }
    } else if m == 4 || m == 6 || m == 9 || m == 11 {
        30
    } else {
        31
    }
}

/// The number of days in the given month.
pub fn days_in_month_exec(y: u16, m: u8) -> (r: u8)
    requires
        1 <= m <= 12,
    ensures
        r as int == days_in_month(y as int, m as int),
{
    if m == 2 {
        if y % 4 == 0 && (y % 100 != 0 || y % 400 == 0) {
            29
        } else {
            28
        }
    } else if m == 4 || m == 6 || m == 9 || m == 11 {
        30
    } else {
        31
    }
}

impl Timestamp {
    /// A representable timestamp: a real calendar date with in-range time
    /// fields, a four-digit year, and an offset below one day.
    pub open spec fn wf(self) -> bool {
        &&& self.year <= 9999
        &&& 1 <= self.month <= 12
        &&& 1 <= self.day <= days_in_month(self.year as int, self.month as int)
        &&& self.hour <= 23
        &&& self.minute <= 59
        &&& self.second <= 59
        &&& -1439 <= self.offset_minutes <= 1439
    }

    /// Builds a timestamp from its fields, validating them.
    pub fn from_fields(
        year: u16,
        month: u8,
        day: u8,
        hour: u8,
        minute: u8,
        second: u8,
        offset_minutes: i16,
    ) -> (r: Option<Timestamp>)
        ensures
            ({
                let t = Timestamp { year, month, day, hour, minute, second, offset_minutes };
                match r {
                    Option::Some(v) => v == t && t.wf(),
                    Option::None => !t.wf(),
                }
            }),
    {
        if year <= 9999 && 1 <= month && month <= 12 && 1 <= day && hour <= 23 && minute <= 59
            && second <= 59 && -1439 <= offset_minutes && offset_minutes <= 1439 && day
            <= days_in_month_exec(year, month) {
            Option::Some(Timestamp { year, month, day, hour, minute, second, offset_minutes })
        } else {
            Option::None
        }
    }

    /// The Unix epoch, 1970-01-01T00:00:00 at offset zero.
    pub fn unix_epoch() -> (r: Timestamp)
        ensures
            r == (Timestamp {
                year: 1970,
                month: 1,
                day: 1,
                hour: 0,
                minute: 0,
                second: 0,
                offset_minutes: 0,
            }),
            r.wf(),
    {
        Timestamp { year: 1970, month: 1, day: 1, hour: 0, minute: 0, second: 0, offset_minutes: 0 }
    }
}

/// The 25-character offset-preserving rendering of a timestamp.
pub open spec fn ts_repr(t: Timestamp) -> Seq<char> {
    let y = t.year as int;
    let mo = t.month as int;
    let d = t.day as int;
    let h = t.hour as int;
    let mi = t.minute as int;
    let se = t.second as int;
    let off = t.offset_minutes as int;
    let a = if off < 0 {
        -off
    } else {
        off
    };
    seq![
        digit_char(y / 1000),
        digit_char(y / 100 % 10),
        digit_char(y / 10 % 10),
        digit_char(y % 10),
        '-',
        digit_char(mo / 10),
        digit_char(mo % 10),
        '-',
        digit_char(d / 10),
        digit_char(d % 10),
        'T',
        digit_char(h / 10),
        digit_char(h % 10),
        ':',
        digit_char(mi / 10),
        digit_char(mi % 10),
        ':',
        digit_char(se / 10),
        digit_char(se % 10),
        if off < 0 {
            '-'
        } else {
            '+'
        },
        digit_char(a / 60 / 10),
        digit_char(a / 60 % 10),
        ':',
        digit_char(a % 60 / 10),
        digit_char(a % 60 % 10),
    ]
}

/// The numeric value of one decimal digit character.
pub open spec fn digit_val(c: char) -> int {
    c as u32 - 48
}

/// Whether positions 0 through 18 of `s` spell a date and a time,
/// `YYYY-MM-DD` and `HH:MM:SS`, joined by `T`, `t`, or a space.
pub open spec fn date_time_shape(s: Seq<char>) -> bool {
    &&& s.len() >= 19
    &&& is_digit_char(s[0])
    &&& is_digit_char(s[1])
    &&& is_digit_char(s[2])
    &&& is_digit_char(s[3])
    &&& s[4] == '-'
    &&& is_digit_char(s[5])
    &&& is_digit_char(s[6])
    &&& s[7] == '-'
    &&& is_digit_char(s[8])
    &&& is_digit_char(s[9])
    &&& (s[10] == 'T' || s[10] == 't' || s[10] == ' ')
    &&& is_digit_char(s[11])
    &&& is_digit_char(s[12])
    &&& s[13] == ':'
    &&& is_digit_char(s[14])
    &&& is_digit_char(s[15])
    &&& s[16] == ':'
    &&& is_digit_char(s[17])
    &&& is_digit_char(s[18])
}

/// Whether `s` has the exact shape of an offset date-time the parser
/// accepts: a date and a whole-second time followed by `Z` or `z` (offset
/// zero), or by a numeric `+HH:MM` / `-HH:MM` offset. Fractional seconds
/// are deliberately not part of the grammar: the timestamp model stops at
/// second resolution.
pub open spec fn rfc3339_shape(s: Seq<char>) -> bool {
    &&& date_time_shape(s)
    &&& ((s.len() == 20 && (s[19] == 'Z' || s[19] == 'z')) || (s.len() == 25 && (s[19] == '+'
        || s[19] == '-') && is_digit_char(s[20]) && is_digit_char(s[21]) && s[22] == ':'
        && is_digit_char(s[23]) && is_digit_char(s[24])))
}

/// Parses the offset date-time form; `None` when the shape does not match,
/// a field is out of range — a leap second 60 included — or the day is not
/// a real calendar day.
pub open spec fn parse_rfc3339(s: Seq<char>) -> Option<Timestamp> {
    if !rfc3339_shape(s) {
        Option::None
    } else {
        let year = digit_val(s[0]) * 1000 + digit_val(s[1]) * 100 + digit_val(s[2]) * 10
            + digit_val(s[3]);
        let month = digit_val(s[5]) * 10 + digit_val(s[6]);
        let day = digit_val(s[8]) * 10 + digit_val(s[9]);
        let hour = digit_val(s[11]) * 10 + digit_val(s[12]);
        let minute = digit_val(s[14]) * 10 + digit_val(s[15]);
        let second = digit_val(s[17]) * 10 + digit_val(s[18]);
        let ohh = digit_val(s[20]) * 10 + digit_val(s[21]);
        let omm = digit_val(s[23]) * 10 + digit_val(s[24]);
        let mag = ohh * 60 + omm;
        let off = if s.len() == 20 {
            0int
        } else if s[19] == '-' {
            -mag
        } else {
            mag
        };
        if 1 <= month && month <= 12 && 1 <= day && day <= days_in_month(year, month) && hour <= 23
            && minute <= 59 && second <= 59 && (s.len() == 20 || (ohh <= 23 && omm <= 59)) {
            Option::Some(
                Timestamp {
                    year: year as u16,
                    month: month as u8,
                    day: day as u8,
                    hour: hour as u8,
                    minute: minute as u8,
                    second: second as u8,
                    offset_minutes: off as i16,
                },
            )
        } else {
            Option::None
        }
    }
}

/// Every successfully parsed timestamp is representable.
pub proof fn lemma_parse_rfc3339_wf(s: Seq<char>)
    ensures
        match parse_rfc3339(s) {
            Option::Some(t) => t.wf(),
            Option::None => true,
        },
{
}

/// Rendering a representable timestamp and parsing the result recovers the
/// identical fields: the same instant and the same UTC offset.
#[verifier::rlimit(100)]
pub proof fn lemma_rfc3339_round_trip(t: Timestamp)
    requires
        t.wf(),
    ensures
        parse_rfc3339(ts_repr(t)) == Option::<Timestamp>::Some(t),
{
    let s = ts_repr(t);
    let y = t.year as int;
    assert(y == (y / 1000) * 1000 + (y / 100 % 10) * 100 + (y / 10 % 10) * 10 + y % 10) by {
        assert(y / 100 == (y / 1000) * 10 + y / 100 % 10);
        assert(y / 10 == (y / 100) * 10 + y / 10 % 10);
        assert(y == (y / 10) * 10 + y % 10);
    }
    let off = t.offset_minutes as int;
    let a = if off < 0 {
        -off
    } else {
        off
    };
    assert(a == (a / 60 / 10 * 10 + a / 60 % 10) * 60 + (a % 60 / 10 * 10 + a % 60 % 10)) by {
        assert(a / 60 == a / 60 / 10 * 10 + a / 60 % 10);
        assert(a % 60 == a % 60 / 10 * 10 + a % 60 % 10);
        assert(a == (a / 60) * 60 + a % 60);
    }
    assert(rfc3339_shape(s));
}

/// Appends the four digits of a year value.
fn push_four_digits(s: &mut String, v: u16)
    requires
        v <= 9999,
    ensures
        final(s)@ == old(s)@ + seq![
            digit_char(v as int / 1000),
            digit_char(v as int / 100 % 10),
            digit_char(v as int / 10 % 10),
            digit_char(v as int % 10),
        ],
{
    push_char(s, digit_char_exec((v / 1000) as u8));
    push_char(s, digit_char_exec((v / 100 % 10) as u8));
    push_char(s, digit_char_exec((v / 10 % 10) as u8));
    push_char(s, digit_char_exec((v % 10) as u8));
    proof {
        assert(s@ =~= old(s)@ + seq![
            digit_char(v as int / 1000),
            digit_char(v as int / 100 % 10),
            digit_char(v as int / 10 % 10),
            digit_char(v as int % 10),
        ]);
    }
}

/// Appends a zero-padded two-digit value.
fn push_two_digits(s: &mut String, v: u8)
    requires
        v < 100,
    ensures
        final(s)@ == old(s)@ + seq![digit_char(v as int / 10), digit_char(v as int % 10)],
{
    push_char(s, digit_char_exec(v / 10));
    push_char(s, digit_char_exec(v % 10));
    proof {
        assert(s@ =~= old(s)@ + seq![digit_char(v as int / 10), digit_char(v as int % 10)]);
    }
}

/// Renders a timestamp in the offset-preserving standard form.
#[verifier::rlimit(100)]
pub fn encode_rfc3339(t: &Timestamp) -> (r: String)
    requires
        t.wf(),
    ensures
        r@ == ts_repr(*t),
{
    let mut s = String::new();
    push_four_digits(&mut s, t.year);
    push_char(&mut s, '-');
    push_two_digits(&mut s, t.month);
    push_char(&mut s, '-');
    push_two_digits(&mut s, t.day);
    push_char(&mut s, 'T');
    push_two_digits(&mut s, t.hour);
    push_char(&mut s, ':');
    push_two_digits(&mut s, t.minute);
    push_char(&mut s, ':');
    push_two_digits(&mut s, t.second);
    let off = t.offset_minutes;
    if off < 0 {
        push_char(&mut s, '-');
    } else {
        push_char(&mut s, '+');
    }
    let a: u16 = if off < 0 {
        (-off) as u16
    } else {
        off as u16
    };
    push_two_digits(&mut s, (a / 60) as u8);
    push_char(&mut s, ':');
    push_two_digits(&mut s, (a % 60) as u8);
    proof {
        assert(s@ =~= ts_repr(*t));
    }
    s
}

/// Reads one decimal digit character.
fn digit_of(c: char) -> (r: Option<u8>)
    ensures
        match r {
            Option::Some(d) => is_digit_char(c) && d as int == digit_val(c) && d < 10,
            Option::None => !is_digit_char(c),
        },
{
    let u = c as u32;
    if 48 <= u && u <= 57 {
        Option::Some((u - 48) as u8)
    } else {
        Option::None
    }
}

/// Parses the fixed offset date-time form from a string.
pub fn parse_rfc3339_str(s: &str) -> (r: Option<Timestamp>)
    ensures
        r == parse_rfc3339(s@),
{
    let n = s.unicode_len();
    if n != 25 && n != 20 {
        return Option::None;
    }
    let c4 = s.get_char(4);
    let c7 = s.get_char(7);
    let c10 = s.get_char(10);
    let c13 = s.get_char(13);
    let c16 = s.get_char(16);
    if !(c4 as u32 == 45 && c7 as u32 == 45 && c13 as u32 == 58 && c16 as u32 == 58) {
        return Option::None;
    }
    if !(c10 as u32 == 84 || c10 as u32 == 116 || c10 as u32 == 32) {
        return Option::None;
    }
    let d0 = match digit_of(s.get_char(0)) {
        Option::Some(d) => d,
        Option::None => { return Option::None },
    };
    let d1 = match digit_of(s.get_char(1)) {
        Option::Some(d) => d,
        Option::None => { return Option::None },
    };
    let d2 = match digit_of(s.get_char(2)) {
        Option::Some(d) => d,
        Option::None => { return Option::None },
    };
    let d3 = match digit_of(s.get_char(3)) {
        Option::Some(d) => d,
        Option::None => { return Option::None },
    };
    let d5 = match digit_of(s.get_char(5)) {
        Option::Some(d) => d,
        Option::None => { return Option::None },
    };
    let d6 = match digit_of(s.get_char(6)) {
        Option::Some(d) => d,
        Option::None => { return Option::None },
    };
    let d8 = match digit_of(s.get_char(8)) {
        Option::Some(d) => d,
        Option::None => { return Option::None },
    };
    let d9 = match digit_of(s.get_char(9)) {
        Option::Some(d) => d,
        Option::None => { return Option::None },
    };
    let d11 = match digit_of(s.get_char(11)) {
        Option::Some(d) => d,
        Option::None => { return Option::None },
    };
    let d12 = match digit_of(s.get_char(12)) {
        Option::Some(d) => d,
        Option::None => { return Option::None },
    };
    let d14 = match digit_of(s.get_char(14)) {
        Option::Some(d) => d,
        Option::None => { return Option::None },
    };
    let d15 = match digit_of(s.get_char(15)) {
        Option::Some(d) => d,
        Option::None => { return Option::None },
    };
    let d17 = match digit_of(s.get_char(17)) {
        Option::Some(d) => d,
        Option::None => { return Option::None },
    };
    let d18 = match digit_of(s.get_char(18)) {
        Option::Some(d) => d,
        Option::None => { return Option::None },
    };
    let c19 = s.get_char(19);
    let off: i16;
    let mut offset_ok = true;
    if n == 20 {
        if !(c19 as u32 == 90 || c19 as u32 == 122) {
            return Option::None;
        }
        off = 0;
    } else {
        if !(c19 as u32 == 43 || c19 as u32 == 45) {
            return Option::None;
        }
        let c22 = s.get_char(22);
        if c22 as u32 != 58 {
            return Option::None;
        }
        let d20 = match digit_of(s.get_char(20)) {
            Option::Some(d) => d,
            Option::None => { return Option::None },
        };
        let d21 = match digit_of(s.get_char(21)) {
            Option::Some(d) => d,
            Option::None => { return Option::None },
        };
        let d23 = match digit_of(s.get_char(23)) {
            Option::Some(d) => d,
            Option::None => { return Option::None },
        };
        let d24 = match digit_of(s.get_char(24)) {
            Option::Some(d) => d,
            Option::None => { return Option::None },
        };
        let ohh: u8 = d20 * 10 + d21;
        let omm: u8 = d23 * 10 + d24;
        let mag: i16 = ohh as i16 * 60 + omm as i16;
        off = if c19 as u32 == 45 {
            -mag
        } else {
            mag
        };
        offset_ok = ohh <= 23 && omm <= 59;
    }
    assert(rfc3339_shape(s@));
    let year: u16 = d0 as u16 * 1000 + d1 as u16 * 100 + d2 as u16 * 10 + d3 as u16;
    let month: u8 = d5 * 10 + d6;
    let day: u8 = d8 * 10 + d9;
    let hour: u8 = d11 * 10 + d12;
    let minute: u8 = d14 * 10 + d15;
    let second: u8 = d17 * 10 + d18;
    if 1 <= month && month <= 12 && 1 <= day && day <= days_in_month_exec(year, month) && hour
        <= 23 && minute <= 59 && second <= 59 && offset_ok {
        Option::Some(Timestamp { year, month, day, hour, minute, second, offset_minutes: off })
    } else {
        Option::None
    }
}

} // verus!
