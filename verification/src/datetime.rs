//! Calendar timestamps. The protocol carries UTC timestamps as
//! `YYYY-MM-DDTHH:MM:SS` strings; the library holds them as plain calendar
//! fields and formats and parses that shape itself.

use vstd::prelude::*;

verus! {

use crate::strutil::dec_digit;
use crate::strutil::push_char;

/// A UTC calendar timestamp with second precision.
#[derive(Debug, Clone, Copy, PartialEq, Eq, Structural)]
pub struct DateTime {
    /// Four-digit year.
    pub year: u16,
    /// Month of the year, 1 to 12.
    pub month: u8,
    /// Day of the month, 1 to the month's length.
    pub day: u8,
    /// Hour of the day, 0 to 23.
    pub hour: u8,
    /// Minute of the hour, 0 to 59.
    pub minute: u8,
    /// Second of the minute, 0 to 59.
    pub second: u8,
}

/// Whether `y` is a leap year in the Gregorian calendar.
pub open spec fn leap_year(y: nat) -> bool {
    y % 4 == 0 && (y % 100 != 0 || y % 400 == 0)
}

/// The number of days of month `m` of year `y`.
pub open spec fn days_in_month(y: nat, m: nat) -> nat {
    if m == 2 {
        if leap_year(y) {
            29
        } else {
            28
        }
    } else if m == 4 || m == 6 || m == 9 || m == 11 {
        30
    } else {
        31
    }
}

impl DateTime {
    /// A well-formed timestamp: a real calendar date with a four-digit year
    /// and a time of day.
    pub open spec fn valid(self) -> bool {
        &&& 1 <= self.year <= 9999
        &&& 1 <= self.month <= 12
        &&& 1 <= self.day <= days_in_month(self.year as nat, self.month as nat)
        &&& self.hour < 24
        &&& self.minute < 60
        &&& self.second < 60
    }

    /// Decides [`DateTime::valid`].
    pub fn is_valid(&self) -> (r: bool)
        ensures
            r == self.valid(),
    {
        let y = self.year;
        let leap: bool = y % 4 == 0 && (y % 100 != 0 || y % 400 == 0);
        let month_days: u8 = if self.month == 2 {
            if leap {
                29
            } else {
                28
            }
        } else if self.month == 4 || self.month == 6 || self.month == 9 || self.month == 11 {
            30
        } else {
            31
        };
        1 <= y && y <= 9999 && 1 <= self.month && self.month <= 12 && 1 <= self.day && self.day
            <= month_days && self.hour < 24 && self.minute < 60 && self.second < 60
    }
}

/// The `YYYY-MM-DDTHH:MM:SS` shape of a timestamp.
pub open spec fn iso_str(d: DateTime) -> Seq<char> {
    seq![
        dec_digit((d.year as nat / 1000) % 10),
        dec_digit((d.year as nat / 100) % 10),
        dec_digit((d.year as nat / 10) % 10),
        dec_digit(d.year as nat % 10),
        '-',
        dec_digit((d.month as nat / 10) % 10),
        dec_digit(d.month as nat % 10),
        '-',
        dec_digit((d.day as nat / 10) % 10),
        dec_digit(d.day as nat % 10),
        'T',
        dec_digit((d.hour as nat / 10) % 10),
        dec_digit(d.hour as nat % 10),
        ':',
        dec_digit((d.minute as nat / 10) % 10),
        dec_digit(d.minute as nat % 10),
        ':',
        dec_digit((d.second as nat / 10) % 10),
        dec_digit(d.second as nat % 10),
    ]
}

fn dec_digit_char32(d: u32) -> (c: char)
    requires
        d < 10,
    ensures
        c == dec_digit(d as nat),
{
    if d == 0 {
        '0'
    } else if d == 1 {
        '1'
    } else if d == 2 {
        '2'
    } else if d == 3 {
        '3'
    } else if d == 4 {
        '4'
    } else if d == 5 {
        '5'
    } else if d == 6 {
        '6'
    } else if d == 7 {
        '7'
    } else if d == 8 {
        '8'
    } else {
        '9'
    }
}

fn append_2dig(out: &mut String, n: u32)
    ensures
        final(out)@ == old(out)@ + seq![
            dec_digit((n as nat / 10) % 10),
            dec_digit(n as nat % 10),
        ],
{
    push_char(out, dec_digit_char32(n / 10 % 10));
    push_char(out, dec_digit_char32(n % 10));
    assert(out@ =~= old(out)@ + seq![dec_digit((n as nat / 10) % 10), dec_digit(n as nat % 10)]);
}

fn append_4dig(out: &mut String, n: u32)
    ensures
        final(out)@ == old(out)@ + seq![
            dec_digit((n as nat / 1000) % 10),
            dec_digit((n as nat / 100) % 10),
            dec_digit((n as nat / 10) % 10),
            dec_digit(n as nat % 10),
        ],
{
    push_char(out, dec_digit_char32(n / 1000 % 10));
    push_char(out, dec_digit_char32(n / 100 % 10));
    push_char(out, dec_digit_char32(n / 10 % 10));
    push_char(out, dec_digit_char32(n % 10));
    assert(out@ =~= old(out)@ + seq![
        dec_digit((n as nat / 1000) % 10),
        dec_digit((n as nat / 100) % 10),
        dec_digit((n as nat / 10) % 10),
        dec_digit(n as nat % 10),
    ]);
}

/// Appends the `YYYY-MM-DDTHH:MM:SS` form of `d` to `out`.
#[verifier::rlimit(50)]
pub fn append_iso(out: &mut String, d: &DateTime)
    ensures
        final(out)@ == old(out)@ + iso_str(*d),
{
    append_4dig(out, d.year as u32);
    push_char(out, '-');
    append_2dig(out, d.month as u32);
    push_char(out, '-');
    append_2dig(out, d.day as u32);
    push_char(out, 'T');
    append_2dig(out, d.hour as u32);
    push_char(out, ':');
    append_2dig(out, d.minute as u32);
    push_char(out, ':');
    append_2dig(out, d.second as u32);
    assert(out@ =~= old(out)@ + iso_str(*d));
}

/// Formats `d` as `YYYY-MM-DDTHH:MM:SS`.
pub fn format_iso(d: &DateTime) -> (r: String)
    ensures
        r@ == iso_str(*d),
{
    let mut out = String::new();
    append_iso(&mut out, d);
    assert(out@ =~= iso_str(*d));
    out
}

/// Whether `c` is a decimal digit.
pub open spec fn is_digit(c: char) -> bool {
    0x30 <= c as u32 <= 0x39
}

/// The value of a decimal digit character.
pub open spec fn digit_val(c: char) -> nat {
    (c as u32 - 0x30) as nat
}

/// What parsing a `YYYY-MM-DDTHH:MM:SS` string yields: the timestamp, when
/// the string has exactly that shape and names a well-formed timestamp, and
/// nothing otherwise.
pub open spec fn iso_parse(s: Seq<char>) -> Option<DateTime> {
    if s.len() == 19 && is_digit(s[0]) && is_digit(s[1]) && is_digit(s[2]) && is_digit(s[3]) && s[4]
        == '-' && is_digit(s[5]) && is_digit(s[6]) && s[7] == '-' && is_digit(s[8]) && is_digit(
        s[9],
    ) && s[10] == 'T' && is_digit(s[11]) && is_digit(s[12]) && s[13] == ':' && is_digit(s[14])
        && is_digit(s[15]) && s[16] == ':' && is_digit(s[17]) && is_digit(s[18]) {
        let d = DateTime {
            year: (digit_val(s[0]) * 1000 + digit_val(s[1]) * 100 + digit_val(s[2]) * 10
                + digit_val(s[3])) as u16,
            month: (digit_val(s[5]) * 10 + digit_val(s[6])) as u8,
            day: (digit_val(s[8]) * 10 + digit_val(s[9])) as u8,
            hour: (digit_val(s[11]) * 10 + digit_val(s[12])) as u8,
            minute: (digit_val(s[14]) * 10 + digit_val(s[15])) as u8,
            second: (digit_val(s[17]) * 10 + digit_val(s[18])) as u8,
        };
        if d.valid() {
            Some(d)
        } else {
            None
        }
    } else {
        None
    }
}

fn read_digit(s: &str, i: usize) -> (r: Option<u32>)
    requires
        i < s@.len(),
    ensures
        match r {
            Some(v) => is_digit(s@[i as int]) && v == digit_val(s@[i as int]) && v <= 9,
            None => !is_digit(s@[i as int]),
        },
{
    let c = s.get_char(i);
    let u = c as u32;
    if 0x30 <= u && u <= 0x39 {
        Some(u - 0x30)
    } else {
        None
    }
}

fn expect_char(s: &str, i: usize, c: char) -> (r: bool)
    requires
        i < s@.len(),
    ensures
        r == (s@[i as int] == c),
{
    s.get_char(i) == c
}

/// Parses a `YYYY-MM-DDTHH:MM:SS` string.
pub fn parse_iso(s: &str) -> (r: Option<DateTime>)
    ensures
        r == iso_parse(s@),
{
    if s.unicode_len() != 19 {
        return None;
    }
    let d0 = match read_digit(s, 0) {
        Some(v) => v,
        None => { return None; },
    };
    let d1 = match read_digit(s, 1) {
        Some(v) => v,
        None => { return None; },
    };
    let d2 = match read_digit(s, 2) {
        Some(v) => v,
        None => { return None; },
    };
    let d3 = match read_digit(s, 3) {
        Some(v) => v,
        None => { return None; },
    };
    if !expect_char(s, 4, '-') {
        return None;
    }
    let m0 = match read_digit(s, 5) {
        Some(v) => v,
        None => { return None; },
    };
    let m1 = match read_digit(s, 6) {
        Some(v) => v,
        None => { return None; },
    };
    if !expect_char(s, 7, '-') {
        return None;
    }
    let day0 = match read_digit(s, 8) {
        Some(v) => v,
        None => { return None; },
    };
    let day1 = match read_digit(s, 9) {
        Some(v) => v,
        None => { return None; },
    };
    if !expect_char(s, 10, 'T') {
        return None;
    }
    let h0 = match read_digit(s, 11) {
        Some(v) => v,
        None => { return None; },
    };
    let h1 = match read_digit(s, 12) {
        Some(v) => v,
        None => { return None; },
    };
    if !expect_char(s, 13, ':') {
        return None;
    }
    let mi0 = match read_digit(s, 14) {
        Some(v) => v,
        None => { return None; },
    };
    let mi1 = match read_digit(s, 15) {
        Some(v) => v,
        None => { return None; },
    };
    if !expect_char(s, 16, ':') {
        return None;
    }
    let s0 = match read_digit(s, 17) {
        Some(v) => v,
        None => { return None; },
    };
    let s1 = match read_digit(s, 18) {
        Some(v) => v,
        None => { return None; },
    };
    let d = DateTime {
        year: (d0 * 1000 + d1 * 100 + d2 * 10 + d3) as u16,
        month: (m0 * 10 + m1) as u8,
        day: (day0 * 10 + day1) as u8,
        hour: (h0 * 10 + h1) as u8,
        minute: (mi0 * 10 + mi1) as u8,
        second: (s0 * 10 + s1) as u8,
    };
    if d.is_valid() {
        Some(d)
    } else {
        None
    }
}

proof fn lemma_digit_val_dec_digit(k: nat)
    requires
        k < 10,
    ensures
        is_digit(dec_digit(k)),
        digit_val(dec_digit(k)) == k,
{
}

proof fn lemma_dec2(n: nat)
    requires
        n <= 99,
    ensures
        ((n / 10) % 10) * 10 + n % 10 == n,
{
    assert(n / 10 <= 9);
    assert((n / 10) % 10 == n / 10);
}

proof fn lemma_dec4(n: nat)
    requires
        n <= 9999,
    ensures
        ((n / 1000) % 10) * 1000 + ((n / 100) % 10) * 100 + ((n / 10) % 10) * 10 + n % 10 == n,
{
    assert(n / 1000 <= 9);
    assert((n / 1000) % 10 == n / 1000);
    assert(n == (n / 10) * 10 + n % 10);
    assert(n / 10 == (n / 100) * 10 + (n / 10) % 10) by {
        assert(n / 10 / 10 == n / 100) by (nonlinear_arith);
        assert(n / 10 == (n / 10 / 10) * 10 + (n / 10) % 10);
    }
    assert(n / 100 == (n / 1000) * 10 + (n / 100) % 10) by {
        assert(n / 100 / 10 == n / 1000) by (nonlinear_arith);
        assert(n / 100 == (n / 100 / 10) * 10 + (n / 100) % 10);
    }
}

/// Law: formatting a well-formed timestamp and parsing the result yields the
/// timestamp back.
pub proof fn lemma_iso_round_trip(d: DateTime)
    requires
        d.valid(),
    ensures
        iso_parse(iso_str(d)) == Some(d),
{
    let s = iso_str(d);
    assert forall|k: nat| k < 10 implies is_digit(dec_digit(k)) && digit_val(dec_digit(k))
        == k by {
        lemma_digit_val_dec_digit(k);
    }
    lemma_dec4(d.year as nat);
    lemma_dec2(d.month as nat);
    lemma_dec2(d.day as nat);
    lemma_dec2(d.hour as nat);
    lemma_dec2(d.minute as nat);
    lemma_dec2(d.second as nat);
    assert(iso_parse(s) == Some(d));
}

} // verus!
