//! Naive wall-clock timestamps, the proleptic Gregorian calendar, and the
//! feed's two textual timestamp formats.
//!
//! The feed emits timestamps with no offset marker; they are modelled here as
//! naive calendar values, and the fixed UTC+9 feed offset is applied at one
//! explicit conversion point in the client.

use vstd::prelude::*;

use crate::text::digit_val;
use crate::text::is_digit;

verus! {

/// Seconds between the feed's fixed UTC+9 offset and UTC.
pub const FEED_OFFSET_SECONDS: i64 = 32400;

/// Largest epoch second supported by the calendar conversions (year 9897).
pub const MAX_FEED_EPOCH: i64 = 250_000_000_000;

/// A naive calendar timestamp: a wall-clock reading with no attached offset.
#[derive(Clone, Copy, Debug, PartialEq, Eq, Structural)]
pub struct Timestamp {
    pub year: u32,
    pub month: u32,
    pub day: u32,
    pub hour: u32,
    pub minute: u32,
    pub second: u32,
}

pub open spec fn is_leap(y: int) -> bool {
    (y % 4 == 0 && y % 100 != 0) || y % 400 == 0
}

pub open spec fn days_in_year(y: int) -> int {
    if is_leap(y) {
        366
    } else {
        365
    }
}

pub open spec fn days_in_month(y: int, m: int) -> int {
    if m == 2 {
        if is_leap(y) {
            29
        } else {
            28
        }
    } else if m == 4 || m == 6 || m == 9 || m == 11 {
        30
    } else {
        31
    }
}

impl Timestamp {
    /// A calendar-valid timestamp within the supported year range.
    pub open spec fn valid(self) -> bool {
        &&& 1970 <= self.year <= 9999
        &&& 1 <= self.month <= 12
        &&& 1 <= self.day <= days_in_month(self.year as int, self.month as int)
        &&& self.hour < 24
        &&& self.minute < 60
        &&& self.second < 60
    }
}

/// Days from 1970-01-01 to the first day of year `y`.
pub open spec fn days_before_year(y: int) -> int
    decreases y - 1970,
{
    if y <= 1970 {
        0
    } else {
        days_before_year(y - 1) + days_in_year(y - 1)
    }
}

/// Days from the first day of year `y` to the first day of its month `m`.
pub open spec fn days_before_month(y: int, m: int) -> int
    decreases m,
{
    if m <= 1 {
        0
    } else {
        days_before_month(y, m - 1) + days_in_month(y, m - 1)
    }
}

/// Seconds from 1970-01-01 00:00:00 to `ts`, both read as the same clock.
pub open spec fn epoch_of(ts: Timestamp) -> int {
    (days_before_year(ts.year as int) + days_before_month(ts.year as int, ts.month as int)
        + ts.day - 1) * 86400 + ts.hour * 3600 + ts.minute * 60 + ts.second
}

pub proof fn lemma_days_before_year_bounds(y: int)
    requires
        1970 <= y,
    ensures
        365 * (y - 1970) <= days_before_year(y) <= 366 * (y - 1970),
    decreases y - 1970,
{
    if y > 1970 {
        lemma_days_before_year_bounds(y - 1);
    }
}

pub fn exec_is_leap(y: u32) -> (r: bool)
    ensures
        r == is_leap(y as int),
{
    (y % 4 == 0 && y % 100 != 0) || y % 400 == 0
}

pub fn exec_days_in_year(y: u32) -> (r: u32)
    ensures
        r == days_in_year(y as int),
{
    if exec_is_leap(y) {
        366
    } else {
        365
    }
}

pub fn exec_days_in_month(y: u32, m: u32) -> (r: u32)
    ensures
        r == days_in_month(y as int, m as int),
{
    if m == 2 {
        if exec_is_leap(y) {
            29
        } else {
            28
        }
    } else if m == 4 || m == 6 || m == 9 || m == 11 {
        30
    } else {
        31
    }
}

/// Decides `ts.valid()`.
pub fn exec_valid(ts: &Timestamp) -> (r: bool)
    ensures
        r == ts.valid(),
{
    1970 <= ts.year && ts.year <= 9999 && 1 <= ts.month && ts.month <= 12 && 1 <= ts.day
        && ts.day <= exec_days_in_month(ts.year, ts.month) && ts.hour < 24 && ts.minute < 60
        && ts.second < 60
}

/// Computes `epoch_of(ts)`.
pub fn timestamp_epoch(ts: &Timestamp) -> (e: i64)
    requires
        ts.valid(),
    ensures
        e == epoch_of(*ts),
        0 <= e <= 254_000_000_000,
{
    let mut days: i64 = 0;
    let mut y: u32 = 1970;
    while y < ts.year
        invariant
            1970 <= y <= ts.year <= 9999,
            days == days_before_year(y as int),
            0 <= days <= 366 * (y - 1970),
        decreases ts.year - y,
    {
        days = days + exec_days_in_year(y) as i64;
        y = y + 1;
    }
    let mut m: u32 = 1;
    while m < ts.month
        invariant
            ts.valid(),
            1 <= m <= ts.month,
            days == days_before_year(ts.year as int) + days_before_month(ts.year as int, m as int),
            0 <= days <= 366 * (ts.year - 1970) + 31 * (m - 1),
        decreases ts.month - m,
    {
        days = days + exec_days_in_month(ts.year, m) as i64;
        m = m + 1;
    }
    days * 86400 + (ts.day as i64 - 1) * 86400 + ts.hour as i64 * 3600 + ts.minute as i64 * 60
        + ts.second as i64
}

/// The year reached from year `y` after `days` further days, with the
/// remaining day count inside that year.
pub open spec fn year_and_doy(days: int, y: int) -> (int, int)
    decreases days,
{
    if 0 <= days && days_in_year(y) <= days {
        year_and_doy(days - days_in_year(y), y + 1)
    } else {
        (y, days)
    }
}

/// The month reached from month `m` of year `y` after `doy` further days,
/// with the remaining day count inside that month.
pub open spec fn month_and_dom(doy: int, y: int, m: int) -> (int, int)
    decreases 12 - m,
{
    if m < 12 && 0 <= doy && days_in_month(y, m) <= doy {
        month_and_dom(doy - days_in_month(y, m), y, m + 1)
    } else {
        (m, doy)
    }
}

/// The calendar reading of epoch second `e`, on the same clock as `epoch_of`.
pub open spec fn civil_from_epoch(e: int) -> Timestamp {
    let days = e / 86400;
    let sod = e % 86400;
    let yd = year_and_doy(days, 1970);
    let md = month_and_dom(yd.1, yd.0, 1);
    Timestamp {
        year: yd.0 as u32,
        month: md.0 as u32,
        day: (md.1 + 1) as u32,
        hour: (sod / 3600) as u32,
        minute: ((sod % 3600) / 60) as u32,
        second: (sod % 60) as u32,
    }
}

/// Computes `civil_from_epoch(e)`: a valid timestamp, and the inverse
/// reading of `epoch_of`, so the two clock models agree.
pub fn epoch_civil(e: i64) -> (ts: Timestamp)
    requires
        0 <= e <= MAX_FEED_EPOCH,
    ensures
        ts == civil_from_epoch(e as int),
        ts.valid(),
        epoch_of(ts) == e,
{
    let days0: i64 = e / 86400;
    let sod: i64 = e % 86400;
    let mut rem: i64 = days0;
    let mut y: u32 = 1970;
    let mut diy = exec_days_in_year(y);
    while rem >= diy as i64
        invariant
            0 <= days0 <= 2_893_519,
            1970 <= y <= 9897,
            0 <= rem,
            diy == days_in_year(y as int),
            days_before_year(y as int) + rem == days0,
            year_and_doy(days0 as int, 1970) == year_and_doy(rem as int, y as int),
        decreases rem,
    {
        rem = rem - diy as i64;
        y = y + 1;
        proof {
            lemma_days_before_year_bounds(y as int);
        }
        diy = exec_days_in_year(y);
    }
    proof {
        assert(year_and_doy(rem as int, y as int) == (y as int, rem as int));
    }
    let mut dom: i64 = rem;
    let mut m: u32 = 1;
    let mut dim = exec_days_in_month(y, m);
    while m < 12 && dom >= dim as i64
        invariant
            1970 <= y <= 9999,
            1 <= m <= 12,
            0 <= dom <= rem,
            0 <= rem < days_in_year(y as int),
            dim == days_in_month(y as int, m as int),
            month_and_dom(rem as int, y as int, 1) == month_and_dom(dom as int, y as int, m as int),
            days_before_month(y as int, m as int) + dom == rem,
        decreases 12 - m,
    {
        dom = dom - dim as i64;
        m = m + 1;
        dim = exec_days_in_month(y, m);
    }
    proof {
        assert(month_and_dom(dom as int, y as int, m as int) == (m as int, dom as int));
        if m == 12 {
            assert(days_before_month(y as int, 13) == days_before_month(y as int, 12)
                + days_in_month(y as int, 12));
            assert(days_before_month(y as int, 13) == days_in_year(y as int)) by {
                lemma_year_month_days(y as int);
            }
        }
    }
    let ts = Timestamp {
        year: y,
        month: m,
        day: (dom + 1) as u32,
        hour: (sod / 3600) as u32,
        minute: ((sod % 3600) / 60) as u32,
        second: (sod % 60) as u32,
    };
    proof {
        let a = sod as int / 3600;
        let b = sod as int % 3600;
        let c = b / 60;
        let d2 = b % 60;
        assert(sod as int % 60 == d2) by (nonlinear_arith)
            requires
                sod as int == 3600 * a + b,
                b == 60 * c + d2,
                0 <= d2 < 60,
                0 <= sod as int,
                a >= 0,
                c >= 0,
        ;
        assert(a * 3600 + c * 60 + d2 == sod);
        assert(epoch_of(ts) == days0 * 86400 + sod);
    }
    ts
}

pub open spec fn digit_char(d: int) -> char {
    if d == 0 {
        '0'
    } else if d == 1 {
        '1'
    } else if d == 2 {
        '2'
    } else if d == 3 {
        '3'
    } else if d == 4 {
        '4'
    } else if d == 5 {
        '5'
    } else if d == 6 {
        '6'
    } else if d == 7 {
        '7'
    } else if d == 8 {
        '8'
    } else {
        '9'
    }
}

pub open spec fn two_chars(v: int) -> Seq<char> {
    seq![digit_char(v / 10), digit_char(v % 10)]
}

pub open spec fn four_chars(v: int) -> Seq<char> {
    seq![
        digit_char(v / 1000),
        digit_char((v / 100) % 10),
        digit_char((v / 10) % 10),
        digit_char(v % 10),
    ]
}

/// The feed's compact `YYYYMMDDHHMMSS` identifier form of `ts`.
pub open spec fn compact_chars(ts: Timestamp) -> Seq<char> {
    four_chars(ts.year as int) + two_chars(ts.month as int) + two_chars(ts.day as int) + two_chars(
        ts.hour as int,
    ) + two_chars(ts.minute as int) + two_chars(ts.second as int)
}

fn push_digit(out: &mut String, d: u32)
    requires
        d < 10,
    ensures
        final(out)@ == old(out)@ + seq![digit_char(d as int)],
{
    let digits = "0123456789";
    proof {
        reveal_strlit("0123456789");
    }
    let piece = digits.substring_char(d as usize, d as usize + 1);
    proof {
        assert(piece@ =~= seq![digit_char(d as int)]);
    }
    out.append(piece);
}

fn push_two(out: &mut String, v: u32)
    requires
        v < 100,
    ensures
        final(out)@ == old(out)@ + two_chars(v as int),
{
    push_digit(out, v / 10);
    push_digit(out, v % 10);
    proof {
        assert(out@ =~= old(out)@ + two_chars(v as int));
    }
}

fn push_four(out: &mut String, v: u32)
    requires
        v < 10000,
    ensures
        final(out)@ == old(out)@ + four_chars(v as int),
{
    push_digit(out, v / 1000);
    push_digit(out, (v / 100) % 10);
    push_digit(out, (v / 10) % 10);
    push_digit(out, v % 10);
    proof {
        assert(out@ =~= old(out)@ + four_chars(v as int));
    }
}

/// Formats `ts` in the feed's compact identifier convention.
pub fn format_compact(ts: &Timestamp) -> (s: String)
    requires
        ts.year < 10000,
        ts.month < 100,
        ts.day < 100,
        ts.hour < 100,
        ts.minute < 100,
        ts.second < 100,
    ensures
        s@ == compact_chars(*ts),
{
    let mut out = String::new();
    push_four(&mut out, ts.year);
    push_two(&mut out, ts.month);
    push_two(&mut out, ts.day);
    push_two(&mut out, ts.hour);
    push_two(&mut out, ts.minute);
    push_two(&mut out, ts.second);
    proof {
        assert(out@ =~= compact_chars(*ts));
    }
    out
}

/// Whether the `n` characters of `s` from position `i` are all digits.
pub open spec fn digits_at(s: Seq<char>, i: int, n: int) -> bool {
    forall|j: int| i <= j < i + n ==> is_digit(#[trigger] s[j])
}

pub open spec fn val2(s: Seq<char>, i: int) -> int {
    digit_val(s[i]) * 10 + digit_val(s[i + 1])
}

pub open spec fn val4(s: Seq<char>, i: int) -> int {
    digit_val(s[i]) * 1000 + digit_val(s[i + 1]) * 100 + digit_val(s[i + 2]) * 10 + digit_val(
        s[i + 3],
    )
}

fn read_digit(s: &str, i: usize) -> (r: Option<u32>)
    requires
        i < s@.len(),
    ensures
        match r {
            Some(v) => is_digit(s@[i as int]) && v == digit_val(s@[i as int]) && v < 10,
            None => !is_digit(s@[i as int]),
        },
{
    let c = s.get_char(i);
    let u = c as u32;
    if 48 <= u && u <= 57 {
        Some(u - 48)
    } else {
        None
    }
}

fn read2(s: &str, i: usize) -> (r: Option<u32>)
    requires
        i + 2 <= s@.len() <= usize::MAX,
    ensures
        match r {
            Some(v) => digits_at(s@, i as int, 2) && v == val2(s@, i as int) && v < 100,
            None => !digits_at(s@, i as int, 2),
        },
{
    let a = match read_digit(s, i) {
        Some(v) => v,
        None => {
            return None;
        },
    };
    let b = match read_digit(s, i + 1) {
        Some(v) => v,
        None => {
            return None;
        },
    };
    Some(a * 10 + b)
}

fn read4(s: &str, i: usize) -> (r: Option<u32>)
    requires
        i + 4 <= s@.len() <= usize::MAX,
    ensures
        match r {
            Some(v) => digits_at(s@, i as int, 4) && v == val4(s@, i as int) && v < 10000,
            None => !digits_at(s@, i as int, 4),
        },
{
    let a = match read2(s, i) {
        Some(v) => v,
        None => {
            return None;
        },
    };
    let b = match read2(s, i + 2) {
        Some(v) => v,
        None => {
            return None;
        },
    };
    Some(a * 100 + b)
}

pub open spec fn spec_ts_slash(s: Seq<char>) -> Timestamp {
    Timestamp {
        year: val4(s, 0) as u32,
        month: val2(s, 5) as u32,
        day: val2(s, 8) as u32,
        hour: val2(s, 11) as u32,
        minute: val2(s, 14) as u32,
        second: val2(s, 17) as u32,
    }
}

/// The shape of the reference endpoint's `YYYY/MM/DD HH:MM:SS` format.
pub open spec fn slash_shape(s: Seq<char>) -> bool {
    &&& s.len() == 19
    &&& digits_at(s, 0, 4)
    &&& s[4] == '/'
    &&& digits_at(s, 5, 2)
    &&& s[7] == '/'
    &&& digits_at(s, 8, 2)
    &&& s[10] == ' '
    &&& digits_at(s, 11, 2)
    &&& s[13] == ':'
    &&& digits_at(s, 14, 2)
    &&& s[16] == ':'
    &&& digits_at(s, 17, 2)
}

/// What parsing the slash-delimited format yields: a calendar-valid
/// timestamp exactly when the text has the right shape.
pub open spec fn spec_parse_slash(s: Seq<char>) -> Option<Timestamp> {
    if slash_shape(s) && spec_ts_slash(s).valid() {
        Some(spec_ts_slash(s))
    } else {
        None
    }
}

/// Parses the reference endpoint's slash-delimited timestamp format.
pub fn parse_slash(s: &str) -> (r: Option<Timestamp>)
    ensures
        r == spec_parse_slash(s@),
{
    if s.unicode_len() != 19 {
        return None;
    }
    if s.get_char(4) != '/' || s.get_char(7) != '/' || s.get_char(10) != ' ' || s.get_char(13)
        != ':' || s.get_char(16) != ':' {
        return None;
    }
    let year = match read4(s, 0) {
        Some(v) => v,
        None => {
            return None;
        },
    };
    let month = match read2(s, 5) {
        Some(v) => v,
        None => {
            return None;
        },
    };
    let day = match read2(s, 8) {
        Some(v) => v,
        None => {
            return None;
        },
    };
    let hour = match read2(s, 11) {
        Some(v) => v,
        None => {
            return None;
        },
    };
    let minute = match read2(s, 14) {
        Some(v) => v,
        None => {
            return None;
        },
    };
    let second = match read2(s, 17) {
        Some(v) => v,
        None => {
            return None;
        },
    };
    let ts = Timestamp { year, month, day, hour, minute, second };
    if exec_valid(&ts) {
        Some(ts)
    } else {
        None
    }
}

pub open spec fn spec_ts_compact(s: Seq<char>) -> Timestamp {
    Timestamp {
        year: val4(s, 0) as u32,
        month: val2(s, 4) as u32,
        day: val2(s, 6) as u32,
        hour: val2(s, 8) as u32,
        minute: val2(s, 10) as u32,
        second: val2(s, 12) as u32,
    }
}

/// The shape of the compact `YYYYMMDDHHMMSS` format.
pub open spec fn compact_shape(s: Seq<char>) -> bool {
    s.len() == 14 && digits_at(s, 0, 14)
}

/// What parsing the compact format yields.
pub open spec fn spec_parse_compact(s: Seq<char>) -> Option<Timestamp> {
    if compact_shape(s) && spec_ts_compact(s).valid() {
        Some(spec_ts_compact(s))
    } else {
        None
    }
}

/// Parses the compact timestamp format used in report identifiers.
pub fn parse_compact(s: &str) -> (r: Option<Timestamp>)
    ensures
        r == spec_parse_compact(s@),
{
    if s.unicode_len() != 14 {
        return None;
    }
    let year = match read4(s, 0) {
        Some(v) => v,
        None => {
            return None;
        },
    };
    let month = match read2(s, 4) {
        Some(v) => v,
        None => {
            return None;
        },
    };
    let day = match read2(s, 6) {
        Some(v) => v,
        None => {
            return None;
        },
    };
    let hour = match read2(s, 8) {
        Some(v) => v,
        None => {
            return None;
        },
    };
    let minute = match read2(s, 10) {
        Some(v) => v,
        None => {
            return None;
        },
    };
    let second = match read2(s, 12) {
        Some(v) => v,
        None => {
            return None;
        },
    };
    let ts = Timestamp { year, month, day, hour, minute, second };
    if exec_valid(&ts) {
        Some(ts)
    } else {
        None
    }
}

proof fn lemma_digit_char_val(d: int)
    requires
        0 <= d < 10,
    ensures
        is_digit(digit_char(d)),
        digit_val(digit_char(d)) == d,
{
}

/// Formatting a valid timestamp in compact form and parsing it back yields
/// the same timestamp.
pub proof fn lemma_compact_roundtrip(ts: Timestamp)
    requires
        ts.valid(),
    ensures
        spec_parse_compact(compact_chars(ts)) == Some(ts),
{
    let s = compact_chars(ts);
    let y = ts.year as int;
    let mo = ts.month as int;
    let d = ts.day as int;
    let h = ts.hour as int;
    let mi = ts.minute as int;
    let sec = ts.second as int;
    assert forall|k: int| 0 <= k < 10 implies is_digit(digit_char(k)) && digit_val(digit_char(k))
        == k by {
        lemma_digit_char_val(k);
    }
    assert(s =~= seq![
        digit_char(y / 1000),
        digit_char((y / 100) % 10),
        digit_char((y / 10) % 10),
        digit_char(y % 10),
        digit_char(mo / 10),
        digit_char(mo % 10),
        digit_char(d / 10),
        digit_char(d % 10),
        digit_char(h / 10),
        digit_char(h % 10),
        digit_char(mi / 10),
        digit_char(mi % 10),
        digit_char(sec / 10),
        digit_char(sec % 10),
    ]);
    assert(val4(s, 0) == (y / 1000) * 1000 + ((y / 100) % 10) * 100 + ((y / 10) % 10) * 10 + y
        % 10);
    assert((y / 1000) * 1000 + ((y / 100) % 10) * 100 + ((y / 10) % 10) * 10 + y % 10 == y)
        by (nonlinear_arith)
        requires
            0 <= y < 10000,
    ;
    assert((mo / 10) * 10 + mo % 10 == mo);
    assert((d / 10) * 10 + d % 10 == d);
    assert((h / 10) * 10 + h % 10 == h);
    assert((mi / 10) * 10 + mi % 10 == mi);
    assert((sec / 10) * 10 + sec % 10 == sec);
    assert(spec_ts_compact(s) == ts);
}

/// A year's days are the days of its twelve months together.
pub proof fn lemma_year_month_days(y: int)
    ensures
        days_before_month(y, 13) == days_in_year(y),
{
    assert(days_before_month(y, 1) == 0);
    assert(days_before_month(y, 2) == 31);
    assert(days_before_month(y, 3) == days_before_month(y, 2) + days_in_month(y, 2));
    assert(days_before_month(y, 4) == days_before_month(y, 3) + 31);
    assert(days_before_month(y, 5) == days_before_month(y, 4) + 30);
    assert(days_before_month(y, 6) == days_before_month(y, 5) + 31);
    assert(days_before_month(y, 7) == days_before_month(y, 6) + 30);
    assert(days_before_month(y, 8) == days_before_month(y, 7) + 31);
    assert(days_before_month(y, 9) == days_before_month(y, 8) + 31);
    assert(days_before_month(y, 10) == days_before_month(y, 9) + 30);
    assert(days_before_month(y, 11) == days_before_month(y, 10) + 31);
    assert(days_before_month(y, 12) == days_before_month(y, 11) + 30);
    assert(days_before_month(y, 13) == days_before_month(y, 12) + 31);
}

} // verus!
