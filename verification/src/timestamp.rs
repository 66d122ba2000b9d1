//! Points in time as the console shows them: `YYYY-MM-DD HH:MM:SS (UTC)`.
use vstd::prelude::*;
use vstd::string::*;
use chrono::{Datelike, Timelike};
use crate::text::{decimal, owned, push_char, push_decimal};

verus! {

/// A point in UTC time, by its calendar fields.
#[derive(Clone, Copy, Debug, PartialEq, Eq, Structural)]
pub struct UtcTime {
    pub year: i32,
    pub month: u32,
    pub day: u32,
    pub hour: u32,
    pub minute: u32,
    pub second: u32,
}

/// `n` in decimal, with leading zeros up to `width` digits.
pub open spec fn padded(n: nat, width: nat) -> Seq<char> {
    if decimal(n).len() < width {
        Seq::new((width - decimal(n).len()) as nat, |i: int| '0') + decimal(n)
    } else {
        decimal(n)
    }
}

/// A year as `%Y` writes it: four digits for years 0 to 9999, else a sign and
/// at least four digits.
pub open spec fn year_text(y: int) -> Seq<char> {
    if 0 <= y <= 9999 {
        padded(y as nat, 4)
    } else if y < 0 {
        seq!['-'] + padded((-y) as nat, 4)
    } else {
        seq!['+'] + padded(y as nat, 4)
    }
}

/// `t` as `YYYY-MM-DD HH:MM:SS`.
pub open spec fn datetime_text(t: UtcTime) -> Seq<char> {
    year_text(t.year as int) + "-"@ + padded(t.month as nat, 2) + "-"@ + padded(t.day as nat, 2) + " "@
        + padded(t.hour as nat, 2) + ":"@ + padded(t.minute as nat, 2) + ":"@ + padded(t.second as nat, 2)
}

/// `t` as `YYYY-MM-DD HH:MM:SS (UTC)`.
pub open spec fn timestamp_text(t: UtcTime) -> Seq<char> {
    datetime_text(t) + " (UTC)"@
}

/// Appends `n` in decimal with leading zeros up to `width` digits.
pub fn push_padded(s: &mut String, n: u64, width: usize)
    ensures
        final(s)@ == old(s)@ + padded(n as nat, width as nat),
{
    let mut digits = String::new();
    push_decimal(&mut digits, n);
    assert(digits@ =~= decimal(n as nat));
    let len = digits.as_str().unicode_len();
    let ghost start = s@;
    if len < width {
        let zeros = width - len;
        let mut i: usize = 0;
        while i < zeros
            invariant
                i <= zeros,
                s@ == start + Seq::new(i as nat, |k: int| '0'),
            decreases zeros - i,
        {
            push_char(s, '0');
            assert(s@ =~= start + Seq::new((i + 1) as nat, |k: int| '0'));
            i = i + 1;
        }
    }
    s.append(digits.as_str());
    assert(s@ =~= start + padded(n as nat, width as nat));
}

/// The time as `YYYY-MM-DD HH:MM:SS`.
pub fn format_datetime(dt: &UtcTime) -> (r: String)
    ensures
        r@ == datetime_text(*dt),
{
    let mut s = String::new();
    if 0 <= dt.year && dt.year <= 9999 {
        push_padded(&mut s, dt.year as u64, 4);
    } else if dt.year < 0 {
        push_char(&mut s, '-');
        let m: u64 = if dt.year == i32::MIN { 2147483648u64 } else { (-dt.year) as u64 };
        push_padded(&mut s, m, 4);
    } else {
        push_char(&mut s, '+');
        push_padded(&mut s, dt.year as u64, 4);
    }
    s.append("-");
    push_padded(&mut s, dt.month as u64, 2);
    s.append("-");
    push_padded(&mut s, dt.day as u64, 2);
    s.append(" ");
    push_padded(&mut s, dt.hour as u64, 2);
    s.append(":");
    push_padded(&mut s, dt.minute as u64, 2);
    s.append(":");
    push_padded(&mut s, dt.second as u64, 2);
    assert(s@ =~= datetime_text(*dt));
    s
}

/// The time as `YYYY-MM-DD HH:MM:SS (UTC)`.
pub fn format_timestamp(dt: &UtcTime) -> (r: String)
    ensures
        r@ == timestamp_text(*dt),
{
    let mut s = format_datetime(dt);
    s.append(" (UTC)");
    s
}

/// The time as `YYYY-MM-DD HH:MM:SS (UTC)`, or `-` when there is none.
pub fn format_optional_timestamp(dt: Option<UtcTime>) -> (r: String)
    ensures
        r@ == (match dt {
            Some(t) => timestamp_text(t),
            None => "-"@,
        }),
{
    match dt {
        Some(t) => format_timestamp(&t),
        None => String::from_str("-"),
    }
}

/// The calendar time `chrono` gives for `secs` seconds after the Unix epoch.
pub uninterp spec fn unix_civil(secs: i64) -> Option<UtcTime>;

/// The calendar time `chrono` reads from an RFC 3339 text, moved to UTC.
pub uninterp spec fn rfc3339_civil(s: Seq<char>) -> Option<UtcTime>;

/// Calls `chrono::DateTime::from_timestamp(secs, 0)`: the UTC calendar time
/// `secs` seconds after the Unix epoch, or nothing when it is out of chrono's
/// range. The contract names the result; it says nothing of the calendar
/// arithmetic, which is chrono's.
#[verifier::external_body]
fn civil_from_unix(secs: i64) -> (r: Option<UtcTime>)
    ensures
        r == unix_civil(secs),
{
    match chrono::DateTime::from_timestamp(secs, 0) {
        Some(dt) => Some(UtcTime {
            year: dt.year(), month: dt.month(), day: dt.day(),
            hour: dt.hour(), minute: dt.minute(), second: dt.second(),
        }),
        None => None,
    }
}

/// Calls `chrono::DateTime::parse_from_rfc3339` and moves the result to UTC:
/// nothing when the text is not RFC 3339. The contract names the result; the
/// grammar and the offset arithmetic are chrono's.
#[verifier::external_body]
pub(crate) fn civil_from_rfc3339(s: &str) -> (r: Option<UtcTime>)
    ensures
        r == rfc3339_civil(s@),
{
    match chrono::DateTime::parse_from_rfc3339(s) {
        Ok(dt) => {
            let u = dt.with_timezone(&chrono::Utc);
            Some(UtcTime {
                year: u.year(), month: u.month(), day: u.day(),
                hour: u.hour(), minute: u.minute(), second: u.second(),
            })
        },
        Err(_) => None,
    }
}

/// Whether `c` is an ASCII digit.
pub open spec fn is_digit(c: char) -> bool {
    '0' <= c && c <= '9'
}

/// The value of a string of ASCII digits, read in decimal.
pub open spec fn digits_value(s: Seq<char>) -> int
    decreases s.len(),
{
    if s.len() == 0 {
        0
    } else {
        digits_value(s.drop_last()) * 10 + ((s.last() as int) - ('0' as int))
    }
}

/// The digits of a decimal integer, without its sign.
pub open spec fn unsigned_part(s: Seq<char>) -> Seq<char> {
    if s.len() > 0 && (s[0] == '-' || s[0] == '+') { s.drop_first() } else { s }
}

/// Whether every character of `s` is an ASCII digit.
pub open spec fn all_digits(s: Seq<char>) -> bool {
    forall|i: int| 0 <= i < s.len() ==> is_digit(#[trigger] s[i])
}

/// The integer a text spells as `str::parse::<i64>` reads it: an optional `+`
/// or `-`, then one or more ASCII digits, the value within the range of
/// `i64`; nothing otherwise.
pub open spec fn parsed_i64(s: Seq<char>) -> Option<i64> {
    let body = unsigned_part(s);
    let v = if s.len() > 0 && s[0] == '-' { -digits_value(body) } else { digits_value(body) };
    if body.len() == 0 || !all_digits(body) {
        None
    } else if i64::MIN <= v <= i64::MAX {
        Some(v as i64)
    } else {
        None
    }
}

proof fn lemma_digits_nonneg(s: Seq<char>, k: int)
    requires
        0 <= k <= s.len(),
        forall|i: int| 0 <= i < s.len() ==> is_digit(#[trigger] s[i]),
    ensures
        0 <= digits_value(s.take(k)),
    decreases k,
{
    if k > 0 {
        lemma_digits_nonneg(s, k - 1);
        assert(s.take(k).drop_last() =~= s.take(k - 1));
        assert(is_digit(s[k - 1]));
    }
}

proof fn lemma_digits_grow(s: Seq<char>, j: int, k: int)
    requires
        0 <= j <= k <= s.len(),
        forall|i: int| 0 <= i < s.len() ==> is_digit(#[trigger] s[i]),
    ensures
        digits_value(s.take(j)) <= digits_value(s.take(k)),
    decreases k,
{
    if k > j {
        lemma_digits_grow(s, j, k - 1);
        lemma_digits_nonneg(s, k - 1);
        assert(s.take(k).drop_last() =~= s.take(k - 1));
        assert(is_digit(s[k - 1]));
    }
}

/// The integer a text spells: an optional sign, then decimal digits, within
/// the range of `i64`.
fn parse_i64(s: &str) -> (r: Option<i64>)
    ensures
        r == parsed_i64(s@),
{
    let n = s.unicode_len();
    let mut start: usize = 0;
    let mut neg = false;
    if n > 0 {
        let c = s.get_char(0);
        if c == '-' {
            neg = true;
            start = 1;
        } else if c == '+' {
            start = 1;
        }
    }
    let ghost body = unsigned_part(s@);
    assert(body =~= s@.subrange(start as int, n as int));
    if start == n {
        return None;
    }
    let limit: i128 = 9_223_372_036_854_775_808;
    let mut acc: i128 = 0;
    let mut i: usize = start;
    assert(body.take(0) =~= Seq::<char>::empty());
    while i < n
        invariant
            start <= i <= n,
            n == s@.len(),
            body == s@.subrange(start as int, n as int),
            body == unsigned_part(s@),
            neg == (s@.len() > 0 && s@[0] == '-'),
            forall|k: int| 0 <= k < i - start ==> is_digit(#[trigger] body[k]),
            acc == digits_value(body.take(i - start)),
            0 <= acc <= limit,
            limit == 9_223_372_036_854_775_808,
        decreases n - i,
    {
        let c = s.get_char(i);
        assert(body[i - start] == c);
        if !('0' <= c && c <= '9') {
            assert(!is_digit(body[i - start]));
            assert(!all_digits(body));
            assert(parsed_i64(s@) is None);
            return None;
        }
        let d = (c as u32 - '0' as u32) as i128;
        assert(body.take(i - start + 1).drop_last() =~= body.take(i - start));
        acc = acc * 10 + d;
        i = i + 1;
        if acc > limit {
            proof {
                if all_digits(body) {
                    lemma_digits_grow(body, i - start, body.len() as int);
                    assert(body.take(body.len() as int) =~= body);
                    assert(digits_value(body) > limit);
                }
                assert(parsed_i64(s@) is None);
            }
            return None;
        }
    }
    assert(body.take(n - start) =~= body);
    if neg {
        Some((0 - acc) as i64)
    } else if acc > 9_223_372_036_854_775_807 {
        None
    } else {
        Some(acc as i64)
    }
}

/// What `format_iso_timestamp` shows for `s`.
pub open spec fn iso_label(s: Seq<char>) -> Seq<char> {
    if s.len() == 0 {
        "-"@
    } else {
        match rfc3339_civil(s) {
            Some(t) => timestamp_text(t),
            None => s,
        }
    }
}

/// An RFC 3339 time (such as `2024-01-01T12:30:45.123Z`) as
/// `YYYY-MM-DD HH:MM:SS (UTC)`; `-` for the empty text, the text itself when
/// it does not parse.
pub fn format_iso_timestamp(iso_string: &str) -> (r: String)
    ensures
        r@ == iso_label(iso_string@),
{
    if iso_string.unicode_len() == 0 {
        return String::from_str("-");
    }
    match civil_from_rfc3339(iso_string) {
        Some(dt) => format_timestamp(&dt),
        None => owned(iso_string),
    }
}

/// A count of seconds since the Unix epoch, written in decimal, as
/// `YYYY-MM-DD HH:MM:SS (UTC)`; `-` for the empty text, the text itself when it
/// is no integer or out of range.
pub fn format_unix_timestamp(unix_string: &str) -> (r: String)
    ensures
        r@ == (if unix_string@.len() == 0 {
            "-"@
        } else {
            match parsed_i64(unix_string@) {
                Some(secs) => match unix_civil(secs) {
                    Some(t) => timestamp_text(t),
                    None => unix_string@,
                },
                None => unix_string@,
            }
        }),
{
    if unix_string.unicode_len() == 0 {
        return String::from_str("-");
    }
    match parse_i64(unix_string) {
        Some(secs) => unix_text_from(unix_string, civil_from_unix(secs)),
        None => owned(unix_string),
    }
}

/// A count of seconds written in decimal, once its calendar time was
/// computed: the time as `YYYY-MM-DD HH:MM:SS (UTC)`, or the text itself when
/// there is none.
pub fn unix_text_from(unix_string: &str, civil: Option<UtcTime>) -> (r: String)
    ensures
        r@ == (match civil {
            Some(t) => timestamp_text(t),
            None => unix_string@,
        }),
{
    match civil {
        Some(dt) => format_timestamp(&dt),
        None => owned(unix_string),
    }
}


/// What a launch time given in seconds since the Unix epoch shows: the time
/// as `YYYY-MM-DD HH:MM:SS (UTC)`, empty when there is none or it is out of
/// range.
pub open spec fn launch_time_text(secs: Option<i64>) -> Seq<char> {
    match secs {
        Some(s) => match unix_civil(s) {
            Some(t) => timestamp_text(t),
            None => Seq::empty(),
        },
        None => Seq::empty(),
    }
}

/// A launch time given in seconds since the Unix epoch, as
/// `YYYY-MM-DD HH:MM:SS (UTC)`.
pub fn format_launch_time(secs: Option<i64>) -> (r: String)
    ensures
        r@ == launch_time_text(secs),
{
    match secs {
        Some(s) => match civil_from_unix(s) {
            Some(dt) => format_timestamp(&dt),
            None => String::new(),
        },
        None => String::new(),
    }
}


/// The start of the Unix epoch.
pub open spec fn epoch() -> UtcTime {
    UtcTime { year: 1970, month: 1, day: 1, hour: 0, minute: 0, second: 0 }
}

/// What a time given in seconds since the Unix epoch shows when an
/// out-of-range time falls back to the epoch: empty when there is none.
pub open spec fn time_or_epoch_text(secs: Option<i64>) -> Seq<char> {
    match secs {
        Some(s) => match unix_civil(s) {
            Some(t) => timestamp_text(t),
            None => timestamp_text(epoch()),
        },
        None => Seq::empty(),
    }
}

/// A time given in seconds since the Unix epoch, as
/// `YYYY-MM-DD HH:MM:SS (UTC)`, the epoch standing for a time out of range.
pub fn format_time_or_epoch(secs: Option<i64>) -> (r: String)
    ensures
        r@ == time_or_epoch_text(secs),
{
    match secs {
        Some(s) => match civil_from_unix(s) {
            Some(dt) => format_timestamp(&dt),
            None => format_timestamp(&UtcTime { year: 1970, month: 1, day: 1, hour: 0, minute: 0, second: 0 }),
        },
        None => String::new(),
    }
}


/// The calendar fields `chrono` reads from a text in the form
/// `%Y-%m-%dT%H:%M:%S%.3f%z`, in the text's own offset.
pub uninterp spec fn offset_stamp_civil(s: Seq<char>) -> Option<UtcTime>;

/// The calendar fields `chrono` reads from an RFC 3339 text, in the text's
/// own offset.
pub uninterp spec fn rfc3339_local_civil(s: Seq<char>) -> Option<UtcTime>;

/// Calls `chrono::DateTime::parse_from_str` with the format
/// `%Y-%m-%dT%H:%M:%S%.3f%z` (such as `2024-10-31T12:30:45.000+0000`): the
/// calendar fields of the text in its own offset, nothing when it does not
/// match. The contract names the result; the grammar is chrono's.
#[verifier::external_body]
fn civil_from_offset_stamp(s: &str) -> (r: Option<UtcTime>)
    ensures
        r == offset_stamp_civil(s@),
{
    match chrono::DateTime::parse_from_str(s, "%Y-%m-%dT%H:%M:%S%.3f%z") {
        Ok(dt) => Some(UtcTime {
            year: dt.year(), month: dt.month(), day: dt.day(),
            hour: dt.hour(), minute: dt.minute(), second: dt.second(),
        }),
        Err(_) => None,
    }
}

/// Calls `chrono::DateTime::parse_from_rfc3339`: the calendar fields of the
/// text in its own offset, nothing when it is not RFC 3339. The contract
/// names the result; the grammar is chrono's.
#[verifier::external_body]
fn local_civil_from_rfc3339(s: &str) -> (r: Option<UtcTime>)
    ensures
        r == rfc3339_local_civil(s@),
{
    match chrono::DateTime::parse_from_rfc3339(s) {
        Ok(dt) => Some(UtcTime {
            year: dt.year(), month: dt.month(), day: dt.day(),
            hour: dt.hour(), minute: dt.minute(), second: dt.second(),
        }),
        Err(_) => None,
    }
}

/// What a modification time as Lambda gives it shows: read in the form
/// `%Y-%m-%dT%H:%M:%S%.3f%z`, else as RFC 3339, and written as
/// `YYYY-MM-DD HH:MM:SS (UTC)` from its own fields; the text itself when
/// neither reads it; empty when there is none.
pub open spec fn modified_text(s: Option<Seq<char>>) -> Seq<char> {
    match s {
        Some(t) => match offset_stamp_civil(t) {
            Some(c) => timestamp_text(c),
            None => match rfc3339_local_civil(t) {
                Some(c) => timestamp_text(c),
                None => t,
            },
        },
        None => Seq::empty(),
    }
}

/// A modification time as Lambda gives it, as the console shows it.
pub fn format_modified(s: &Option<String>) -> (r: String)
    ensures
        r@ == modified_text(match s { Some(t) => Some(t@), None => None }),
{
    match s {
        Some(t) => match civil_from_offset_stamp(t.as_str()) {
            Some(c) => format_timestamp(&c),
            None => match local_civil_from_rfc3339(t.as_str()) {
                Some(c) => format_timestamp(&c),
                None => t.clone(),
            },
        },
        None => String::new(),
    }
}


/// The calendar time `chrono` gives for `millis` milliseconds after the Unix
/// epoch (the part below a second dropped).
pub uninterp spec fn unix_millis_civil(millis: i64) -> Option<UtcTime>;

/// Calls `chrono::DateTime::from_timestamp_millis(millis)`: the UTC calendar
/// time `millis` milliseconds after the Unix epoch, or nothing when it is out
/// of chrono's range. The contract names the result.
#[verifier::external_body]
pub(crate) fn civil_from_millis(millis: i64) -> (r: Option<UtcTime>)
    ensures
        r == unix_millis_civil(millis),
{
    match chrono::DateTime::from_timestamp_millis(millis) {
        Some(dt) => Some(UtcTime {
            year: dt.year(), month: dt.month(), day: dt.day(),
            hour: dt.hour(), minute: dt.minute(), second: dt.second(),
        }),
        None => None,
    }
}

} // verus!
