//! Calendar formatting for the datetime column: a UTC timestamp in
//! nanoseconds since the Unix epoch becomes `YYYY-MM-DD HH:MM` text under the
//! proleptic Gregorian calendar. Out-of-range timestamps are a formatting
//! failure; the caller substitutes a placeholder of the same width.

use vstd::prelude::*;
use crate::text::{dec2_rep, dec_rep, push_dec, push_dec2};

verus! {

/// Subtraction clamped at zero.
pub open spec fn sat_sub(a: int, b: int) -> int {
    if a >= b {
        a - b
    } else {
        0
    }
}

/// The last representable second: 9999-12-31 23:59:59 UTC.
pub open spec fn max_datetime_secs() -> int {
    253_402_300_799
}

/// Day-of-era arithmetic for the civil date of day number `days` (days since
/// the epoch): the year, month and day it falls on.
pub open spec fn civil_ymd(days: int) -> (int, int, int) {
    let z = days + 719_468;
    let era = z / 146_097;
    let doe = z % 146_097;
    let yoe = (sat_sub(doe + doe / 36_524, doe / 1_460 + doe / 146_096)) / 365;
    let doy = sat_sub(doe, 365 * yoe + yoe / 4 - yoe / 100);
    let mp = (5 * doy + 2) / 153;
    let d = sat_sub(doy, (153 * mp + 2) / 5) + 1;
    let m = if mp < 10 {
        mp + 3
    } else {
        mp - 9
    };
    let y = if m <= 2 {
        yoe + era * 400 + 1
    } else {
        yoe + era * 400
    };
    (y, m, d)
}

/// The formatted civil text of a timestamp in whole seconds.
pub open spec fn civil_rep(secs: int) -> Seq<char> {
    let days = secs / 86_400;
    let sod = secs % 86_400;
    let ymd = civil_ymd(days);
    dec_rep(ymd.0) + seq!['-'] + dec2_rep(ymd.1) + seq!['-'] + dec2_rep(ymd.2) + seq![' ']
        + dec2_rep(sod / 3_600) + seq![':'] + dec2_rep((sod % 3_600) / 60)
}

/// The formatted text of a timestamp in nanoseconds, or nothing when it lies
/// before the epoch or past the last representable second.
pub open spec fn datetime_rep(ts_ns: int) -> Option<Seq<char>> {
    if ts_ns < 0 || ts_ns > max_datetime_secs() * 1_000_000_000 + 999_999_999 {
        None
    } else {
        Some(civil_rep(ts_ns / 1_000_000_000))
    }
}

/// What the datetime column shows when formatting fails: a placeholder of
/// the same width as a formatted timestamp.
pub open spec fn datetime_placeholder() -> Seq<char> {
    seq!['?', '?', '?', '?', '-', '?', '?', '-', '?', '?', ' ', '?', '?', ':', '?', '?']
}

/// Builds the placeholder text.
pub fn placeholder_chars() -> (r: Vec<char>)
    ensures
        r@ == datetime_placeholder(),
{
    let mut out: Vec<char> = Vec::new();
    out.push('?');
    out.push('?');
    out.push('?');
    out.push('?');
    out.push('-');
    out.push('?');
    out.push('?');
    out.push('-');
    out.push('?');
    out.push('?');
    out.push(' ');
    out.push('?');
    out.push('?');
    out.push(':');
    out.push('?');
    out.push('?');
    assert(out@ =~= datetime_placeholder());
    out
}

/// Formats a timestamp as `YYYY-MM-DD HH:MM`, UTC, proleptic Gregorian.
pub fn format_datetime(ts_ns: i128) -> (r: Option<Vec<char>>)
    ensures
        match r {
            Some(v) => datetime_rep(ts_ns as int) == Some(v@),
            None => datetime_rep(ts_ns as int) is None,
        },
{
    if ts_ns < 0 || ts_ns > 253_402_300_799_999_999_999i128 {
        return None;
    }
    let secs: u64 = ((ts_ns as u128) / 1_000_000_000) as u64;
    let days: u64 = secs / 86_400;
    let sod: u64 = secs % 86_400;
    let z: u64 = days + 719_468;
    let era: u64 = z / 146_097;
    let doe: u64 = z % 146_097;
    let yoe_num: u64 = {
        let a = doe + doe / 36_524;
        let b = doe / 1_460 + doe / 146_096;
        if a >= b {
            a - b
        } else {
            0
        }
    };
    let yoe: u64 = yoe_num / 365;
    let fixup: u64 = 365 * yoe + yoe / 4 - yoe / 100;
    let doy: u64 = if doe >= fixup {
        doe - fixup
    } else {
        0
    };
    let mp: u64 = (5 * doy + 2) / 153;
    let dcut: u64 = (153 * mp + 2) / 5;
    let d: u64 = (if doy >= dcut {
        doy - dcut
    } else {
        0
    }) + 1;
    let m: u64 = if mp < 10 {
        mp + 3
    } else {
        mp - 9
    };
    let y: u64 = if m <= 2 {
        yoe + era * 400 + 1
    } else {
        yoe + era * 400
    };
    let mut out: Vec<char> = Vec::new();
    push_dec(y, &mut out);
    out.push('-');
    push_dec2(m, &mut out);
    out.push('-');
    push_dec2(d, &mut out);
    out.push(' ');
    push_dec2(sod / 3_600, &mut out);
    out.push(':');
    push_dec2((sod % 3_600) / 60, &mut out);
    assert(out@ =~= civil_rep(secs as int));
    Some(out)
}

} // verus!
