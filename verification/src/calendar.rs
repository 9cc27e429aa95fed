//! Proleptic Gregorian calendar arithmetic for UTC timestamps.
//!
//! [`days_to_ymd`] turns a day count since 1970-01-01 into a civil date without
//! any outside crate, and [`rfc3339_from_secs`] renders a Unix time as
//! `YYYY-MM-DDTHH:MM:SSZ`. The contract of `days_to_ymd` is stated against the
//! plain definition of the calendar — month lengths, the leap-year rule, and the
//! count of days since the epoch — not against the shifted-year algorithm the
//! body uses.

use vstd::prelude::*;
use crate::text::{push_char, push_zero_padded, zero_padded};

verus! {

// ── The calendar, stated plainly ─────────────────────────────────────────────

/// The Gregorian leap-year rule.
pub open spec fn is_leap_year(y: int) -> bool {
    y % 4 == 0 && (y % 100 != 0 || y % 400 == 0)
}

/// Days in month `m` (1 = January) of year `y`.
pub open spec fn days_in_month(y: int, m: int) -> int {
    if m == 2 {
        if is_leap_year(y) { 29 } else { 28 }
    } else if m == 4 || m == 6 || m == 9 || m == 11 {
        30
    } else {
        31
    }
}

/// Days in the months of year `y` that precede month `m`.
pub open spec fn days_before_month(y: int, m: int) -> int
    decreases m,
{
    if m <= 1 { 0 } else { days_before_month(y, m - 1) + days_in_month(y, m - 1) }
}

/// Leap years among years `1..=n`.
pub open spec fn leap_years_through(n: int) -> int {
    n / 4 - n / 100 + n / 400
}

/// Days from 1970-01-01 to January 1st of year `y`.
pub open spec fn days_before_year(y: int) -> int {
    365 * (y - 1970) + leap_years_through(y - 1) - leap_years_through(1969)
}

/// Days from 1970-01-01 to the date `y-m-d`.
pub open spec fn days_since_epoch(y: int, m: int, d: int) -> int {
    days_before_year(y) + days_before_month(y, m) + d - 1
}

/// `y-m-d` is a real date no earlier than the epoch year.
pub open spec fn is_date(y: int, m: int, d: int) -> bool {
    y >= 1970 && 1 <= m <= 12 && 1 <= d <= days_in_month(y, m)
}

// ── The shifted calendar the algorithm counts in ────────────────────────────

/// Days from 0000-03-01 to March 1st of year `k` (years start in March, so
/// the leap day is the last day of the year).
spec fn march_start(k: int) -> int {
    365 * k + k / 4 - k / 100 + k / 400
}

/// Days from March 1st to the first day of month `mp` (0 = March, 11 = February).
spec fn month_offset(mp: int) -> int {
    (153 * mp + 2) / 5
}

proof fn lemma_year_of_era(doe: int)
    requires
        0 <= doe <= 146096,
    ensures
        ({
            let yoe = (doe - doe / 1460 + doe / 36524 - doe / 146096) / 365;
            &&& 0 <= yoe <= 399
            &&& march_start(yoe) <= doe < march_start(yoe + 1)
        }),
{
}

proof fn lemma_month_of_year(doy: int)
    requires
        0 <= doy <= 365,
    ensures
        ({
            let mp = (5 * doy + 2) / 153;
            &&& 0 <= mp <= 11
            &&& month_offset(mp) <= doy < month_offset(mp + 1)
        }),
{
}

proof fn lemma_era_start(era: int, k: int)
    requires
        era >= 0,
        0 <= k <= 400,
    ensures
        march_start(400 * era + k) == 146097 * era + march_start(k),
{
}

proof fn lemma_leap_step(y: int)
    requires
        y >= 1,
    ensures
        leap_years_through(y) - leap_years_through(y - 1) == (if is_leap_year(y) { 1int } else { 0int }),
{
}

proof fn lemma_days_before_month(y: int, m: int)
    requires
        1 <= m <= 12,
    ensures
        days_before_month(y, m) == if m <= 2 {
            if m == 1 { 0int } else { 31int }
        } else {
            59 + month_offset(m - 3) + (if is_leap_year(y) { 1int } else { 0int })
        },
{
    reveal_with_fuel(days_before_month, 13);
}

proof fn lemma_march_start_mono(a: int, b: int)
    requires
        0 <= a <= b,
    ensures
        march_start(a) + 365 * (b - a) <= march_start(b),
{
}

/// The date `days` days after 1970-01-01, computed in the shifted calendar:
/// returns `(y, m, d)` together with the shifted-year quantities the proof uses.
proof fn lemma_civil_from_days(days: int)
    requires
        days >= 0,
    ensures
        ({
            let z = days + 719468;
            let era = z / 146097;
            let doe = z % 146097;
            let yoe = (doe - doe / 1460 + doe / 36524 - doe / 146096) / 365;
            let yy = yoe + era * 400;
            let doy = doe - (365 * yoe + yoe / 4 - yoe / 100);
            let mp = (5 * doy + 2) / 153;
            let d = doy - (153 * mp + 2) / 5 + 1;
            let m = if mp < 10 { mp + 3 } else { mp - 9 };
            let y = if m <= 2 { yy + 1 } else { yy };
            &&& 0 <= yoe <= 399
            &&& 0 <= doy <= 365
            &&& 0 <= mp <= 11
            &&& 1 <= d <= 31
            &&& is_date(y, m, d)
            &&& days_since_epoch(y, m, d) == days
        }),
{
    let z = days + 719468;
    let era = z / 146097;
    let doe = z % 146097;
    let yoe = (doe - doe / 1460 + doe / 36524 - doe / 146096) / 365;
    let yy = yoe + era * 400;
    let doy = doe - (365 * yoe + yoe / 4 - yoe / 100);
    lemma_year_of_era(doe);
    assert(yoe / 400 == 0);
    assert(doy == doe - march_start(yoe));
    let len = march_start(yoe + 1) - march_start(yoe);
    assert(0 <= doy < len);
    assert(len <= 366);
    lemma_month_of_year(doy);
    let mp = (5 * doy + 2) / 153;
    let d = doy - (153 * mp + 2) / 5 + 1;
    let m = if mp < 10 { mp + 3 } else { mp - 9 };
    let y = if m <= 2 { yy + 1 } else { yy };
    lemma_era_start(era, yoe);
    lemma_era_start(era, yoe + 1);
    assert(z == 146097 * era + doe);
    assert(z == march_start(yy) + doy);
    // The year's length is decided by the leap day at its end, in year `yy + 1`.
    lemma_leap_step(yy + 1);
    assert(march_start(yy + 1) - march_start(yy) == 365 + leap_years_through(yy + 1) - leap_years_through(yy));
    assert(len == 365 + (if is_leap_year(yy + 1) { 1int } else { 0int }));
    // Connect to the plain calendar.
    lemma_days_before_month(y, m);
    if m >= 3 {
        assert(y == yy);
        if yy >= 1 {
            lemma_leap_step(yy);
        }
        assert(days_since_epoch(y, m, d) == days);
    } else {
        assert(y == yy + 1);
        assert(days_since_epoch(y, m, d) == days);
    }
    // Epoch bound: 1970-01-01 is day 306 of shifted year 1969.
    if yy < 1969 {
        lemma_march_start_mono(yy + 1, 1969);
        assert(false);
    }
    if yy == 1969 {
        assert(doy >= 306);
        assert(mp >= 10);
    }
    assert(y >= 1970);
}

/// Convert days since the Unix epoch (1970-01-01) to `(year, month, day)`.
///
/// The result is a real date, and exactly `days` days after 1970-01-01.
pub fn days_to_ymd(days: u64) -> (r: (u64, u64, u64))
    requires
        days <= u64::MAX - 719468,
    ensures
        is_date(r.0 as int, r.1 as int, r.2 as int),
        days_since_epoch(r.0 as int, r.1 as int, r.2 as int) == days,
{
    proof {
        lemma_civil_from_days(days as int);
        lemma_year_of_era((days as int + 719468) % 146097);
    }
    let z = days + 719468;
    let era = z / 146097;
    let doe = z % 146097;
    let yoe = (doe - doe / 1460 + doe / 36524 - doe / 146096) / 365;
    let y = yoe + era * 400;
    let doy = doe - (365 * yoe + yoe / 4 - yoe / 100);
    let mp = (5 * doy + 2) / 153;
    let d = doy - (153 * mp + 2) / 5 + 1;
    let m = if mp < 10 { mp + 3 } else { mp - 9 };
    let y = if m <= 2 { y + 1 } else { y };
    (y, m, d)
}

proof fn lemma_day_within_year(y: int, m: int, d: int)
    requires
        is_date(y, m, d),
    ensures
        days_before_year(y) <= days_since_epoch(y, m, d) < days_before_year(y + 1),
        days_before_year(y + 1) - days_before_year(y) == 365 + (if is_leap_year(y) { 1int } else { 0int }),
{
    lemma_days_before_month(y, m);
    lemma_leap_step(y);
}

proof fn lemma_years_ordered(a: int, b: int)
    requires
        1970 <= a <= b,
    ensures
        days_before_year(a) + 365 * (b - a) <= days_before_year(b),
{
}

proof fn lemma_months_ordered(y: int, m1: int, d1: int, m2: int)
    requires
        is_date(y, m1, d1),
        m1 < m2 <= 12,
    ensures
        days_before_month(y, m1) + d1 - 1 < days_before_month(y, m2),
{
    lemma_days_before_month(y, m1);
    lemma_days_before_month(y, m2);
}

/// Distinct dates are distinct days: the date [`days_to_ymd`] returns is the
/// only one its contract admits.
pub proof fn lemma_days_since_epoch_injective(y1: int, m1: int, d1: int, y2: int, m2: int, d2: int)
    requires
        is_date(y1, m1, d1),
        is_date(y2, m2, d2),
        days_since_epoch(y1, m1, d1) == days_since_epoch(y2, m2, d2),
    ensures
        y1 == y2 && m1 == m2 && d1 == d2,
{
    lemma_day_within_year(y1, m1, d1);
    lemma_day_within_year(y2, m2, d2);
    if y1 < y2 {
        lemma_years_ordered(y1 + 1, y2);
    } else if y2 < y1 {
        lemma_years_ordered(y2 + 1, y1);
    } else if m1 < m2 {
        lemma_months_ordered(y1, m1, d1, m2);
    } else if m2 < m1 {
        lemma_months_ordered(y1, m2, d2, m1);
    }
}

/// `YYYY-MM-DDTHH:MM:SSZ` for the civil time `secs` seconds after the epoch.
pub open spec fn rfc3339_spec(y: nat, mo: nat, d: nat, h: nat, mi: nat, s: nat) -> Seq<char> {
    zero_padded(y, 4) + seq!['-'] + zero_padded(mo, 2) + seq!['-'] + zero_padded(d, 2) + seq!['T']
        + zero_padded(h, 2) + seq![':'] + zero_padded(mi, 2) + seq![':'] + zero_padded(s, 2) + seq!['Z']
}

/// `text` is the RFC3339 rendering of the instant `secs` seconds after the epoch.
pub open spec fn is_rfc3339_of(text: Seq<char>, secs: u64) -> bool {
    exists|y: u64, mo: u64, d: u64|
        is_date(y as int, mo as int, d as int)
        && days_since_epoch(y as int, mo as int, d as int) == secs / 86400
        && text == rfc3339_spec(y as nat, mo as nat, d as nat, ((secs / 3600) % 24) as nat, ((secs / 60) % 60) as nat, (secs % 60) as nat)
}

/// Format seconds since the Unix epoch as `YYYY-MM-DDTHH:MM:SSZ`.
pub fn rfc3339_from_secs(secs: u64) -> (r: String)
    ensures
        is_rfc3339_of(r@, secs),
{
    let sec = secs % 60;
    let min = (secs / 60) % 60;
    let hour = (secs / 3600) % 24;
    let days = secs / 86400;
    let (year, month, day) = days_to_ymd(days);
    let mut out = String::new();
    push_zero_padded(&mut out, year, 4);
    push_char(&mut out, '-');
    push_zero_padded(&mut out, month, 2);
    push_char(&mut out, '-');
    push_zero_padded(&mut out, day, 2);
    push_char(&mut out, 'T');
    push_zero_padded(&mut out, hour, 2);
    push_char(&mut out, ':');
    push_zero_padded(&mut out, min, 2);
    push_char(&mut out, ':');
    push_zero_padded(&mut out, sec, 2);
    push_char(&mut out, 'Z');
    assert(out@ =~= rfc3339_spec(year as nat, month as nat, day as nat, hour as nat, min as nat, sec as nat));
    out
}

} // verus!
