//! Rendering of dates, timestamps and times of day.
//!
//! The split of a raw engine value into whole seconds and a wrapped 32-bit
//! sub-second part is verified against an exact specification, including the
//! two's-complement wrap that an out-of-range part undergoes; the final
//! rendering of an accepted pair is delegated to the chrono crate behind
//! trusted wrappers.

use vstd::arithmetic::div_mod::{
    lemma_div_basics, lemma_div_is_ordered_by_denominator, lemma_fundamental_div_mod,
};
use vstd::prelude::*;

use crate::model::TimeUnit;

verus! {

/// The rendered `YYYY-MM-DD` text of the epoch date moved by the given
/// number of days, or nothing when the day count leaves chrono's date range.
pub uninterp spec fn chrono_date_text(days: int) -> Option<Seq<char>>;

/// The rendered UTC timestamp text of the given whole seconds and
/// nanoseconds since the epoch at the given fraction width, or nothing when
/// chrono rejects the pair.
pub uninterp spec fn chrono_timestamp_text(secs: int, nanos: int, frac_digits: int) -> Option<
    Seq<char>,
>;

/// The rendered `HH:MM:SS` text of an accepted seconds-and-nanoseconds pair
/// at the given fraction width.
pub uninterp spec fn chrono_time_text(secs: int, nanos: int, frac_digits: int) -> Seq<char>;

/// The view of an optional rendering.
pub open spec fn opt_text(r: Option<String>) -> Option<Seq<char>> {
    match r {
        Some(s) => Some(s@),
        None => None,
    }
}

/// The pairs that chrono accepts as a time of day: seconds below one day,
/// nanoseconds below two billion, and the leap-second range above one
/// billion only in the last second of a minute.
pub open spec fn time_pair_accepted(secs: int, nanos: int) -> bool {
    secs < 86400 && nanos < 2_000_000_000 && !(nanos >= 1_000_000_000 && secs % 60 != 59)
}

/// Relies on chrono's NaiveDate::from_ymd_opt, NaiveDate::checked_add_signed,
/// TimeDelta::days and NaiveDate::format: renders the epoch date moved by the
/// given number of days as `YYYY-MM-DD`, or None when the sum leaves chrono's
/// date range. The text depends on the day count alone.
#[verifier::external_body]
fn render_date(days: i32) -> (r: Option<String>)
    ensures
        opt_text(r) == chrono_date_text(days as int),
{
    let epoch = chrono::NaiveDate::from_ymd_opt(1970, 1, 1)?;
    let date = epoch.checked_add_signed(chrono::TimeDelta::days(days as i64))?;
    Some(date.format("%Y-%m-%d").to_string())
}

/// Relies on chrono's DateTime::from_timestamp and DateTime::format: renders
/// the given whole seconds and nanoseconds since the epoch as a UTC timestamp
/// with the asked fraction width, or None when chrono rejects the pair. The
/// text depends on the arguments alone. chrono's source splits the seconds
/// with Euclidean division and rejects the pair whenever its time component
/// fails the time-of-day acceptance test; it also rejects day counts beyond
/// its own date range, a bound it does not state as a number, so the date
/// side of the rejection stays inside the named result.
#[verifier::external_body]
fn render_timestamp(secs: i64, nanos: u32, frac_digits: u8) -> (r: Option<String>)
    requires
        frac_digits == 0 || frac_digits == 3 || frac_digits == 6 || frac_digits == 9,
    ensures
        opt_text(r) == chrono_timestamp_text(secs as int, nanos as int, frac_digits as int),
        !time_pair_accepted((secs as int) % 86400, nanos as int) ==> r is None,
{
    let dt = chrono::DateTime::from_timestamp(secs, nanos)?;
    Some(match frac_digits {
        0 => dt.format("%Y-%m-%dT%H:%M:%S%:z").to_string(),
        3 => dt.format("%Y-%m-%dT%H:%M:%S.%3f%:z").to_string(),
        6 => dt.format("%Y-%m-%dT%H:%M:%S.%6f%:z").to_string(),
        _ => dt.format("%Y-%m-%dT%H:%M:%S.%9f%:z").to_string(),
    })
}

/// Relies on chrono's NaiveTime::from_num_seconds_from_midnight_opt and
/// NaiveTime::format: renders the given seconds-from-midnight and nanoseconds
/// as `HH:MM:SS` with the asked fraction width. chrono's source accepts the
/// pair exactly when `time_pair_accepted` says so; the text of an accepted
/// pair depends on the arguments alone.
#[verifier::external_body]
fn render_time(secs: u32, nanos: u32, frac_digits: u8) -> (r: Option<String>)
    requires
        frac_digits == 0 || frac_digits == 3 || frac_digits == 6 || frac_digits == 9,
    ensures
        r is Some <==> time_pair_accepted(secs as int, nanos as int),
        r matches Some(t) ==> t@ == chrono_time_text(
            secs as int,
            nanos as int,
            frac_digits as int,
        ),
{
    let t = chrono::NaiveTime::from_num_seconds_from_midnight_opt(secs, nanos)?;
    Some(match frac_digits {
        0 => t.format("%H:%M:%S").to_string(),
        3 => t.format("%H:%M:%S.%3f").to_string(),
        6 => t.format("%H:%M:%S.%6f").to_string(),
        _ => t.format("%H:%M:%S.%9f").to_string(),
    })
}

/// How many raw ticks make one second in each unit.
pub open spec fn unit_divisor(u: TimeUnit) -> int {
    match u {
        TimeUnit::Second => 1,
        TimeUnit::Millisecond => 1000,
        TimeUnit::Microsecond => 1_000_000,
        TimeUnit::Nanosecond => 1_000_000_000,
    }
}

/// How many nanoseconds one sub-second tick is worth in each unit.
pub open spec fn nano_scale(u: TimeUnit) -> int {
    match u {
        TimeUnit::Second => 1_000_000_000,
        TimeUnit::Millisecond => 1_000_000,
        TimeUnit::Microsecond => 1000,
        TimeUnit::Nanosecond => 1,
    }
}

/// The fraction width each unit renders with: none for seconds, three, six
/// or nine digits for milli-, micro- and nanoseconds.
pub open spec fn frac_width(u: TimeUnit) -> int {
    match u {
        TimeUnit::Second => 0,
        TimeUnit::Millisecond => 3,
        TimeUnit::Microsecond => 6,
        TimeUnit::Nanosecond => 9,
    }
}

/// The quotient of dividing toward zero, as machine division does.
pub open spec fn whole_secs(ts: int, d: int) -> int {
    if ts >= 0 {
        ts / d
    } else {
        -((-ts) / d)
    }
}

/// The sub-second remainder scaled to nanoseconds, after the 32-bit wrap it
/// undergoes: a nonnegative remainder scales directly, a negative one wraps
/// around two to the thirty-second.
pub open spec fn sub_nanos(ts: int, d: int, sc: int) -> int {
    if ts >= 0 {
        (ts % d) * sc
    } else if (-ts) % d == 0 {
        0
    } else {
        0x1_0000_0000 - ((-ts) % d) * sc
    }
}

/// The sentinel rendered for a value outside the representable range.
pub open spec fn invalid_time_text() -> Seq<char> {
    seq!['I', 'n', 'v', 'a', 'l', 'i', 'd', ' ', 'T', 'i', 'm', 'e']
}

/// The display text of a day-resolution date value.
pub open spec fn date_text(days: int) -> Seq<char> {
    match chrono_date_text(days) {
        Some(t) => t,
        None => invalid_time_text(),
    }
}

/// The display text of a timestamp value in the given unit.
pub open spec fn timestamp_text(u: TimeUnit, ts: int) -> Seq<char> {
    let d = unit_divisor(u);
    let sc = nano_scale(u);
    match chrono_timestamp_text(whole_secs(ts, d), sub_nanos(ts, d, sc), frac_width(u)) {
        Some(t) => t,
        None => invalid_time_text(),
    }
}

/// The display text of a time-of-day value in the given unit. A value whose
/// whole-second part lies outside one day — negative ticks included — and
/// one whose wrapped sub-second part chrono rejects both render as the
/// invalid-time sentinel.
pub open spec fn time_text(u: TimeUnit, ts: int) -> Seq<char> {
    let s = whole_secs(ts, unit_divisor(u));
    let ns = sub_nanos(ts, unit_divisor(u), nano_scale(u));
    if 0 <= s && time_pair_accepted(s, ns) {
        chrono_time_text(s, ns, frac_width(u))
    } else {
        invalid_time_text()
    }
}

fn invalid_time_string() -> (r: String)
    ensures
        r@ == invalid_time_text(),
{
    proof {
        reveal_strlit("Invalid Time");
    }
    let r = "Invalid Time".to_owned();
    proof {
        assert(r@ =~= invalid_time_text());
    }
    r
}

fn frac_digits_of(u: TimeUnit) -> (r: u8)
    ensures
        r as int == frac_width(u),
{
    match u {
        TimeUnit::Second => 0,
        TimeUnit::Millisecond => 3,
        TimeUnit::Microsecond => 6,
        TimeUnit::Nanosecond => 9,
    }
}

/// The magnitude of a negative value, as an unsigned number.
fn magnitude_u64(x: i64) -> (r: u64)
    requires
        x < 0,
    ensures
        r as int == -(x as int),
{
    ((-(x + 1)) as u64) + 1
}

/// Divides a raw value toward zero and scales the remainder to wrapped
/// nanoseconds, exactly as the display rules demand.
fn split_scaled(ts: i64, d: u32, sc: u32) -> (r: (i64, u32))
    requires
        1000 <= d,
        1 <= sc,
        d as int * sc as int == 1_000_000_000,
    ensures
        r.0 as int == whole_secs(ts as int, d as int),
        r.1 as int == sub_nanos(ts as int, d as int, sc as int),
{
    if ts >= 0 {
        let q: u64 = (ts as u64) / (d as u64);
        let rm: u64 = (ts as u64) % (d as u64);
        proof {
            lemma_div_basics(ts as int);
            lemma_div_is_ordered_by_denominator(ts as int, 1, d as int);
            assert(q as int == (ts as int) / (d as int));
            assert(q as int <= ts as int);
            assert((rm as int) * (sc as int) < 1_000_000_000) by (nonlinear_arith)
                requires
                    0 <= rm < d,
                    1 <= sc,
                    d as int * sc as int == 1_000_000_000,
            ;
        }
        (q as i64, (rm as u32) * sc)
    } else {
        let m: u64 = magnitude_u64(ts);
        let q: u64 = m / (d as u64);
        let rm: u64 = m % (d as u64);
        proof {
            lemma_fundamental_div_mod(m as int, d as int);
            assert(q as int <= 0x7FFF_FFFF_FFFF_FFFF) by (nonlinear_arith)
                requires
                    m as int == (d as int) * (q as int) + rm as int,
                    1000 <= d as int,
                    0 <= rm as int,
                    0 <= q as int,
                    m as int <= 0x8000_0000_0000_0000,
            ;
            assert((rm as int) * (sc as int) < 1_000_000_000) by (nonlinear_arith)
                requires
                    0 <= rm < d,
                    1 <= sc,
                    d as int * sc as int == 1_000_000_000,
            ;
            assert(rm != 0 ==> 1 <= (rm as int) * (sc as int)) by (nonlinear_arith)
                requires
                    0 <= rm,
                    1 <= sc,
            ;
        }
        let qi: i64 = -(q as i64);
        let ns: u32 = if rm == 0 {
            0
        } else {
            ((0x1_0000_0000u64 - rm * (sc as u64)) as u32)
        };
        (qi, ns)
    }
}

/// The whole seconds and wrapped nanoseconds a timestamp value splits into.
fn timestamp_parts(u: TimeUnit, ts: i64) -> (r: (i64, u32))
    ensures
        r.0 as int == whole_secs(ts as int, unit_divisor(u)),
        r.1 as int == sub_nanos(ts as int, unit_divisor(u), nano_scale(u)),
{
    match u {
        TimeUnit::Second => (ts, 0),
        TimeUnit::Millisecond => split_scaled(ts, 1000, 1_000_000),
        TimeUnit::Microsecond => split_scaled(ts, 1_000_000, 1000),
        TimeUnit::Nanosecond => split_scaled(ts, 1_000_000_000, 1),
    }
}

/// A day-resolution date value (days since the epoch, negative days before
/// it) rendered as `YYYY-MM-DD`, or the invalid-time sentinel when it lies
/// outside the representable date range.
pub fn date32_to_ymd(date32: i32) -> (r: String)
    ensures
        r@ == date_text(date32 as int),
{
    match render_date(date32) {
        Some(s) => s,
        None => invalid_time_string(),
    }
}

/// A timestamp value in the given unit rendered as
/// `YYYY-MM-DDTHH:MM:SS[.fraction]+00:00` with a fixed UTC offset, or the
/// invalid-time sentinel when the split parts are rejected.
pub fn timeunit_to_ymd_hms(unit: TimeUnit, i64timestamp: i64) -> (r: String)
    ensures
        r@ == timestamp_text(unit, i64timestamp as int),
{
    let parts = timestamp_parts(unit, i64timestamp);
    match render_timestamp(parts.0, parts.1, frac_digits_of(unit)) {
        Some(s) => s,
        None => invalid_time_string(),
    }
}

/// A time-of-day value in the given unit rendered as `HH:MM:SS[.fraction]`,
/// or the invalid-time sentinel when the value does not denote a time of
/// day within one day.
pub fn timeunit_to_hms(unit: TimeUnit, i64timestamp: i64) -> (r: String)
    ensures
        r@ == time_text(unit, i64timestamp as int),
{
    let parts = timestamp_parts(unit, i64timestamp);
    if parts.0 < 0 || parts.0 >= 86400 {
        return invalid_time_string();
    }
    match render_time(parts.0 as u32, parts.1, frac_digits_of(unit)) {
        Some(s) => s,
        None => invalid_time_string(),
    }
}

} // verus!
