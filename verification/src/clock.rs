//! Instants of RFC 3339 timestamps, as chrono parses them.
use vstd::prelude::*;

verus! {

/// A UTC instant: whole seconds since the Unix epoch and the nanoseconds
/// within that second (a leap second carries 1_000_000_000 or more).
#[derive(Debug, Clone, Copy, PartialEq, Eq, Structural)]
pub struct Instant {
    pub secs: i64,
    pub nanos: u32,
}

/// `a <= b` in time.
pub open spec fn not_after(a: Instant, b: Instant) -> bool {
    a.secs < b.secs || (a.secs == b.secs && a.nanos <= b.nanos)
}

/// `a <= b` in time.
pub fn instant_not_after(a: Instant, b: Instant) -> (r: bool)
    ensures
        r == not_after(a, b),
{
    a.secs < b.secs || (a.secs == b.secs && a.nanos <= b.nanos)
}

/// Whether a deadline has passed at `now`, for a deadline that parsed: it
/// has passed when it is strictly earlier than `now`. `None` for a deadline
/// that did not parse.
pub fn passed_before(deadline: Option<Instant>, now: Instant) -> (r: Option<bool>)
    ensures
        r == match deadline {
            Some(d) => Some(!not_after(now, d)),
            None => None::<bool>,
        },
{
    match deadline {
        Some(d) => Some(!instant_not_after(now, d)),
        None => None,
    }
}

/// Whether a deadline has been reached at `now`, for a deadline that parsed:
/// it has been reached when it is not later than `now`. `None` for a
/// deadline that did not parse.
pub fn reached_by(deadline: Option<Instant>, now: Instant) -> (r: Option<bool>)
    ensures
        r == match deadline {
            Some(d) => Some(not_after(d, now)),
            None => None::<bool>,
        },
{
    match deadline {
        Some(d) => Some(instant_not_after(d, now)),
        None => None,
    }
}

/// Whether two parsed instants are out of order: both parsed and `second`
/// strictly earlier than `first`.
pub fn out_of_order(first: Option<Instant>, second: Option<Instant>) -> (r: bool)
    ensures
        r == (first matches Some(a) && second matches Some(b) && !not_after(a, b)),
{
    match (first, second) {
        (Some(a), Some(b)) => !instant_not_after(a, b),
        _ => false,
    }
}

/// The UTC instant that `chrono::DateTime::parse_from_rfc3339` reads from a
/// text, or `None` where it refuses the text.
pub uninterp spec fn rfc3339_instant(text: Seq<char>) -> Option<Instant>;

/// Calls `chrono::DateTime::parse_from_rfc3339` and converts the parsed time to
/// its UTC seconds and sub-second nanoseconds (`timestamp`,
/// `timestamp_subsec_nanos`). The contract only names the result: it is
/// `rfc3339_instant` of the text.
#[verifier::external_body]
pub(crate) fn parse_rfc3339(text: &str) -> (r: Option<Instant>)
    ensures
        r == rfc3339_instant(text@),
{
    match chrono::DateTime::parse_from_rfc3339(text) {
        Ok(t) => Some(Instant { secs: t.timestamp(), nanos: t.timestamp_subsec_nanos() }),
        Err(_) => None,
    }
}


/// The UTC second of the day of an instant.
pub open spec fn time_of_day(t: Instant) -> int {
    (t.secs as int) % 86400
}

/// The span of `b` since `a` as chrono's `signed_duration_since` counts it
/// over UTC date and time: whole seconds, and nanoseconds with
/// `0 <= nanos < 10^9`. A leap second at `a` (nanoseconds of 10^9 or more)
/// is counted when `b` is later in its day, one at `b` is taken back when `b`
/// is earlier in its day.
pub open spec fn span_since(b: Instant, a: Instant) -> (int, int) {
    let adjust: int = if time_of_day(b) > time_of_day(a) && a.nanos >= 1_000_000_000 {
        1
    } else if time_of_day(b) < time_of_day(a) && b.nanos >= 1_000_000_000 {
        -1
    } else {
        0
    };
    let frac: int = b.nanos - a.nanos;
    (b.secs - a.secs + adjust + frac / 1_000_000_000, frac % 1_000_000_000)
}

/// The whole milliseconds of a span, truncated toward zero, as chrono's
/// `num_milliseconds` gives them.
pub open spec fn span_millis(span: (int, int)) -> int {
    if span.0 < 0 && span.1 > 0 {
        (span.0 + 1) * 1000 - (1_000_000_000 - span.1) / 1_000_000
    } else {
        span.0 * 1000 + span.1 / 1_000_000
    }
}

/// The milliseconds from `a` to `b`.
pub open spec fn millis_between(a: Instant, b: Instant) -> int {
    span_millis(span_since(b, a))
}

/// The latency from a quote's completion to a settlement, in milliseconds:
/// none unless both timestamps parse and the span is not negative.
pub open spec fn latency_ms(completed: Seq<char>, occurred: Seq<char>) -> Option<u64> {
    match (rfc3339_instant(completed), rfc3339_instant(occurred)) {
        (Some(a), Some(b)) => {
            let m = millis_between(a, b);
            if 0 <= m <= u64::MAX {
                Some(m as u64)
            } else {
                None
            }
        },
        _ => None,
    }
}

fn day_second(secs: i64) -> (r: i128)
    ensures
        r == (secs as int) % 86400,
{
    match secs.checked_rem_euclid(86400) {
        Some(r) => r as i128,
        None => 0,
    }
}

/// Splits `frac` into whole seconds (rounded down) and the nanoseconds left.
fn split_nanos(frac: i128) -> (r: (i128, i128))
    requires
        -5_000_000_000 < frac < 5_000_000_000,
    ensures
        r.0 == frac / 1_000_000_000,
        r.1 == frac % 1_000_000_000,
{
    if frac >= 0 {
        let u = frac as u64;
        ((u / 1_000_000_000) as i128, (u % 1_000_000_000) as i128)
    } else {
        let u = (0 - frac) as u64;
        let q = u / 1_000_000_000;
        let m = u % 1_000_000_000;
        if m == 0 {
            assert(frac / 1_000_000_000 == -(q as int) && frac % 1_000_000_000 == 0) by (nonlinear_arith)
                requires
                    frac == -(u as int),
                    u == q * 1_000_000_000 + m,
                    m == 0,
            ;
            (0 - q as i128, 0)
        } else {
            assert(frac / 1_000_000_000 == -(q as int) - 1 && frac % 1_000_000_000 == 1_000_000_000 - m)
                by (nonlinear_arith)
                requires
                    frac == -(u as int),
                    u == q * 1_000_000_000 + m,
                    0 < m < 1_000_000_000,
            ;
            (0 - q as i128 - 1, 1_000_000_000 - m as i128)
        }
    }
}

/// The milliseconds from `a` to `b`, as chrono computes them.
pub fn millis_since(a: Instant, b: Instant) -> (r: i128)
    ensures
        r == millis_between(a, b),
{
    let ta = day_second(a.secs);
    let tb = day_second(b.secs);
    let mut secs: i128 = b.secs as i128 - a.secs as i128;
    if tb > ta && a.nanos >= 1_000_000_000 {
        secs = secs + 1;
    } else if tb < ta && b.nanos >= 1_000_000_000 {
        secs = secs - 1;
    }
    let frac: i128 = b.nanos as i128 - a.nanos as i128;
    let (whole, f) = split_nanos(frac);
    let s = secs + whole;
    if s < 0 && f > 0 {
        let left = (1_000_000_000 - f) as u64;
        (s + 1) * 1000 - (left / 1_000_000) as i128
    } else {
        let part = f as u64;
        s * 1000 + (part / 1_000_000) as i128
    }
}

/// The latency in milliseconds from a quote's completion at
/// `quote_completed_at` to a settlement at `settlement_occurred_at`: none
/// when either timestamp does not parse or the settlement comes first.
pub fn quote_to_settlement_latency_ms(quote_completed_at: &str, settlement_occurred_at: &str) -> (r: Option<
    u64,
>)
    ensures
        r == latency_ms(quote_completed_at@, settlement_occurred_at@),
{
    let a = match parse_rfc3339(quote_completed_at) {
        Some(a) => a,
        None => return None,
    };
    let b = match parse_rfc3339(settlement_occurred_at) {
        Some(b) => b,
        None => return None,
    };
    let m = millis_since(a, b);
    if 0 <= m && m <= u64::MAX as i128 {
        Some(m as u64)
    } else {
        None
    }
}

} // verus!
