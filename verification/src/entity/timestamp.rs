//! Instants on the UTC timeline, as whole seconds since the Unix epoch and
//! the nanoseconds within that second.

use vstd::prelude::*;

verus! {

/// An instant: `secs` seconds after the Unix epoch plus `nanos` nanoseconds.
#[derive(Clone, Copy, Debug, PartialEq, Eq, Structural)]
pub struct Timestamp {
    pub secs: i64,
    pub nanos: u32,
}

impl Timestamp {
    /// Nanoseconds since the epoch. An instant inside a leap second (a
    /// nanosecond part of one second or more) runs on past its second.
    pub open spec fn total_nanos(self) -> int {
        self.secs * 1_000_000_000 + self.nanos
    }
}

/// The current instant of the UTC clock, read as `chrono::Utc::now()` reads
/// it (`SystemTime::now()` since the Unix epoch, then
/// `DateTime::from_timestamp`), as seconds and nanoseconds since the epoch;
/// `None` where `Utc::now` panics instead: the clock reads a time before the
/// epoch, or one `DateTime` cannot hold. Nothing is claimed of the reading
/// itself: it is the time.
#[verifier::external_body]
pub(crate) fn utc_now() -> (t: Option<Timestamp>) {
    let d = std::time::SystemTime::now().duration_since(std::time::UNIX_EPOCH).ok()?;
    let now = chrono::DateTime::from_timestamp(d.as_secs() as i64, d.subsec_nanos())?;
    Some(Timestamp { secs: now.timestamp(), nanos: now.timestamp_subsec_nanos() })
}

/// Integer division that rounds toward zero.
pub open spec fn div_toward_zero(a: int, b: int) -> int
    recommends
        b > 0,
{
    if a >= 0 {
        a / b
    } else {
        -((-a) / b)
    }
}

/// The second of its day (UTC) an instant falls in, from 0 to 86399.
pub open spec fn second_of_day(t: Timestamp) -> int {
    (t.secs as int) % 86400
}

/// The second that time arithmetic adds for a leap second between two
/// instants: counting from an instant inside a leap second to a later second
/// of the day counts that leap second once more, and counting back to one
/// inside a leap second from a later second of the day counts it once less.
pub open spec fn leap_adjustment(from: Timestamp, to: Timestamp) -> int {
    if second_of_day(to) > second_of_day(from) && from.nanos >= 1_000_000_000 {
        1
    } else if second_of_day(to) < second_of_day(from) && to.nanos >= 1_000_000_000 {
        -1
    } else {
        0
    }
}

/// The nanoseconds from `from` to `to`, leap seconds counted as above.
pub open spec fn spec_elapsed_nanos(from: Timestamp, to: Timestamp) -> int {
    to.total_nanos() - from.total_nanos() + leap_adjustment(from, to) * 1_000_000_000
}

/// The whole milliseconds from `from` to `to`, rounded toward zero; negative
/// when `to` comes first.
pub open spec fn spec_elapsed_millis(from: Timestamp, to: Timestamp) -> int {
    div_toward_zero(spec_elapsed_nanos(from, to), 1_000_000)
}

/// The second of the day of the instant `secs` seconds after the epoch.
fn second_of_day_of(secs: i64) -> (r: i64)
    ensures
        r == (secs as int) % 86400,
{
    if secs >= 0 {
        secs % 86400
    } else {
        let m: i64 = -(secs + 1);
        let k: i64 = m % 86400;
        proof {
            let q = m / 86400;
            assert(m == 86400 * q + k);
            assert(secs == 86400 * (-q - 1) + (86399 - k));
            vstd::arithmetic::div_mod::lemma_fundamental_div_mod_converse(
                secs as int,
                86400,
                -q - 1,
                86399 - k,
            );
        }
        86399 - k
    }
}

/// Milliseconds elapsed between two instants, as the time span from
/// `from` to `to` counts them in whole milliseconds (a leap second counted
/// as `leap_adjustment` says); `None` when that count does not fit in an
/// `i64` (it always does for instants the calendar types of the service can
/// hold).
pub fn elapsed_millis(from: Timestamp, to: Timestamp) -> (ms: Option<i64>)
    ensures
        ms is Some <==> i64::MIN <= spec_elapsed_millis(from, to) <= i64::MAX,
        ms matches Some(v) ==> v == spec_elapsed_millis(from, to),
{
    let from_day = second_of_day_of(from.secs);
    let to_day = second_of_day_of(to.secs);
    let leap: i128 = if to_day > from_day && from.nanos >= 1_000_000_000 {
        1
    } else if to_day < from_day && to.nanos >= 1_000_000_000 {
        -1
    } else {
        0
    };
    let diff: i128 = (to.secs as i128 - from.secs as i128 + leap) * 1_000_000_000i128
        + (to.nanos as i128 - from.nanos as i128);
    assert(diff == spec_elapsed_nanos(from, to));
    let q: i128 = if diff >= 0 {
        diff / 1_000_000i128
    } else {
        -((-diff) / 1_000_000i128)
    };
    if q < i64::MIN as i128 || q > i64::MAX as i128 {
        None
    } else {
        Some(q as i64)
    }
}

/// Counting the time from `a` to `b` gives the negation of counting it from
/// `b` to `a`; an instant is zero milliseconds from itself.
pub proof fn lemma_elapsed_antisymmetric(a: Timestamp, b: Timestamp)
    ensures
        spec_elapsed_millis(a, b) == -spec_elapsed_millis(b, a),
        spec_elapsed_millis(a, a) == 0,
{
}

} // verus!
