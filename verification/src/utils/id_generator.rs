//! Identifiers made from the current time in milliseconds: the millisecond
//! times one thousand, plus a per-millisecond counter.

use vstd::prelude::*;

verus! {

/// The latest millisecond for which an identifier still fits in an `i64`.
pub const MAX_ID_MILLIS: i64 = 9_223_372_036_854_774;

/// The counter after one more identifier in the same millisecond: it
/// counts from 0 to 999 and then starts again.
pub open spec fn bumped(counter: i64) -> i64 {
    ((counter + 1) % 1000) as i64
}

/// The identifier handed out at `now` by a generator whose last millisecond
/// is `last` and whose counter is `counter`: in the same millisecond, that
/// millisecond times 1000 plus the bumped counter; at a later one, the new
/// millisecond times 1000.
pub open spec fn issued_id(last: i64, counter: i64, now: i64) -> int {
    if now == last {
        last * 1000 + bumped(counter)
    } else {
        now * 1000
    }
}

/// The generator's last millisecond after handing out an identifier at `now`.
pub open spec fn next_last(last: i64, counter: i64, now: i64) -> i64 {
    if now == last {
        last
    } else {
        now
    }
}

/// The generator's counter after handing out an identifier at `now`.
pub open spec fn next_counter(last: i64, counter: i64, now: i64) -> i64 {
    if now == last {
        bumped(counter)
    } else {
        0
    }
}

/// Why no identifier could be handed out.
#[derive(Clone, Copy, Debug, PartialEq, Eq, Structural)]
pub enum ClockError {
    /// The clock reads a time before the Unix epoch.
    BeforeEpoch,
    /// The clock reads a time before the last identifier's millisecond.
    MovedBackwards,
    /// The clock reads a millisecond whose identifiers do not fit in an
    /// `i64`.
    OutOfRange,
}

/// The system clock in whole milliseconds since the Unix epoch, through
/// `SystemTime::now()` and `Duration::as_millis` (cut to an `i64`); `None`
/// when the clock reads a time before the epoch. Nothing is claimed of the
/// reading itself: it is the time.
#[verifier::external_body]
fn clock_millis() -> (ms: Option<i64>) {
    std::time::SystemTime::now()
        .duration_since(std::time::UNIX_EPOCH)
        .ok()
        .map(|d| d.as_millis() as i64)
}

/// Why a clock reading gets no identifier from a generator whose last
/// millisecond is `last`, or `None` when it gets one.
pub open spec fn clock_refusal(last: i64, reading: Option<i64>) -> Option<ClockError> {
    match reading {
        None => Some(ClockError::BeforeEpoch),
        Some(now) => if now < last {
            Some(ClockError::MovedBackwards)
        } else if now > MAX_ID_MILLIS {
            Some(ClockError::OutOfRange)
        } else {
            None
        },
    }
}

/// Handing out an identifier for the clock reading `reading` took the
/// generator from `before` to `after` with result `r`: a refused reading
/// gives its reason and leaves the generator as it was; any other gives the
/// identifier for that millisecond and moves the generator on.
pub open spec fn issue_outcome(
    before: TimestampIdGenerator,
    after: TimestampIdGenerator,
    reading: Option<i64>,
    r: Result<i64, ClockError>,
) -> bool {
    match clock_refusal(before.last_millis(), reading) {
        Some(e) => {
            &&& r == Err::<i64, ClockError>(e)
            &&& after.last_millis() == before.last_millis()
            &&& after.count() == before.count()
        },
        None => {
            let now = reading->0;
            &&& r == Ok::<i64, ClockError>(issued_id(before.last_millis(), before.count(), now) as i64)
            &&& after.last_millis() == next_last(before.last_millis(), before.count(), now)
            &&& after.count() == next_counter(before.last_millis(), before.count(), now)
        },
    }
}

/// Hands out identifiers from the time in milliseconds.
pub struct TimestampIdGenerator {
    last_timestamp: i64,
    counter: i64,
}

impl TimestampIdGenerator {
    /// The millisecond of the last identifier handed out (0 before any).
    pub closed spec fn last_millis(&self) -> i64 {
        self.last_timestamp
    }

    /// The counter of that millisecond: the last identifier handed out is
    /// `last_millis() * 1000 + count()`.
    pub closed spec fn count(&self) -> i64 {
        self.counter
    }

    /// What every generator keeps: its millisecond lies between the epoch
    /// and `MAX_ID_MILLIS`, and its counter between 0 and 999.
    pub open spec fn in_range(&self) -> bool {
        &&& 0 <= self.last_millis() <= MAX_ID_MILLIS
        &&& 0 <= self.count() <= 999
    }

    #[verifier::type_invariant]
    closed spec fn inv(&self) -> bool {
        &&& 0 <= self.last_timestamp <= MAX_ID_MILLIS
        &&& 0 <= self.counter <= 999
    }

    /// A generator that has handed out nothing.
    pub fn new() -> (g: Self)
        ensures
            g.last_millis() == 0,
            g.count() == 0,
            g.in_range(),
    {
        TimestampIdGenerator { last_timestamp: 0, counter: 0 }
    }

    /// The millisecond of the last identifier handed out.
    pub fn last_timestamp(&self) -> (t: i64)
        ensures
            t == self.last_millis(),
            self.in_range(),
    {
        proof {
            use_type_invariant(self);
        }
        self.last_timestamp
    }

    /// The identifier for the current millisecond of the system clock: what
    /// `next_id_from` gives for the clock's reading (`None` when the clock
    /// reads a time before the epoch). Which outcome comes depends on the
    /// reading alone.
    pub fn next_id(&mut self) -> (r: Result<i64, ClockError>)
        ensures
            old(self).in_range(),
            final(self).in_range(),
            exists|reading: Option<i64>| #[trigger] issue_outcome(
                *old(self),
                *final(self),
                reading,
                r,
            ),
    {
        let reading = clock_millis();
        self.next_id_from(reading)
    }

    /// The identifier for a clock reading in milliseconds since the epoch
    /// (`None` for a time before the epoch). A reading before the epoch, before
    /// the last identifier's millisecond, or too late for an `i64`
    /// identifier is refused with its reason and the generator unchanged;
    /// any other reading gets the identifier `next_id_at` hands out for it.
    pub fn next_id_from(&mut self, reading: Option<i64>) -> (r: Result<i64, ClockError>)
        ensures
            old(self).in_range(),
            final(self).in_range(),
            issue_outcome(*old(self), *final(self), reading, r),
    {
        proof {
            use_type_invariant(&*self);
        }
        let now = match reading {
            Some(ms) => ms,
            None => return Err(ClockError::BeforeEpoch),
        };
        if now < self.last_timestamp() {
            return Err(ClockError::MovedBackwards);
        }
        if now > MAX_ID_MILLIS {
            return Err(ClockError::OutOfRange);
        }
        Ok(self.next_id_at(now))
    }

    /// The identifier for the millisecond `now_millis`: within the same
    /// millisecond as the previous call the counter goes up by one, modulo
    /// 1000, and the identifier is that millisecond times 1000 plus the new
    /// counter; at a later millisecond the counter restarts at 0 and the
    /// identifier is the new millisecond times 1000. Time must not go
    /// backwards.
    pub fn next_id_at(&mut self, now_millis: i64) -> (id: i64)
        requires
            old(self).last_millis() <= now_millis <= MAX_ID_MILLIS,
        ensures
            old(self).in_range(),
            final(self).in_range(),
            id == issued_id(old(self).last_millis(), old(self).count(), now_millis),
            final(self).last_millis() == next_last(old(self).last_millis(), old(self).count(), now_millis),
            final(self).count() == next_counter(old(self).last_millis(), old(self).count(), now_millis),
    {
        proof {
            use_type_invariant(&*self);
        }
        let last = self.last_timestamp;
        if now_millis == last {
            let c = (self.counter + 1) % 1000;
            self.counter = c;
            last * 1000 + c
        } else {
            self.counter = 0;
            self.last_timestamp = now_millis;
            now_millis * 1000
        }
    }
}

/// The identifiers a generator whose last millisecond is `last` and whose
/// counter is `counter` hands out for the clock readings `readings`, one
/// after the other.
pub open spec fn ids_for_readings(last: i64, counter: i64, readings: Seq<i64>) -> Seq<int>
    decreases readings.len(),
{
    if readings.len() == 0 {
        Seq::empty()
    } else {
        let now = readings[0];
        seq![issued_id(last, counter, now)] + ids_for_readings(
            next_last(last, counter, now),
            next_counter(last, counter, now),
            readings.drop_first(),
        )
    }
}

/// The readings never go backwards and stay within `MAX_ID_MILLIS`, and
/// fewer than a thousand identifiers share a millisecond: each reading
/// either moves to a later millisecond or finds the counter of the current
/// one below 999.
pub open spec fn readings_fit(last: i64, counter: i64, readings: Seq<i64>) -> bool
    decreases readings.len(),
{
    if readings.len() == 0 {
        true
    } else {
        let now = readings[0];
        &&& last <= now <= MAX_ID_MILLIS
        &&& (now > last || counter < 999)
        &&& readings_fit(
            next_last(last, counter, now),
            next_counter(last, counter, now),
            readings.drop_first(),
        )
    }
}

/// An identifier handed out at `now` lies within the thousand identifiers
/// of that millisecond, and it is the generator's new millisecond times
/// 1000 plus its new counter.
pub proof fn lemma_id_within_millisecond(last: i64, counter: i64, now: i64)
    requires
        0 <= last <= now <= MAX_ID_MILLIS,
        0 <= counter <= 999,
    ensures
        now * 1000 <= issued_id(last, counter, now) <= now * 1000 + 999,
        issued_id(last, counter, now) == next_last(last, counter, now) * 1000 + next_counter(
            last,
            counter,
            now,
        ),
        0 <= next_counter(last, counter, now) <= 999,
{
}

/// Each identifier handed out for readings that fit is above the last one
/// the generator handed out before them.
proof fn lemma_ids_above(last: i64, counter: i64, readings: Seq<i64>)
    requires
        0 <= last,
        0 <= counter <= 999,
        readings_fit(last, counter, readings),
    ensures
        ids_for_readings(last, counter, readings).len() == readings.len(),
        forall|k: int|
            0 <= k < readings.len() ==> #[trigger] ids_for_readings(last, counter, readings)[k]
                > last * 1000 + counter,
        forall|i: int, j: int|
            0 <= i < j < readings.len() ==> #[trigger] ids_for_readings(last, counter, readings)[i]
                < #[trigger] ids_for_readings(last, counter, readings)[j],
    decreases readings.len(),
{
    if readings.len() > 0 {
        let now = readings[0];
        let nl = next_last(last, counter, now);
        let nc = next_counter(last, counter, now);
        let rest = readings.drop_first();
        lemma_ids_above(nl, nc, rest);
        let tail = ids_for_readings(nl, nc, rest);
        let ids = ids_for_readings(last, counter, readings);
        let first = issued_id(last, counter, now);
        assert(ids == seq![first] + tail);
        assert(first == nl * 1000 + nc);
        assert(first > last * 1000 + counter);
        assert forall|k: int| 0 <= k < readings.len() implies #[trigger] ids[k] > last * 1000
            + counter by {
            if k > 0 {
                assert(ids[k] == tail[k - 1]);
            }
        }
        assert forall|i: int, j: int| 0 <= i < j < readings.len() implies #[trigger] ids[i]
            < #[trigger] ids[j] by {
            assert(ids[j] == tail[j - 1]);
            if i > 0 {
                assert(ids[i] == tail[i - 1]);
            }
        }
    }
}

/// Identifiers handed out one after the other for clock readings that never
/// go backwards, while fewer than a thousand share a millisecond, are
/// strictly increasing, so no two of them are equal.
pub proof fn lemma_ids_strictly_increase(last: i64, counter: i64, readings: Seq<i64>)
    requires
        0 <= last,
        0 <= counter <= 999,
        readings_fit(last, counter, readings),
    ensures
        ids_for_readings(last, counter, readings).len() == readings.len(),
        forall|i: int, j: int|
            0 <= i < j < readings.len() ==> #[trigger] ids_for_readings(last, counter, readings)[i]
                < #[trigger] ids_for_readings(last, counter, readings)[j],
{
    lemma_ids_above(last, counter, readings);
}

} // verus!
