//! Deadline arithmetic.
//!
//! The kernel's timed calls take an absolute point in time, given as a
//! `(seconds, nanoseconds)` pair on the wall clock. This module converts a
//! wall-clock point or a relative timeout into that representation,
//! saturating instead of overflowing, and never silently producing a
//! deadline in the past.

use vstd::prelude::*;

use crate::error::Error;

verus! {

/// Nanoseconds in one second.
pub const NANOS_PER_SEC: u32 = 1_000_000_000;

/// The kernel's absolute-time representation: seconds since the epoch and a
/// nanosecond remainder.
///
/// The nanosecond component always counts toward positive infinity, so a
/// point before the epoch has a negative seconds value and a non-negative
/// nanosecond remainder; this keeps ordering and addition monotonic.
#[derive(Clone, Copy, Debug, PartialEq, Eq, Structural)]
pub struct TimeSpec {
    /// Whole seconds since the epoch; negative before the epoch.
    pub tv_sec: i64,
    /// Nanosecond remainder, counting toward positive infinity.
    pub tv_nsec: i64,
}

/// Well-formed: the nanosecond remainder lies within one second.
pub open spec fn ts_valid(ts: TimeSpec) -> bool {
    0 <= ts.tv_nsec < NANOS_PER_SEC
}

/// The point a [`TimeSpec`] stands for, in nanoseconds since the epoch.
pub open spec fn ts_nanos(ts: TimeSpec) -> int {
    ts.tv_sec * (NANOS_PER_SEC as int) + ts.tv_nsec
}

/// The earliest point a well-formed [`TimeSpec`] can stand for.
pub open spec fn min_ts_nanos() -> int {
    i64::MIN * (NANOS_PER_SEC as int)
}

/// The latest point a well-formed [`TimeSpec`] can stand for.
pub open spec fn max_ts_nanos() -> int {
    i64::MAX * (NANOS_PER_SEC as int) + (NANOS_PER_SEC - 1)
}

/// A wall-clock point, as its unsigned distance from the reference epoch.
///
/// This mirrors how the platform clock reports a point in time: a direction
/// and a duration, whose parts always count away from the epoch.
#[derive(Clone, Copy, Debug, PartialEq, Eq, Structural)]
pub struct WallTime {
    /// Whether the point lies before the epoch.
    pub before_epoch: bool,
    /// Whole seconds of the distance from the epoch.
    pub secs: u64,
    /// Nanosecond remainder of the distance, below one second.
    pub nanos: u32,
}

/// Well-formed: the nanosecond remainder lies within one second.
pub open spec fn wall_valid(w: WallTime) -> bool {
    w.nanos < NANOS_PER_SEC
}

/// The point a [`WallTime`] stands for, in nanoseconds since the epoch.
pub open spec fn wall_nanos(w: WallTime) -> int {
    if w.before_epoch {
        -(w.secs * (NANOS_PER_SEC as int) + w.nanos)
    } else {
        w.secs * (NANOS_PER_SEC as int) + w.nanos
    }
}

/// A wall-clock point clamped into the representable range.
///
/// A point beyond the future end saturates to the latest whole second,
/// `(i64::MAX, 0)`; a point beyond the past end saturates to the earliest
/// representable point, `(i64::MIN, 0)`.
pub open spec fn clamped_nanos(w: WallTime) -> int {
    if wall_nanos(w) > max_ts_nanos() {
        i64::MAX * (NANOS_PER_SEC as int)
    } else if wall_nanos(w) < min_ts_nanos() {
        min_ts_nanos()
    } else {
        wall_nanos(w)
    }
}

/// The [`TimeSpec`] a conversion produced, whether the point was
/// representable (`Ok`) or had to be saturated (`Err`).
pub open spec fn conversion_value(r: Result<TimeSpec, TimeSpec>) -> TimeSpec {
    match r {
        Ok(ts) => ts,
        Err(ts) => ts,
    }
}

/// A relative timeout: whole seconds and a nanosecond remainder.
#[derive(Clone, Copy, Debug, PartialEq, Eq, Structural)]
pub struct Duration {
    /// Whole seconds of the timeout.
    pub secs: u64,
    /// Nanosecond remainder of the timeout, below one second.
    pub nanos: u32,
}

/// Well-formed: the nanosecond remainder lies within one second.
pub open spec fn dur_valid(d: Duration) -> bool {
    d.nanos < NANOS_PER_SEC
}

/// The length of a [`Duration`] in nanoseconds.
pub open spec fn dur_nanos(d: Duration) -> int {
    d.secs * (NANOS_PER_SEC as int) + d.nanos
}

/// Convert a wall-clock point to the kernel's absolute-time representation.
///
/// A representable point converts exactly (`Ok`). A point beyond either end
/// of the representable range saturates to that end and is reported as `Err`
/// carrying the saturated value, so a caller can still tell saturation apart
/// from an exact conversion.
pub fn deadline_to_realtime(deadline: WallTime) -> (r: Result<TimeSpec, TimeSpec>)
    requires
        wall_valid(deadline),
    ensures
        ts_valid(conversion_value(r)),
        ts_nanos(conversion_value(r)) == clamped_nanos(deadline),
        r is Ok <==> min_ts_nanos() <= wall_nanos(deadline) <= max_ts_nanos(),
        wall_nanos(deadline) > max_ts_nanos() ==> r == Result::<TimeSpec, TimeSpec>::Err(
            TimeSpec { tv_sec: i64::MAX, tv_nsec: 0 },
        ),
        wall_nanos(deadline) < min_ts_nanos() ==> r == Result::<TimeSpec, TimeSpec>::Err(
            TimeSpec { tv_sec: i64::MIN, tv_nsec: 0 },
        ),
{
    if !deadline.before_epoch {
        if deadline.secs > i64::MAX as u64 {
            proof {
                lemma_scale_le(i64::MAX + 1, deadline.secs as int);
            }
            Err(TimeSpec { tv_sec: i64::MAX, tv_nsec: 0 })
        } else {
            proof {
                lemma_scale_le(deadline.secs as int, i64::MAX as int);
            }
            Ok(TimeSpec { tv_sec: deadline.secs as i64, tv_nsec: deadline.nanos as i64 })
        }
    } else {
        let limit: u64 = (i64::MAX as u64) + 1;
        if deadline.secs > limit || (deadline.secs == limit && deadline.nanos > 0) {
            proof {
                lemma_scale_le(limit as int, deadline.secs as int);
            }
            Err(TimeSpec { tv_sec: i64::MIN, tv_nsec: 0 })
        } else if deadline.nanos == 0 {
            proof {
                lemma_scale_le(deadline.secs as int, limit as int);
            }
            if deadline.secs == limit {
                Ok(TimeSpec { tv_sec: i64::MIN, tv_nsec: 0 })
            } else {
                Ok(TimeSpec { tv_sec: -(deadline.secs as i64), tv_nsec: 0 })
            }
        } else {
            proof {
                lemma_scale_le(deadline.secs as int, i64::MAX as int);
            }
            let s: i64 = -(deadline.secs as i64) - 1;
            let n: i64 = (NANOS_PER_SEC - deadline.nanos) as i64;
            Ok(TimeSpec { tv_sec: s, tv_nsec: n })
        }
    }
}

/// Law: converting any wall-clock point yields a point within the
/// representable range — an out-of-range deadline saturates to a
/// well-defined end instead of panicking or wrapping around to the other
/// end of time.
pub proof fn lemma_conversion_well_defined(w: WallTime)
    requires
        wall_valid(w),
    ensures
        min_ts_nanos() <= clamped_nanos(w) <= max_ts_nanos(),
        min_ts_nanos() <= wall_nanos(w) <= max_ts_nanos() ==> clamped_nanos(w) == wall_nanos(w),
{
    lemma_scale_le(i64::MIN as int, i64::MAX as int);
}

/// Law: the conversion preserves the order of wall-clock points wherever
/// neither point saturates at the future end. (Saturation at the future end
/// truncates the final second, so a representable point inside that last
/// second may sort after a saturated one.)
pub proof fn lemma_conversion_monotonic(w1: WallTime, w2: WallTime)
    requires
        wall_valid(w1),
        wall_valid(w2),
        wall_nanos(w1) <= wall_nanos(w2),
        wall_nanos(w2) <= max_ts_nanos(),
    ensures
        clamped_nanos(w1) <= clamped_nanos(w2),
{
}

/// Multiplying by the nanoseconds-per-second scale preserves order.
proof fn lemma_scale_le(a: int, b: int)
    requires
        a <= b,
    ensures
        a * (NANOS_PER_SEC as int) <= b * (NANOS_PER_SEC as int),
{
    assert(a * (NANOS_PER_SEC as int) <= b * (NANOS_PER_SEC as int)) by (nonlinear_arith)
        requires
            a <= b,
    ;
}

/// Add a relative timeout to a known current time, normalizing the
/// nanosecond carry, and fail with [`Error::InvalidInput`] instead of
/// wrapping when the resulting deadline cannot be represented.
pub fn timeout_to_realtime_at(now: TimeSpec, timeout: Duration) -> (r: Result<TimeSpec, Error>)
    requires
        ts_valid(now),
        dur_valid(timeout),
    ensures
        r is Ok <==> timeout.secs <= i64::MAX && ts_nanos(now) + dur_nanos(timeout)
            <= max_ts_nanos(),
        r matches Ok(ts) ==> ts_valid(ts) && ts_nanos(ts) == ts_nanos(now) + dur_nanos(timeout),
        r matches Err(e) ==> e == Error::InvalidInput,
{
    if timeout.secs > i64::MAX as u64 {
        return Err(Error::InvalidInput);
    }
    let nsum: i64 = now.tv_nsec + timeout.nanos as i64;
    let carry: i64 = if nsum >= NANOS_PER_SEC as i64 {
        1
    } else {
        0
    };
    let nsec: i64 = if nsum >= NANOS_PER_SEC as i64 {
        nsum - NANOS_PER_SEC as i64
    } else {
        nsum
    };
    let add: i64 = timeout.secs as i64;
    if now.tv_sec > i64::MAX - add - carry {
        proof {
            lemma_sec_overflow_is_nanos_overflow(now.tv_sec + add + carry, ts_nanos(now) + dur_nanos(timeout), nsec as int);
        }
        return Err(Error::InvalidInput);
    }
    let ts = TimeSpec { tv_sec: now.tv_sec + add + carry, tv_nsec: nsec };
    proof {
        lemma_sec_overflow_is_nanos_overflow(ts.tv_sec as int, ts_nanos(now) + dur_nanos(timeout), nsec as int);
    }
    Ok(ts)
}

/// Read the wall clock.
///
/// Relies on `std::time::SystemTime::now` and
/// `SystemTime::duration_since(UNIX_EPOCH)`: the distance from the epoch is
/// reported as whole seconds and a nanosecond remainder below one second,
/// with the direction given by which side of `duration_since` succeeded.
#[verifier::external_body]
fn wall_clock_now() -> (r: WallTime)
    ensures
        wall_valid(r),
{
    match std::time::SystemTime::now().duration_since(std::time::SystemTime::UNIX_EPOCH) {
        Ok(d) => WallTime { before_epoch: false, secs: d.as_secs(), nanos: d.subsec_nanos() },
        Err(e) => {
            let d = e.duration();
            WallTime { before_epoch: true, secs: d.as_secs(), nanos: d.subsec_nanos() }
        },
    }
}

/// Convert a relative timeout into an absolute deadline on the wall clock.
///
/// Reads the clock, then adds the timeout as [`timeout_to_realtime_at`]
/// does. Fails with [`Error::InvalidInput`] when the timeout is too long for
/// the resulting deadline to be representable, and with `Error::Other(0)`
/// when the current wall-clock time itself cannot be represented.
pub fn timeout_to_realtime(timeout: Duration) -> (r: Result<TimeSpec, Error>)
    requires
        dur_valid(timeout),
    ensures
        r matches Ok(ts) ==> ts_valid(ts),
        timeout.secs > i64::MAX ==> r is Err,
        r matches Err(e) ==> e == Error::InvalidInput || e == Error::Other(0),
{
    let now = wall_clock_now();
    match deadline_to_realtime(now) {
        Ok(now_ts) => timeout_to_realtime_at(now_ts, timeout),
        Err(_) => Err(Error::Other(0)),
    }
}

/// Convert a wall-clock deadline for a timed kernel call.
///
/// An exactly representable point converts as [`deadline_to_realtime`]
/// does; a point that would have to be saturated is rejected with
/// [`Error::InvalidInput`] instead of being silently moved to the end of
/// the representable range.
pub fn deadline_request(deadline: WallTime) -> (r: Result<TimeSpec, Error>)
    requires
        wall_valid(deadline),
    ensures
        r is Ok <==> min_ts_nanos() <= wall_nanos(deadline) <= max_ts_nanos(),
        r matches Ok(ts) ==> ts_valid(ts) && ts_nanos(ts) == wall_nanos(deadline),
        r matches Err(e) ==> e == Error::InvalidInput,
{
    match deadline_to_realtime(deadline) {
        Ok(ts) => Ok(ts),
        Err(_) => Err(Error::InvalidInput),
    }
}

/// The deadline's seconds exceed the representable maximum exactly when its
/// total in nanoseconds does.
proof fn lemma_sec_overflow_is_nanos_overflow(sec: int, total: int, nsec: int)
    requires
        total == sec * (NANOS_PER_SEC as int) + nsec,
        0 <= nsec < NANOS_PER_SEC,
    ensures
        sec > i64::MAX <==> total > max_ts_nanos(),
{
    if sec > i64::MAX {
        assert(sec * (NANOS_PER_SEC as int) >= (i64::MAX + 1) * (NANOS_PER_SEC as int))
            by (nonlinear_arith)
            requires sec >= i64::MAX + 1;
    } else {
        assert(sec * (NANOS_PER_SEC as int) <= i64::MAX * (NANOS_PER_SEC as int))
            by (nonlinear_arith)
            requires sec <= i64::MAX;
    }
}

} // verus!
