//! Points in time and the whole seconds that lie between two of them.

use vstd::prelude::*;

verus! {

/// Instants lie within this many seconds of the Unix epoch, on either side.
/// The distance between two of them therefore always fits an `i64`.
pub const SECONDS_LIMIT: i64 = 1_000_000_000_000_000_000;

/// Nanoseconds in a second.
pub const NANOS_PER_SECOND: u32 = 1_000_000_000;

/// Seconds in a day without a leap second.
pub const SECONDS_PER_DAY: i64 = 86_400;

/// Whether a count of seconds since the Unix epoch and a nanosecond field
/// make an instant. The nanosecond field reaches a billion or more only
/// within a leap second, which belongs to the second before it.
pub open spec fn representable(secs: int, nanos: int) -> bool {
    &&& -SECONDS_LIMIT <= secs <= SECONDS_LIMIT
    &&& 0 <= nanos < 2 * NANOS_PER_SECOND
}

/// What a leap second adds to the plain difference of two second counts.
///
/// A leap second that the earlier instant lies in has not been counted when
/// the later one is further into its day; one that the later instant lies in
/// has been counted too much when the later one is less far into its day.
/// chrono's `signed_duration_since` counts leap seconds the same way.
pub open spec fn leap_correction(
    now_secs: int,
    now_nanos: int,
    then_secs: int,
    then_nanos: int,
) -> int {
    let now_of_day = now_secs % (SECONDS_PER_DAY as int);
    let then_of_day = then_secs % (SECONDS_PER_DAY as int);
    if now_of_day > then_of_day && then_nanos >= NANOS_PER_SECOND {
        1
    } else if now_of_day < then_of_day && now_nanos >= NANOS_PER_SECOND {
        -1
    } else {
        0
    }
}

/// Whole seconds from `then` to `now`, cut toward zero.
///
/// The time between the two is `floor` whole seconds and `fraction`
/// nanoseconds more. Where `floor` is negative and a fraction follows it, the
/// time is less than `floor` seconds in size, and cut toward zero it is one
/// second nearer to zero.
pub open spec fn elapsed_seconds(now_secs: int, now_nanos: int, then_secs: int, then_nanos: int) -> int {
    let nanos = now_nanos - then_nanos;
    let floor = now_secs - then_secs + leap_correction(now_secs, now_nanos, then_secs, then_nanos)
        + nanos / (NANOS_PER_SECOND as int);
    let fraction = nanos % (NANOS_PER_SECOND as int);
    if floor < 0 && fraction > 0 {
        floor + 1
    } else {
        floor
    }
}

/// A point in time: seconds since the Unix epoch, and nanoseconds into that
/// second.
#[derive(Clone, Copy, Debug)]
pub struct Instant {
    secs: i64,
    nanos: u32,
}

impl Instant {
    /// Seconds since the Unix epoch, leap seconds not counted.
    pub closed spec fn seconds(self) -> int {
        self.secs as int
    }

    /// Nanoseconds since the last whole second.
    pub closed spec fn nanoseconds(self) -> int {
        self.nanos as int
    }

    /// Every instant is made of a second and a nanosecond field that are
    /// [`representable`].
    #[verifier::type_invariant]
    pub closed spec fn well_formed(self) -> bool {
        representable(self.secs as int, self.nanos as int)
    }

    /// The instant of the given second and nanosecond, where there is one.
    pub fn new(secs: i64, nanos: u32) -> (instant: Option<Instant>)
        ensures
            instant is Some <==> representable(secs as int, nanos as int),
            instant matches Some(t) ==> t.seconds() == secs && t.nanoseconds() == nanos,
    {
        if -SECONDS_LIMIT <= secs && secs <= SECONDS_LIMIT && nanos < 2 * NANOS_PER_SECOND {
            Some(Instant { secs, nanos })
        } else {
            None
        }
    }

    /// Seconds since the Unix epoch.
    pub fn timestamp(&self) -> (secs: i64)
        ensures
            secs == self.seconds(),
            -SECONDS_LIMIT <= secs <= SECONDS_LIMIT,
    {
        proof {
            use_type_invariant(self);
        }
        self.secs
    }

    /// Nanoseconds since the last whole second; a billion or more within a
    /// leap second.
    pub fn subsec_nanos(&self) -> (nanos: u32)
        ensures
            nanos == self.nanoseconds(),
            nanos < 2 * NANOS_PER_SECOND,
    {
        proof {
            use_type_invariant(self);
        }
        self.nanos
    }

    /// Whole seconds from `earlier` to this instant, cut toward zero; negative
    /// where `earlier` is the later of the two.
    pub fn seconds_since(&self, earlier: &Instant) -> (elapsed: i64)
        ensures
            elapsed == elapsed_seconds(
                self.seconds(),
                self.nanoseconds(),
                earlier.seconds(),
                earlier.nanoseconds(),
            ),
            earlier.nanoseconds() == 0 && self.nanoseconds() < NANOS_PER_SECOND ==> elapsed == (
            if self.seconds() < earlier.seconds() && self.nanoseconds() > 0 {
                self.seconds() - earlier.seconds() + 1
            } else {
                self.seconds() - earlier.seconds()
            }),
    {
        proof {
            use_type_invariant(self);
            use_type_invariant(earlier);
        }
        let now_of_day = second_of_day(self.secs);
        let then_of_day = second_of_day(earlier.secs);
        let correction: i64 = if now_of_day > then_of_day && earlier.nanos >= NANOS_PER_SECOND {
            1
        } else if now_of_day < then_of_day && self.nanos >= NANOS_PER_SECOND {
            -1
        } else {
            0
        };
        // The nanosecond fields differ by less than two seconds either way.
        let (carry, fraction): (i64, u32) = if self.nanos >= earlier.nanos {
            let ahead: u32 = self.nanos - earlier.nanos;
            if ahead >= NANOS_PER_SECOND {
                (1, ahead - NANOS_PER_SECOND)
            } else {
                (0, ahead)
            }
        } else {
            let behind: u32 = earlier.nanos - self.nanos;
            if behind > NANOS_PER_SECOND {
                (-2, 2 * NANOS_PER_SECOND - behind)
            } else {
                (-1, NANOS_PER_SECOND - behind)
            }
        };
        proof {
            let nanos = self.nanos as int - earlier.nanos as int;
            assert(nanos == carry * 1_000_000_000 + fraction);
            assert(nanos / 1_000_000_000 == carry && nanos % 1_000_000_000 == fraction as int);
        }
        let floor: i64 = self.secs - earlier.secs + correction + carry;
        if floor < 0 && fraction > 0 {
            floor + 1
        } else {
            floor
        }
    }
}

/// How far into its day a second lies.
fn second_of_day(secs: i64) -> (of_day: i64)
    ensures
        of_day == (secs as int) % (SECONDS_PER_DAY as int),
        0 <= of_day < SECONDS_PER_DAY,
{
    let remainder: i64 = secs % SECONDS_PER_DAY;
    if remainder < 0 {
        remainder + SECONDS_PER_DAY
    } else {
        remainder
    }
}

} // verus!
