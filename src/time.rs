use vstd::prelude::*;

verus! {

/// The number of nanoseconds in one second.
pub const NANOS_PER_SEC: u64 = 1_000_000_000;

/// The number of nanoseconds in one millisecond.
pub const NANOS_PER_MILLI: u64 = 1_000_000;

/// The longest span the standard library's `Duration` can hold, in nanoseconds:
/// `u64::MAX` seconds and 999_999_999 nanoseconds.
pub const MAX_CLOCK_NANOS: u128 = 18_446_744_073_709_551_615 * 1_000_000_000 + 999_999_999;

/// A span of time, counted in whole nanoseconds.
#[derive(Clone, Copy, Debug, PartialEq, Eq, Structural, PartialOrd, Ord, Hash)]
pub struct Duration {
    pub nanos: u64,
}

impl View for Duration {
    type V = int;

    open spec fn view(&self) -> int {
        self.nanos as int
    }
}

/// A product of a nanosecond count and a 32-bit factor fits in 128 bits.
pub(crate) proof fn lemma_product_fits(nanos: u64, factor: u32)
    ensures
        0 <= nanos * factor <= u64::MAX * u32::MAX,
{
    assert(0 <= nanos * factor <= u64::MAX * u32::MAX) by (nonlinear_arith)
        requires
            nanos <= u64::MAX,
            factor <= u32::MAX,
    ;
}

impl Duration {
    /// The span of `nanos` nanoseconds.
    pub fn from_nanos(nanos: u64) -> (r: Duration)
        ensures
            r@ == nanos,
    {
        Duration { nanos }
    }

    /// The span of `millis` milliseconds.
    pub fn from_millis(millis: u64) -> (r: Duration)
        requires
            millis * NANOS_PER_MILLI <= u64::MAX,
        ensures
            r@ == millis * NANOS_PER_MILLI,
    {
        Duration { nanos: millis * NANOS_PER_MILLI }
    }

    /// The span of `secs` seconds.
    pub fn from_secs(secs: u64) -> (r: Duration)
        requires
            secs * NANOS_PER_SEC <= u64::MAX,
        ensures
            r@ == secs * NANOS_PER_SEC,
    {
        Duration { nanos: secs * NANOS_PER_SEC }
    }

    /// The length of the span in nanoseconds.
    pub fn as_nanos(&self) -> (r: u64)
        ensures
            r == self@,
    {
        self.nanos
    }

    /// Whether the span is empty.
    pub fn is_zero(&self) -> (r: bool)
        ensures
            r == (self@ == 0),
    {
        self.nanos == 0
    }

    /// The span repeated `factor` times, or `None` when that is too long to represent.
    pub fn checked_mul(&self, factor: u32) -> (r: Option<Duration>)
        ensures
            self@ * factor <= u64::MAX ==> r == Some(Duration::from_nanos_spec(
                (self@ * factor) as u64,
            )),
            self@ * factor > u64::MAX ==> r is None,
    {
        proof {
            lemma_product_fits(self.nanos, factor);
        }
        let product: u128 = self.nanos as u128 * factor as u128;
        if product <= u64::MAX as u128 {
            Some(Duration { nanos: product as u64 })
        } else {
            None
        }
    }

    /// The span repeated `factor` times, capped at the longest representable span.
    pub fn saturating_mul(&self, factor: u32) -> (r: Duration)
        ensures
            r@ == if self@ * factor <= u64::MAX {
                self@ * factor
            } else {
                u64::MAX as int
            },
    {
        proof {
            lemma_product_fits(self.nanos, factor);
        }
        let product: u128 = self.nanos as u128 * factor as u128;
        if product <= u64::MAX as u128 {
            Duration { nanos: product as u64 }
        } else {
            Duration { nanos: u64::MAX }
        }
    }

    /// The span divided into `parts` equal parts, the remainder dropped.
    pub fn div_floor(&self, parts: u32) -> (r: Duration)
        requires
            parts > 0,
        ensures
            r@ == self@ / (parts as int),
    {
        Duration { nanos: self.nanos / parts as u64 }
    }

    /// The span of `nanos` nanoseconds, in specifications.
    pub open spec fn from_nanos_spec(nanos: u64) -> Duration {
        Duration { nanos }
    }
}

/// A point in time, counted in nanoseconds since the Unix epoch.
#[derive(Clone, Copy, Debug, PartialEq, Eq, Structural, PartialOrd, Ord, Hash)]
pub struct Instant {
    pub nanos: u128,
}

impl View for Instant {
    type V = int;

    open spec fn view(&self) -> int {
        self.nanos as int
    }
}

/// Relies on `SystemTime::elapsed`, called on the Unix epoch: the time from the epoch to
/// now as a `std::time::Duration`, or an error when the system clock reads earlier than
/// the epoch. `Duration::as_nanos` gives its length, which is at most `Duration::MAX`.
#[verifier::external_body]
fn unix_clock_nanos() -> (r: Option<u128>)
    ensures
        r matches Some(n) ==> n <= MAX_CLOCK_NANOS,
{
    std::time::UNIX_EPOCH.elapsed().ok().map(|d| d.as_nanos())
}

impl Instant {
    /// The instant `nanos` nanoseconds after the Unix epoch.
    pub fn from_nanos(nanos: u128) -> (r: Instant)
        ensures
            r@ == nanos,
    {
        Instant { nanos }
    }

    /// The instant `nanos` nanoseconds after the Unix epoch, in specifications.
    pub open spec fn from_nanos_spec(nanos: u128) -> Instant {
        Instant { nanos }
    }

    /// The number of nanoseconds since the Unix epoch.
    pub fn as_nanos(&self) -> (r: u128)
        ensures
            r == self@,
    {
        self.nanos
    }

    /// The current time of the system clock; the epoch itself when the clock reads
    /// earlier than the epoch.
    pub fn now() -> (r: Instant)
        ensures
            r@ <= MAX_CLOCK_NANOS,
    {
        match unix_clock_nanos() {
            Some(nanos) => Instant { nanos },
            None => Instant { nanos: 0 },
        }
    }

    /// The instant `d` later, or `None` when that cannot be represented.
    pub fn checked_add(&self, d: Duration) -> (r: Option<Instant>)
        ensures
            self@ + d@ <= u128::MAX ==> r == Some(Instant::from_nanos_spec(
                (self@ + d@) as u128,
            )),
            self@ + d@ > u128::MAX ==> r is None,
    {
        if self.nanos <= u128::MAX - d.nanos as u128 {
            Some(Instant { nanos: self.nanos + d.nanos as u128 })
        } else {
            None
        }
    }

    /// The instant `d` earlier, or `None` when that lies before the Unix epoch.
    pub fn checked_sub(&self, d: Duration) -> (r: Option<Instant>)
        ensures
            self@ >= d@ ==> r == Some(Instant::from_nanos_spec((self@ - d@) as u128)),
            self@ < d@ ==> r is None,
    {
        if self.nanos >= d.nanos as u128 {
            Some(Instant { nanos: self.nanos - d.nanos as u128 })
        } else {
            None
        }
    }
}

} // verus!
