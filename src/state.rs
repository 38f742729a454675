use vstd::prelude::*;

use crate::quota::Quota;
use crate::time::{Instant, MAX_CLOCK_NANOS};

verus! {

/// Why a check was refused.
#[derive(Clone, Copy, Debug, PartialEq, Eq, Structural)]
pub enum Error {
    /// Cost of the increment exceeds the rate limit and will never succeed.
    DeniedIndefinitely(u32),
    /// Limited request until after the instant.
    DeniedUntil(Instant),
}

/// The theoretical arrival time after a check of `increment` nanoseconds at `arrived`,
/// when the check admits; `None` when it denies.
pub open spec fn admitted_tat(tat: Option<int>, arrived: int, increment: int, period: int) -> Option<int> {
    if increment > period {
        None
    } else {
        match tat {
            None => Some(arrived + increment),
            Some(t) => if t < arrived {
                Some(arrived + increment)
            } else if t + increment - period <= arrived {
                Some(t + increment)
            } else {
                None
            },
        }
    }
}

/// The earliest time at which a check of `increment` nanoseconds against the
/// theoretical arrival time `tat` is admitted.
pub open spec fn retry_at(tat: int, increment: int, period: int) -> int {
    tat + increment - period
}

/// The theoretical arrival time after giving back `increment` nanoseconds at `arrived`:
/// unset when nothing was used or the bucket has drained, else moved earlier, no
/// earlier than the Unix epoch.
pub open spec fn reverted_tat(tat: Option<int>, arrived: int, increment: int) -> Option<int> {
    match tat {
        None => None,
        Some(t) => if t < arrived {
            None
        } else if t >= increment {
            Some(t - increment)
        } else {
            Some(0)
        },
    }
}

/// `a / b` rounded up, for positive `b`.
pub open spec fn ceil_div(a: int, b: int) -> int {
    (a + b - 1) / b
}

/// The resources left at `now`: the limit less the share of the period that lies
/// between `now` and the theoretical arrival time, rounded up, and no less than zero.
pub open spec fn remaining_at(tat: Option<int>, limit: int, period: int, now: int) -> int {
    if period == 0 {
        0
    } else {
        match tat {
            None => limit,
            Some(t) => if t <= now {
                limit
            } else {
                let consumed = ceil_div((t - now) * limit, period);
                if consumed >= limit {
                    0
                } else {
                    limit - consumed
                }
            },
        }
    }
}

/// The theoretical arrival time of one limited entity; unset for an entity never seen.
#[derive(Debug)]
pub struct State {
    /// GCRA's Theoretical Arrival Time (**TAT**). An unset value signals a new state.
    pub tat: Option<Instant>,
}

impl View for State {
    type V = Option<int>;

    open spec fn view(&self) -> Option<int> {
        match self.tat {
            Some(t) => Some(t@),
            None => None,
        }
    }
}

impl Default for State {
    fn default() -> (r: State)
        ensures
            r.tat is None,
    {
        State { tat: None }
    }
}

impl State {
    /// What a check of `cost` at `arrived` does: `pre` becomes `post` and `r` is returned.
    pub open spec fn checked(
        pre: State,
        post: State,
        quota: Quota,
        arrived: int,
        cost: u32,
        r: Result<(), Error>,
    ) -> bool {
        let increment = quota.increment_nanos(cost);
        let period = quota.period@;
        match admitted_tat(pre@, arrived, increment, period) {
            Some(t) => r is Ok && post@ == Some(t),
            None => {
                &&& post.tat == pre.tat
                &&& if increment > period {
                    r == Err::<(), Error>(Error::DeniedIndefinitely(cost))
                } else {
                    r matches Err(Error::DeniedUntil(until)) && pre@ matches Some(t) && until@
                        == retry_at(t, increment, period)
                }
            },
        }
    }

    /// Checks a request of `cost` resources arriving now, and records it when admitted.
    pub fn check_and_modify(&mut self, rate_limit: &Quota, cost: u32) -> (r: Result<(), Error>)
        ensures
            exists|now: int|
                0 <= now <= MAX_CLOCK_NANOS && #[trigger] Self::checked(
                    *old(self),
                    *final(self),
                    *rate_limit,
                    now,
                    cost,
                    r,
                ),
    {
        let now = Instant::now();
        let r = self.check_and_modify_at(rate_limit, now, cost);
        assert(Self::checked(*old(self), *self, *rate_limit, now@, cost, r));
        r
    }

    /// Checks a request of `cost` resources arriving at `arrived_at`. When admitted the
    /// theoretical arrival time moves forward by the cost's increment interval; when
    /// denied the state is left as it was and the error says why.
    pub fn check_and_modify_at(&mut self, rate_limit: &Quota, arrived_at: Instant, cost: u32) -> (r:
        Result<(), Error>)
        requires
            arrived_at@ + rate_limit.period@ <= u128::MAX,
        ensures
            Self::checked(*old(self), *final(self), *rate_limit, arrived_at@, cost, r),
            old(self).tat is None && rate_limit.increment_nanos(cost) <= rate_limit.period@ ==> r
                is Ok && final(self)@ == Some(arrived_at@ + rate_limit.increment_nanos(cost)),
            rate_limit.increment_nanos(cost) > rate_limit.period@ ==> r == Err::<(), Error>(
                Error::DeniedIndefinitely(cost),
            ),
            r is Err ==> final(self).tat == old(self).tat,
    {
        let increment = rate_limit.increment_exact(cost);
        let period = rate_limit.period.nanos as u128;
        if increment > period {
            return Err(Error::DeniedIndefinitely(cost));
        }
        match self.tat {
            None => {
                self.tat = Some(Instant::from_nanos(arrived_at.nanos + increment));
                Ok(())
            },
            Some(tat) => {
                if tat.nanos < arrived_at.nanos {
                    self.tat = Some(Instant::from_nanos(arrived_at.nanos + increment));
                    Ok(())
                } else {
                    let tolerance = period - increment;
                    if tat.nanos <= arrived_at.nanos + tolerance {
                        self.tat = Some(Instant::from_nanos(tat.nanos + increment));
                        Ok(())
                    } else {
                        Err(Error::DeniedUntil(Instant::from_nanos(tat.nanos - tolerance)))
                    }
                }
            },
        }
    }

    /// Gives back `cost` resources now.
    pub fn revert(&mut self, rate_limit: &Quota, cost: u32) -> (r: Result<(), Error>)
        ensures
            r is Ok,
            exists|now: int|
                0 <= now <= MAX_CLOCK_NANOS && final(self)@ == #[trigger] reverted_tat(
                    old(self)@,
                    now,
                    rate_limit.increment_nanos(cost),
                ),
    {
        let now = Instant::now();
        self.revert_at(rate_limit, now, cost)
    }

    /// Gives back `cost` resources at `arrived_at`, by moving the theoretical arrival
    /// time back by the cost's increment interval. This does not check that the cost was
    /// charged before. A bucket that has drained by `arrived_at` is reset to unset.
    pub fn revert_at(&mut self, rate_limit: &Quota, arrived_at: Instant, cost: u32) -> (r: Result<
        (),
        Error,
    >)
        ensures
            r is Ok,
            final(self)@ == reverted_tat(old(self)@, arrived_at@, rate_limit.increment_nanos(cost)),
            old(self).tat is None ==> final(self).tat is None,
            old(self)@ matches Some(t) && t < arrived_at@ ==> final(self).tat is None,
    {
        let increment = rate_limit.increment_exact(cost);
        match self.tat {
            None => {},
            Some(tat) => {
                if tat.nanos < arrived_at.nanos {
                    self.tat = None;
                } else if tat.nanos >= increment {
                    self.tat = Some(Instant::from_nanos(tat.nanos - increment));
                } else {
                    self.tat = Some(Instant::from_nanos(0));
                }
            },
        }
        Ok(())
    }

    /// The resources left at `now`, where a resource that is partly in use counts as used.
    pub fn remaining_resources(&self, rate_limit: &Quota, now: Instant) -> (r: u32)
        ensures
            r == remaining_at(
                self@,
                rate_limit.resource_limit as int,
                rate_limit.period@,
                now@,
            ),
            r <= rate_limit.resource_limit,
            rate_limit.period@ == 0 ==> r == 0,
            rate_limit.period@ > 0 && self.tat is None ==> r == rate_limit.resource_limit,
            rate_limit.period@ > 0 && self.tat is Some && self.tat->Some_0@ <= now@ ==> r
                == rate_limit.resource_limit,
    {
        if rate_limit.period.is_zero() {
            return 0;
        }
        let limit = rate_limit.resource_limit;
        match self.tat {
            None => limit,
            Some(tat) => {
                if tat.nanos <= now.nanos {
                    return limit;
                }
                let time_to_tat: u128 = tat.nanos - now.nanos;
                let period = rate_limit.period.nanos as u128;
                if time_to_tat >= period {
                    proof {
                        lemma_whole_period_consumes_all(
                            time_to_tat as int,
                            limit as int,
                            period as int,
                        );
                    }
                    return 0;
                }
                proof {
                    lemma_product_below(time_to_tat as int, limit as int, period as int);
                }
                let consumed: u128 = (time_to_tat * limit as u128 + period - 1) / period;
                if consumed >= limit as u128 {
                    0
                } else {
                    limit - consumed as u32
                }
            },
        }
    }
}

/// Once the time to the theoretical arrival time spans the whole period, all of the
/// limit is consumed.
proof fn lemma_whole_period_consumes_all(time_to_tat: int, limit: int, period: int)
    requires
        time_to_tat >= period > 0,
        limit >= 0,
    ensures
        ceil_div(time_to_tat * limit, period) >= limit,
{
    assert(time_to_tat * limit >= period * limit) by (nonlinear_arith)
        requires
            time_to_tat >= period,
            limit >= 0,
    ;
    assert((period * limit + period - 1) / period >= limit) by (nonlinear_arith)
        requires
            period > 0,
            limit >= 0,
    ;
    vstd::arithmetic::div_mod::lemma_div_is_ordered(
        period * limit + period - 1,
        time_to_tat * limit + period - 1,
        period,
    );
}

/// Within one period of at most `u64::MAX` nanoseconds, the product with a 32-bit
/// limit fits in 128 bits.
proof fn lemma_product_below(time_to_tat: int, limit: int, period: int)
    requires
        0 <= time_to_tat < period <= u64::MAX,
        0 <= limit <= u32::MAX,
    ensures
        0 <= time_to_tat * limit + period - 1 <= u64::MAX * u32::MAX + u64::MAX,
{
    assert(0 <= time_to_tat * limit <= u64::MAX * u32::MAX) by (nonlinear_arith)
        requires
            0 <= time_to_tat <= u64::MAX,
            0 <= limit <= u32::MAX,
    ;
}

} // verus!
