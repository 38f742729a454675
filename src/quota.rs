use vstd::prelude::*;

use crate::time::{lemma_product_fits, Duration};

verus! {

/// The configuration of a rate limit: `resource_limit` resources per `period`.
#[derive(Clone, Copy, Debug)]
#[non_exhaustive]
pub struct Quota {
    /// Amount of resources that are allowed in a given period.
    pub resource_limit: u32,
    /// The length of which to allow access to the resource.
    pub period: Duration,
    /// Incremental duration cost of a single resource, `period / resource_limit`.
    pub emission_interval: Duration,
}

impl Quota {
    /// A quota is built with a positive limit, and its emission interval is the period
    /// divided by the limit, the remainder dropped.
    pub open spec fn wf(&self) -> bool {
        &&& self.resource_limit > 0
        &&& self.emission_interval@ == self.period@ / (self.resource_limit as int)
    }

    /// The time, in nanoseconds, that `cost` resources at once take up in the bucket.
    pub open spec fn increment_nanos(&self, cost: u32) -> int {
        self.emission_interval@ * cost
    }

    /// The quota of `resource_limit` resources per `period`. The emission interval is
    /// truncated to whole nanoseconds, so a period that the limit does not divide loses
    /// the remainder.
    pub fn new(resource_limit: u32, period: Duration) -> (r: Quota)
        requires
            resource_limit > 0,
        ensures
            r.wf(),
            r.resource_limit == resource_limit,
            r.period == period,
    {
        let emission_interval = period.div_floor(resource_limit);
        Quota { resource_limit, period, emission_interval }
    }

    /// The increment interval of `cost`: the emission interval taken `cost` times,
    /// capped at the longest `Duration`.
    pub fn increment_interval(&self, cost: u32) -> (r: Duration)
        ensures
            self.increment_nanos(cost) <= u64::MAX ==> r@ == self.increment_nanos(cost),
            self.increment_nanos(cost) > u64::MAX ==> r@ == u64::MAX,
    {
        self.emission_interval.saturating_mul(cost)
    }

    /// The increment interval of `cost` in nanoseconds, exact.
    pub(crate) fn increment_exact(&self, cost: u32) -> (r: u128)
        ensures
            r == self.increment_nanos(cost),
            r <= u64::MAX * u32::MAX,
    {
        proof {
            lemma_product_fits(self.emission_interval.nanos, cost);
        }
        self.emission_interval.nanos as u128 * cost as u128
    }
}

} // verus!
