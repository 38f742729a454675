use vstd::prelude::*;

use crate::quota::Quota;
use crate::state::{admitted_tat, retry_at, reverted_tat};

verus! {

/// The theoretical arrival time after `k` unit-cost checks at `arrived`, all on a fresh
/// state, each one applied to what the one before left.
pub open spec fn after_unit_checks(quota: Quota, arrived: int, k: nat) -> Option<int>
    decreases k,
{
    if k == 0 {
        None
    } else {
        admitted_tat(
            after_unit_checks(quota, arrived, (k - 1) as nat),
            arrived,
            quota.increment_nanos(1),
            quota.period@,
        )
    }
}

/// Unit-cost checks at one instant on a fresh state admit exactly `resource_limit`
/// requests, which leave the theoretical arrival time one period after that instant; the
/// next one is denied until one emission interval after it. This needs a positive period
/// that the limit divides: otherwise the truncated emission interval lets the count drift.
pub proof fn lemma_limit_admits_exactly(quota: Quota, arrived: int)
    requires
        quota.wf(),
        quota.period@ > 0,
        quota.period@ % (quota.resource_limit as int) == 0,
    ensures
        forall|k: nat|
            1 <= k <= quota.resource_limit ==> #[trigger] after_unit_checks(quota, arrived, k)
                == Some(arrived + k * quota.emission_interval@),
        after_unit_checks(quota, arrived, quota.resource_limit as nat) == Some(
            arrived + quota.period@,
        ),
        admitted_tat(
            Some(arrived + quota.period@),
            arrived,
            quota.increment_nanos(1),
            quota.period@,
        ) is None,
        retry_at(arrived + quota.period@, quota.increment_nanos(1), quota.period@) == arrived
            + quota.emission_interval@,
{
    let n = quota.resource_limit as int;
    let e = quota.emission_interval@;
    let p = quota.period@;
    assert(p == e * n) by {
        vstd::arithmetic::div_mod::lemma_fundamental_div_mod(p, n);
    }
    assert forall|k: nat| 1 <= k <= quota.resource_limit implies #[trigger] after_unit_checks(
        quota,
        arrived,
        k,
    ) == Some(arrived + k * e) by {
        lemma_unit_checks_step(quota, arrived, k);
    }
    assert(after_unit_checks(quota, arrived, n as nat) == Some(arrived + n * e));
    assert(n * e == p) by (nonlinear_arith)
        requires
            p == e * n,
    ;
}

/// One step of the count in `lemma_limit_admits_exactly`, by induction on `k`.
proof fn lemma_unit_checks_step(quota: Quota, arrived: int, k: nat)
    requires
        quota.wf(),
        quota.period@ == quota.emission_interval@ * (quota.resource_limit as int),
        1 <= k <= quota.resource_limit,
    ensures
        after_unit_checks(quota, arrived, k) == Some(arrived + k * quota.emission_interval@),
    decreases k,
{
    let n = quota.resource_limit as int;
    let e = quota.emission_interval@;
    if k > 1 {
        lemma_unit_checks_step(quota, arrived, (k - 1) as nat);
        assert((k - 1) * e + e - e * n <= 0 && (k - 1) * e >= 0) by (nonlinear_arith)
            requires
                1 < k <= n,
                e >= 0,
        ;
        assert(arrived + (k - 1) * e + e == arrived + k * e) by (nonlinear_arith);
    } else {
        assert(e <= e * n) by (nonlinear_arith)
            requires
                n >= 1,
                e >= 0,
        ;
        assert(after_unit_checks(quota, arrived, 0) is None);
    }
    assert(quota.increment_nanos(1) == e);
}

/// A revert of the cost that the last admitted check charged, made no later than the
/// theoretical arrival time that check left, moves that time back by exactly the cost's
/// increment interval.
pub proof fn lemma_revert_undoes_check(
    quota: Quota,
    tat: Option<int>,
    arrived: int,
    cost: u32,
    reverted_at: int,
)
    requires
        tat matches Some(t) ==> t >= 0,
        arrived >= 0,
        admitted_tat(tat, arrived, quota.increment_nanos(cost), quota.period@) is Some,
        reverted_at <= admitted_tat(
            tat,
            arrived,
            quota.increment_nanos(cost),
            quota.period@,
        )->Some_0,
    ensures
        ({
            let after = admitted_tat(tat, arrived, quota.increment_nanos(cost), quota.period@)->Some_0;
            reverted_tat(Some(after), reverted_at, quota.increment_nanos(cost)) == Some(
                after - quota.increment_nanos(cost),
            )
        }),
{
}

} // verus!
