//! Fee and payout arithmetic shared by every bet and every claim.

use vstd::prelude::*;
use crate::errors::Failure;

verus! {

/// Platform fee in basis points (2.5%).
pub const PLATFORM_FEE_BASIS_POINTS: u16 = 250;

/// One hundred percent in basis points.
pub const BASIS_POINTS: u64 = 10000;

/// The fee on a gross stake: 2.5%, rounded down.
pub open spec fn fee_of(amount: nat) -> nat {
    (amount * 250) / 10000
}

/// What is left of a gross stake once the fee is taken.
pub open spec fn net_of(amount: nat) -> nat {
    (amount - fee_of(amount)) as nat
}

/// The pari-mutuel payout of a stake: its share of the winning pool, applied
/// to the combined pool and rounded down.
pub open spec fn payout_of(total: nat, stake: nat, winning_pool: nat) -> nat
    recommends
        winning_pool > 0,
{
    (total * stake) / winning_pool
}

/// The fee never exceeds the stake it is taken from.
pub proof fn lemma_fee_bounded(amount: nat)
    ensures
        fee_of(amount) <= amount,
        fee_of(amount) + net_of(amount) == amount,
{
    assert((amount * 250) / 10000 <= amount) by (nonlinear_arith);
}

/// The platform's fee on `amount`.
pub fn platform_fee(amount: u64) -> (fee: u64)
    ensures
        fee == fee_of(amount as nat),
        fee <= amount,
{
    proof {
        lemma_fee_bounded(amount as nat);
        assert(amount * 250 <= u128::MAX) by (nonlinear_arith)
            requires
                amount <= u64::MAX,
        ;
    }
    let scaled: u128 = (amount as u128) * (PLATFORM_FEE_BASIS_POINTS as u128);
    (scaled / (BASIS_POINTS as u128)) as u64
}

/// The payout owed to `stake` from pools `yes_pool` and `no_pool`, of which
/// `winning_pool` is the one that won.
pub fn payout(yes_pool: u64, no_pool: u64, winning_pool: u64, stake: u64) -> (r: Result<
    u64,
    Failure,
>)
    ensures
        winning_pool == 0 ==> r == Err::<u64, Failure>(Failure::EmptyWinningPool),
        winning_pool > 0 && payout_of((yes_pool + no_pool) as nat, stake as nat, winning_pool as nat)
            > u64::MAX ==> r == Err::<u64, Failure>(Failure::Overflow),
        winning_pool > 0 && payout_of((yes_pool + no_pool) as nat, stake as nat, winning_pool as nat)
            <= u64::MAX ==> r == Ok::<u64, Failure>(
            payout_of((yes_pool + no_pool) as nat, stake as nat, winning_pool as nat) as u64,
        ),
{
    if winning_pool == 0 {
        return Err(Failure::EmptyWinningPool);
    }
    let total: u128 = (yes_pool as u128) + (no_pool as u128);
    let ghost exact: nat = payout_of(total as nat, stake as nat, winning_pool as nat);
    match total.checked_mul(stake as u128) {
        None => {
            proof {
                let product: int = total * stake;
                let pool: int = winning_pool as int;
                assert(product / pool > u64::MAX) by (nonlinear_arith)
                    requires
                        product > u128::MAX,
                        0 < pool <= u64::MAX,
                ;
            }
            Err(Failure::Overflow)
        },
        Some(product) => {
            let quotient: u128 = product / (winning_pool as u128);
            if quotient > (u64::MAX as u128) {
                Err(Failure::Overflow)
            } else {
                Ok(quotient as u64)
            }
        },
    }
}

/// A stake on the winning side is paid back at least in full: the payout is
/// never below the stake, because the combined pool holds the winning pool.
pub proof fn lemma_payout_covers_stake(total: nat, stake: nat, winning_pool: nat)
    requires
        winning_pool > 0,
        total >= winning_pool,
    ensures
        payout_of(total, stake, winning_pool) >= stake,
{
    assert((total * stake) / winning_pool >= stake) by (nonlinear_arith)
        requires
            winning_pool > 0,
            total >= winning_pool,
    ;
}

} // verus!
