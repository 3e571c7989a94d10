//! Escrow accounting: the protocol fee and the split of a bounty.

use vstd::prelude::*;
use crate::TRANSACTION_FEE_BPS;

verus! {

/// Basis points in a whole.
pub const BPS_DENOMINATOR: u64 = 10_000;

/// The funds held for one task.
#[derive(Clone, Copy, Debug, PartialEq, Eq, Structural)]
pub struct Escrow {
    /// Lamports held: the task's bounty until settlement, zero after.
    pub balance: u64,
    /// Bump seed of the record's key.
    pub bump: u8,
}

/// The protocol fee on `bounty`: `TRANSACTION_FEE_BPS` basis points of it,
/// rounded down.
pub open spec fn fee_of(bounty: int) -> int {
    bounty * TRANSACTION_FEE_BPS as int / BPS_DENOMINATOR as int
}

/// What the agent receives of `bounty` once the fee is taken.
pub open spec fn payout_of(bounty: int) -> int {
    bounty - fee_of(bounty)
}

/// The fee is one hundredth of the bounty, rounded down, and never more than
/// the bounty itself.
pub proof fn lemma_fee_is_one_percent(bounty: int)
    requires
        bounty >= 0,
    ensures
        fee_of(bounty) == bounty / 100,
        0 <= fee_of(bounty) <= bounty,
{
    assert(bounty * 100 / 10_000 == bounty / 100) by (nonlinear_arith)
        requires
            bounty >= 0,
    ;
}

/// Fee and payout always add up to the bounty: settlement neither creates nor
/// loses lamports.
pub proof fn lemma_fee_and_payout_conserve(bounty: int)
    requires
        bounty >= 0,
    ensures
        fee_of(bounty) + payout_of(bounty) == bounty,
        0 <= payout_of(bounty) <= bounty,
{
    lemma_fee_is_one_percent(bounty);
}

/// Computes the protocol fee on `bounty`. The product is taken in 128 bits, so
/// no bounty overflows it.
pub fn fee(bounty: u64) -> (r: u64)
    ensures
        r as int == fee_of(bounty as int),
        r == bounty / 100,
{
    proof {
        lemma_fee_is_one_percent(bounty as int);
    }
    let scaled: u128 = bounty as u128 * TRANSACTION_FEE_BPS as u128;
    (scaled / BPS_DENOMINATOR as u128) as u64
}

/// Computes what the agent receives of `bounty` once the fee is taken.
pub fn payout_to_agent(bounty: u64) -> (r: u64)
    ensures
        r as int == payout_of(bounty as int),
        r + fee_of(bounty as int) == bounty,
{
    bounty - fee(bounty)
}

} // verus!
