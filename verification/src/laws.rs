//! Laws of the settlement chain, stated over the spec functions the public
//! contracts use.

use vstd::prelude::*;

use crate::math::pow10;
use crate::pool::Contract;

verus! {

/// Conservation under an owner deposit of asset A: a state `d` that commits
/// the reserves planned by `deposit_a_by_owner(amount)` on a state `c`
/// (the plan proposes `c.a_ticker + c.scaled_a(amount)` for A and carries B
/// through, and the commit writes both proposed values) holds exactly
/// `amount * 10^decimalsA` more of A than `c` and the same amount of B.
pub proof fn lemma_owner_deposit_a_conserves(c: Contract, d: Contract, amount: u128)
    requires
        c.a_ticker + c.scaled_a(amount) <= u128::MAX,
        d.a_ticker == c.a_ticker + c.scaled_a(amount),
        d.b_ticker == c.b_ticker,
    ensures
        d.a_ticker - c.a_ticker == amount * pow10(c.a_dec()),
        d.b_ticker == c.b_ticker,
{
}

/// Conservation under an owner deposit of asset B, the mirror image of
/// [`lemma_owner_deposit_a_conserves`]: only the reserve of B changes, and it
/// changes by exactly `amount * 10^decimalsB`.
pub proof fn lemma_owner_deposit_b_conserves(c: Contract, d: Contract, amount: u128)
    requires
        c.b_ticker + c.scaled_b(amount) <= u128::MAX,
        d.b_ticker == c.b_ticker + c.scaled_b(amount),
        d.a_ticker == c.a_ticker,
    ensures
        d.b_ticker - c.b_ticker == amount * pow10(c.b_dec()),
        d.a_ticker == c.a_ticker,
{
}

} // verus!
