//! Integer arithmetic of the invariant calculator.
//!
//! Reserves are kept in an asset's smallest indivisible unit; normalizing a
//! reserve divides it by `10^decimals`, truncating. The invariant is the
//! product of the two normalized reserves, and a quote inverts that product
//! for a proposed new reserve. All divisions floor; the rounding is
//! deliberate and systematically favors the pool.

use vstd::prelude::*;

verus! {

/// Largest exponent for which `10^e` fits in a `u128`.
pub const MAX_DECIMALS: u8 = 38;

/// `10^e`, the scale factor between an asset's smallest unit and its whole unit.
pub open spec fn pow10(e: nat) -> nat
    decreases e,
{
    if e == 0 {
        1
    } else {
        10 * pow10((e - 1) as nat)
    }
}

/// A reserve in whole units: the floor of `ticker / 10^decimals`.
pub open spec fn normalized(ticker: int, decimals: nat) -> int {
    ticker / pow10(decimals) as int
}

/// The constant-product invariant over whole-unit reserves.
pub open spec fn ratio_of(a_ticker: int, a_decimals: nat, b_ticker: int, b_decimals: nat) -> int {
    normalized(a_ticker, a_decimals) * normalized(b_ticker, b_decimals)
}

/// The counter-reserve quoted for a proposed reserve of the deposited asset:
/// `floor(ratio / normalized(new_ticker)) * 10^decimals_out`, back in the
/// counter-asset's smallest unit. Meaningful only when the normalized
/// proposed reserve is nonzero.
pub open spec fn quoted(ratio: int, new_ticker: int, decimals_in: nat, decimals_out: nat) -> int {
    (ratio / normalized(new_ticker, decimals_in)) * pow10(decimals_out) as int
}

pub proof fn lemma_pow10_pos(e: nat)
    ensures
        pow10(e) >= 1,
    decreases e,
{
    if e > 0 {
        lemma_pow10_pos((e - 1) as nat);
    }
}

pub proof fn lemma_pow10_increases(e1: nat, e2: nat)
    requires
        e1 <= e2,
    ensures
        pow10(e1) <= pow10(e2),
    decreases e2,
{
    if e1 < e2 {
        lemma_pow10_increases(e1, (e2 - 1) as nat);
        lemma_pow10_pos((e2 - 1) as nat);
    }
}

pub proof fn lemma_pow10_fits_u128(e: nat)
    requires
        e <= MAX_DECIMALS,
    ensures
        pow10(e) <= u128::MAX,
{
    reveal_with_fuel(pow10, 40);
    assert(pow10(38) == 100000000000000000000000000000000000000nat);
    lemma_pow10_increases(e, 38);
}

/// `10^e` as a machine integer.
pub fn pow10_exec(e: u8) -> (r: u128)
    requires
        e <= MAX_DECIMALS,
    ensures
        r == pow10(e as nat),
{
    let mut r: u128 = 1;
    let mut i: u8 = 0;
    while i < e
        invariant
            i <= e,
            e <= MAX_DECIMALS,
            r == pow10(i as nat),
        decreases e - i,
    {
        proof {
            assert(pow10((i + 1) as nat) == 10 * pow10(i as nat));
            lemma_pow10_fits_u128((i + 1) as nat);
        }
        r = r * 10;
        i = i + 1;
    }
    r
}

} // verus!
