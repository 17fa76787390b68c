//! The protocol fee.

use vstd::prelude::*;

verus! {

/// How many basis points make the whole.
pub const BPS_DENOMINATOR: i128 = 10_000;

/// The fee on `amount` at `fee_bps` basis points, rounded down.
pub open spec fn fee_of(amount: int, fee_bps: int) -> int {
    amount * fee_bps / 10_000
}

/// What is left of `amount` after the fee.
pub open spec fn net_of(amount: int, fee_bps: int) -> int {
    amount - fee_of(amount, fee_bps)
}

/// The fee on the whole is the fee on the full multiples of the denominator and on the rest.
proof fn lemma_fee_by_parts(amount: int, fee_bps: int)
    requires
        amount >= 0,
    ensures
        fee_of(amount, fee_bps) == amount / 10_000 * fee_bps + amount % 10_000 * fee_bps / 10_000,
{
    let q = amount / 10_000;
    let m = amount % 10_000;
    assert(amount == q * 10_000 + m);
    assert(amount * fee_bps == (q * fee_bps) * 10_000 + m * fee_bps) by (nonlinear_arith)
        requires
            amount == q * 10_000 + m,
    ;
    vstd::arithmetic::div_mod::lemma_hoist_over_denominator(m * fee_bps, q * fee_bps, 10_000);
}

/// The fee lies between nothing and the amount, and between the two the amount is split whole.
pub proof fn lemma_fee_bounds(amount: int, fee_bps: int)
    requires
        amount >= 0,
        0 <= fee_bps <= 10_000,
    ensures
        0 <= fee_of(amount, fee_bps) <= amount,
        0 <= net_of(amount, fee_bps) <= amount,
        fee_of(amount, fee_bps) + net_of(amount, fee_bps) == amount,
{
    assert(0 <= amount * fee_bps <= amount * 10_000) by (nonlinear_arith)
        requires
            amount >= 0,
            0 <= fee_bps <= 10_000,
    ;
    assert(amount * fee_bps / 10_000 <= amount * 10_000 / 10_000);
}

/// The fee is the part of the amount that its basis points make, in whole units: no unit more
/// would still be within that part. The payee gets all the rest.
pub proof fn the_fee_is_its_part_of_the_amount(amount: int, fee_bps: int)
    requires
        amount >= 0,
        0 <= fee_bps <= 10_000,
    ensures
        fee_of(amount, fee_bps) * 10_000 <= amount * fee_bps,
        amount * fee_bps < (fee_of(amount, fee_bps) + 1) * 10_000,
        net_of(amount, fee_bps) + fee_of(amount, fee_bps) == amount,
        fee_bps == 0 ==> fee_of(amount, fee_bps) == 0,
        fee_bps == 10_000 ==> net_of(amount, fee_bps) == 0,
{
    if fee_bps == 0 {
        assert(amount * fee_bps == 0) by (nonlinear_arith)
            requires
                fee_bps == 0,
        ;
    }
}

/// Split `amount` into the protocol fee and what is left for the payee.
pub fn split_fee(amount: i128, fee_bps: u32) -> (r: (i128, i128))
    requires
        amount >= 0,
        fee_bps <= 10_000,
    ensures
        r.0 == fee_of(amount as int, fee_bps as int),
        r.1 == net_of(amount as int, fee_bps as int),
        0 <= r.0 <= amount,
        r.0 + r.1 == amount,
{
    let bps: i128 = fee_bps as i128;
    let whole: i128 = amount / BPS_DENOMINATOR;
    let rest: i128 = amount % BPS_DENOMINATOR;
    proof {
        lemma_fee_by_parts(amount as int, fee_bps as int);
        lemma_fee_bounds(amount as int, fee_bps as int);
        assert(0 <= whole * bps <= whole * 10_000) by (nonlinear_arith)
            requires
                whole >= 0,
                0 <= bps <= 10_000,
        ;
        assert(0 <= rest * bps <= 10_000 * 10_000) by (nonlinear_arith)
            requires
                0 <= rest < 10_000,
                0 <= bps <= 10_000,
        ;
    }
    let fee: i128 = whole * bps + rest * bps / BPS_DENOMINATOR;
    (fee, amount - fee)
}

} // verus!
