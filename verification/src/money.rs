//! Exact fixed-point money.
//!
//! One coin is `MONEY_SCALE` units, a power of two, so halving a multiplier and
//! compounding a payout by one and a half stay exact for every level a field can
//! reach. All prices, payouts and balances are counted in units.
use vstd::prelude::*;
use vstd::arithmetic::power::*;
use vstd::arithmetic::div_mod::*;

verus! {

/// An amount of money, in units of `1 / MONEY_SCALE` of a coin.
pub type Money = i64;

/// The number of units in one coin: two to the power `SCALE_BITS`.
pub const MONEY_SCALE: Money = 1_048_576;

/// The binary logarithm of `MONEY_SCALE`.
pub const SCALE_BITS: u8 = 20;

/// The amount of `n` whole coins, in units.
pub open spec fn coins(n: int) -> int {
    n * MONEY_SCALE
}

/// The product of two fixed-point numbers, itself a fixed-point number
/// (rounded down where the exact product has a finer fraction).
pub open spec fn fixed_product(a: int, b: int) -> int {
    a * b / (MONEY_SCALE as int)
}

/// The amount of `n` whole coins.
pub fn whole_coins(n: u32) -> (amount: Money)
    ensures
        amount == coins(n as int),
{
    let wide: i64 = n as i64;
    wide * MONEY_SCALE
}

/// Multiplies two non-negative fixed-point numbers.
pub(crate) fn mul_fixed(a: Money, b: Money) -> (product: Money)
    requires
        0 <= a,
        0 <= b,
        fixed_product(a as int, b as int) <= Money::MAX,
    ensures
        product == fixed_product(a as int, b as int),
{
    let wide_a: i128 = a as i128;
    let wide_b: i128 = b as i128;
    assert(0 <= wide_a * wide_b <= 0x3fff_ffff_ffff_ffff_0000_0000_0000_0001) by (nonlinear_arith)
        requires
            0 <= wide_a <= 0x7fff_ffff_ffff_ffff,
            0 <= wide_b <= 0x7fff_ffff_ffff_ffff,
    ;
    let wide: i128 = wide_a * wide_b / (MONEY_SCALE as i128);
    wide as i64
}

/// The scale is two to the power `SCALE_BITS`.
pub proof fn lemma_scale_is_power_of_two()
    ensures
        MONEY_SCALE == pow(2, SCALE_BITS as nat),
{
    assert(pow(2, 20) == 1_048_576) by {
        reveal_with_fuel(pow, 21);
    }
}

/// Growing an amount of the form `w * 3^d * 2^(n + 1)` by one half is exact:
/// the fixed-point product with one and a half is `w * 3^(d + 1) * 2^n`, and
/// twice that is three times the amount.
pub proof fn lemma_grow_by_half(w: int, d: nat, n: nat)
    ensures
        fixed_product(w * pow(3, d) * pow(2, n + 1), MONEY_SCALE + MONEY_SCALE / 2)
            == w * pow(3, d + 1) * pow(2, n),
        2 * (w * pow(3, d + 1) * pow(2, n)) == 3 * (w * pow(3, d) * pow(2, n + 1)),
{
    let x = w * pow(3, d) * pow(2, n);
    assert(pow(2, n + 1) == 2 * pow(2, n)) by {
        reveal(pow);
    }
    assert(pow(3, d + 1) == 3 * pow(3, d)) by {
        reveal(pow);
    }
    assert(w * pow(3, d) * pow(2, n + 1) == 2 * x) by (nonlinear_arith)
        requires
            x == w * pow(3, d) * pow(2, n),
            pow(2, n + 1) == 2 * pow(2, n),
    ;
    assert(w * pow(3, d + 1) * pow(2, n) == 3 * x) by (nonlinear_arith)
        requires
            x == w * pow(3, d) * pow(2, n),
            pow(3, d + 1) == 3 * pow(3, d),
    ;
    assert((2 * x) * 1_572_864 == 1_048_576 * (3 * x));
    lemma_div_multiples_vanish(3 * x, 1_048_576);
}

} // verus!
