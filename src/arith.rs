//! Proportional scaling with a 256-bit intermediate, and basis-point fees.

use primitive_types::U256;
use vstd::prelude::*;

verus! {

/// Denominator of a fee expressed in basis points.
pub const BASIS_POINT: u32 = 10_000;

/// `floor(amount * numerator / denominator)` over the integers.
pub open spec fn proportional_spec(amount: nat, numerator: nat, denominator: nat) -> nat
    recommends
        denominator > 0,
{
    amount * numerator / denominator
}

/// Relies on `primitive_types::U256` (built by `uint`): `From<u128>` widens
/// exactly, `*` is the exact product (it panics only above 2^256, out of reach
/// for two `u128`), `/` is floor division (it panics on a zero divisor), and
/// `TryFrom<U256> for u128` fails exactly when the value exceeds `u128::MAX`.
#[verifier::external_body]
fn wide_mul_div(amount: u128, numerator: u128, denominator: u128) -> (r: Option<u128>)
    requires
        denominator > 0,
    ensures
        match r {
            Some(v) => v == (amount as int) * (numerator as int) / (denominator as int),
            None => (amount as int) * (numerator as int) / (denominator as int) > u128::MAX,
        },
{
    u128::try_from(U256::from(amount) * U256::from(numerator) / U256::from(denominator)).ok()
}

/// `amount * numerator / denominator` rounded down, or `None` when it does not
/// fit in a `u128`. The product is formed in 256 bits, so it never overflows.
pub fn checked_proportional(amount: u128, numerator: u128, denominator: u128) -> (r: Option<u128>)
    requires
        denominator > 0,
    ensures
        match r {
            Some(v) => v == proportional_spec(amount as nat, numerator as nat, denominator as nat),
            None => proportional_spec(amount as nat, numerator as nat, denominator as nat)
                > u128::MAX,
        },
{
    wide_mul_div(amount, numerator, denominator)
}

/// Returns `amount * numerator / denominator`, rounded down, computed with a
/// 256-bit intermediate so that the product cannot overflow.
pub fn proportional(amount: u128, numerator: u128, denominator: u128) -> (r: u128)
    requires
        denominator > 0,
        proportional_spec(amount as nat, numerator as nat, denominator as nat) <= u128::MAX,
    ensures
        r == proportional_spec(amount as nat, numerator as nat, denominator as nat),
{
    match wide_mul_div(amount, numerator, denominator) {
        Some(v) => v,
        None => 0,
    }
}

/// Fee withheld from `total` at `fee_bps` basis points: `floor(total * fee_bps / 10_000)`.
pub open spec fn fee_spec(total: nat, fee_bps: nat) -> nat {
    proportional_spec(total, fee_bps, BASIS_POINT as nat)
}

/// A fee never exceeds the amount it is taken from when the rate is below 100%.
pub proof fn lemma_fee_le_total(total: nat, fee_bps: nat)
    requires
        fee_bps < BASIS_POINT,
    ensures
        fee_spec(total, fee_bps) <= total,
{
    assert(total * fee_bps <= total * (BASIS_POINT as nat)) by (nonlinear_arith)
        requires fee_bps < BASIS_POINT;
    assert(total * fee_bps / (BASIS_POINT as nat) <= total) by (nonlinear_arith)
        requires total * fee_bps <= total * (BASIS_POINT as nat);
}

/// Fee for `total` at `fee_bps` basis points, rounded down.
pub fn compute_fee(total: u128, fee_bps: u32) -> (r: u128)
    requires
        fee_bps < BASIS_POINT,
    ensures
        r == fee_spec(total as nat, fee_bps as nat),
        r <= total,
{
    proof {
        lemma_fee_le_total(total as nat, fee_bps as nat);
    }
    proportional(total, fee_bps as u128, BASIS_POINT as u128)
}

/// Whether a fee rate is a valid basis-point value (strictly below 100%).
pub fn check_basis_points(basis_point: u32) -> (r: bool)
    ensures
        r == (basis_point < BASIS_POINT),
{
    basis_point < BASIS_POINT
}

} // verus!
