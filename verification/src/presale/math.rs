//! Fixed-point helpers shared by every conversion in the presale.
use vstd::prelude::*;

use crate::presale::errors::PresaleError;

verus! {

/// `a * b / denom`, rounded down, over the integers.
pub open spec fn mul_div(a: int, b: int, denom: int) -> int {
    a * b / denom
}

/// Whether `mul_div_u64(a, b, denom)` succeeds: the denominator is non-zero
/// and the quotient fits in a `u64`.
pub open spec fn mul_div_fits(a: int, b: int, denom: int) -> bool {
    denom != 0 && mul_div(a, b, denom) <= u64::MAX
}

/// Computes `a * b / denom` with a 128-bit intermediate, so the product never
/// truncates before the division runs. A zero denominator, or a quotient that
/// does not fit in a `u64`, is refused with `MathOverflow`.
pub fn mul_div_u64(a: u64, b: u64, denom: u64) -> (r: Result<u64, PresaleError>)
    ensures
        r is Ok <==> mul_div_fits(a as int, b as int, denom as int),
        r matches Ok(v) ==> v == mul_div(a as int, b as int, denom as int),
        r matches Err(e) ==> e == PresaleError::MathOverflow,
{
    if denom == 0 {
        return Err(PresaleError::MathOverflow);
    }
    proof {
        assert(0 <= (a as int) * (b as int) <= (u64::MAX as int) * (u64::MAX as int))
            by (nonlinear_arith);
    }
    let product: u128 = (a as u128) * (b as u128);
    let result: u128 = product / (denom as u128);
    if result > u64::MAX as u128 {
        Err(PresaleError::MathOverflow)
    } else {
        Ok(result as u64)
    }
}

} // verus!
