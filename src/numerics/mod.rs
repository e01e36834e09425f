//! Small fixed-size integer vectors, with checked component-wise arithmetic.

use vstd::prelude::*;

pub mod int2;
pub mod int3;
pub mod int4;
pub mod uint2;
pub mod uint3;
pub mod uint4;

verus! {

/// Integer division rounding toward zero, as Rust's `/` does on signed integers.
pub open spec fn trunc_div(x: int, d: int) -> int {
    if x == 0 {
        0
    } else if x > 0 && d > 0 {
        x / d
    } else if x < 0 && d < 0 {
        (x * -1) / (d * -1)
    } else if x < 0 {
        ((x * -1) / d) * -1
    } else {
        (x / (d * -1)) * -1
    }
}

/// A quotient rounded toward zero is no larger in size than the dividend, and at
/// most half of it when the divisor is below -1.
pub proof fn lemma_trunc_div_bound(x: int, d: int)
    requires
        d != 0,
    ensures
        -(if x >= 0 { x } else { -x }) <= trunc_div(x, d) <= (if x >= 0 { x } else { -x }),
        x < 0 && d < -1 ==> 2 * trunc_div(x, d) <= -x,
{
    if x > 0 && d > 0 {
        assert(0 <= x / d <= x) by (nonlinear_arith)
            requires
                x > 0,
                d > 0,
        ;
    } else if x < 0 && d < 0 {
        assert(0 <= (x * -1) / (d * -1) <= x * -1) by (nonlinear_arith)
            requires
                x < 0,
                d < 0,
        ;
        if d < -1 {
            assert(2 * ((x * -1) / (d * -1)) <= x * -1) by (nonlinear_arith)
                requires
                    x < 0,
                    d < -1,
            ;
        }
    } else if x < 0 {
        assert(0 <= (x * -1) / d <= x * -1) by (nonlinear_arith)
            requires
                x < 0,
                d > 0,
        ;
    } else if x > 0 {
        assert(0 <= x / (d * -1) <= x) by (nonlinear_arith)
            requires
                x > 0,
                d < 0,
        ;
    }
}

/// Rust's `/` on `i32`, with its result stated.
pub fn div_i32(a: i32, b: i32) -> (r: i32)
    requires
        b != 0,
        !(a == i32::MIN && b == -1),
    ensures
        r == trunc_div(a as int, b as int),
{
    proof {
        lemma_trunc_div_bound(a as int, b as int);
    }
    a.checked_div(b).unwrap()
}

} // verus!
