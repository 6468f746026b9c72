//! Integer helpers with exact rounding behaviour.
use vstd::prelude::*;

verus! {

/// Round-half-away-from-zero quotient of `a / b` for a positive `b`.
pub open spec fn round_div_spec(a: int, b: int) -> int {
    if a >= 0 {
        (2 * a + b) / (2 * b)
    } else {
        -((-2 * a + b) / (2 * b))
    }
}

/// Clamps `v` into the range of `i64`.
pub open spec fn clamp_i64(v: int) -> int {
    if v < i64::MIN {
        i64::MIN as int
    } else if v > i64::MAX {
        i64::MAX as int
    } else {
        v
    }
}

/// A rounded quotient times the divisor is within one divisor of the
/// dividend.
pub proof fn lemma_round_div_scaled(a: int, s: int)
    requires
        s > 0,
    ensures
        a - s <= round_div_spec(a, s) * s <= a + s,
{
    let q = round_div_spec(a, s);
    if a >= 0 {
        let n = 2 * a + s;
        assert(2 * s * (n / (2 * s)) <= n < 2 * s * (n / (2 * s)) + 2 * s) by {
            vstd::arithmetic::div_mod::lemma_fundamental_div_mod(n, 2 * s);
        }
        assert(a - s <= q * s <= a + s) by (nonlinear_arith)
            requires
                q == n / (2 * s),
                2 * s * q <= n < 2 * s * q + 2 * s,
                n == 2 * a + s,
                s > 0,
        ;
    } else {
        let n = -2 * a + s;
        let m = n / (2 * s);
        assert(2 * s * m <= n < 2 * s * m + 2 * s) by {
            vstd::arithmetic::div_mod::lemma_fundamental_div_mod(n, 2 * s);
        }
        assert(q == -m);
        assert(a - s <= -m * s <= a + s) by (nonlinear_arith)
            requires
                2 * s * m <= n < 2 * s * m + 2 * s,
                n == -2 * a + s,
                s > 0,
        ;
    }
}

/// Floor of `a / b` for a positive `b`.
pub fn floor_div(a: i128, b: i128) -> (q: i128)
    requires
        b > 0,
    ensures
        q == a / b,
{
    if a >= 0 {
        let q = a / b;
        q
    } else {
        let n: i128 = -(a + 1);
        let t: i128 = n / b;
        proof {
            assert(n == b * t + n % b) by (nonlinear_arith)
                requires b > 0, n >= 0, t == n / b;
            assert(0 <= n % b < b);
            assert(t <= n) by (nonlinear_arith)
                requires b > 0, n >= 0, t == n / b;
            assert(a == b * (-t - 1) + (b - 1 - n % b)) by (nonlinear_arith)
                requires n == b * t + n % b, n == -(a + 1);
            assert(a / b == -t - 1) by {
                vstd::arithmetic::div_mod::lemma_fundamental_div_mod_converse(
                    a as int, b as int, -t - 1, b - 1 - n % b);
            }
        }
        -t - 1
    }
}

/// Quotient of `a / b` rounded to the nearest integer, halves away from zero.
pub fn round_div(a: i128, b: i128) -> (q: i128)
    requires
        b > 0,
        -0x1000_0000_0000_0000_0000_0000_0000_0000 < a < 0x1000_0000_0000_0000_0000_0000_0000_0000,
        b < 0x1000_0000_0000_0000_0000_0000_0000_0000,
    ensures
        q == round_div_spec(a as int, b as int),
{
    if a >= 0 {
        floor_div(2 * a + b, 2 * b)
    } else {
        let t = floor_div(-2 * a + b, 2 * b);
        proof {
            assert(0 <= (-2 * a + b) / (2 * b) <= -2 * a + b) by (nonlinear_arith)
                requires b > 0, a < 0;
        }
        -t
    }
}

/// Clamps an `i128` into the range of `i64`.
pub fn saturate_i64(v: i128) -> (r: i64)
    ensures
        r as int == clamp_i64(v as int),
{
    if v < i64::MIN as i128 {
        i64::MIN
    } else if v > i64::MAX as i128 {
        i64::MAX
    } else {
        v as i64
    }
}

} // verus!
