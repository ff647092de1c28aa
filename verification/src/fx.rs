//! Scaled-integer scalars.
//!
//! Every real-valued quantity in this crate is stored as an `i128` holding
//! the real value times [`SCALE`].  Products and quotients are truncated
//! toward zero, exactly as specified by [`fx_mul_s`] and [`fx_div_s`].

use vstd::prelude::*;

verus! {

/// Number of integer units that stand for the real value 1.0.
pub const SCALE: i128 = 100_000_000_000_000;

/// [`SCALE`] as an unsigned value, for magnitude arithmetic.
pub const SCALE_U: u128 = 100_000_000_000_000;

/// Cap on the magnitude of any raw product before it is scaled back down;
/// it lies below `i128::MAX`, so products within the cap never overflow.
pub const PROD_LIMIT: i128 = 160_000_000_000_000_000_000_000_000_000_000_000_000;

/// Magnitude of an integer.
pub open spec fn mag(a: int) -> int {
    if a >= 0 {
        a
    } else {
        -a
    }
}

/// Division truncated toward zero (the divisor is meant to be positive).
pub open spec fn tdiv(a: int, b: int) -> int {
    if a >= 0 {
        a / b
    } else {
        -((-a) / b)
    }
}

/// Product of two scaled scalars, scaled back down.
pub open spec fn fx_mul_s(a: int, b: int) -> int {
    tdiv(a * b, SCALE as int)
}

/// Quotient of two scaled scalars (the divisor is meant to be positive).
pub open spec fn fx_div_s(a: int, b: int) -> int {
    tdiv(a * (SCALE as int), b)
}

/// The magnitude of a product is the product of the magnitudes.
pub proof fn lemma_mag_mul(a: int, b: int)
    by (nonlinear_arith)
    ensures
        mag(a * b) == mag(a) * mag(b),
{
}

/// Truncated division lies within one unit of the exact quotient, on either
/// side of zero, and never grows the magnitude faster than the divisor shrinks it.
pub proof fn lemma_tdiv(a: int, b: int)
    requires
        b > 0,
    ensures
        a >= 0 ==> tdiv(a, b) * b <= a < (tdiv(a, b) + 1) * b,
        a < 0 ==> (tdiv(a, b) - 1) * b < a <= tdiv(a, b) * b,
        mag(tdiv(a, b)) * b <= mag(a),
        (mag(tdiv(a, b)) + 1) * b > mag(a),
        a >= 0 ==> tdiv(a, b) >= 0,
        a <= 0 ==> tdiv(a, b) <= 0,
{
    if a >= 0 {
        vstd::arithmetic::div_mod::lemma_fundamental_div_mod(a, b);
        vstd::arithmetic::div_mod::lemma_remainder_lower(a, b);
        vstd::arithmetic::div_mod::lemma_remainder_upper(a, b);
        vstd::arithmetic::div_mod::lemma_div_pos_is_pos(a, b);
        assert(tdiv(a, b) * b <= a < (tdiv(a, b) + 1) * b) by (nonlinear_arith)
            requires
                b > 0,
                a >= 0,
                a == b * (a / b) + a % b,
                0 <= a % b < b,
                tdiv(a, b) == a / b,
        {}
        assert(mag(tdiv(a, b)) * b <= mag(a) && (mag(tdiv(a, b)) + 1) * b > mag(a))
            by (nonlinear_arith)
            requires
                b > 0,
                a >= 0,
                tdiv(a, b) >= 0,
                tdiv(a, b) * b <= a < (tdiv(a, b) + 1) * b,
                mag(a) == a,
                mag(tdiv(a, b)) == tdiv(a, b),
        {}
    } else {
        let n = -a;
        vstd::arithmetic::div_mod::lemma_fundamental_div_mod(n, b);
        vstd::arithmetic::div_mod::lemma_remainder_lower(n, b);
        vstd::arithmetic::div_mod::lemma_remainder_upper(n, b);
        vstd::arithmetic::div_mod::lemma_div_pos_is_pos(n, b);
        assert((tdiv(a, b) - 1) * b < a <= tdiv(a, b) * b && mag(tdiv(a, b)) * b <= mag(a) && (mag(
        tdiv(a, b)) + 1) * b > mag(a)) by (nonlinear_arith)
            requires
                b > 0,
                a < 0,
                n == -a,
                n == b * (n / b) + n % b,
                0 <= n % b < b,
                n / b >= 0,
                tdiv(a, b) == -(n / b),
                mag(a) == n,
                mag(tdiv(a, b)) == n / b,
        {}
    }
}

/// The square of the magnitude is the square of the value.
pub proof fn lemma_mag_sq(a: int)
    by (nonlinear_arith)
    ensures
        mag(a) * mag(a) == a * a,
{
}

/// A scaled product of bounded scalars is bounded by the scaled product of the bounds.
pub proof fn lemma_fx_mul_s_bound(a: int, b: int, ba: int, bb: int)
    requires
        mag(a) <= ba,
        mag(b) <= bb,
    ensures
        mag(fx_mul_s(a, b)) <= (ba * bb) / (SCALE as int),
        mag(a * b) <= ba * bb,
{
    lemma_mag_mul(a, b);
    lemma_tdiv(a * b, SCALE as int);
    assert(mag(a) * mag(b) <= ba * bb) by (nonlinear_arith)
        requires
            0 <= mag(a) <= ba,
            0 <= mag(b) <= bb,
    {}
    let q = mag(fx_mul_s(a, b));
    assert(q * (SCALE as int) <= ba * bb);
    vstd::arithmetic::div_mod::lemma_div_is_ordered(q * (SCALE as int), ba * bb, SCALE as int);
    vstd::arithmetic::div_mod::lemma_div_multiples_vanish(q, SCALE as int);
}

/// Unsigned magnitude of a signed scalar.
pub fn mag_u(a: i128) -> (r: u128)
    ensures
        r == mag(a as int),
{
    if a >= 0 {
        a as u128
    } else {
        (-(a + 1)) as u128 + 1
    }
}

/// Division truncated toward zero, as [`tdiv`] specifies.
pub fn fx_tdiv(a: i128, b: i128) -> (r: i128)
    requires
        b > 0,
        -PROD_LIMIT <= a as int <= PROD_LIMIT,
    ensures
        r == tdiv(a as int, b as int),
        mag(r as int) * b <= mag(a as int),
{
    proof {
        lemma_tdiv(a as int, b as int);
    }
    let au: u128 = mag_u(a);
    let bu: u128 = b as u128;
    let q: u128 = au / bu;
    if a < 0 {
        -(q as i128)
    } else {
        q as i128
    }
}

/// Scaled product of two scalars, as [`fx_mul_s`] specifies.
pub fn fx_mul(a: i128, b: i128) -> (r: i128)
    requires
        -PROD_LIMIT <= a * b <= PROD_LIMIT,
    ensures
        r == fx_mul_s(a as int, b as int),
        mag(r as int) * SCALE <= mag((a * b) as int),
{
    let p: i128 = a * b;
    fx_tdiv(p, SCALE)
}

/// Scaled quotient of two scalars, as [`fx_div_s`] specifies.
pub fn fx_div(a: i128, b: i128) -> (r: i128)
    requires
        b > 0,
        -PROD_LIMIT <= a * SCALE <= PROD_LIMIT,
    ensures
        r == fx_div_s(a as int, b as int),
        mag(r as int) * b <= mag((a * SCALE) as int),
{
    let p: i128 = a * SCALE;
    fx_tdiv(p, b)
}

/// Euclidean remainder: the unique representative of `a` modulo `m` in `[0, m)`.
pub fn fx_mod(a: i128, m: i128) -> (r: i128)
    requires
        m > 0,
    ensures
        r == (a as int) % (m as int),
        0 <= r < m,
{
    let au: u128 = mag_u(a);
    let mu: u128 = m as u128;
    let rm: u128 = au % mu;
    if a >= 0 {
        proof {
            vstd::arithmetic::div_mod::lemma_fundamental_div_mod(a as int, m as int);
        }
        rm as i128
    } else {
        proof {
            let n = -(a as int);
            vstd::arithmetic::div_mod::lemma_fundamental_div_mod(n, m as int);
            vstd::arithmetic::div_mod::lemma_remainder_lower(n, m as int);
            vstd::arithmetic::div_mod::lemma_remainder_upper(n, m as int);
            // a == (-(n / m) - 1) * m + (m - n % m) when the remainder is non-zero
            if n % (m as int) != 0 {
                assert(a as int == (m as int) * (-(n / (m as int)) - 1) + ((m as int) - n % (
                m as int))) by (nonlinear_arith)
                    requires
                        n == (m as int) * (n / (m as int)) + n % (m as int),
                        a as int == -n,
                {}
                vstd::arithmetic::div_mod::lemma_mod_multiples_vanish(
                    -(n / (m as int)) - 1,
                    (m as int) - n % (m as int),
                    m as int,
                );
                vstd::arithmetic::div_mod::lemma_small_mod(
                    ((m as int) - n % (m as int)) as nat,
                    m as nat,
                );
            } else {
                assert(a as int == (m as int) * (-(n / (m as int))) + 0) by (nonlinear_arith)
                    requires
                        n == (m as int) * (n / (m as int)) + n % (m as int),
                        n % (m as int) == 0,
                        a as int == -n,
                {}
                vstd::arithmetic::div_mod::lemma_mod_multiples_vanish(-(n / (m as int)), 0, m as int);
                vstd::arithmetic::div_mod::lemma_small_mod(0nat, m as nat);
            }
        }
        if rm == 0 {
            0
        } else {
            m - rm as i128
        }
    }
}

} // verus!
