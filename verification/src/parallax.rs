//! Ellipsoidal parallax: geodetic latitude and height to normalized
//! equatorial and polar projection factors.

use vstd::prelude::*;
use crate::fx::{fx_div, fx_div_s, fx_mul, fx_mul_s, mag, SCALE};

verus! {

/// Earth equatorial semi-axis, in scaled length units.
pub const EARTH_MAJOR_AXIS: i128 = 637_813_700_000_000_000_000;

/// Earth polar semi-axis, in the same scaled length units.
pub const EARTH_MINOR_AXIS: i128 = 635_675_230_000_000_000_000;

/// Largest height magnitude accepted, in the same scaled length units.
pub const HEIGHT_LIMIT: i128 = 100_000_000_000_000_000_000;

/// Holds when `r` is the integer square root of `n`.
pub open spec fn is_sqrt(n: int, r: int) -> bool {
    0 <= r && r * r <= n && n < (r + 1) * (r + 1)
}

/// The integer square root of a non-negative integer.
pub open spec fn sqrt_s(n: int) -> int {
    choose|r: int| #[trigger] is_sqrt(n, r)
}

/// Every non-negative integer has an integer square root.
pub proof fn lemma_sqrt_exists(n: nat)
    ensures
        exists|r: int| #[trigger] is_sqrt(n as int, r),
    decreases n,
{
    if n == 0 {
        assert(is_sqrt(0, 0));
    } else {
        lemma_sqrt_exists((n - 1) as nat);
        let r = choose|r: int| #[trigger] is_sqrt(n - 1, r);
        if (r + 1) * (r + 1) <= n {
            assert((r + 2) * (r + 2) > n) by (nonlinear_arith)
                requires
                    0 <= r && r * r <= n - 1 && n - 1 < (r + 1) * (r + 1),
                    (r + 1) * (r + 1) <= n,
            {}
            assert(is_sqrt(n as int, r + 1));
        } else {
            assert(is_sqrt(n as int, r));
        }
    }
}

/// The integer square root is unique.
pub proof fn lemma_sqrt_unique(n: int, r1: int, r2: int)
    requires
        is_sqrt(n, r1),
        is_sqrt(n, r2),
    ensures
        r1 == r2,
{
    assert(r1 == r2) by (nonlinear_arith)
        requires
            0 <= r1 && r1 * r1 <= n && n < (r1 + 1) * (r1 + 1),
            0 <= r2 && r2 * r2 <= n && n < (r2 + 1) * (r2 + 1),
    {}
}

/// Integer square root: the greatest `r` with `r * r <= n`.
pub fn isqrt(n: u128) -> (r: u128)
    ensures
        is_sqrt(n as int, r as int),
        r == sqrt_s(n as int),
{
    let mut lo: u128 = 0;
    let mut hi: u128 = 0xFFFF_FFFF_FFFF_FFFF;
    while lo < hi
        invariant
            lo <= hi <= 0xFFFF_FFFF_FFFF_FFFF,
            lo * lo <= n,
            n < (hi + 1) * (hi + 1),
        decreases hi - lo,
    {
        let mid: u128 = lo + (hi - lo + 1) / 2;
        proof {
            assert(mid * mid < 0xFFFF_FFFF_FFFF_FFFF_FFFF_FFFF_FFFF_FFFF) by (nonlinear_arith)
                requires
                    mid <= 0xFFFF_FFFF_FFFF_FFFF,
            {}
        }
        let sq: u128 = mid * mid;
        if sq <= n {
            lo = mid;
        } else {
            hi = mid - 1;
        }
    }
    proof {
        lemma_sqrt_exists(n as nat);
        let rr = choose|r: int| #[trigger] is_sqrt(n as int, r);
        lemma_sqrt_unique(n as int, lo as int, rr);
    }
    lo
}

/// The axis ratio of the Earth ellipsoid, scaled.
pub open spec fn axis_ratio_s() -> int {
    fx_div_s(EARTH_MINOR_AXIS as int, EARTH_MAJOR_AXIS as int)
}

/// The scaled product of the axis ratio with the sine of the latitude: the
/// second argument of the reduced-latitude arc tangent.
pub open spec fn reduced_sin_s(sin_lat: int) -> int {
    fx_mul_s(axis_ratio_s(), sin_lat)
}

/// Length of the hypotenuse of the reduced-latitude triangle, scaled.
pub open spec fn hyp_s(sin_lat: int, cos_lat: int) -> int {
    sqrt_s(cos_lat * cos_lat + reduced_sin_s(sin_lat) * reduced_sin_s(sin_lat))
}

/// Cosine of the reduced latitude `u = atan2(sin(lat) * ratio, cos(lat))`.
pub open spec fn cos_u_s(sin_lat: int, cos_lat: int) -> int {
    fx_div_s(cos_lat, hyp_s(sin_lat, cos_lat))
}

/// Sine of the reduced latitude.
pub open spec fn sin_u_s(sin_lat: int, cos_lat: int) -> int {
    fx_div_s(reduced_sin_s(sin_lat), hyp_s(sin_lat, cos_lat))
}

/// The height of the observer divided by the equatorial semi-axis.
pub open spec fn height_factor_s(height: int) -> int {
    fx_div_s(height, EARTH_MAJOR_AXIS as int)
}

/// Normalized radius of the observer projected on the equatorial plane.
pub open spec fn rho_cos_s(sin_lat: int, cos_lat: int, height: int) -> int {
    cos_u_s(sin_lat, cos_lat) + fx_mul_s(height_factor_s(height), cos_lat)
}

/// Normalized radius of the observer projected on the polar axis.
pub open spec fn rho_sin_s(sin_lat: int, cos_lat: int, height: int) -> int {
    fx_mul_s(axis_ratio_s(), sin_u_s(sin_lat, cos_lat)) + fx_mul_s(height_factor_s(height), sin_lat)
}

/// The squared hypotenuse of the reduced-latitude triangle stays within fixed
/// bounds whenever the latitude inputs are valid.
proof fn lemma_hyp_range(sin_lat: int, cos_lat: int)
    requires
        lat_trig_ok(sin_lat, cos_lat),
    ensures
        mag(reduced_sin_s(sin_lat)) <= SCALE,
        2_000_000_000_000_000_000_000_000_000 <= cos_lat * cos_lat + reduced_sin_s(sin_lat)
            * reduced_sin_s(sin_lat) <= 2 * (SCALE as int) * (SCALE as int),
        is_sqrt(
            cos_lat * cos_lat + reduced_sin_s(sin_lat) * reduced_sin_s(sin_lat),
            hyp_s(sin_lat, cos_lat),
        ),
        44_000_000_000_000 <= hyp_s(sin_lat, cos_lat) <= 150_000_000_000_000,
{
    let s = SCALE as int;
    let ratio = axis_ratio_s();
    let a = reduced_sin_s(sin_lat);
    assert(sin_lat * sin_lat + cos_lat * cos_lat >= s * s / 2);
    crate::fx::lemma_fx_mul_s_bound(ratio, sin_lat, s, s);
    assert(cos_lat * cos_lat + a * a <= 2 * s * s) by (nonlinear_arith)
        requires
            mag(cos_lat) <= s,
            mag(a) <= s,
            mag(cos_lat) == if cos_lat >= 0 {
                cos_lat
            } else {
                -cos_lat
            },
            mag(a) == if a >= 0 {
                a
            } else {
                -a
            },
    {}
    if cos_lat * cos_lat >= s * s / 4 {
        assert(a * a >= 0) by (nonlinear_arith)
        {}
        assert(cos_lat * cos_lat + a * a >= 2_000_000_000_000_000_000_000_000_000);
    } else {
        assert(cos_lat * cos_lat >= 0) by (nonlinear_arith)
        {}
        assert(sin_lat * sin_lat >= s * s / 4);
        assert(mag(sin_lat) >= 50_000_000_000_000) by (nonlinear_arith)
            requires
                sin_lat * sin_lat >= (SCALE as int) * (SCALE as int) / 4,
                SCALE == 100_000_000_000_000,
                mag(sin_lat) == if sin_lat >= 0 {
                    sin_lat
                } else {
                    -sin_lat
                },
        {}
        crate::fx::lemma_mag_mul(ratio, sin_lat);
        crate::fx::lemma_tdiv(ratio * sin_lat, s);
        assert((mag(a) + 1) * s > mag(ratio * sin_lat));
        assert(mag(a) >= 49_000_000_000_000);
        assert(a * a >= 2_000_000_000_000_000_000_000_000_000) by (nonlinear_arith)
            requires
                mag(a) >= 49_000_000_000_000,
                mag(a) == if a >= 0 {
                    a
                } else {
                    -a
                },
        {}
    }
    let n = cos_lat * cos_lat + a * a;
    lemma_sqrt_exists(n as nat);
    let hy = hyp_s(sin_lat, cos_lat);
    assert(is_sqrt(n, hy));
    assert(hy <= 150_000_000_000_000) by (nonlinear_arith)
        requires
            0 <= hy,
            hy * hy <= n,
            n <= 20_000_000_000_000_000_000_000_000_000,
    {}
    assert(hy >= 44_000_000_000_000) by (nonlinear_arith)
        requires
            (hy + 1) * (hy + 1) > n,
            hy >= 0,
            n >= 2_000_000_000_000_000_000_000_000_000,
    {}
}

/// The ellipsoid law: at height zero the parallax factors are exactly the
/// cosine of the reduced latitude and the axis ratio times its sine, and the
/// reduced-latitude point lies on the unit circle to the accuracy of the
/// scaled arithmetic: `cos_u^2 + sin_u^2` misses `SCALE^2` by at most
/// `20 * SCALE` (a relative error of a few times `1 / SCALE`).  Equivalently,
/// `rho_cos^2 + (rho_sin / ratio)^2` is 1 to that accuracy.
pub proof fn lemma_parallax_on_ellipsoid(sin_lat: int, cos_lat: int)
    requires
        lat_trig_ok(sin_lat, cos_lat),
    ensures
        rho_cos_s(sin_lat, cos_lat, 0) == cos_u_s(sin_lat, cos_lat),
        rho_sin_s(sin_lat, cos_lat, 0) == fx_mul_s(axis_ratio_s(), sin_u_s(sin_lat, cos_lat)),
        mag(
            cos_u_s(sin_lat, cos_lat) * cos_u_s(sin_lat, cos_lat) + sin_u_s(sin_lat, cos_lat)
                * sin_u_s(sin_lat, cos_lat) - (SCALE as int) * (SCALE as int),
        ) <= 20 * SCALE,
{
    let s = SCALE as int;
    lemma_hyp_range(sin_lat, cos_lat);
    let a = reduced_sin_s(sin_lat);
    let n = cos_lat * cos_lat + a * a;
    let hy = hyp_s(sin_lat, cos_lat);
    let cu = cos_u_s(sin_lat, cos_lat);
    let su = sin_u_s(sin_lat, cos_lat);
    crate::fx::lemma_tdiv(cos_lat * s, hy);
    crate::fx::lemma_tdiv(a * s, hy);
    crate::fx::lemma_mag_mul(cos_lat, s);
    crate::fx::lemma_mag_mul(a, s);
    crate::fx::lemma_mag_sq(cos_lat);
    crate::fx::lemma_mag_sq(a);
    crate::fx::lemma_mag_sq(cu);
    crate::fx::lemma_mag_sq(su);
    let mc = mag(cu);
    let ms = mag(su);
    let bc = mag(cos_lat);
    let ba = mag(a);
    // two-sided sandwiches on the scaled quotients, by magnitude
    assert(mc * hy <= bc * s && (mc + 1) * hy > bc * s);
    assert(ms * hy <= ba * s && (ms + 1) * hy > ba * s);
    assert(mc <= 250_000_000_000_000 && ms <= 250_000_000_000_000) by (nonlinear_arith)
        requires
            mc * hy <= bc * s,
            ms * hy <= ba * s,
            bc <= s,
            ba <= s,
            s == 100_000_000_000_000,
            hy >= 44_000_000_000_000,
            mc >= 0,
            ms >= 0,
    {}
    // upper bound: (cu^2 + su^2) * hy^2 <= n * s^2 < (hy + 1)^2 * s^2
    lemma_sq_le(mc, hy, bc, s);
    lemma_sq_le(ms, hy, ba, s);
    assert((mc * mc + ms * ms) * (hy * hy) <= (bc * bc) * (s * s) + (ba * ba) * (s * s))
        by (nonlinear_arith)
        requires
            (mc * mc) * (hy * hy) <= (bc * bc) * (s * s),
            (ms * ms) * (hy * hy) <= (ba * ba) * (s * s),
    {}
    assert((bc * bc) * (s * s) + (ba * ba) * (s * s) == n * (s * s)) by (nonlinear_arith)
        requires
            n == bc * bc + ba * ba,
    {}
    assert(n * (s * s) < ((hy + 1) * (hy + 1)) * (s * s)) by (nonlinear_arith)
        requires
            n < (hy + 1) * (hy + 1),
            s > 0,
    {}
    assert((s * s + 20 * s) * (hy * hy) >= ((hy + 1) * (hy + 1)) * (s * s)) by (nonlinear_arith)
        requires
            s == 100_000_000_000_000,
            44_000_000_000_000 <= hy <= 150_000_000_000_000,
    {}
    assert(mc * mc + ms * ms < s * s + 20 * s) by (nonlinear_arith)
        requires
            (mc * mc + ms * ms) * (hy * hy) < (s * s + 20 * s) * (hy * hy),
            hy > 0,
    {}
    // lower bound: ((cu + 1)^2 + (su + 1)^2) * hy^2 > n * s^2 >= hy^2 * s^2
    lemma_sq_lt(mc + 1, hy, bc, s);
    lemma_sq_lt(ms + 1, hy, ba, s);
    assert(((mc + 1) * (mc + 1) + (ms + 1) * (ms + 1)) * (hy * hy) > (bc * bc) * (s * s) + (ba
        * ba) * (s * s)) by (nonlinear_arith)
        requires
            ((mc + 1) * (mc + 1)) * (hy * hy) > (bc * bc) * (s * s),
            ((ms + 1) * (ms + 1)) * (hy * hy) > (ba * ba) * (s * s),
    {}
    assert(n * (s * s) >= (hy * hy) * (s * s)) by (nonlinear_arith)
        requires
            n >= hy * hy,
            s >= 0,
    {}
    assert((mc + 1) * (mc + 1) + (ms + 1) * (ms + 1) > s * s) by (nonlinear_arith)
        requires
            ((mc + 1) * (mc + 1) + (ms + 1) * (ms + 1)) * (hy * hy) > (hy * hy) * (s * s),
            hy > 0,
    {}
    assert(mc * mc + ms * ms > s * s - 20 * s) by (nonlinear_arith)
        requires
            (mc + 1) * (mc + 1) + (ms + 1) * (ms + 1) > s * s,
            0 <= mc <= 250_000_000_000_000,
            0 <= ms <= 250_000_000_000_000,
            s == 100_000_000_000_000,
    {}
    // at height zero the height terms vanish
    assert(height_factor_s(0) == 0);
    assert(fx_mul_s(0, cos_lat) == 0);
    assert(fx_mul_s(0, sin_lat) == 0);
}

/// Squaring preserves a non-strict comparison of non-negative products.
proof fn lemma_sq_le(p: int, h: int, q: int, t: int)
    by (nonlinear_arith)
    requires
        p * h <= q * t,
        p >= 0,
        h >= 0,
    ensures
        (p * p) * (h * h) <= (q * q) * (t * t),
{
}

/// Squaring preserves a strict comparison of non-negative products.
proof fn lemma_sq_lt(p: int, h: int, q: int, t: int)
    by (nonlinear_arith)
    requires
        p * h > q * t,
        q * t >= 0,
    ensures
        (p * p) * (h * h) > (q * q) * (t * t),
{
}

/// The trigonometric inputs describe a geodetic latitude: the cosine is
/// non-negative (latitude within ninety degrees of the equator), both
/// components are at most 1, and the pair lies on the unit circle to the
/// accuracy of the scaled representation.
pub open spec fn lat_trig_ok(sin_lat: int, cos_lat: int) -> bool {
    mag(sin_lat) <= SCALE && 0 <= cos_lat <= SCALE && mag(
        sin_lat * sin_lat + cos_lat * cos_lat - (SCALE as int) * (SCALE as int),
    ) <= 4 * SCALE
}

/// Convert latitude (given by its sine and cosine, scaled) and height (in the
/// scaled length unit of the semi-axes) to the two parallax projection
/// factors, normalized to the equatorial semi-axis.
pub fn lat_alt_to_parallax(sin_lat: i128, cos_lat: i128, height: i128) -> (r: (i128, i128))
    requires
        lat_trig_ok(sin_lat as int, cos_lat as int),
        mag(height as int) <= HEIGHT_LIMIT,
    ensures
        r.0 == rho_cos_s(sin_lat as int, cos_lat as int, height as int),
        r.1 == rho_sin_s(sin_lat as int, cos_lat as int, height as int),
        mag(r.0 as int) <= 4 * SCALE,
        mag(r.1 as int) <= 4 * SCALE,
{
    let ratio: i128 = fx_div(EARTH_MINOR_AXIS, EARTH_MAJOR_AXIS);
    proof {
        crate::fx::lemma_fx_mul_s_bound(ratio as int, sin_lat as int, SCALE as int, SCALE as int);
    }
    let a: i128 = fx_mul(ratio, sin_lat);
    proof {
        assert(cos_lat * cos_lat + a * a <= 2 * (SCALE as int) * (SCALE as int))
            by (nonlinear_arith)
            requires
                mag(cos_lat as int) <= SCALE,
                mag(a as int) <= SCALE,
        {}
        assert(a * a >= 0) by (nonlinear_arith)
        {}
        assert(cos_lat * cos_lat >= 0) by (nonlinear_arith)
        {}
    }
    let s2: i128 = cos_lat * cos_lat + a * a;
    proof {
        assert(sin_lat * sin_lat + cos_lat * cos_lat >= (SCALE as int) * (SCALE as int) / 2);
        // the squared hypotenuse stays well away from zero
        if cos_lat * cos_lat >= (SCALE as int) * (SCALE as int) / 4 {
            assert(s2 >= 2_000_000_000_000_000_000_000_000_000);
        } else {
            assert(sin_lat * sin_lat >= (SCALE as int) * (SCALE as int) / 4);
            assert(mag(sin_lat as int) >= 50_000_000_000_000) by (nonlinear_arith)
                requires
                    sin_lat * sin_lat >= (SCALE as int) * (SCALE as int) / 4,
                    SCALE == 100_000_000_000_000,
                    mag(sin_lat as int) == if sin_lat >= 0 {
                        sin_lat as int
                    } else {
                        -(sin_lat as int)
                    },
            {}
            crate::fx::lemma_mag_mul(ratio as int, sin_lat as int);
            crate::fx::lemma_tdiv(ratio * sin_lat, SCALE as int);
            assert((mag(a as int) + 1) * (SCALE as int) > mag((ratio * sin_lat) as int));
            assert(mag(a as int) >= 49_000_000_000_000);
            assert(a * a >= 2_000_000_000_000_000_000_000_000_000) by (nonlinear_arith)
                requires
                    mag(a as int) >= 49_000_000_000_000,
                    mag(a as int) == if a >= 0 {
                        a as int
                    } else {
                        -(a as int)
                    },
            {}
        }
    }
    let hy_u: u128 = isqrt(s2 as u128);
    proof {
        assert(hy_u as int * (hy_u as int) <= 2 * (SCALE as int) * (SCALE as int));
        assert(hy_u <= 150_000_000_000_000) by (nonlinear_arith)
            requires
                hy_u as int * (hy_u as int) <= 2 * (SCALE as int) * (SCALE as int),
                SCALE == 100_000_000_000_000,
        {}
        assert(hy_u >= 44_000_000_000_000) by (nonlinear_arith)
            requires
                (hy_u as int + 1) * (hy_u as int + 1) > 2_000_000_000_000_000_000_000_000_000,
                hy_u >= 0,
        {}
    }
    let hy: i128 = hy_u as i128;
    let cu: i128 = fx_div(cos_lat, hy);
    let su: i128 = fx_div(a, hy);
    proof {
        assert(mag(cu as int) <= 3 * SCALE) by (nonlinear_arith)
            requires
                mag(cu as int) * (hy as int) <= mag((cos_lat * SCALE) as int),
                mag((cos_lat * SCALE) as int) <= 10_000_000_000_000_000_000_000_000_000,
                hy >= 44_000_000_000_000,
                mag(cu as int) >= 0,
                SCALE == 100_000_000_000_000,
        {}
        assert(mag(su as int) <= 3 * SCALE) by (nonlinear_arith)
            requires
                mag(su as int) * (hy as int) <= mag((a * SCALE) as int),
                mag((a * SCALE) as int) <= 10_000_000_000_000_000_000_000_000_000,
                hy >= 44_000_000_000_000,
                mag(su as int) >= 0,
                SCALE == 100_000_000_000_000,
        {}
        crate::fx::lemma_fx_mul_s_bound(ratio as int, su as int, SCALE as int, 3 * SCALE as int);
    }
    let hf: i128 = fx_div(height, EARTH_MAJOR_AXIS);
    proof {
        assert(mag(hf as int) <= 20_000_000_000_000);
        crate::fx::lemma_fx_mul_s_bound(hf as int, cos_lat as int, 20_000_000_000_000, SCALE as int);
        crate::fx::lemma_fx_mul_s_bound(hf as int, sin_lat as int, 20_000_000_000_000, SCALE as int);
    }
    let rc: i128 = cu + fx_mul(hf, cos_lat);
    let rs: i128 = fx_mul(ratio, su) + fx_mul(hf, sin_lat);
    (rc, rs)
}

} // verus!
