//! Greenwich Mean Sidereal Time and the equation of the equinoxes.

use vstd::prelude::*;
use crate::fx::{fx_mod, fx_mul, fx_mul_s, fx_tdiv, mag, tdiv, SCALE};

verus! {

/// One full circle, 2*pi radians, as a scaled scalar.
pub const TWO_PI: i128 = 628_318_530_717_959;

/// Ratio of the solar day to the sidereal day (about 1.00273790934), scaled.
pub const SIDEREAL_RATIO: i128 = 100_273_790_934_000;

/// Constant coefficient of the GMST polynomial at 0h UT1, in scaled seconds.
pub const GMST_C0: i128 = 2_411_054_841_000_000_000;

/// Linear coefficient of the GMST polynomial, scaled seconds per century.
pub const GMST_C1: i128 = 864_018_481_286_600_000_000;

/// Quadratic coefficient of the GMST polynomial, scaled.
pub const GMST_C2: i128 = 9_310_400_000_000;

/// Cubic coefficient of the GMST polynomial, scaled.
pub const GMST_C3: i128 = -620_000_000;

/// Modified Julian date of the J2000.0 epoch (51544.5 days), scaled.
pub const T2000: i128 = 5_154_450_000_000_000_000;

/// Days in a Julian century.
pub const DAYS_PER_CENTURY: i128 = 36_525;

/// Seconds in a day.
pub const SECONDS_PER_DAY: i128 = 86_400;

/// Radians per arcsecond, as a scaled scalar.
pub const RADSEC: i128 = 484_813_681;

/// Largest magnitude of a scaled modified Julian date the evaluator accepts
/// (ten million days on either side of day zero), so that no intermediate
/// product overflows.
pub const MJD_LIMIT: i128 = 1_000_000_000_000_000_000_000;

/// The epoch with its fractional day removed (still scaled).
pub open spec fn whole_days_s(t: int) -> int {
    t - t % (SCALE as int)
}

/// Julian centuries between the 0h point of the epoch and J2000.0, scaled
/// (truncated toward zero).
pub open spec fn centuries_s(t: int) -> int {
    tdiv(whole_days_s(t) - T2000, DAYS_PER_CENTURY as int)
}

/// GMST at 0h UT1 in scaled seconds: a cubic polynomial in centuries,
/// evaluated in Horner form with scaled products.
pub open spec fn gmst0_secs_s(tc: int) -> int {
    fx_mul_s(fx_mul_s(fx_mul_s(GMST_C3 as int, tc) + GMST_C2, tc) + GMST_C1, tc) + GMST_C0
}

/// GMST at 0h UT1 converted from scaled seconds to scaled radians.
pub open spec fn gmst0_rad_s(tc: int) -> int {
    tdiv(fx_mul_s(gmst0_secs_s(tc), TWO_PI as int), SECONDS_PER_DAY as int)
}

/// GMST before normalization: the 0h value plus the fractional-day advance
/// at the sidereal rate.
pub open spec fn gmst_raw_s(t: int) -> int {
    gmst0_rad_s(centuries_s(t)) + fx_mul_s(
        fx_mul_s(t % (SCALE as int), TWO_PI as int),
        SIDEREAL_RATIO as int,
    )
}

/// Greenwich Mean Sidereal Time in scaled radians, reduced into `[0, TWO_PI)`.
pub open spec fn gmst_s(t: int) -> int {
    gmst_raw_s(t) % (TWO_PI as int)
}

/// Greenwich Mean Sidereal Time of a UT1 epoch `t` (scaled modified Julian
/// date), in scaled radians, always in `[0, TWO_PI)`.
pub fn gmst(t: i128) -> (r: i128)
    requires
        -MJD_LIMIT <= t <= MJD_LIMIT,
    ensures
        r == gmst_s(t as int),
        0 <= r < TWO_PI,
{
    let f: i128 = fx_mod(t, SCALE);
    let w: i128 = t - f;
    let num: i128 = w - T2000;
    let tc: i128 = fx_tdiv(num, DAYS_PER_CENTURY);
    proof {
        assert(mag(tc as int) <= 28_000_000_000_000_000);
    }
    let p1: i128 = fx_mul(GMST_C3, tc) + GMST_C2;
    proof {
        assert(mag(p1 as int) <= 9_500_000_000_000);
        crate::fx::lemma_fx_mul_s_bound(p1 as int, tc as int, 9_500_000_000_000, 28_000_000_000_000_000);
    }
    let p2: i128 = fx_mul(p1, tc) + GMST_C1;
    proof {
        assert(mag(p2 as int) <= 864_100_000_000_000_000_000);
        crate::fx::lemma_fx_mul_s_bound(
            p2 as int,
            tc as int,
            864_100_000_000_000_000_000,
            28_000_000_000_000_000,
        );
    }
    let p3: i128 = fx_mul(p2, tc) + GMST_C0;
    proof {
        assert(mag(p3 as int) <= 245_000_000_000_000_000_000_000);
    }
    let g0: i128 = fx_tdiv(fx_mul(p3, TWO_PI), SECONDS_PER_DAY);
    let h: i128 = fx_mul(f, TWO_PI);
    let raw: i128 = g0 + fx_mul(h, SIDEREAL_RATIO);
    fx_mod(raw, TWO_PI)
}

/// GMST's advance over one solar day, reduced modulo a full circle.
pub open spec fn daily_advance_s(t: int) -> int {
    (gmst_s(t + SCALE as int) - gmst_s(t)) % (TWO_PI as int)
}

/// The nominal advance of GMST per solar day: a full circle times
/// (SIDEREAL_RATIO - 1), about 0.0172 radians, scaled.
pub const GMST_DAILY_DRIFT: i128 = 1_720_279_173_748;

/// Periodicity law: over one solar day, GMST advances by one extra sidereal
/// turn fraction, `TWO_PI * (SIDEREAL_RATIO - 1)`, to within `1.5e7` scaled
/// units (1.5e-7 radians), for every epoch the evaluator accepts.
pub proof fn lemma_gmst_daily_advance(t: int)
    requires
        -MJD_LIMIT <= t <= MJD_LIMIT,
    ensures
        GMST_DAILY_DRIFT - 15_000_000 <= daily_advance_s(t) <= GMST_DAILY_DRIFT + 15_000_000,
{
    let s = SCALE as int;
    let tp = TWO_PI as int;
    let b = DAYS_PER_CENTURY as int;
    // the fractional day is unchanged, the whole-day count grows by one day
    vstd::arithmetic::div_mod::lemma_mod_multiples_vanish(1, t, s);
    assert((t + s) % s == t % s);
    let num = whole_days_s(t) - T2000;
    assert(whole_days_s(t + s) - T2000 == num + s);
    let tc = centuries_s(t);
    let tc2 = centuries_s(t + s);
    crate::fx::lemma_tdiv(num, b);
    crate::fx::lemma_tdiv(num + s, b);
    vstd::arithmetic::div_mod::lemma_mod_bound(t, s);
    assert(mag(tc) <= 27_519_634_496_919_918 && mag(tc2) <= 27_519_634_496_919_918);
    let dtc = tc2 - tc;
    assert(b * tc > num - b && b * tc <= num + b);
    assert(b * tc2 > num + s - b && b * tc2 <= num + s + b);
    assert(2_737_850_786 <= dtc <= 2_737_850_789);
    // first Horner step: the cubic coefficient
    let r1 = fx_mul_s(GMST_C3 as int, tc);
    let r1b = fx_mul_s(GMST_C3 as int, tc2);
    crate::fx::lemma_tdiv(GMST_C3 * tc, s);
    crate::fx::lemma_tdiv(GMST_C3 * tc2, s);
    assert(mag(r1) <= 170_621_733_881 && mag(r1b) <= 170_621_733_881);
    let dr1 = r1b - r1;
    assert(s * r1 > GMST_C3 * tc - s && s * r1 <= GMST_C3 * tc + s);
    assert(s * r1b > GMST_C3 * tc2 - s && s * r1b <= GMST_C3 * tc2 + s);
    assert(GMST_C3 * tc2 - GMST_C3 * tc == GMST_C3 * dtc) by (nonlinear_arith)
        requires
            tc2 == tc + dtc,
    {}
    assert(mag(dr1) <= 16_977);
    // second Horner step: the quadratic coefficient joins
    let p1 = r1 + GMST_C2;
    let p1b = r1b + GMST_C2;
    assert(mag(p1) <= 9_481_021_733_881 && mag(p1b) <= 9_481_021_733_881);
    let r2 = fx_mul_s(p1, tc);
    let r2b = fx_mul_s(p1b, tc2);
    crate::fx::lemma_tdiv(p1 * tc, s);
    crate::fx::lemma_tdiv(p1b * tc2, s);
    crate::fx::lemma_fx_mul_s_bound(p1, tc, 9_481_021_733_881, 27_519_634_496_919_918);
    crate::fx::lemma_fx_mul_s_bound(p1b, tc2, 9_481_021_733_881, 27_519_634_496_919_918);
    assert(mag(r2) <= 2_609_142_527_737_591 && mag(r2b) <= 2_609_142_527_737_591);
    let dr2 = r2b - r2;
    assert(p1b * tc2 - p1 * tc == p1b * dtc + dr1 * tc) by (nonlinear_arith)
        requires
            tc2 == tc + dtc,
            p1b == p1 + dr1,
    {}
    crate::fx::lemma_mag_mul(p1b, dtc);
    crate::fx::lemma_mag_mul(dr1, tc);
    assert(mag(p1b) * mag(dtc) <= 9_481_021_733_881 * 2_737_850_789) by (nonlinear_arith)
        requires
            0 <= mag(p1b) <= 9_481_021_733_881,
            0 <= mag(dtc) <= 2_737_850_789,
    {}
    assert(mag(dr1) * mag(tc) <= 16_977 * 27_519_634_496_919_918) by (nonlinear_arith)
        requires
            0 <= mag(dr1) <= 16_977,
            0 <= mag(tc) <= 27_519_634_496_919_918,
    {}
    assert(mag(p1b * tc2 - p1 * tc) <= 26_424_823_669_486_453_329_995);
    assert(s * r2 > p1 * tc - s && s * r2 <= p1 * tc + s);
    assert(s * r2b > p1b * tc2 - s && s * r2b <= p1b * tc2 + s);
    assert(mag(dr2) <= 264_248_239);
    // third Horner step: the linear coefficient dominates the daily drift
    let p2 = r2 + GMST_C1;
    let p2b = r2b + GMST_C1;
    assert(864_015_872_144_072_262_409 <= p2b <= 864_021_090_429_127_737_591);
    let r3 = fx_mul_s(p2, tc);
    let r3b = fx_mul_s(p2b, tc2);
    crate::fx::lemma_tdiv(p2 * tc, s);
    crate::fx::lemma_tdiv(p2b * tc2, s);
    let dr3 = r3b - r3;
    assert(p2b * tc2 - p2 * tc == p2b * dtc + dr2 * tc) by (nonlinear_arith)
        requires
            tc2 == tc + dtc,
            p2b == p2 + dr2,
    {}
    assert(p2b * dtc >= 864_015_872_144_072_262_409 * 2_737_850_786 && p2b * dtc
        <= 864_021_090_429_127_737_591 * 2_737_850_789) by (nonlinear_arith)
        requires
            864_015_872_144_072_262_409 <= p2b <= 864_021_090_429_127_737_591,
            2_737_850_786 <= dtc <= 2_737_850_789,
    {}
    crate::fx::lemma_mag_mul(dr2, tc);
    assert(mag(dr2) * mag(tc) <= 264_248_239 * 27_519_634_496_919_918) by (nonlinear_arith)
        requires
            0 <= mag(dr2) <= 264_248_239,
            0 <= mag(tc) <= 27_519_634_496_919_918,
    {}
    assert(s * r3 > p2 * tc - s && s * r3 <= p2 * tc + s);
    assert(s * r3b > p2b * tc2 - s && s * r3b <= p2b * tc2 + s);
    assert(23_655_392_626_511_698 <= dr3 <= 23_655_680_961_589_817);
    // the radian conversion keeps the interval tight
    let p3 = r3 + GMST_C0;
    let p3b = r3b + GMST_C0;
    assert(p3b - p3 == dr3);
    let m1 = fx_mul_s(p3, tp);
    let m2 = fx_mul_s(p3b, tp);
    crate::fx::lemma_tdiv(p3 * tp, s);
    crate::fx::lemma_tdiv(p3b * tp, s);
    assert(p3b * tp - p3 * tp == dr3 * tp) by (nonlinear_arith)
        requires
            p3b == p3 + dr3,
    {}
    assert(23_655_392_626_511_698 * tp <= dr3 * tp && dr3 * tp <= 23_655_680_961_589_817 * tp)
        by (nonlinear_arith)
        requires
            23_655_392_626_511_698 <= dr3 <= 23_655_680_961_589_817,
            tp > 0,
    {}
    let dm = m2 - m1;
    assert(s * m1 > p3 * tp - s && s * m1 <= p3 * tp + s);
    assert(s * m2 > p3b * tp - s && s * m2 <= p3b * tp + s);
    assert(148_631_215_386_462_709 <= dm <= 148_633_027_049_189_096);
    // seconds to radians at 0h, then the unchanged fractional-day advance
    let g1 = gmst0_rad_s(tc);
    let g2 = gmst0_rad_s(tc2);
    crate::fx::lemma_tdiv(m1, 86_400);
    crate::fx::lemma_tdiv(m2, 86_400);
    let dg = g2 - g1;
    assert(86_400 * g1 > m1 - 86_400 && 86_400 * g1 <= m1 + 86_400);
    assert(86_400 * g2 > m2 - 86_400 && 86_400 * g2 <= m2 + 86_400);
    assert(1_720_268_696_600 <= dg <= 1_720_289_664_924);
    assert(gmst_raw_s(t + s) - gmst_raw_s(t) == dg);
    // both normalized values differ from the raw ones by whole circles
    vstd::arithmetic::div_mod::lemma_sub_mod_noop(gmst_raw_s(t + s), gmst_raw_s(t), tp);
    vstd::arithmetic::div_mod::lemma_mod_bound(gmst_raw_s(t + s), tp);
    vstd::arithmetic::div_mod::lemma_mod_bound(gmst_raw_s(t), tp);
    vstd::arithmetic::div_mod::lemma_sub_mod_noop(gmst_s(t + s), gmst_s(t), tp);
    vstd::arithmetic::div_mod::lemma_mod_twice(gmst_raw_s(t + s), tp);
    vstd::arithmetic::div_mod::lemma_mod_twice(gmst_raw_s(t), tp);
    vstd::arithmetic::div_mod::lemma_small_mod(dg as nat, tp as nat);
    assert(daily_advance_s(t) == (gmst_raw_s(t + s) - gmst_raw_s(t)) % tp);
    assert(daily_advance_s(t) == dg);
}

/// The equation of the equinoxes: the nutation in longitude (in scaled
/// arcseconds) converted to radians and projected onto the equator by the
/// cosine of the mean obliquity.  The obliquity and nutation values come from
/// external precession/nutation collaborators.
pub fn equequ(dpsi_arcsec: i128, cos_obliquity: i128) -> (r: i128)
    requires
        mag(dpsi_arcsec as int) <= 10_000_000_000_000_000,
        mag(cos_obliquity as int) <= SCALE,
    ensures
        r == fx_mul_s(fx_mul_s(RADSEC as int, dpsi_arcsec as int), cos_obliquity as int),
        mag(r as int) <= SCALE,
{
    proof {
        crate::fx::lemma_fx_mul_s_bound(
            RADSEC as int,
            dpsi_arcsec as int,
            RADSEC as int,
            10_000_000_000_000_000,
        );
        crate::fx::lemma_fx_mul_s_bound(
            fx_mul_s(RADSEC as int, dpsi_arcsec as int),
            cos_obliquity as int,
            485_000_000_000,
            SCALE as int,
        );
    }
    fx_mul(fx_mul(RADSEC, dpsi_arcsec), cos_obliquity)
}

} // verus!
