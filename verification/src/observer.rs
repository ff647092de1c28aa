//! The observer-state composer: Earth-fixed coordinates of an observatory,
//! Greenwich Apparent Sidereal Time, and the rotation of the Earth-fixed
//! position and velocity into the mean ecliptic J2000 frame.

use vstd::prelude::*;
use crate::fx::{fx_mul, fx_mul_s, mag, tdiv, SCALE};
use crate::mat3::{col_s, dot3_s, mat_bounded, rot_axis3, Mat3};
use crate::parallax::{lat_alt_to_parallax, lat_trig_ok, rho_cos_s, rho_sin_s, HEIGHT_LIMIT};
use crate::sidereal::{gmst, gmst_s, MJD_LIMIT, SIDEREAL_RATIO, TWO_PI};
use crate::vec3::{vec_bounded, Vec3};

verus! {

/// Earth equatorial radius in astronomical units, as a scaled scalar.
pub const ERAU: i128 = 4_263_521_245;

/// A UT1 modified Julian date, in scaled days.  Epochs are tagged with their
/// time scale by type: silently mixing scales is the main correctness hazard
/// of this computation.
#[derive(Clone, Copy, PartialEq, Eq, Structural, Debug)]
pub struct Ut1Mjd {
    pub days: i128,
}

/// The UTC-to-UT1 correction data could not be obtained from its provider.
#[derive(Clone, Copy, PartialEq, Eq, Structural, Debug)]
pub struct TimeResolutionError;

/// Sines and cosines of the observer's geographic longitude and latitude,
/// as scaled scalars.
#[derive(Clone, Copy, PartialEq, Eq, Structural, Debug)]
pub struct SiteTrig {
    pub sin_lon: i128,
    pub cos_lon: i128,
    pub sin_lat: i128,
    pub cos_lat: i128,
}

/// Validity of the trigonometric site description: each pair is the sine and
/// cosine of a real angle, so it lies on the unit circle to the accuracy of
/// the scaled representation.
pub open spec fn site_trig_ok(s: SiteTrig) -> bool {
    mag(s.sin_lon as int) <= SCALE && mag(s.cos_lon as int) <= SCALE && mag(
        s.sin_lon * s.sin_lon + s.cos_lon * s.cos_lon - (SCALE as int) * (SCALE as int),
    ) <= 4 * SCALE && lat_trig_ok(s.sin_lat as int, s.cos_lat as int)
}

/// First component of the Earth-fixed position, scaled astronomical units.
pub open spec fn body_fixed_x_s(s: SiteTrig, height: int) -> int {
    fx_mul_s(ERAU as int, fx_mul_s(rho_cos_s(s.sin_lat as int, s.cos_lat as int, height), s.cos_lon as int))
}

/// Second component of the Earth-fixed position.
pub open spec fn body_fixed_y_s(s: SiteTrig, height: int) -> int {
    fx_mul_s(ERAU as int, fx_mul_s(rho_cos_s(s.sin_lat as int, s.cos_lat as int, height), s.sin_lon as int))
}

/// Third component of the Earth-fixed position.
pub open spec fn body_fixed_z_s(s: SiteTrig, height: int) -> int {
    fx_mul_s(ERAU as int, rho_sin_s(s.sin_lat as int, s.cos_lat as int, height))
}

/// Earth-fixed position of the observatory in scaled astronomical units,
/// built from the parallax projection factors and the longitude.
pub fn body_fixed_coord(site: &SiteTrig, height: i128) -> (r: Vec3)
    requires
        site_trig_ok(*site),
        mag(height as int) <= HEIGHT_LIMIT,
    ensures
        r.x == body_fixed_x_s(*site, height as int),
        r.y == body_fixed_y_s(*site, height as int),
        r.z == body_fixed_z_s(*site, height as int),
        vec_bounded(r, 20_000_000_000),
{
    let (rho_cos, rho_sin) = lat_alt_to_parallax(site.sin_lat, site.cos_lat, height);
    proof {
        crate::fx::lemma_fx_mul_s_bound(rho_cos as int, site.cos_lon as int, 4 * SCALE as int, SCALE as int);
        crate::fx::lemma_fx_mul_s_bound(rho_cos as int, site.sin_lon as int, 4 * SCALE as int, SCALE as int);
        crate::fx::lemma_fx_mul_s_bound(
            ERAU as int,
            fx_mul_s(rho_cos as int, site.cos_lon as int),
            ERAU as int,
            4 * SCALE as int,
        );
        crate::fx::lemma_fx_mul_s_bound(
            ERAU as int,
            fx_mul_s(rho_cos as int, site.sin_lon as int),
            ERAU as int,
            4 * SCALE as int,
        );
        crate::fx::lemma_fx_mul_s_bound(ERAU as int, rho_sin as int, ERAU as int, 4 * SCALE as int);
    }
    let x: i128 = fx_mul(ERAU, fx_mul(rho_cos, site.cos_lon));
    let y: i128 = fx_mul(ERAU, fx_mul(rho_cos, site.sin_lon));
    let z: i128 = fx_mul(ERAU, rho_sin);
    Vec3 { x, y, z }
}

/// Third component of the Earth rotation-rate pseudovector, in scaled
/// radians per day: one full circle per sidereal day.
pub open spec fn earth_spin_rate_s() -> int {
    fx_mul_s(TWO_PI as int, SIDEREAL_RATIO as int)
}

/// The Earth rotation-rate pseudovector `(0, 0, TWO_PI * SIDEREAL_RATIO)`,
/// directed along the spin axis, in scaled radians per day.
pub fn earth_rotation_rate() -> (r: Vec3)
    ensures
        r.x == 0 && r.y == 0,
        r.z == earth_spin_rate_s(),
        0 < r.z < 7 * SCALE,
{
    let z: i128 = fx_mul(TWO_PI, SIDEREAL_RATIO);
    Vec3 { x: 0, y: 0, z }
}

/// Greenwich Apparent Sidereal Time: GMST of the resolved UT1 epoch plus the
/// equation of the equinoxes, in scaled radians (not renormalized).  Fails
/// exactly when the UT1 epoch itself could not be resolved, as the caller's
/// time-correction provider reports.
pub fn gast(ut1: Result<Ut1Mjd, TimeResolutionError>, equinox: i128) -> (r: Result<
    i128,
    TimeResolutionError,
>)
    requires
        ut1 matches Ok(u) ==> -MJD_LIMIT <= u.days <= MJD_LIMIT,
        mag(equinox as int) <= SCALE,
    ensures
        ut1 matches Ok(u) ==> r == Ok::<i128, TimeResolutionError>(
            (gmst_s(u.days as int) + equinox) as i128,
        ),
        ut1 matches Err(e) ==> r == Err::<i128, TimeResolutionError>(e),
{
    match ut1 {
        Ok(u) => Ok(gmst(u.days) + equinox),
        Err(e) => Err(e),
    }
}

/// Row `j` of the applied Earth factor for a sidereal angle with cosine `c`
/// and sine `s`: the transpose of the rotation by minus the angle about the
/// spin axis, which carries Earth-fixed coordinates into the equator-of-date
/// frame.  Its first row is `(c, -s, 0)`: the body-fixed x axis is turned
/// forward by the sidereal angle.
pub open spec fn earth_rot_t_row_s(c: int, s: int, j: int) -> (int, int, int) {
    if j == 0 {
        (c, -s, 0)
    } else if j == 1 {
        (s, c, 0)
    } else {
        (0, 0, SCALE as int)
    }
}

/// Column `j` of the applied Earth factor above.
pub open spec fn earth_rot_t_col_s(c: int, s: int, j: int) -> (int, int, int) {
    if j == 0 {
        (c, s, 0)
    } else if j == 1 {
        (-s, c, 0)
    } else {
        (0, 0, SCALE as int)
    }
}

/// Entry of the composed rotation: row `i` of the transposed frame rotation
/// times column `j` of the transposed Earth rotation, with scaled products.
pub open spec fn composed_entry_s(frame: Mat3, c: int, s: int, i: int, j: int) -> int {
    dot3_s(col_s(frame, i), earth_rot_t_col_s(c, s, j))
}

/// Row `i` of the composed rotation.
pub open spec fn composed_row_s(frame: Mat3, c: int, s: int, i: int) -> (int, int, int) {
    (
        composed_entry_s(frame, c, s, i, 0),
        composed_entry_s(frame, c, s, i, 1),
        composed_entry_s(frame, c, s, i, 2),
    )
}

/// The composed rotation applied to a vector, one component at a time.
pub open spec fn composed_apply_s(frame: Mat3, c: int, s: int, v: (int, int, int), i: int) -> int {
    dot3_s(composed_row_s(frame, c, s, i), v)
}

/// The Earth-fixed position as a triple of integers.
pub open spec fn dxbf_s(site: SiteTrig, height: int) -> (int, int, int) {
    (body_fixed_x_s(site, height), body_fixed_y_s(site, height), body_fixed_z_s(site, height))
}

/// The Earth-fixed velocity: the rotation-rate pseudovector crossed with the
/// Earth-fixed position.
pub open spec fn dvbf_s(site: SiteTrig, height: int) -> (int, int, int) {
    let b = dxbf_s(site, height);
    (
        fx_mul_s(0, b.2) - fx_mul_s(earth_spin_rate_s(), b.1),
        fx_mul_s(earth_spin_rate_s(), b.0) - fx_mul_s(0, b.2),
        fx_mul_s(0, b.1) - fx_mul_s(0, b.0),
    )
}

/// Observer position and velocity relative to the Earth's center of mass, in
/// the mean ecliptic J2000 frame (scaled astronomical units and astronomical
/// units per day).
///
/// `cos_gast` and `sin_gast` are the cosine and sine of the Greenwich
/// Apparent Sidereal Time returned by [`gast`]; `frame` is the rotation from
/// the mean equator of date to the mean ecliptic J2000 frame, supplied by an
/// external precession/nutation collaborator.  The composer transposes both
/// rotations and applies their product to the Earth-fixed position and to the
/// rigid-rotation velocity.
pub fn pvobs(site: &SiteTrig, height: i128, cos_gast: i128, sin_gast: i128, frame: &Mat3) -> (pv: (
    Vec3,
    Vec3,
))
    requires
        site_trig_ok(*site),
        mag(height as int) <= HEIGHT_LIMIT,
        mag(cos_gast as int) <= SCALE,
        mag(sin_gast as int) <= SCALE,
        mag(
            cos_gast * cos_gast + sin_gast * sin_gast - (SCALE as int) * (SCALE as int),
        ) <= 4 * SCALE,
        mat_bounded(*frame, 2_000_000_000_000_000_000),
    ensures
        pv.0.x == composed_apply_s(*frame, cos_gast as int, sin_gast as int, dxbf_s(*site, height as int), 0),
        pv.0.y == composed_apply_s(*frame, cos_gast as int, sin_gast as int, dxbf_s(*site, height as int), 1),
        pv.0.z == composed_apply_s(*frame, cos_gast as int, sin_gast as int, dxbf_s(*site, height as int), 2),
        pv.1.x == composed_apply_s(*frame, cos_gast as int, sin_gast as int, dvbf_s(*site, height as int), 0),
        pv.1.y == composed_apply_s(*frame, cos_gast as int, sin_gast as int, dvbf_s(*site, height as int), 1),
        pv.1.z == composed_apply_s(*frame, cos_gast as int, sin_gast as int, dvbf_s(*site, height as int), 2),
{
    let omega: Vec3 = earth_rotation_rate();
    let dxbf: Vec3 = body_fixed_coord(site, height);
    let dvbf: Vec3 = omega.cross(&dxbf);
    proof {
        crate::fx::lemma_fx_mul_s_bound(omega.z as int, dxbf.x as int, 7 * SCALE as int, 20_000_000_000);
        crate::fx::lemma_fx_mul_s_bound(omega.z as int, dxbf.y as int, 7 * SCALE as int, 20_000_000_000);
        assert(fx_mul_s(0, dxbf.z as int) == 0);
        assert(fx_mul_s(0, dxbf.y as int) == 0);
        assert(fx_mul_s(0, dxbf.x as int) == 0);
        assert(vec_bounded(dvbf, 1_000_000_000_000_000));
    }
    // rotation by minus the apparent sidereal angle about the spin axis;
    // its transpose below carries Earth-fixed into equator-of-date coordinates
    let rot: Mat3 = rot_axis3(cos_gast, sin_gast);
    let rot_t: Mat3 = rot.transpose();
    let frame_t: Mat3 = frame.transpose();
    let composed: Mat3 = frame_t.mat_mul(&rot_t);
    let pos: Vec3 = composed.apply(&dxbf);
    let vel: Vec3 = composed.apply(&dvbf);
    (pos, vel)
}

/// The magnitude law: at height zero the squared length of the Earth-fixed
/// position, in scaled units, lies between `(axis ratio * ERAU)^2` and
/// `ERAU^2`, to a relative accuracy of a few parts in a billion — the
/// observatory sits on the reference ellipsoid, between the polar and the
/// equatorial radius.
pub proof fn lemma_body_fixed_magnitude(site: SiteTrig)
    requires
        site_trig_ok(site),
    ensures
        18_055_925_444_180_226_458 <= body_fixed_x_s(site, 0) * body_fixed_x_s(site, 0)
            + body_fixed_y_s(site, 0) * body_fixed_y_s(site, 0) + body_fixed_z_s(site, 0)
            * body_fixed_z_s(site, 0) <= 18_177_613_436_569_985_548,
{
    let sl = site.sin_lat as int;
    let cl = site.cos_lat as int;
    let slon = site.sin_lon as int;
    let clon = site.cos_lon as int;
    crate::parallax::lemma_parallax_on_ellipsoid(sl, cl);
    let cu = crate::parallax::cos_u_s(sl, cl);
    let su = crate::parallax::sin_u_s(sl, cl);
    let rc = rho_cos_s(sl, cl, 0);
    let rs = rho_sin_s(sl, cl, 0);
    assert(crate::parallax::axis_ratio_s() == 99_664_718_710_181);
    // the reduced-latitude components are bounded by the circle law
    crate::fx::lemma_mag_sq(cu);
    crate::fx::lemma_mag_sq(su);
    assert(mag(cu) <= 110_000_000_000_000 && mag(su) <= 110_000_000_000_000) by (nonlinear_arith)
        requires
            mag(cu * cu + su * su - (SCALE as int) * (SCALE as int)) <= 20 * SCALE,
            mag(cu) * mag(cu) == cu * cu,
            mag(su) * mag(su) == su * su,
            mag(cu) >= 0,
            mag(su) >= 0,
            SCALE == 100_000_000_000_000,
    {}
    // each scaled product sits within one scale unit of the exact product
    let a1 = rc * clon;
    let a2 = rc * slon;
    let a3 = 99_664_718_710_181 * su;
    let q1 = fx_mul_s(rc, clon);
    let q2 = fx_mul_s(rc, slon);
    crate::fx::lemma_tdiv(a1, SCALE as int);
    crate::fx::lemma_tdiv(a2, SCALE as int);
    crate::fx::lemma_tdiv(a3, SCALE as int);
    assert(rs == tdiv(a3, SCALE as int));
    assert(mag((SCALE as int) * q1 - a1) <= SCALE);
    assert(mag((SCALE as int) * q2 - a2) <= SCALE);
    assert(mag((SCALE as int) * rs - a3) <= SCALE);
    crate::fx::lemma_mag_mul(rc, clon);
    crate::fx::lemma_mag_mul(rc, slon);
    crate::fx::lemma_mag_mul(99_664_718_710_181, su);
    assert(mag(a1) <= 11_000_000_000_000_000_000_000_000_000 && mag(a2)
        <= 11_000_000_000_000_000_000_000_000_000) by (nonlinear_arith)
        requires
            mag(a1) == mag(rc) * mag(clon),
            mag(a2) == mag(rc) * mag(slon),
            0 <= mag(rc) <= 110_000_000_000_000,
            0 <= mag(clon) <= 100_000_000_000_000,
            0 <= mag(slon) <= 100_000_000_000_000,
    {}
    assert(mag(a3) <= 11_000_000_000_000_000_000_000_000_000) by (nonlinear_arith)
        requires
            mag(a3) == mag(99_664_718_710_181int) * mag(su),
            0 <= mag(su) <= 110_000_000_000_000,
    {}
    assert(mag(rs) <= 110_000_000_000_000);
    // the body-fixed components, first at scale, then squared
    let bx = body_fixed_x_s(site, 0);
    let by = body_fixed_y_s(site, 0);
    let bz = body_fixed_z_s(site, 0);
    crate::fx::lemma_tdiv(4_263_521_245 * q1, SCALE as int);
    crate::fx::lemma_tdiv(4_263_521_245 * q2, SCALE as int);
    crate::fx::lemma_tdiv(4_263_521_245 * rs, SCALE as int);
    assert(bx == tdiv(4_263_521_245 * q1, SCALE as int));
    assert(by == tdiv(4_263_521_245 * q2, SCALE as int));
    assert(bz == tdiv(4_263_521_245 * rs, SCALE as int));
    assert(mag(10_000_000_000_000_000_000_000_000_000 * bx - 4_263_521_245 * a1)
        <= 10_000_426_352_124_500_000_000_000_000);
    assert(mag(10_000_000_000_000_000_000_000_000_000 * by - 4_263_521_245 * a2)
        <= 10_000_426_352_124_500_000_000_000_000);
    assert(mag(10_000_000_000_000_000_000_000_000_000 * bz - 426_352_124_500_000_000_000_000 * rs)
        <= 10_000_426_352_124_500_000_000_000_000);
    assert(mag(4_263_521_245 * a1) <= 46_898_733_695_000_000_000_000_000_000_000_000_000);
    assert(mag(4_263_521_245 * a2) <= 46_898_733_695_000_000_000_000_000_000_000_000_000);
    assert(mag(426_352_124_500_000_000_000_000 * rs)
        <= 46_898_733_695_000_000_000_000_000_000_000_000_000);
    crate::mat3::lemma_prod_close(
        10_000_000_000_000_000_000_000_000_000 * bx,
        4_263_521_245 * a1,
        10_000_000_000_000_000_000_000_000_000 * bx,
        4_263_521_245 * a1,
        10_000_426_352_124_500_000_000_000_000,
        46_898_733_695_000_000_000_000_000_000_000_000_000,
    );
    crate::mat3::lemma_prod_close(
        10_000_000_000_000_000_000_000_000_000 * by,
        4_263_521_245 * a2,
        10_000_000_000_000_000_000_000_000_000 * by,
        4_263_521_245 * a2,
        10_000_426_352_124_500_000_000_000_000,
        46_898_733_695_000_000_000_000_000_000_000_000_000,
    );
    crate::mat3::lemma_prod_close(
        10_000_000_000_000_000_000_000_000_000 * bz,
        426_352_124_500_000_000_000_000 * rs,
        10_000_000_000_000_000_000_000_000_000 * bz,
        426_352_124_500_000_000_000_000 * rs,
        10_000_426_352_124_500_000_000_000_000,
        46_898_733_695_000_000_000_000_000_000_000_000_000,
    );
    crate::mat3::lemma_reassoc(
        10_000_000_000_000_000_000_000_000_000,
        bx,
        10_000_000_000_000_000_000_000_000_000,
        bx,
    );
    crate::mat3::lemma_reassoc(
        10_000_000_000_000_000_000_000_000_000,
        by,
        10_000_000_000_000_000_000_000_000_000,
        by,
    );
    crate::mat3::lemma_reassoc(
        10_000_000_000_000_000_000_000_000_000,
        bz,
        10_000_000_000_000_000_000_000_000_000,
        bz,
    );
    crate::mat3::lemma_reassoc(4_263_521_245, a1, 4_263_521_245, a1);
    crate::mat3::lemma_reassoc(4_263_521_245, a2, 4_263_521_245, a2);
    crate::mat3::lemma_reassoc(426_352_124_500_000_000_000_000, rs, 426_352_124_500_000_000_000_000, rs);
    // the squared sum, against the exact products
    assert(mag(
        100_000_000_000_000_000_000_000_000_000_000_000_000_000_000_000_000_000_000 * (bx * bx)
            + 100_000_000_000_000_000_000_000_000_000_000_000_000_000_000_000_000_000_000 * (by
            * by) + 100_000_000_000_000_000_000_000_000_000_000_000_000_000_000_000_000_000_000 * (
        bz * bz) - (18_177_613_406_566_350_025 * (a1 * a1) + 18_177_613_406_566_350_025 * (a2 * a2)
            + 181_776_134_065_663_500_250_000_000_000_000_000_000_000_000_000 * (rs * rs)),
    ) <= 2_900_000_000_000_000_000_000_000_000_000_000_000_000_000_000_000_000_000_000_000_000_000);
    // the polar term: the scaled factor against the axis-ratio product
    crate::fx::lemma_mag_sq(rs);
    crate::mat3::lemma_prod_close(
        100_000_000_000_000 * rs,
        a3,
        100_000_000_000_000 * rs,
        a3,
        100_000_000_000_000,
        11_000_000_000_000_000_000_000_000_000,
    );
    crate::mat3::lemma_reassoc(100_000_000_000_000, rs, 100_000_000_000_000, rs);
    crate::mat3::lemma_reassoc(99_664_718_710_181, su, 99_664_718_710_181, su);
    assert(mag(
        181_776_134_065_663_500_250_000_000_000_000_000_000_000_000_000 * (rs * rs) - (
        180_559_254_741_838_376_439_914_591_720_155_324_704_018_669_025 * (su * su)),
    ) <= 40_000_000_000_000_000_000_000_000_000_000_000_000_000_000_000_000_000_000_000_000);
    // the equatorial terms: the longitude pair collapses onto the unit circle
    assert(a1 * a1 + a2 * a2 == (rc * rc) * (clon * clon + slon * slon)) by (nonlinear_arith)
        requires
            a1 == rc * clon,
            a2 == rc * slon,
    {}
    crate::fx::lemma_mag_sq(rc);
    assert(mag(
        (rc * rc) * (clon * clon + slon * slon) - 10_000_000_000_000_000_000_000_000_000 * (rc
            * rc),
    ) <= 4_840_000_000_000_000_000_000_000_000_000_000_000_000_000) by (nonlinear_arith)
        requires
            mag(slon * slon + clon * clon - (SCALE as int) * (SCALE as int)) <= 4 * SCALE,
            mag(rc) * mag(rc) == rc * rc,
            0 <= mag(rc) <= 110_000_000_000_000,
            SCALE == 100_000_000_000_000,
    {}
    assert(mag(
        18_177_613_406_566_350_025 * (a1 * a1) + 18_177_613_406_566_350_025 * (a2 * a2)
            - 181_776_134_065_663_500_250_000_000_000_000_000_000_000_000_000 * (rc * rc),
    ) <= 90_000_000_000_000_000_000_000_000_000_000_000_000_000_000_000_000_000_000_000_000)
        by (nonlinear_arith)
        requires
            a1 * a1 + a2 * a2 == (rc * rc) * (clon * clon + slon * slon),
            mag(
                (rc * rc) * (clon * clon + slon * slon) - 10_000_000_000_000_000_000_000_000_000 * (
                rc * rc),
            ) <= 4_840_000_000_000_000_000_000_000_000_000_000_000_000_000,
    {}
    assert(rc == cu);
    assert(mag(
        100_000_000_000_000_000_000_000_000_000_000_000_000_000_000_000_000_000_000 * (bx * bx)
            + 100_000_000_000_000_000_000_000_000_000_000_000_000_000_000_000_000_000_000 * (by
            * by) + 100_000_000_000_000_000_000_000_000_000_000_000_000_000_000_000_000_000_000 * (
        bz * bz) - (181_776_134_065_663_500_250_000_000_000_000_000_000_000_000_000 * (cu * cu)
            + 180_559_254_741_838_376_439_914_591_720_155_324_704_018_669_025 * (su * su)),
    ) <= 3_000_000_000_000_000_000_000_000_000_000_000_000_000_000_000_000_000_000_000_000_000_000);
    // monotone bounds through the circle law
    assert(cu * cu >= 0 && su * su >= 0) by (nonlinear_arith)
    {}
    assert(181_776_134_065_663_500_250_000_000_000_000_000_000_000_000_000 * (su * su)
        >= 180_559_254_741_838_376_439_914_591_720_155_324_704_018_669_025 * (su * su))
        by (nonlinear_arith)
        requires
            su * su >= 0,
    {}
    assert(181_776_134_065_663_500_250_000_000_000_000_000_000_000_000_000 * (cu * cu)
        >= 180_559_254_741_838_376_439_914_591_720_155_324_704_018_669_025 * (cu * cu))
        by (nonlinear_arith)
        requires
            cu * cu >= 0,
    {}
    // upper and lower envelopes of the exact combination
    assert(181_776_134_065_663_500_250_000_000_000_000_000_000_000_000_000 * (cu * cu)
        + 180_559_254_741_838_376_439_914_591_720_155_324_704_018_669_025 * (su * su)
        <= 1_817_761_340_656_998_554_768_131_327_000_500_000_000_000_000_000_000_000_000_000_000_000_000_000_000);
    assert(181_776_134_065_663_500_250_000_000_000_000_000_000_000_000_000 * (cu * cu)
        + 180_559_254_741_838_376_439_914_591_720_155_324_704_018_669_025 * (su * su)
        >= 1_805_592_547_418_022_645_889_662_240_448_673_417_856_746_379_600_591_962_661_950_000_000_000_000_000);
    assert(18_055_925_444_180_226_458 <= bx * bx + by * by + bz * bz <= 18_177_613_436_569_985_548);
}

/// The rigid-rotation speed law: at height zero the Earth-fixed velocity is
/// horizontal (its third component is zero), and its squared length, scaled
/// back up by `SCALE^2`, equals the squared spin rate times the squared
/// equatorial distance `bx^2 + by^2`, to a relative accuracy of a few parts
/// in ten billion.  Together with the Gram bound on the computed composition
/// this pins the speed of the composed observer velocity.
pub proof fn lemma_earth_fixed_speed(site: SiteTrig)
    requires
        site_trig_ok(site),
    ensures
        dvbf_s(site, 0).2 == 0,
        mag(
            10_000_000_000_000_000_000_000_000_000 * (dvbf_s(site, 0).0 * dvbf_s(site, 0).0
                + dvbf_s(site, 0).1 * dvbf_s(site, 0).1) - 396_948_901_969_757_254_231_447_590_436
                * (body_fixed_x_s(site, 0) * body_fixed_x_s(site, 0) + body_fixed_y_s(site, 0)
                * body_fixed_y_s(site, 0)),
        ) <= 2_000_000_000_000_000_000_000_000_000_000_000_000_000,
{
    let sl = site.sin_lat as int;
    let cl = site.cos_lat as int;
    let slon = site.sin_lon as int;
    let clon = site.cos_lon as int;
    crate::parallax::lemma_parallax_on_ellipsoid(sl, cl);
    let cu = crate::parallax::cos_u_s(sl, cl);
    let su = crate::parallax::sin_u_s(sl, cl);
    let rc = rho_cos_s(sl, cl, 0);
    crate::fx::lemma_mag_sq(cu);
    crate::fx::lemma_mag_sq(su);
    assert(mag(cu) <= 110_000_000_000_000 && mag(su) <= 110_000_000_000_000) by (nonlinear_arith)
        requires
            mag(cu * cu + su * su - (SCALE as int) * (SCALE as int)) <= 20 * SCALE,
            mag(cu) * mag(cu) == cu * cu,
            mag(su) * mag(su) == su * su,
            mag(cu) >= 0,
            mag(su) >= 0,
            SCALE == 100_000_000_000_000,
    {}
    // the equatorial components of the position are bounded
    let a1 = rc * clon;
    let a2 = rc * slon;
    let q1 = fx_mul_s(rc, clon);
    let q2 = fx_mul_s(rc, slon);
    crate::fx::lemma_tdiv(a1, SCALE as int);
    crate::fx::lemma_tdiv(a2, SCALE as int);
    crate::fx::lemma_mag_mul(rc, clon);
    crate::fx::lemma_mag_mul(rc, slon);
    assert(mag(a1) <= 11_000_000_000_000_000_000_000_000_000 && mag(a2)
        <= 11_000_000_000_000_000_000_000_000_000) by (nonlinear_arith)
        requires
            mag(a1) == mag(rc) * mag(clon),
            mag(a2) == mag(rc) * mag(slon),
            0 <= mag(rc) <= 110_000_000_000_000,
            0 <= mag(clon) <= 100_000_000_000_000,
            0 <= mag(slon) <= 100_000_000_000_000,
    {}
    let bx = body_fixed_x_s(site, 0);
    let by = body_fixed_y_s(site, 0);
    crate::fx::lemma_tdiv(4_263_521_245 * q1, SCALE as int);
    crate::fx::lemma_tdiv(4_263_521_245 * q2, SCALE as int);
    assert(bx == tdiv(4_263_521_245 * q1, SCALE as int));
    assert(by == tdiv(4_263_521_245 * q2, SCALE as int));
    assert(mag(bx) <= 5_000_000_000 && mag(by) <= 5_000_000_000);
    // the spin rate is a fixed scaled constant
    assert(earth_spin_rate_s() == 630_038_809_891_706);
    let t1 = tdiv(630_038_809_891_706 * by, SCALE as int);
    let t2 = tdiv(630_038_809_891_706 * bx, SCALE as int);
    let vx = dvbf_s(site, 0).0;
    let vy = dvbf_s(site, 0).1;
    assert(fx_mul_s(0, body_fixed_z_s(site, 0)) == 0);
    assert(fx_mul_s(0, by) == 0 && fx_mul_s(0, bx) == 0);
    assert(vx == -t1 && vy == t2);
    assert(dvbf_s(site, 0).2 == 0);
    crate::fx::lemma_tdiv(630_038_809_891_706 * by, SCALE as int);
    crate::fx::lemma_tdiv(630_038_809_891_706 * bx, SCALE as int);
    assert(mag((SCALE as int) * t1 - 630_038_809_891_706 * by) <= SCALE);
    assert(mag((SCALE as int) * t2 - 630_038_809_891_706 * bx) <= SCALE);
    assert(mag(630_038_809_891_706 * by) <= 3_200_000_000_000_000_000_000_000);
    assert(mag(630_038_809_891_706 * bx) <= 3_200_000_000_000_000_000_000_000);
    crate::mat3::lemma_prod_close(
        100_000_000_000_000 * t1,
        630_038_809_891_706 * by,
        100_000_000_000_000 * t1,
        630_038_809_891_706 * by,
        100_000_000_000_000,
        3_200_000_000_000_000_000_000_000,
    );
    crate::mat3::lemma_prod_close(
        100_000_000_000_000 * t2,
        630_038_809_891_706 * bx,
        100_000_000_000_000 * t2,
        630_038_809_891_706 * bx,
        100_000_000_000_000,
        3_200_000_000_000_000_000_000_000,
    );
    crate::mat3::lemma_reassoc(100_000_000_000_000, t1, 100_000_000_000_000, t1);
    crate::mat3::lemma_reassoc(100_000_000_000_000, t2, 100_000_000_000_000, t2);
    crate::mat3::lemma_reassoc(630_038_809_891_706, by, 630_038_809_891_706, by);
    crate::mat3::lemma_reassoc(630_038_809_891_706, bx, 630_038_809_891_706, bx);
    assert(vx * vx == t1 * t1 && vy * vy == t2 * t2) by (nonlinear_arith)
        requires
            vx == -t1,
            vy == t2,
    {}
}

} // verus!
