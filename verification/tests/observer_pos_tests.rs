//! Tests of the observer-state library against reference geodetic and
//! sidereal-time values (Pan-STARRS 1 at Haleakala), and against the
//! stated laws of the computation.

use observer_pos::{
    body_fixed_coord, equequ, gast, gmst, isqrt, lat_alt_to_parallax, pvobs, Mat3, SiteTrig,
    TimeResolutionError, Ut1Mjd, Vec3, ERAU, SCALE, TWO_PI,
};

const LAT: f64 = 20.707233557;
const LON: f64 = 203.744090000;
const HEIGHT: f64 = 3067.694;

fn fx(x: f64) -> i128 {
    (x * 1.0e14).round() as i128
}

fn fl(v: i128) -> f64 {
    v as f64 / 1.0e14
}

fn site() -> SiteTrig {
    SiteTrig {
        sin_lon: fx(LON.to_radians().sin()),
        cos_lon: fx(LON.to_radians().cos()),
        sin_lat: fx(LAT.to_radians().sin()),
        cos_lat: fx(LAT.to_radians().cos()),
    }
}

#[test]
fn geodetic_to_parallax_test() {
    // latitude and height of Pan-STARRS 1, Haleakala
    let s = site();
    let (pxy1, pz1) = lat_alt_to_parallax(s.sin_lat, s.cos_lat, fx(HEIGHT));
    assert!((fl(pxy1) - 0.9362410003211518).abs() < 1e-10);
    assert!((fl(pz1) - 0.35154299856304305).abs() < 1e-10);
}

#[test]
fn body_fixed_coord_test() {
    // longitude, latitude and height of Pan-STARRS 1, Haleakala
    let obs_fixed_vector = body_fixed_coord(&site(), fx(HEIGHT));
    assert!((fl(obs_fixed_vector.x) - -0.00003653799439776371).abs() < 1e-12);
    assert!((fl(obs_fixed_vector.y) - -0.00001607260397528885).abs() < 1e-12);
    assert!((fl(obs_fixed_vector.z) - 0.000014988110430544328).abs() < 1e-12);
}

#[test]
fn test_gmst() {
    let tut: f64 = 57028.478514610404;
    let res_gmst = gmst(fx(tut));
    assert!((fl(res_gmst) - 4.851925725092499).abs() < 1e-9);

    // J2000.0 epoch, MJD 51544.5
    let res_gmst = gmst(fx(51544.5));
    assert!((fl(res_gmst) - 4.894961212789145).abs() < 1e-9);
}

#[test]
fn gmst_normalized_for_all_epochs() {
    // GMST lies in [0, 2*pi) at epochs across the whole accepted range,
    // including negative modified Julian dates
    let epochs: [f64; 7] = [-9999999.0, -51544.25, 0.0, 33282.1234, 51544.5, 57028.478, 9999999.0];
    for e in epochs {
        let g = gmst(fx(e));
        assert!(0 <= g && g < TWO_PI);
    }
}

#[test]
fn gmst_advances_one_extra_turn_per_day() {
    // one solar day advances GMST by about a full circle times 0.00273790934
    let drift: f64 = 2.0 * std::f64::consts::PI * 0.00273790934;
    let epochs: [f64; 4] = [51544.5, 57028.478514610404, 60000.25, 42413.75];
    for e in epochs {
        let g0 = gmst(fx(e));
        let g1 = gmst(fx(e) + SCALE);
        let adv = (g1 - g0).rem_euclid(TWO_PI);
        assert!((fl(adv) - drift).abs() < 1e-6);
    }
}

#[test]
fn parallax_factors_stay_on_the_ellipsoid() {
    // at height zero, rho_cos^2 + (rho_sin / axis_ratio)^2 is about 1
    let ratio: f64 = 6356752.3 / 6378137.0;
    let lats: [f64; 5] = [-89.9, -45.0, 0.0, 20.707233557, 89.9];
    for lat in lats {
        let (rc, rs) = lat_alt_to_parallax(
            fx(lat.to_radians().sin()),
            fx(lat.to_radians().cos()),
            0,
        );
        let lhs = fl(rc) * fl(rc) + (fl(rs) / ratio) * (fl(rs) / ratio);
        assert!((lhs - 1.0).abs() < 1e-9);
    }
}

#[test]
fn equequ_exact_formula() {
    // -14.2 arcseconds of nutation projected by cos(obliquity) ~ 0.9175
    let dpsi = fx(-14.2);
    let cos_obl = fx(0.9175);
    let r = equequ(dpsi, cos_obl);
    let radsec = std::f64::consts::PI / (180.0 * 3600.0);
    assert!((fl(r) - radsec * -14.2 * 0.9175).abs() < 1e-12);
}

#[test]
fn gast_propagates_time_resolution_error() {
    let r = gast(Err(TimeResolutionError), 0);
    assert!(r.is_err());
}

#[test]
fn gast_adds_equinox_equation_to_gmst() {
    let t = fx(57028.478514610404);
    let equinox = fx(-0.0000632);
    let r = gast(Ok(Ut1Mjd { days: t }), equinox).unwrap();
    assert_eq!(r, gmst(t) + equinox);
}

#[test]
fn isqrt_exact_values() {
    assert_eq!(isqrt(0), 0);
    assert_eq!(isqrt(15), 3);
    assert_eq!(isqrt(16), 4);
    assert_eq!(isqrt(10_000_000_000_000_000_000_000_000_000), 100_000_000_000_000);
    assert_eq!(isqrt(u128::MAX), 18446744073709551615);
}

fn identity_frame() -> Mat3 {
    Mat3::new(SCALE, 0, 0, 0, SCALE, 0, 0, 0, SCALE)
}

#[test]
fn pvobs_rotates_position_forward_by_gast() {
    // with the frame rotation set to the identity, the position is the
    // Earth-fixed vector turned forward by the sidereal angle about the
    // spin axis: x = cos(gast)*bx - sin(gast)*by
    let s = site();
    let gast_angle: f64 = 4.8519;
    let (pos, vel) = pvobs(&s, fx(HEIGHT), fx(gast_angle.cos()), fx(gast_angle.sin()), &identity_frame());

    let bf = body_fixed_coord(&s, fx(HEIGHT));
    let (bx, by, bz) = (fl(bf.x), fl(bf.y), fl(bf.z));
    let (c, si) = (gast_angle.cos(), gast_angle.sin());
    let ex = c * bx - si * by;
    let ey = si * bx + c * by;
    let ez = bz;
    assert!((fl(pos.x) - ex).abs() < 1e-10);
    assert!((fl(pos.y) - ey).abs() < 1e-10);
    assert!((fl(pos.z) - ez).abs() < 1e-10);

    // the velocity is omega cross the body-fixed position, rotated the same way
    let w = 2.0 * std::f64::consts::PI * 1.00273790934;
    let (vx, vy) = (-w * by, w * bx);
    let evx = c * vx - si * vy;
    let evy = si * vx + c * vy;
    assert!((fl(vel.x) - evx).abs() < 1e-10);
    assert!((fl(vel.y) - evy).abs() < 1e-10);
    assert!(fl(vel.z).abs() < 1e-10);
}

#[test]
fn pvobs_test() {
    // observer state at MJD 57028.479297592596 UTC for Pan-STARRS 1:
    // the recorded UT1 epoch for this observation, and the recorded rotation
    // from the mean equator of date to the mean ecliptic J2000 (obliquity
    // 84381.448 arcsec and the date-to-J2000 precession at this epoch)
    let tut: f64 = 57028.478514610404;
    let frame = Mat3::new(
        fx(0.999993299002225),
        fx(-0.003660866281640),
        fx(-0.000002951951567),
        fx(0.003357604926048),
        fx(0.917475916152117),
        fx(-0.397777160945666),
        fx(0.001458917340580),
        fx(0.397774485530308),
        fx(0.917482059890706),
    );
    let s = site();
    let gast_fx = gast(Ok(Ut1Mjd { days: fx(tut) }), 0).unwrap();
    let gast_rad = fl(gast_fx);
    let (pos, vel) = pvobs(&s, fx(HEIGHT), fx(gast_rad.cos()), fx(gast_rad.sin()), &frame);

    // reference topocentric state in mean ecliptic J2000; the tolerance covers
    // the equation of the equinoxes (left at zero here) and the rounding of
    // the recorded frame, both far below the 7e-5 AU gap that separates the
    // two possible senses of the Earth rotation
    assert!((fl(pos.x) - -2.1029664445055886e-5).abs() < 5e-7);
    assert!((fl(pos.y) - 3.7089965349631534e-5).abs() < 5e-7);
    assert!((fl(pos.z) - 2.911548164794497e-7).abs() < 5e-7);
    assert!((fl(vel.x) - -0.00021367298085517918).abs() < 3e-6);
    assert!((fl(vel.y) - -0.00012156695591212987).abs() < 3e-6);
    assert!((fl(vel.z) - 5.304083328775301e-5).abs() < 3e-6);
}

#[test]
fn pvobs_earth_rotation_matrix_is_orthonormal() {
    // the Earth-rotation matrix for any angle has orthonormal columns and
    // determinant one, to the accuracy of its trigonometric inputs
    let angle: f64 = 4.8519;
    let (c, s) = (fx(angle.cos()), fx(angle.sin()));
    let m = [[c, -s, 0], [s, c, 0], [0, 0, SCALE]];
    for i in 0..3 {
        for j in 0..3 {
            let gram: i128 = (0..3).map(|k| m[k][i] * m[k][j]).sum();
            let expected: i128 = if i == j { SCALE * SCALE } else { 0 };
            assert!((gram - expected).abs() <= 30 * SCALE);
        }
    }
    let f = |i: usize, j: usize| m[i][j] as f64 / SCALE as f64;
    let det = f(0, 0) * (f(1, 1) * f(2, 2) - f(1, 2) * f(2, 1))
        - f(0, 1) * (f(1, 0) * f(2, 2) - f(1, 2) * f(2, 0))
        + f(0, 2) * (f(1, 0) * f(2, 1) - f(1, 1) * f(2, 0));
    assert!((det - 1.0).abs() <= 1e-9);
}

#[test]
fn earth_radius_constant_matches_body_fixed_magnitude() {
    // at height zero the body-fixed position magnitude is close to the Earth
    // equatorial radius in astronomical units
    let s = site();
    let bf = body_fixed_coord(&s, 0);
    let norm = (fl(bf.x).powi(2) + fl(bf.y).powi(2) + fl(bf.z).powi(2)).sqrt();
    let erau = fl(ERAU);
    assert!((norm / erau - 1.0).abs() < 0.004);
}

#[test]
fn vectors_and_matrices_compose_as_stated() {
    let a = Vec3::new(SCALE, 0, 0);
    let b = Vec3::new(0, SCALE, 0);
    let c = a.cross(&b);
    assert_eq!((c.x, c.y, c.z), (0, 0, SCALE));
    let zero = Vec3::zeros();
    assert_eq!((zero.x, zero.y, zero.z), (0, 0, 0));

    let m = Mat3::new(0, SCALE, 0, -SCALE, 0, 0, 0, 0, SCALE);
    let t = m.transpose();
    assert_eq!((t.m01, t.m10), (-SCALE, SCALE));
    let v = t.apply(&Vec3::new(1_000_000_000, 2_000_000_000, 3_000_000_000));
    assert_eq!((v.x, v.y, v.z), (-2_000_000_000, 1_000_000_000, 3_000_000_000));
    let p = m.mat_mul(&t);
    assert_eq!((p.m00, p.m11, p.m22), (SCALE, SCALE, SCALE));
    assert_eq!((p.m01, p.m02, p.m10, p.m12, p.m20, p.m21), (0, 0, 0, 0, 0, 0));
}
