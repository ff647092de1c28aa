//! Position and velocity of a ground-based observer relative to the Earth's
//! center of mass, expressed in the mean ecliptic J2000 frame.
//!
//! All quantities are scaled integers: a real value `x` is stored as
//! `round(x * fx::SCALE)` in an `i128` (see [`fx`]).  Angles are in radians,
//! epochs are modified Julian dates in days, positions are in astronomical
//! units and velocities in astronomical units per day.
//!
//! Transcendental evaluations (sines and cosines of the site coordinates and
//! of the sidereal angle), the UT1 correction lookup, and the
//! precession/nutation collaborators are supplied by the caller as plain
//! scaled values; everything that follows from them is verified here.

pub mod fx;
pub mod mat3;
pub mod observer;
pub mod parallax;
pub mod sidereal;
pub mod vec3;

pub use fx::SCALE;
pub use mat3::Mat3;
pub use observer::{
    body_fixed_coord, earth_rotation_rate, gast, pvobs, SiteTrig, TimeResolutionError, Ut1Mjd,
    ERAU,
};
pub use parallax::{isqrt, lat_alt_to_parallax, EARTH_MAJOR_AXIS, EARTH_MINOR_AXIS, HEIGHT_LIMIT};
pub use sidereal::{equequ, gmst, MJD_LIMIT, RADSEC, SIDEREAL_RATIO, TWO_PI};
pub use vec3::Vec3;
