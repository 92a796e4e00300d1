//! Star records and the orbit that each one follows.
use vstd::prelude::*;
use crate::fixed::{floor_div, ONE};
use crate::settings::{lemma_core_excentricity_bounds, lemma_interpolation_bounds, GalaxySettings};

verus! {

/// Farthest that a radius may lie below zero.
pub const MAX_WALK: i64 = 33_554_432;

/// Largest radius that an orbit may be built at.
pub const MAX_ORBIT: i64 = 549_755_813_888;

/// Population of a generated object.
#[derive(Debug, Clone, Copy, PartialEq, Eq, Structural)]
pub enum StarType {
    GalacticCore,
    Star,
    Dust,
    DustFilament,
    H2Region,
    H2Core,
}

/// One generated object on its elliptical orbit.
#[derive(Debug, Clone, Copy, PartialEq, Eq, Structural)]
pub struct Star {
    /// Initial angular position on the ellipse, in millionths of a degree.
    pub theta0: i64,
    /// Radius at which the orbital angular velocity is evaluated; none for an
    /// object that stands still.
    pub velocity_radius: Option<i64>,
    /// Tilt of the ellipse, in millionths of a degree.
    pub tilt_angle: i64,
    /// Semi-minor axis.
    pub a: i64,
    /// Semi-major axis: `a` times the eccentricity at `a`.
    pub b: i64,
    /// Temperature, in thousandths of a kelvin.
    pub temp: i64,
    /// Brightness, in millionths.
    pub mag: i64,
    pub star_type: StarType,
}

/// A radius that an orbit may be built at.
pub open spec fn orbit_radius_ok(rad: int) -> bool {
    -MAX_WALK <= rad <= MAX_ORBIT
}

/// `rad` times the eccentricity at `rad`, rounded down.
pub open spec fn minor_axis(s: GalaxySettings, rad: int) -> int {
    (rad * s.excentricity_at(rad)) / (ONE as int)
}

/// The record on the orbit of radius `rad`.
pub open spec fn orbit_star(
    s: GalaxySettings,
    rad: int,
    velocity_radius: int,
    theta0: int,
    temp: int,
    mag: int,
    star_type: StarType,
) -> Star {
    Star {
        theta0: theta0 as i64,
        velocity_radius: Some(velocity_radius as i64),
        tilt_angle: s.angular_offset_at(rad) as i64,
        a: rad as i64,
        b: minor_axis(s, rad) as i64,
        temp: temp as i64,
        mag: mag as i64,
        star_type,
    }
}

/// Bounds of the minor axis: between zero and `rad` for a non-negative
/// radius, and small for a radius a little below zero.
pub proof fn lemma_minor_axis_bounds(s: GalaxySettings, rad: int)
    requires
        s.valid(),
        orbit_radius_ok(rad),
    ensures
        rad >= 0 ==> 0 <= minor_axis(s, rad) <= rad,
        -MAX_WALK * ONE * (1 + MAX_WALK) <= rad * s.excentricity_at(rad),
        rad * s.excentricity_at(rad) <= MAX_ORBIT * ONE,
        -MAX_WALK * (1 + MAX_WALK) - 1 <= minor_axis(s, rad) <= MAX_ORBIT,
{
    let e = s.excentricity_at(rad);
    if rad < s.bulge_radius {
        lemma_core_excentricity_bounds(&s, rad);
        let b = s.bulge_radius as int;
        let n = ONE * (b - rad) + s.inner_excentricity * rad;
        if rad < 0 {
            assert(n <= ONE * (b - rad)) by (nonlinear_arith)
                requires n == ONE * (b - rad) + s.inner_excentricity * rad, rad < 0,
                    s.inner_excentricity >= 0;
            assert(n / b <= ONE * (1 - rad)) by (nonlinear_arith)
                requires 0 <= n <= ONE * (b - rad), b >= 1, rad < 0;
            assert(e <= ONE * (1 + MAX_WALK)) by (nonlinear_arith)
                requires e == n / b, n / b <= ONE * (1 - rad), -MAX_WALK <= rad;
        }
    } else if rad <= s.radius {
        lemma_interpolation_bounds(s.inner_excentricity as int, s.outter_excentricity as int,
            s.bulge_radius as int, s.radius as int, rad);
    } else if rad < s.far_field_radius {
        lemma_interpolation_bounds(s.outter_excentricity as int, ONE as int, s.radius as int,
            s.far_field_radius as int, rad);
    }
    assert(0 <= e);
    assert(rad >= 0 ==> e <= ONE);
    assert(rad < 0 ==> e <= ONE * (1 + MAX_WALK));
    assert(-MAX_WALK * ONE * (1 + MAX_WALK) <= rad * e) by (nonlinear_arith)
        requires 0 <= e, rad < 0 ==> e <= ONE * (1 + MAX_WALK), -MAX_WALK <= rad;
    assert(rad * e <= MAX_ORBIT * ONE) by (nonlinear_arith)
        requires 0 <= e, rad >= 0 ==> e <= ONE, rad <= MAX_ORBIT;
    assert(rad >= 0 ==> 0 <= rad * e <= rad * ONE) by (nonlinear_arith)
        requires 0 <= e, rad >= 0 ==> e <= ONE;
    if rad >= 0 {
        vstd::arithmetic::div_mod::lemma_div_is_ordered(0, rad * e, ONE as int);
        vstd::arithmetic::div_mod::lemma_div_is_ordered(rad * e, rad * ONE, ONE as int);
        vstd::arithmetic::div_mod::lemma_div_multiples_vanish(rad, ONE as int);
        assert(rad * ONE == ONE * rad) by (nonlinear_arith);
    }
    vstd::arithmetic::div_mod::lemma_div_is_ordered(-MAX_WALK * ONE * (1 + MAX_WALK), rad * e, ONE as int);
    vstd::arithmetic::div_mod::lemma_div_is_ordered(rad * e, MAX_ORBIT * ONE, ONE as int);
}

/// `rad` times the eccentricity at `rad`, rounded down.
pub fn minor_axis_of(s: &GalaxySettings, rad: i64) -> (r: i64)
    requires
        s.valid(),
        orbit_radius_ok(rad as int),
    ensures
        r == minor_axis(*s, rad as int),
{
    let e = s.get_excentricity(rad);
    proof {
        lemma_minor_axis_bounds(*s, rad as int);
    }
    floor_div((rad as i128) * (e as i128), ONE as i128) as i64
}

/// The record on the orbit of radius `rad`.
pub fn make_orbit(
    s: &GalaxySettings,
    rad: i64,
    velocity_radius: i64,
    theta0: i64,
    temp: i64,
    mag: i64,
    star_type: StarType,
) -> (r: Star)
    requires
        s.valid(),
        orbit_radius_ok(rad as int),
    ensures
        r == orbit_star(*s, rad as int, velocity_radius as int, theta0 as int, temp as int, mag as int, star_type),
{
    let b = minor_axis_of(s, rad);
    Star {
        theta0,
        velocity_radius: Some(velocity_radius),
        tilt_angle: s.get_angular_offset(rad),
        a: rad,
        b,
        temp,
        mag,
        star_type,
    }
}

} // verus!
