//! The galaxy's shape parameters and the orbital formulas that depend on them.
use vstd::prelude::*;
use crate::fixed::{floor_div, MAX_LENGTH, ONE, PER_PARSEC};

verus! {

/// Largest galaxy, bulge or far-field radius that a configuration may hold.
pub const MAX_RADIUS: i64 = 68_719_476_736;

/// Largest population count that a configuration may hold.
pub const MAX_COUNT: usize = 16_777_216;

/// Largest magnitude of the angular offset coefficient.
pub const MAX_OFFSET_COEFFICIENT: i64 = 1_048_576;

/// Largest magnitude of a base temperature or of a render-size factor.
pub const MAX_SCALAR: i64 = 1_099_511_627_776;

/// Why a configuration or a density profile cannot be used.
#[derive(Debug, Clone, Copy, PartialEq, Eq, Structural)]
pub enum ConfigurationError {
    /// The radii are not ordered `0 < bulge_radius < radius < far_field_radius`.
    DegenerateRadii,
    /// A population count is negative.
    NegativeCount,
    /// The density profile's step count is odd or smaller than two.
    OddStepCount,
    /// The intensity samples do not fit the profile or have no weight at all.
    DegenerateProfile,
    /// A value lies beyond the range that the fixed-point formulas accept.
    OutOfRange,
}

/// Shape, population and seed of one galaxy.
#[derive(Debug, Clone, Copy)]
pub struct GalaxySettings {
    /// Radius of the galactic disc.
    pub radius: i64,
    /// Radius of the central bulge.
    pub bulge_radius: i64,
    /// Radius beyond which orbits are circular.
    pub far_field_radius: i64,
    /// Tilt of an orbit per parsec of radius, in millionths of a degree.
    pub angular_offset: i64,
    /// Eccentricity at the edge of the bulge.
    pub inner_excentricity: i64,
    /// Eccentricity at the edge of the disc.
    pub outter_excentricity: i64,
    pub ellipse_disturbances: i32,
    pub ellipse_disturbances_damping: i32,
    /// Number of stars, the central object included.
    pub count_stars: usize,
    pub count_dusts: usize,
    pub count_dusts_filaments: usize,
    pub count_h2: i32,
    pub count_h2_core: i32,
    /// Selects the orbital speed model with a dark-matter halo.
    pub has_dark_matter: bool,
    /// Temperature of dust at the centre.
    pub base_temp: i64,
    /// Size factor of dust sprites.
    pub dust_render_size: i64,
    /// Number of spiral-arm ripples.
    pub pert_n: i32,
    /// Divisor of the spiral-arm ripple amplitude.
    pub pert_amp: i32,
    pub seed: u64,
}

impl GalaxySettings {
    pub open spec fn radii_ordered(&self) -> bool {
        0 < self.bulge_radius < self.radius < self.far_field_radius
    }

    pub open spec fn counts_non_negative(&self) -> bool {
        self.count_h2 >= 0 && self.count_h2_core >= 0
    }

    pub open spec fn in_range(&self) -> bool {
        &&& self.far_field_radius <= MAX_RADIUS
        &&& 0 <= self.inner_excentricity <= ONE
        &&& 0 <= self.outter_excentricity <= ONE
        &&& -MAX_OFFSET_COEFFICIENT <= self.angular_offset <= MAX_OFFSET_COEFFICIENT
        &&& self.count_stars <= MAX_COUNT
        &&& self.count_dusts <= MAX_COUNT
        &&& self.count_dusts_filaments <= MAX_COUNT
        &&& self.count_h2 <= MAX_COUNT
        &&& self.count_h2_core <= MAX_COUNT
        &&& -MAX_SCALAR <= self.base_temp <= MAX_SCALAR
        &&& 0 <= self.dust_render_size <= MAX_SCALAR
    }

    /// A configuration that the generator accepts.
    pub open spec fn valid(&self) -> bool {
        self.radii_ordered() && self.counts_non_negative() && self.in_range()
    }

    /// Inside the bulge: linear from one at the centre to the inner value.
    pub open spec fn core_excentricity(&self, rad: int) -> int {
        let bulge = self.bulge_radius as int;
        (ONE * (bulge - rad) + self.inner_excentricity * rad) / bulge
    }

    /// Across the disc: linear from the inner to the outer value.
    pub open spec fn disc_excentricity(&self, rad: int) -> int {
        let bulge = self.bulge_radius as int;
        let disc = self.radius as int;
        (self.inner_excentricity * (disc - rad) + self.outter_excentricity * (rad - bulge)) / (disc
            - bulge)
    }

    /// Between the disc's edge and the far field: linear from the outer value to one.
    pub open spec fn halo_excentricity(&self, rad: int) -> int {
        let disc = self.radius as int;
        let far = self.far_field_radius as int;
        (self.outter_excentricity * (far - rad) + ONE * (rad - disc)) / (far - disc)
    }

    /// Eccentricity of the orbit at radius `rad`, in millionths: the three
    /// linear pieces, and one from the far field on.
    pub open spec fn excentricity_at(&self, rad: int) -> int {
        if rad < self.bulge_radius {
            self.core_excentricity(rad)
        } else if rad <= self.radius {
            self.disc_excentricity(rad)
        } else if rad < self.far_field_radius {
            self.halo_excentricity(rad)
        } else {
            ONE as int
        }
    }

    /// Tilt of the orbit at radius `rad`, in millionths of a degree.
    pub open spec fn angular_offset_at(&self, rad: int) -> int {
        (rad * self.angular_offset) / (PER_PARSEC as int)
    }

    /// Checks the configuration: radii first, then counts, then ranges.
    pub fn validate(&self) -> (r: Result<(), ConfigurationError>)
        ensures
            r is Ok <==> self.valid(),
            r == Err::<(), _>(ConfigurationError::DegenerateRadii) <==> !self.radii_ordered(),
            r == Err::<(), _>(ConfigurationError::NegativeCount) <==> self.radii_ordered()
                && !self.counts_non_negative(),
            r == Err::<(), _>(ConfigurationError::OutOfRange) <==> self.radii_ordered()
                && self.counts_non_negative() && !self.in_range(),
    {
        if !(0 < self.bulge_radius && self.bulge_radius < self.radius
            && self.radius < self.far_field_radius) {
            return Err(ConfigurationError::DegenerateRadii);
        }
        if self.count_h2 < 0 || self.count_h2_core < 0 {
            return Err(ConfigurationError::NegativeCount);
        }
        if self.far_field_radius <= MAX_RADIUS && 0 <= self.inner_excentricity
            && self.inner_excentricity <= ONE && 0 <= self.outter_excentricity
            && self.outter_excentricity <= ONE && -MAX_OFFSET_COEFFICIENT <= self.angular_offset
            && self.angular_offset <= MAX_OFFSET_COEFFICIENT && self.count_stars <= MAX_COUNT
            && self.count_dusts <= MAX_COUNT && self.count_dusts_filaments <= MAX_COUNT
            && self.count_h2 as i64 <= MAX_COUNT as i64 && self.count_h2_core as i64
            <= MAX_COUNT as i64 && -MAX_SCALAR <= self.base_temp && self.base_temp
            <= MAX_SCALAR && 0 <= self.dust_render_size && self.dust_render_size <= MAX_SCALAR {
            Ok(())
        } else {
            Err(ConfigurationError::OutOfRange)
        }
    }

    /// Eccentricity of the orbit at radius `rad`, in millionths.
    pub fn get_excentricity(&self, rad: i64) -> (r: i64)
        requires
            self.valid(),
            -MAX_LENGTH <= rad <= MAX_LENGTH,
        ensures
            r == self.excentricity_at(rad as int),
            rad >= self.far_field_radius ==> r == ONE,
    {
        let bulge = self.bulge_radius as i128;
        let disc = self.radius as i128;
        let far = self.far_field_radius as i128;
        let inner = self.inner_excentricity as i128;
        let outer = self.outter_excentricity as i128;
        let x = rad as i128;
        let one = ONE as i128;
        if x < bulge {
            proof { lemma_core_excentricity_bounds(self, rad as int); }
            floor_div(one * (bulge - x) + inner * x, bulge) as i64
        } else if x <= disc {
            proof { lemma_interpolation_bounds(inner as int, outer as int, bulge as int, disc as int, x as int); }
            floor_div(inner * (disc - x) + outer * (x - bulge), disc - bulge) as i64
        } else if x < far {
            proof { lemma_interpolation_bounds(outer as int, one as int, disc as int, far as int, x as int); }
            floor_div(outer * (far - x) + one * (x - disc), far - disc) as i64
        } else {
            ONE
        }
    }

    /// Tilt of the orbit at radius `rad`, in millionths of a degree.
    pub fn get_angular_offset(&self, rad: i64) -> (r: i64)
        requires
            self.valid(),
            -MAX_LENGTH <= rad <= MAX_LENGTH,
        ensures
            r == self.angular_offset_at(rad as int),
    {
        proof {
            lemma_offset_bounds(rad as int, self.angular_offset as int);
        }
        floor_div((rad as i128) * (self.angular_offset as i128), PER_PARSEC as i128) as i64
    }
}

/// The eccentricity is continuous: it is the inner value at the bulge's edge,
/// where the core piece ends at that value too; the outer value at the disc's
/// edge, where the next piece starts from that value; and the piece beyond the
/// disc reaches one at the far field.
pub proof fn lemma_excentricity_continuous(s: &GalaxySettings)
    requires
        s.valid(),
    ensures
        s.excentricity_at(s.bulge_radius as int) == s.inner_excentricity,
        s.core_excentricity(s.bulge_radius as int) == s.inner_excentricity,
        s.excentricity_at(s.radius as int) == s.outter_excentricity,
        s.halo_excentricity(s.radius as int) == s.outter_excentricity,
        s.halo_excentricity(s.far_field_radius as int) == ONE,
        s.excentricity_at(s.far_field_radius as int) == ONE,
{
    let b = s.bulge_radius as int;
    let d = s.radius as int;
    let f = s.far_field_radius as int;
    let i = s.inner_excentricity as int;
    let o = s.outter_excentricity as int;
    assert(ONE * (b - b) + i * b == i * b) by (nonlinear_arith);
    vstd::arithmetic::div_mod::lemma_div_multiples_vanish(i, b);
    assert(b * i == i * b) by (nonlinear_arith);
    assert(i * (d - b) + o * (b - b) == i * (d - b)) by (nonlinear_arith);
    vstd::arithmetic::div_mod::lemma_div_multiples_vanish(i, d - b);
    assert((d - b) * i == i * (d - b)) by (nonlinear_arith);
    assert(i * (d - d) + o * (d - b) == o * (d - b)) by (nonlinear_arith);
    vstd::arithmetic::div_mod::lemma_div_multiples_vanish(o, d - b);
    assert((d - b) * o == o * (d - b)) by (nonlinear_arith);
    assert(o * (f - d) + ONE * (d - d) == o * (f - d)) by (nonlinear_arith);
    vstd::arithmetic::div_mod::lemma_div_multiples_vanish(o, f - d);
    assert((f - d) * o == o * (f - d)) by (nonlinear_arith);
    assert(o * (f - f) + ONE * (f - d) == ONE * (f - d)) by (nonlinear_arith);
    vstd::arithmetic::div_mod::lemma_div_multiples_vanish(ONE as int, f - d);
    assert((f - d) * ONE == ONE * (f - d)) by (nonlinear_arith);
}

/// From the far field on, every orbit is circular.
pub proof fn lemma_far_field_circular(s: &GalaxySettings, rad: int)
    requires
        s.valid(),
        rad >= s.far_field_radius,
    ensures
        s.excentricity_at(rad) == ONE,
{
}

proof fn lemma_offset_bounds(rad: int, c: int)
    requires
        -MAX_LENGTH <= rad <= MAX_LENGTH,
        -MAX_OFFSET_COEFFICIENT <= c <= MAX_OFFSET_COEFFICIENT,
    ensures
        -MAX_LENGTH * MAX_OFFSET_COEFFICIENT <= rad * c <= MAX_LENGTH * MAX_OFFSET_COEFFICIENT,
        -0x7fff_ffff_ffff_ffff <= (rad * c) / (PER_PARSEC as int) <= 0x7fff_ffff_ffff_ffff,
{
    assert(-MAX_LENGTH * MAX_OFFSET_COEFFICIENT <= rad * c <= MAX_LENGTH * MAX_OFFSET_COEFFICIENT)
        by (nonlinear_arith)
        requires -MAX_LENGTH <= rad <= MAX_LENGTH,
            -MAX_OFFSET_COEFFICIENT <= c <= MAX_OFFSET_COEFFICIENT;
}

/// Inside the bulge the eccentricity stays between zero and `ONE * (1 - rad)`.
pub proof fn lemma_core_excentricity_bounds(s: &GalaxySettings, rad: int)
    requires
        s.valid(),
        -MAX_LENGTH <= rad < s.bulge_radius,
    ensures
        0 <= ONE * (s.bulge_radius - rad) + s.inner_excentricity * rad,
        ONE * (s.bulge_radius - rad) + s.inner_excentricity * rad <= ONE * (s.bulge_radius
            + MAX_LENGTH),
        0 <= s.excentricity_at(rad) <= ONE * (1 + MAX_LENGTH),
        rad >= 0 ==> s.excentricity_at(rad) <= ONE,
{
    let b = s.bulge_radius as int;
    let i = s.inner_excentricity as int;
    let o = ONE as int;
    let n = o * (b - rad) + i * rad;
    assert(0 <= n <= o * (b + MAX_LENGTH)) by (nonlinear_arith)
        requires 0 <= i <= o, o == ONE, 0 < b, -MAX_LENGTH <= rad < b, n == o * (b - rad) + i * rad;
    assert(rad >= 0 ==> n <= o * b) by (nonlinear_arith)
        requires 0 <= i <= o, n == o * (b - rad) + i * rad;
    assert(n / b <= o * (1 + MAX_LENGTH)) by (nonlinear_arith)
        requires 0 <= n <= o * (b + MAX_LENGTH), b >= 1, o > 0;
    assert(rad >= 0 ==> n / b <= o) by (nonlinear_arith)
        requires rad >= 0 ==> n <= o * b, n >= 0, b >= 1;
    assert(n / b >= 0) by (nonlinear_arith)
        requires n >= 0, b >= 1;
}

/// A weighted mean `(p * (hi - x) + q * (x - lo)) / (hi - lo)` of two values in
/// `[0, ONE]` stays in `[0, ONE]`.
pub proof fn lemma_interpolation_bounds(p: int, q: int, lo: int, hi: int, x: int)
    requires
        0 <= p <= ONE,
        0 <= q <= ONE,
        lo < hi,
        lo <= x <= hi,
        hi <= MAX_RADIUS,
        -MAX_RADIUS <= lo,
    ensures
        0 <= p * (hi - x) + q * (x - lo) <= ONE * (hi - lo),
        0 <= (p * (hi - x) + q * (x - lo)) / (hi - lo) <= ONE,
{
    let n = p * (hi - x) + q * (x - lo);
    assert(0 <= n <= ONE * (hi - lo)) by (nonlinear_arith)
        requires 0 <= p <= ONE, 0 <= q <= ONE, lo <= x <= hi, n == p * (hi - x) + q * (x - lo);
    assert(0 <= n / (hi - lo) <= ONE) by (nonlinear_arith)
        requires 0 <= n <= ONE * (hi - lo), hi - lo > 0;
}

} // verus!
