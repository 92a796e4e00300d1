//! The seeded generator of the galaxy's populations.
use vstd::prelude::*;
use crate::density_wave::DensityWave;
use crate::fixed::{floor_div, scale_unit, scaled_unit, ONE, UNIT_RANGE};
use crate::random::{seeded_draw, RandomStream};
use crate::settings::{ConfigurationError, GalaxySettings, MAX_RADIUS};
use crate::stars::{lemma_minor_axis_bounds, make_orbit, minor_axis, minor_axis_of, orbit_radius_ok, orbit_star, Star, StarType, MAX_ORBIT, MAX_WALK};

verus! {

/// `r` is the integer square root of `n`.
pub open spec fn is_root(r: int, n: int) -> bool {
    0 <= r && r * r <= n < (r + 1) * (r + 1)
}

/// The integer square root of `n`, rounded down.
pub open spec fn int_sqrt(n: int) -> int {
    choose|r: int| is_root(r, n)
}

/// A number has one integer square root at most.
pub proof fn lemma_root_unique(r1: int, r2: int, n: int)
    requires
        is_root(r1, n),
        is_root(r2, n),
    ensures
        r1 == r2,
{
    if r1 < r2 {
        assert((r1 + 1) * (r1 + 1) <= r2 * r2) by (nonlinear_arith)
            requires 0 <= r1 < r2;
    } else if r2 < r1 {
        assert((r2 + 1) * (r2 + 1) <= r1 * r1) by (nonlinear_arith)
            requires 0 <= r2 < r1;
    }
}

/// The integer square root of `n`, by bisection.
pub fn isqrt(n: u128) -> (r: u64)
    requires
        n < 0x1_0000_0000_0000_0000_0000_0000,
    ensures
        r == int_sqrt(n as int),
        is_root(r as int, n as int),
        r <= 0x4_0000_0000_0000,
{
    let mut lo: u128 = 0;
    let mut hi: u128 = 0x4_0000_0000_0001;
    assert(hi * hi > 0x1_0000_0000_0000_0000_0000_0000) by (nonlinear_arith)
        requires hi == 0x4_0000_0000_0001u128;
    while hi - lo > 1
        invariant
            lo < hi <= 0x4_0000_0000_0001,
            lo * lo <= n,
            n < hi * hi,
        decreases hi - lo,
    {
        let mid = lo + (hi - lo) / 2;
        assert(mid * mid <= 0x4_0000_0000_0001 * 0x4_0000_0000_0001) by (nonlinear_arith)
            requires mid <= 0x4_0000_0000_0001;
        if mid * mid <= n {
            lo = mid;
        } else {
            hi = mid;
        }
    }
    assert(hi == lo + 1);
    assert(is_root(lo as int, n as int));
    proof {
        let c = int_sqrt(n as int);
        assert(is_root(c, n as int));
        lemma_root_unique(c, lo as int, n as int);
    }
    assert(lo <= 0x4_0000_0000_0000);
    lo as u64
}

/// The distance from the centre of a point drawn uniformly from the square of
/// side `2 * radius` around it, from the draws `kx` and `ky`.
pub open spec fn square_radius(radius: int, kx: int, ky: int) -> int {
    let x = scaled_unit(2 * radius, kx) - radius;
    let y = scaled_unit(2 * radius, ky) - radius;
    int_sqrt(x * x + y * y)
}

/// The distance from the centre of a point drawn uniformly from the square of
/// side `2 * radius` around it.
pub fn square_point_radius(radius: i64, kx: u32, ky: u32) -> (r: i64)
    requires
        0 < radius <= MAX_RADIUS,
        kx < UNIT_RANGE,
        ky < UNIT_RANGE,
    ensures
        r == square_radius(radius as int, kx as int, ky as int),
        0 <= r <= 2 * radius,
{
    let x = scale_unit(2 * radius, kx) - radius;
    let y = scale_unit(2 * radius, ky) - radius;
    let xx = x as i128;
    let yy = y as i128;
    proof {
        assert(0 <= xx * xx <= radius * radius) by (nonlinear_arith)
            requires -radius <= xx <= radius;
        assert(0 <= yy * yy <= radius * radius) by (nonlinear_arith)
            requires -radius <= yy <= radius;
        assert(radius * radius <= MAX_RADIUS * MAX_RADIUS) by (nonlinear_arith)
            requires 0 < radius <= MAX_RADIUS;
    }
    let n = (xx * xx + yy * yy) as u128;
    let r = isqrt(n);
    proof {
        assert(r * r <= radius * radius + radius * radius);
        assert(r <= 2 * radius) by (nonlinear_arith)
            requires r * r <= radius * radius + radius * radius, radius > 0, r >= 0;
    }
    r as i64
}

/// Temperature of the central object.
pub const CORE_TEMP: i64 = 6_000_000;
/// Lowest star temperature and the span above it.
pub const STAR_TEMP_BASE: i64 = 4_000_000;
pub const STAR_TEMP_SPAN: i64 = 4_000_000;
/// Lowest star brightness and the span above it.
pub const STAR_MAG_BASE: i64 = 100_000;
pub const STAR_MAG_SPAN: i64 = 400_000;
/// Least extra brightness of a bright object and the span above it.
pub const BOOST_BASE: i64 = 100_000;
pub const BOOST_SPAN: i64 = 400_000;
/// One in this many stars, counted from the first, is bright.
pub const BRIGHT_FRACTION: usize = 60;
/// A full turn, in millionths of a degree.
pub const FULL_TURN: i64 = 360_000_000;

/// The uniform draw at position `pos` of the stream seeded with `seed`.
pub open spec fn draw(seed: u64, pos: int) -> int {
    seeded_draw(seed, pos as nat) as int
}

/// `mag` made brighter by the draw `k`, at most one.
pub open spec fn brightened(mag: int, k: int) -> int {
    let m = mag + BOOST_BASE + scaled_unit(BOOST_SPAN as int, k);
    if m > ONE {
        ONE as int
    } else {
        m
    }
}

/// A star from its four draws: radius from the profile, temperature,
/// brightness and angle.
pub open spec fn star_of(s: GalaxySettings, w: DensityWave, k_rad: int, k_temp: int, k_mag: int, k_theta: int) -> Star {
    let rad = w.radius_for(k_rad);
    let temp = STAR_TEMP_BASE + scaled_unit(STAR_TEMP_SPAN as int, k_temp);
    let mag = STAR_MAG_BASE + scaled_unit(STAR_MAG_SPAN as int, k_mag);
    orbit_star(s, rad, rad, scaled_unit(FULL_TURN as int, k_theta), temp, mag, StarType::Star)
}

/// The `i`-th star (counted from one; the central object is the zeroth) and
/// the stream position after it, its draws starting at `pos`: the four draws
/// of `star_of`, and for the first `count_stars / 60` stars one more draw
/// that brightens them.
pub open spec fn star_at(s: GalaxySettings, w: DensityWave, pos: int, i: int) -> (Star, int) {
    let st = star_of(s, w, draw(s.seed, pos), draw(s.seed, pos + 1), draw(s.seed, pos + 2), draw(s.seed, pos + 3));
    if i <= (s.count_stars / BRIGHT_FRACTION) as int {
        (Star { mag: brightened(st.mag as int, draw(s.seed, pos + 4)) as i64, ..st }, pos + 5)
    } else {
        (st, pos + 4)
    }
}

/// `mag` made brighter by the draw `k`, at most one.
pub fn brighten(mag: i64, k: u32) -> (r: i64)
    requires
        0 <= mag <= ONE,
        k < UNIT_RANGE,
    ensures
        r == brightened(mag as int, k as int),
        0 <= r <= ONE,
{
    let m = mag + BOOST_BASE + scale_unit(BOOST_SPAN, k);
    if m > ONE { ONE } else { m }
}

/// A star from its four draws.
pub fn star_from_draws(s: &GalaxySettings, w: &DensityWave, k_rad: u32, k_temp: u32, k_mag: u32, k_theta: u32) -> (r: Star)
    requires
        s.valid(),
        w.is_built(),
        k_temp < UNIT_RANGE,
        k_mag < UNIT_RANGE,
        k_theta < UNIT_RANGE,
    ensures
        r == star_of(*s, *w, k_rad as int, k_temp as int, k_mag as int, k_theta as int),
        0 <= r.mag <= ONE,
{
    let rad = w.val_from_prob(k_rad);
    proof {
        crate::density_wave::lemma_radius_for_bounds(w, k_rad as int);
    }
    let temp = STAR_TEMP_BASE + scale_unit(STAR_TEMP_SPAN, k_temp);
    let mag = STAR_MAG_BASE + scale_unit(STAR_MAG_SPAN, k_mag);
    let theta0 = scale_unit(FULL_TURN, k_theta);
    make_orbit(s, rad, rad, theta0, temp, mag, StarType::Star)
}

/// The first `n` stars after the central object, their draws starting at `pos`,
/// and the stream position after them.
pub open spec fn stars_from(s: GalaxySettings, w: DensityWave, pos: int, n: nat) -> (Seq<Star>, int)
    decreases n,
{
    if n == 0 {
        (Seq::empty(), pos)
    } else {
        let prev = stars_from(s, w, pos, (n - 1) as nat);
        let next = star_at(s, w, prev.1, n as int);
        (prev.0.push(next.0), next.1)
    }
}

/// The central object: at the centre, still (no angular velocity), warm and
/// fully bright.
pub open spec fn galactic_core(s: GalaxySettings) -> Star {
    Star {
        theta0: 0,
        velocity_radius: None,
        tilt_angle: 0,
        a: 0,
        b: 0,
        temp: CORE_TEMP,
        mag: ONE,
        star_type: StarType::GalacticCore,
    }
}

/// The `i`-th star, its draws taken from `rnd`.
fn create_star(s: &GalaxySettings, w: &DensityWave, rnd: &mut RandomStream, i: usize) -> (r: Star)
    requires
        s.valid(),
        w.is_built(),
        old(rnd).seed() == s.seed,
    ensures
        (r, final(rnd).drawn() as int) == star_at(*s, *w, old(rnd).drawn() as int, i as int),
        final(rnd).seed() == s.seed,
{
    let k_rad = rnd.next_draw();
    let k_temp = rnd.next_draw();
    let k_mag = rnd.next_draw();
    let k_theta = rnd.next_draw();
    let st = star_from_draws(s, w, k_rad, k_temp, k_mag, k_theta);
    if i <= s.count_stars / BRIGHT_FRACTION {
        Star { mag: brighten(st.mag, rnd.next_draw()), ..st }
    } else {
        st
    }
}

/// The central object followed by `count_stars - 1` stars, their draws taken
/// from `rnd`.
pub fn create_stars(s: &GalaxySettings, w: &DensityWave, rnd: &mut RandomStream) -> (r: Vec<Star>)
    requires
        s.valid(),
        w.is_built(),
        old(rnd).seed() == s.seed,
    ensures
        r@ == seq![galactic_core(*s)] + stars_from(*s, *w, old(rnd).drawn() as int, star_count(*s)).0,
        final(rnd).drawn() == stars_from(*s, *w, old(rnd).drawn() as int, star_count(*s)).1,
        final(rnd).seed() == s.seed,
{
    let ghost pos0 = rnd.drawn() as int;
    let mut out: Vec<Star> = Vec::new();
    out.push(
        Star {
            theta0: 0,
            velocity_radius: None,
            tilt_angle: 0,
            a: 0,
            b: 0,
            temp: CORE_TEMP,
            mag: ONE,
            star_type: StarType::GalacticCore,
        },
    );
    let mut i: usize = 1;
    while i < s.count_stars
        invariant
            s.valid(),
            w.is_built(),
            rnd.seed() == s.seed,
            1 <= i,
            i <= s.count_stars || i == 1,
            out@ == seq![galactic_core(*s)] + stars_from(*s, *w, pos0, (i - 1) as nat).0,
            rnd.drawn() == stars_from(*s, *w, pos0, (i - 1) as nat).1,
        decreases s.count_stars - i,
    {
        let ghost before = out@;
        let st = create_star(s, w, rnd, i);
        out.push(st);
        proof {
            assert(before.push(st) == seq![galactic_core(*s)] + stars_from(*s, *w, pos0, i as nat).0);
        }
        i += 1;
    }
    out
}

/// Number of stars after the central object: `count_stars - 1`, or none.
pub open spec fn star_count(s: GalaxySettings) -> nat {
    if s.count_stars >= 1 {
        (s.count_stars - 1) as nat
    } else {
        0
    }
}

/// Lowest dust brightness and the span above it.
pub const DUST_MAG_BASE: i64 = 20_000;
pub const DUST_MAG_SPAN: i64 = 150_000;

/// Temperature of dust at radius `rad`: the base temperature plus one kelvin
/// per 4.5 parsecs.
pub open spec fn dust_temp(s: GalaxySettings, rad: int) -> int {
    s.base_temp + (rad * 2) / 9
}

/// Midpoint of the two axes, where the angular velocity is evaluated.
pub open spec fn mean_axis(s: GalaxySettings, rad: int) -> int {
    (rad + minor_axis(s, rad)) / 2
}

/// A dust record at radius `rad` of brightness `mag`, its angle from the draw
/// `k_theta`.
pub open spec fn dust_of(s: GalaxySettings, rad: int, k_theta: int, mag: int) -> Star {
    let theta0 = scaled_unit(FULL_TURN as int, k_theta);
    orbit_star(s, rad, mean_axis(s, rad), theta0, dust_temp(s, rad), mag, StarType::Dust)
}

/// The `i`-th dust record (from zero) of brightness `mag`, its draws starting
/// at `pos`, and the stream position after it: an even one takes its radius
/// from the profile, an odd one from a point of the square around the centre;
/// then the angle, and for the first records one more draw that brightens them.
pub open spec fn dust_at(s: GalaxySettings, w: DensityWave, pos: int, i: int, mag: int) -> (Star, int) {
    let rad = if i % 2 == 0 {
        w.radius_for(draw(s.seed, pos))
    } else {
        square_radius(s.radius as int, draw(s.seed, pos), draw(s.seed, pos + 1))
    };
    let theta_pos = if i % 2 == 0 { pos + 1 } else { pos + 2 };
    let bright = i < (s.count_stars / BRIGHT_FRACTION) as int;
    let m = if bright { brightened(mag, draw(s.seed, theta_pos + 1)) } else { mag };
    let next = if bright { theta_pos + 2 } else { theta_pos + 1 };
    (dust_of(s, rad, draw(s.seed, theta_pos), m), next)
}

/// The first `n` dust records, their draws starting at `pos`, and the stream
/// position after them.
pub open spec fn dusts_from(s: GalaxySettings, w: DensityWave, pos: int, mag: int, n: nat) -> (Seq<Star>, int)
    decreases n,
{
    if n == 0 {
        (Seq::empty(), pos)
    } else {
        let prev = dusts_from(s, w, pos, mag, (n - 1) as nat);
        let next = dust_at(s, w, prev.1, n - 1, mag);
        (prev.0.push(next.0), next.1)
    }
}

/// Brightness shared by all dust, from the draw `k`.
pub open spec fn dust_mag(k: int) -> int {
    DUST_MAG_BASE + scaled_unit(DUST_MAG_SPAN as int, k)
}

/// The record at radius `rad`, its angular velocity taken at the mean axis.
fn mean_axis_orbit(s: &GalaxySettings, rad: i64, theta0: i64, temp: i64, mag: i64, star_type: StarType) -> (r: Star)
    requires
        s.valid(),
        orbit_radius_ok(rad as int),
    ensures
        r == orbit_star(*s, rad as int, mean_axis(*s, rad as int), theta0 as int, temp as int, mag as int, star_type),
{
    let b = minor_axis_of(s, rad);
    proof {
        lemma_minor_axis_bounds(*s, rad as int);
    }
    let vel = floor_div((rad as i128) + (b as i128), 2) as i64;
    make_orbit(s, rad, vel, theta0, temp, mag, star_type)
}

/// A dust record at radius `rad` of brightness `mag`, its angle from the draw
/// `k_theta`.
pub fn dust_from_draws(s: &GalaxySettings, rad: i64, k_theta: u32, mag: i64) -> (r: Star)
    requires
        s.valid(),
        0 <= rad <= MAX_ORBIT,
        k_theta < UNIT_RANGE,
    ensures
        r == dust_of(*s, rad as int, k_theta as int, mag as int),
{
    let theta0 = scale_unit(FULL_TURN, k_theta);
    let temp = s.base_temp + (rad * 2) / 9;
    mean_axis_orbit(s, rad, theta0, temp, mag, StarType::Dust)
}

/// The `i`-th dust record, its draws taken from `rnd`.
fn create_dust(s: &GalaxySettings, w: &DensityWave, rnd: &mut RandomStream, i: usize, mag: i64) -> (r: Star)
    requires
        s.valid(),
        w.is_built(),
        old(rnd).seed() == s.seed,
        DUST_MAG_BASE <= mag <= ONE,
    ensures
        (r, final(rnd).drawn() as int) == dust_at(*s, *w, old(rnd).drawn() as int, i as int, mag as int),
        final(rnd).seed() == s.seed,
{
    let rad = if i % 2 == 0 {
        let k = rnd.next_draw();
        proof {
            crate::density_wave::lemma_radius_for_bounds(w, k as int);
        }
        w.val_from_prob(k)
    } else {
        let kx = rnd.next_draw();
        let ky = rnd.next_draw();
        square_point_radius(s.radius, kx, ky)
    };
    let k_theta = rnd.next_draw();
    let m = if i < s.count_stars / BRIGHT_FRACTION {
        brighten(mag, rnd.next_draw())
    } else {
        mag
    };
    dust_from_draws(s, rad, k_theta, m)
}

/// `count_dusts` dust records, their shared brightness and their draws taken
/// from `rnd`.
pub fn create_dusts(s: &GalaxySettings, w: &DensityWave, rnd: &mut RandomStream) -> (r: Vec<Star>)
    requires
        s.valid(),
        w.is_built(),
        old(rnd).seed() == s.seed,
    ensures
        r@ == dusts_from(*s, *w, old(rnd).drawn() as int + 1, dust_mag(draw(s.seed, old(rnd).drawn() as int)), s.count_dusts as nat).0,
        final(rnd).drawn() == dusts_from(*s, *w, old(rnd).drawn() as int + 1, dust_mag(draw(s.seed, old(rnd).drawn() as int)), s.count_dusts as nat).1,
        final(rnd).seed() == s.seed,
{
    let ghost pos0 = rnd.drawn() as int;
    let mag = DUST_MAG_BASE + scale_unit(DUST_MAG_SPAN, rnd.next_draw());
    let mut out: Vec<Star> = Vec::new();
    let mut i: usize = 0;
    while i < s.count_dusts
        invariant
            s.valid(),
            w.is_built(),
            rnd.seed() == s.seed,
            mag == dust_mag(draw(s.seed, pos0)),
            DUST_MAG_BASE <= mag <= ONE,
            i <= s.count_dusts,
            out@ == dusts_from(*s, *w, pos0 + 1, mag as int, i as nat).0,
            rnd.drawn() == dusts_from(*s, *w, pos0 + 1, mag as int, i as nat).1,
        decreases s.count_dusts - i,
    {
        let st = create_dust(s, w, rnd, i, mag);
        out.push(st);
        i += 1;
    }
    out
}

/// Lowest temperature of an H2 region or core and the span above it.
pub const H2_TEMP_BASE: i64 = 3_000_000;
pub const H2_TEMP_SPAN: i64 = 6_000_000;
/// Lowest brightness of an H2 region or core and the span above it.
pub const H2_MAG_BASE: i64 = 100_000;
pub const H2_MAG_SPAN: i64 = 50_000;

/// An H2 region and its core on one orbit, from their draws: the point, the
/// region's temperature and brightness, the shared angle, then the core's
/// temperature and brightness.
pub open spec fn h2_pair_of(
    s: GalaxySettings,
    kx: int,
    ky: int,
    k_temp: int,
    k_mag: int,
    k_theta: int,
    k_core_temp: int,
    k_core_mag: int,
) -> Seq<Star> {
    let rad = square_radius(s.radius as int, kx, ky);
    let temp = H2_TEMP_BASE + scaled_unit(H2_TEMP_SPAN as int, k_temp);
    let mag = H2_MAG_BASE + scaled_unit(H2_MAG_SPAN as int, k_mag);
    let theta0 = scaled_unit(FULL_TURN as int, k_theta);
    let core_temp = H2_TEMP_BASE + scaled_unit(H2_TEMP_SPAN as int, k_core_temp);
    let core_mag = H2_MAG_BASE + scaled_unit(H2_MAG_SPAN as int, k_core_mag);
    let vel = mean_axis(s, rad);
    seq![
        orbit_star(s, rad, vel, theta0, temp, mag, StarType::H2Region),
        orbit_star(s, rad, vel, theta0, core_temp, core_mag, StarType::H2Core),
    ]
}

/// An H2 pair, its seven draws starting at `pos`, and the stream position
/// after it.
pub open spec fn h2_pair_at(s: GalaxySettings, pos: int) -> (Seq<Star>, int) {
    (
        h2_pair_of(
            s,
            draw(s.seed, pos),
            draw(s.seed, pos + 1),
            draw(s.seed, pos + 2),
            draw(s.seed, pos + 3),
            draw(s.seed, pos + 4),
            draw(s.seed, pos + 5),
            draw(s.seed, pos + 6),
        ),
        pos + 7,
    )
}

/// An H2 region and its core on one orbit, from their draws.
pub fn h2_pair_from_draws(
    s: &GalaxySettings,
    kx: u32,
    ky: u32,
    k_temp: u32,
    k_mag: u32,
    k_theta: u32,
    k_core_temp: u32,
    k_core_mag: u32,
) -> (r: (Star, Star))
    requires
        s.valid(),
        kx < UNIT_RANGE,
        ky < UNIT_RANGE,
        k_temp < UNIT_RANGE,
        k_mag < UNIT_RANGE,
        k_theta < UNIT_RANGE,
        k_core_temp < UNIT_RANGE,
        k_core_mag < UNIT_RANGE,
    ensures
        seq![r.0, r.1] == h2_pair_of(*s, kx as int, ky as int, k_temp as int, k_mag as int, k_theta as int, k_core_temp as int, k_core_mag as int),
{
    let rad = square_point_radius(s.radius, kx, ky);
    let temp = H2_TEMP_BASE + scale_unit(H2_TEMP_SPAN, k_temp);
    let mag = H2_MAG_BASE + scale_unit(H2_MAG_SPAN, k_mag);
    let theta0 = scale_unit(FULL_TURN, k_theta);
    let core_temp = H2_TEMP_BASE + scale_unit(H2_TEMP_SPAN, k_core_temp);
    let core_mag = H2_MAG_BASE + scale_unit(H2_MAG_SPAN, k_core_mag);
    let region = mean_axis_orbit(s, rad, theta0, temp, mag, StarType::H2Region);
    let core = Star { temp: core_temp, mag: core_mag, star_type: StarType::H2Core, ..region };
    (region, core)
}

/// The first `n` pairs of H2 regions and cores, their draws starting at `pos`,
/// and the stream position after them.
pub open spec fn h2_from(s: GalaxySettings, pos: int, n: nat) -> (Seq<Star>, int)
    decreases n,
{
    if n == 0 {
        (Seq::empty(), pos)
    } else {
        let prev = h2_from(s, pos, (n - 1) as nat);
        let next = h2_pair_at(s, prev.1);
        (prev.0 + next.0, next.1)
    }
}

/// `count_h2` pairs of H2 regions and cores, their draws taken from `rnd`.
pub fn create_h2(s: &GalaxySettings, rnd: &mut RandomStream) -> (r: Vec<Star>)
    requires
        s.valid(),
        old(rnd).seed() == s.seed,
    ensures
        r@ == h2_from(*s, old(rnd).drawn() as int, s.count_h2 as nat).0,
        final(rnd).drawn() == h2_from(*s, old(rnd).drawn() as int, s.count_h2 as nat).1,
        final(rnd).seed() == s.seed,
{
    let ghost pos0 = rnd.drawn() as int;
    let mut out: Vec<Star> = Vec::new();
    let mut i: i32 = 0;
    while i < s.count_h2
        invariant
            s.valid(),
            rnd.seed() == s.seed,
            0 <= i <= s.count_h2,
            out@ == h2_from(*s, pos0, i as nat).0,
            out@.len() == 2 * i,
            rnd.drawn() == h2_from(*s, pos0, i as nat).1,
        decreases s.count_h2 - i,
    {
        let ghost before = out@;
        let kx = rnd.next_draw();
        let ky = rnd.next_draw();
        let k_temp = rnd.next_draw();
        let k_mag = rnd.next_draw();
        let k_theta = rnd.next_draw();
        let k_core_temp = rnd.next_draw();
        let k_core_mag = rnd.next_draw();
        let (region, core) = h2_pair_from_draws(s, kx, ky, k_temp, k_mag, k_theta, k_core_temp, k_core_mag);
        out.push(region);
        out.push(core);
        proof {
            let pair = h2_pair_at(*s, h2_from(*s, pos0, i as nat).1);
            assert(out@ =~= before + pair.0);
        }
        i += 1;
    }
    out
}

/// Objects per dust-filament cluster at most, and configured objects per cluster.
pub const FILAMENT_CLUSTER: usize = 100;
/// Lowest brightness of a filament and the span above it.
pub const FILAMENT_MAG_BASE: i64 = 100_000;
pub const FILAMENT_MAG_SPAN: i64 = 50_000;
/// Extra brightness span of each filament object.
pub const FILAMENT_GLOW_SPAN: i64 = 25_000;
/// Filaments are this much cooler than dust at their anchor.
pub const FILAMENT_TEMP_DROP: i64 = 1_000_000;
/// Largest outward step of the radius along a filament, and the span of a step.
pub const WALK_STEP: i64 = 200_000;
pub const WALK_SPAN: i64 = 400_000;
/// Largest angular jitter along a filament, and its span.
pub const JITTER: i64 = 10_000_000;
pub const JITTER_SPAN: i64 = 20_000_000;

/// Where a filament starts: radius and minor axis of its anchor orbit, its
/// angle, brightness and temperature, and the number of its objects.
#[derive(Debug, Clone, Copy, PartialEq, Eq, Structural)]
pub struct FilamentAnchor {
    pub rad: i64,
    pub b: i64,
    pub theta: i64,
    pub mag: i64,
    pub temp: i64,
    pub count: usize,
}

/// The anchor of a filament from its draws: the point, the angle, the
/// brightness and the number of objects.
pub open spec fn anchor_of(s: GalaxySettings, kx: int, ky: int, k_theta: int, k_mag: int, k_count: int) -> FilamentAnchor {
    let rad = square_radius(s.radius as int, kx, ky);
    FilamentAnchor {
        rad: rad as i64,
        b: minor_axis(s, rad) as i64,
        theta: scaled_unit(FULL_TURN as int, k_theta) as i64,
        mag: (FILAMENT_MAG_BASE + scaled_unit(FILAMENT_MAG_SPAN as int, k_mag)) as i64,
        temp: (dust_temp(s, rad) - FILAMENT_TEMP_DROP) as i64,
        count: scaled_unit(FILAMENT_CLUSTER as int, k_count) as usize,
    }
}

/// An anchor whose objects can be built.
pub open spec fn anchor_ok(an: FilamentAnchor) -> bool {
    &&& 0 <= an.rad <= 2 * MAX_RADIUS
    &&& 0 <= an.b <= an.rad
    &&& 0 <= an.theta <= FULL_TURN
    &&& FILAMENT_MAG_BASE <= an.mag <= FILAMENT_MAG_BASE + FILAMENT_MAG_SPAN
    &&& an.count <= FILAMENT_CLUSTER
}

/// The next object of the filament `an`, the previous one at radius `rad`,
/// from its draws: the step of the radius, the jitter of the angle and the
/// extra brightness. Its angular velocity is taken midway between its radius
/// and the anchor's minor axis.
pub open spec fn particle_of(s: GalaxySettings, an: FilamentAnchor, rad: int, k_walk: int, k_jitter: int, k_glow: int) -> Star {
    let r = rad + WALK_STEP - scaled_unit(WALK_SPAN as int, k_walk);
    let theta0 = an.theta + JITTER - scaled_unit(JITTER_SPAN as int, k_jitter);
    let m = an.mag + scaled_unit(FILAMENT_GLOW_SPAN as int, k_glow);
    orbit_star(s, r, (r + an.b) / 2, theta0, an.temp as int, m, StarType::DustFilament)
}

/// The first `n` objects of the filament `an`, their draws starting at `pos`;
/// with the stream position and the radius after them.
pub open spec fn particles_from(s: GalaxySettings, pos: int, an: FilamentAnchor, n: nat) -> (Seq<Star>, int, int)
    decreases n,
{
    if n == 0 {
        (Seq::empty(), pos, an.rad as int)
    } else {
        let prev = particles_from(s, pos, an, (n - 1) as nat);
        let p = prev.1;
        let star = particle_of(s, an, prev.2, draw(s.seed, p), draw(s.seed, p + 1), draw(s.seed, p + 2));
        (prev.0.push(star), p + 3, star.a as int)
    }
}

/// One filament cluster, its draws starting at `pos`, and the stream position
/// after it: five draws for the anchor, then three per object.
pub open spec fn cluster_at(s: GalaxySettings, pos: int) -> (Seq<Star>, int) {
    let an = anchor_of(s, draw(s.seed, pos), draw(s.seed, pos + 1), draw(s.seed, pos + 2),
        draw(s.seed, pos + 3), draw(s.seed, pos + 4));
    let parts = particles_from(s, pos + 5, an, an.count as nat);
    (parts.0, parts.1)
}

/// The anchor of a filament from its draws.
pub fn filament_anchor(s: &GalaxySettings, kx: u32, ky: u32, k_theta: u32, k_mag: u32, k_count: u32) -> (r: FilamentAnchor)
    requires
        s.valid(),
        kx < UNIT_RANGE,
        ky < UNIT_RANGE,
        k_theta < UNIT_RANGE,
        k_mag < UNIT_RANGE,
        k_count < UNIT_RANGE,
    ensures
        r == anchor_of(*s, kx as int, ky as int, k_theta as int, k_mag as int, k_count as int),
        anchor_ok(r),
{
    let rad = square_point_radius(s.radius, kx, ky);
    proof {
        lemma_minor_axis_bounds(*s, rad as int);
    }
    FilamentAnchor {
        rad,
        b: minor_axis_of(s, rad),
        theta: scale_unit(FULL_TURN, k_theta),
        mag: FILAMENT_MAG_BASE + scale_unit(FILAMENT_MAG_SPAN, k_mag),
        temp: s.base_temp + (rad * 2) / 9 - FILAMENT_TEMP_DROP,
        count: scale_unit(FILAMENT_CLUSTER as i64, k_count) as usize,
    }
}

/// The next object of the filament `an` after one at radius `rad`, from its
/// draws.
pub fn filament_particle(s: &GalaxySettings, an: &FilamentAnchor, rad: i64, k_walk: u32, k_jitter: u32, k_glow: u32) -> (r: Star)
    requires
        s.valid(),
        anchor_ok(*an),
        -MAX_WALK + WALK_STEP <= rad <= MAX_ORBIT - WALK_STEP,
        k_walk < UNIT_RANGE,
        k_jitter < UNIT_RANGE,
        k_glow < UNIT_RANGE,
    ensures
        r == particle_of(*s, *an, rad as int, k_walk as int, k_jitter as int, k_glow as int),
        rad - WALK_STEP <= r.a <= rad + WALK_STEP,
{
    let r = rad + WALK_STEP - scale_unit(WALK_SPAN, k_walk);
    let theta0 = an.theta + JITTER - scale_unit(JITTER_SPAN, k_jitter);
    let m = an.mag + scale_unit(FILAMENT_GLOW_SPAN, k_glow);
    let vel = floor_div((r as i128) + (an.b as i128), 2) as i64;
    make_orbit(s, r, vel, theta0, an.temp, m, StarType::DustFilament)
}

/// The first `n` filament clusters, their draws starting at `pos`, and the
/// stream position after them.
pub open spec fn clusters_from(s: GalaxySettings, pos: int, n: nat) -> (Seq<Star>, int)
    decreases n,
{
    if n == 0 {
        (Seq::empty(), pos)
    } else {
        let prev = clusters_from(s, pos, (n - 1) as nat);
        let next = cluster_at(s, prev.1);
        (prev.0 + next.0, next.1)
    }
}

/// One filament cluster, its draws taken from `rnd`.
fn create_cluster(s: &GalaxySettings, rnd: &mut RandomStream) -> (r: Vec<Star>)
    requires
        s.valid(),
        old(rnd).seed() == s.seed,
    ensures
        r@ == cluster_at(*s, old(rnd).drawn() as int).0,
        r@.len() <= FILAMENT_CLUSTER,
        final(rnd).drawn() == cluster_at(*s, old(rnd).drawn() as int).1,
        final(rnd).seed() == s.seed,
{
    let ghost pos0 = rnd.drawn() as int;
    let kx = rnd.next_draw();
    let ky = rnd.next_draw();
    let k_theta = rnd.next_draw();
    let k_mag = rnd.next_draw();
    let k_count = rnd.next_draw();
    let an = filament_anchor(s, kx, ky, k_theta, k_mag, k_count);
    let mut rad = an.rad;
    let mut out: Vec<Star> = Vec::new();
    let mut j: usize = 0;
    while j < an.count
        invariant
            s.valid(),
            rnd.seed() == s.seed,
            anchor_ok(an),
            j <= an.count,
            out@.len() == j,
            an.rad - WALK_STEP * j <= rad <= an.rad + WALK_STEP * j,
            out@ == particles_from(*s, pos0 + 5, an, j as nat).0,
            rnd.drawn() == particles_from(*s, pos0 + 5, an, j as nat).1,
            rad == particles_from(*s, pos0 + 5, an, j as nat).2,
        decreases an.count - j,
    {
        let k_walk = rnd.next_draw();
        let k_jitter = rnd.next_draw();
        let k_glow = rnd.next_draw();
        let st = filament_particle(s, &an, rad, k_walk, k_jitter, k_glow);
        rad = st.a;
        out.push(st);
        j += 1;
    }
    out
}

/// `count_dusts_filaments / 100` filament clusters, their draws taken from `rnd`.
pub fn create_dusts_filaments(s: &GalaxySettings, rnd: &mut RandomStream) -> (r: Vec<Star>)
    requires
        s.valid(),
        old(rnd).seed() == s.seed,
    ensures
        r@ == clusters_from(*s, old(rnd).drawn() as int, (s.count_dusts_filaments / FILAMENT_CLUSTER) as nat).0,
        final(rnd).drawn() == clusters_from(*s, old(rnd).drawn() as int, (s.count_dusts_filaments / FILAMENT_CLUSTER) as nat).1,
        final(rnd).seed() == s.seed,
{
    let ghost pos0 = rnd.drawn() as int;
    let clusters = s.count_dusts_filaments / FILAMENT_CLUSTER;
    let mut out: Vec<Star> = Vec::new();
    let mut i: usize = 0;
    while i < clusters
        invariant
            s.valid(),
            rnd.seed() == s.seed,
            clusters == s.count_dusts_filaments / FILAMENT_CLUSTER,
            i <= clusters,
            out@ == clusters_from(*s, pos0, i as nat).0,
            out@.len() <= FILAMENT_CLUSTER * i,
            rnd.drawn() == clusters_from(*s, pos0, i as nat).1,
        decreases clusters - i,
    {
        let ghost before = out@;
        let mut part = create_cluster(s, rnd);
        out.append(&mut part);
        proof {
            assert(out@ == before + cluster_at(*s, clusters_from(*s, pos0, i as nat).1).0);
        }
        i += 1;
    }
    out
}

/// Everything that one generation pass yields from the settings `s` and the
/// profile `w`: dust, filament clusters, H2 pairs, the central object and the
/// stars, in that order, drawn in that order from the stream seeded with
/// `s.seed`.
pub open spec fn generated(s: GalaxySettings, w: DensityWave) -> Seq<Star> {
    let dust = dusts_from(s, w, 1, dust_mag(draw(s.seed, 0)), s.count_dusts as nat);
    let filaments = clusters_from(s, dust.1, (s.count_dusts_filaments / FILAMENT_CLUSTER) as nat);
    let h2 = h2_from(s, filaments.1, s.count_h2 as nat);
    let stars = stars_from(s, w, h2.1, star_count(s));
    dust.0 + filaments.0 + h2.0 + seq![galactic_core(s)] + stars.0
}

/// All objects of the galaxy, from a fresh stream seeded with `s.seed`.
pub fn create_all_objects(s: &GalaxySettings, w: &DensityWave) -> (r: Vec<Star>)
    requires
        s.valid(),
        w.is_built(),
    ensures
        r@ == generated(*s, *w),
{
    let mut rnd = RandomStream::seed_from_u64(s.seed);
    let mut out = create_dusts(s, w, &mut rnd);
    let ghost dust = out@;
    let mut filaments = create_dusts_filaments(s, &mut rnd);
    let ghost fil = filaments@;
    out.append(&mut filaments);
    let mut h2 = create_h2(s, &mut rnd);
    let ghost pairs = h2@;
    out.append(&mut h2);
    let mut stars = create_stars(s, w, &mut rnd);
    let ghost st = stars@;
    out.append(&mut stars);
    proof {
        assert(out@ =~= dust + fil + pairs + st);
        assert(out@ =~= generated(*s, *w));
    }
    out
}

/// Checks the settings, then generates all objects of the galaxy; on an
/// error nothing is generated.
pub fn generate(s: &GalaxySettings, w: &DensityWave) -> (r: Result<Vec<Star>, ConfigurationError>)
    requires
        w.is_built(),
    ensures
        r is Ok <==> s.valid(),
        r is Ok ==> r->Ok_0@ == generated(*s, *w),
        !s.radii_ordered() ==> r == Err::<Vec<Star>, _>(ConfigurationError::DegenerateRadii),
        s.radii_ordered() && !s.counts_non_negative() ==> r == Err::<Vec<Star>, _>(
            ConfigurationError::NegativeCount,
        ),
        s.radii_ordered() && s.counts_non_negative() && !s.in_range() ==> r == Err::<
            Vec<Star>,
            _,
        >(ConfigurationError::OutOfRange),
{
    match s.validate() {
        Ok(()) => Ok(create_all_objects(s, w)),
        Err(e) => Err(e),
    }
}

/// Generation is deterministic: equal settings and equal profiles give
/// equal sequences of objects, record for record.
pub proof fn lemma_generation_deterministic(
    s1: GalaxySettings,
    w1: DensityWave,
    s2: GalaxySettings,
    w2: DensityWave,
)
    requires
        s1 == s2,
        w1 == w2,
    ensures
        generated(s1, w1) == generated(s2, w2),
{
}

} // verus!
