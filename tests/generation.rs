use galaxy_gen::density_wave::DensityWave;
use galaxy_gen::fixed::ONE;
use galaxy_gen::generator::{
    brighten, create_all_objects, dust_from_draws, filament_anchor, filament_particle, generate,
    h2_pair_from_draws, star_from_draws, FilamentAnchor,
};
use galaxy_gen::random::RandomStream;
use galaxy_gen::settings::{ConfigurationError, GalaxySettings};
use galaxy_gen::stars::{Star, StarType};
use rand::rngs::StdRng;
use rand::{Rng, RngCore, SeedableRng};

fn settings() -> GalaxySettings {
    GalaxySettings {
        radius: 13_000_000,
        bulge_radius: 4_000_000,
        far_field_radius: 32_000_000,
        angular_offset: 400,
        inner_excentricity: 850_000,
        outter_excentricity: 950_000,
        ellipse_disturbances: 0,
        ellipse_disturbances_damping: 40,
        count_stars: 0,
        count_dusts: 0,
        count_dusts_filaments: 0,
        count_h2: 0,
        count_h2_core: 0,
        has_dark_matter: true,
        base_temp: 4_000_000,
        dust_render_size: 70_000_000,
        pert_n: 2,
        pert_amp: 40,
        seed: 1234567890,
    }
}

fn wave() -> DensityWave {
    let mut w = DensityWave::new(0, 26_000_000, 1000);
    let radii = w.sample_radii();
    let samples: Vec<u64> = radii
        .iter()
        .map(|&r| {
            let r = r as f64 / 1000.0;
            let bulge = |x: f64| (-0.02 * x.powf(0.25)).exp();
            let i = if r < 4000.0 { bulge(r) } else { bulge(4000.0) * (-(r - 4000.0) / 4333.3).exp() };
            (i * 1e9) as u64
        })
        .collect();
    assert_eq!(w.build(&samples), Ok(()));
    w
}

fn count(v: &[Star], t: StarType) -> usize {
    v.iter().filter(|s| s.star_type == t).count()
}

#[test]
fn single_star_setting_yields_only_the_core() {
    let mut s = settings();
    s.count_stars = 1;
    let v = generate(&s, &wave()).unwrap();
    assert_eq!(v.len(), 1);
    assert_eq!(v[0].star_type, StarType::GalacticCore);
    assert_eq!((v[0].a, v[0].b), (0, 0));
}

#[test]
fn two_star_setting_yields_core_and_one_star() {
    let mut s = settings();
    s.count_stars = 2;
    let v = generate(&s, &wave()).unwrap();
    assert_eq!(v.len(), 2);
    assert_eq!(v[0].star_type, StarType::GalacticCore);
    assert_eq!((v[0].a, v[0].b), (0, 0));
    assert_eq!(v[0].temp, 6_000_000);
    assert_eq!(v[0].mag, ONE);
    assert_eq!((v[0].theta0, v[0].tilt_angle, v[0].velocity_radius), (0, 0, None));
    assert_eq!(v[1].star_type, StarType::Star);
    assert!(v[1].a > 0);
}

#[test]
fn same_seed_same_objects() {
    let mut s = settings();
    s.count_stars = 300;
    s.count_dusts = 200;
    s.count_dusts_filaments = 500;
    s.count_h2 = 10;
    let w = wave();
    let first = create_all_objects(&s, &w);
    let second = create_all_objects(&s, &w);
    assert_eq!(first, second);
    s.seed = 42;
    let third = create_all_objects(&s, &w);
    assert_ne!(first, third);
}

#[test]
fn population_counts() {
    let mut s = settings();
    s.count_stars = 120;
    s.count_dusts = 11;
    s.count_dusts_filaments = 350;
    s.count_h2 = 3;
    let v = create_all_objects(&s, &wave());
    assert_eq!(count(&v, StarType::GalacticCore), 1);
    assert_eq!(count(&v, StarType::Star), 119);
    assert_eq!(count(&v, StarType::Dust), 11);
    assert_eq!(count(&v, StarType::H2Region), 3);
    assert_eq!(count(&v, StarType::H2Core), 3);
    assert!(count(&v, StarType::DustFilament) <= 3 * 99);
    // dust first, then filaments, then H2 pairs, then the core and the stars
    assert_eq!(v[0].star_type, StarType::Dust);
    let core = v.iter().position(|x| x.star_type == StarType::GalacticCore).unwrap();
    assert_eq!(v.len() - core, 120);
    assert_eq!(v[core - 6].star_type, StarType::H2Region);
    assert_eq!(v[core - 5].star_type, StarType::H2Core);
}

#[test]
fn records_follow_their_orbits() {
    let mut s = settings();
    s.count_stars = 200;
    s.count_dusts = 50;
    s.count_h2 = 5;
    let v = create_all_objects(&s, &wave());
    for st in &v {
        let e = s.get_excentricity(st.a) as i128;
        assert_eq!(st.b as i128, (st.a as i128 * e).div_euclid(ONE as i128));
        assert_eq!(st.tilt_angle, s.get_angular_offset(st.a));
        if st.star_type == StarType::Star {
            assert_eq!(st.velocity_radius, Some(st.a));
            assert!(st.temp >= 4_000_000 && st.temp <= 8_000_000);
            assert!(st.mag >= 100_000 && st.mag <= ONE);
        }
        if st.star_type == StarType::Dust {
            assert_eq!(st.temp, s.base_temp + st.a * 2 / 9);
            assert_eq!(st.velocity_radius, Some((st.a + st.b).div_euclid(2)));
        }
    }
    // the H2 core shares its region's orbit
    let r = v.iter().position(|x| x.star_type == StarType::H2Region).unwrap();
    assert_eq!((v[r].a, v[r].b, v[r].theta0), (v[r + 1].a, v[r + 1].b, v[r + 1].theta0));
}

#[test]
fn first_stars_are_brightened() {
    let mut s = settings();
    s.count_stars = 600;
    let w = wave();
    let v = create_all_objects(&s, &w);
    let bright = v[1..=10].iter().filter(|x| x.mag >= 200_000).count();
    assert_eq!(bright, 10);
    // replay the stream: the shared dust brightness, then four draws per star
    // and one more for each of the first 600 / 60 = 10 stars
    let mut rnd = RandomStream::seed_from_u64(s.seed);
    rnd.next_draw();
    for i in 1..=12usize {
        let (a, b, c, d) = (rnd.next_draw(), rnd.next_draw(), rnd.next_draw(), rnd.next_draw());
        let mut st = star_from_draws(&s, &w, a, b, c, d);
        if i <= 10 {
            st.mag = brighten(st.mag, rnd.next_draw());
        }
        assert_eq!(v[i], st);
    }
}

#[test]
fn invalid_settings_generate_nothing() {
    let mut s = settings();
    s.radius = s.far_field_radius;
    assert_eq!(generate(&s, &wave()), Err(ConfigurationError::DegenerateRadii));
    let mut s = settings();
    s.count_h2 = -5;
    assert_eq!(generate(&s, &wave()), Err(ConfigurationError::NegativeCount));
}

#[test]
fn stream_draws_match_rand() {
    let mut ours = RandomStream::seed_from_u64(7);
    let mut theirs = StdRng::seed_from_u64(7);
    let mut floats = StdRng::seed_from_u64(7);
    let mut distinct = std::collections::HashSet::new();
    for _ in 0..100 {
        let d = ours.next_draw();
        assert_eq!(d, theirs.next_u32() >> 8);
        let f: f32 = floats.gen();
        assert_eq!(d as f32 / 16_777_216.0, f);
        distinct.insert(d);
    }
    assert!(distinct.len() > 90);
}

const HALF: u32 = 1 << 23;
const TOP: u32 = (1 << 24) - 1;

#[test]
fn brighten_adds_and_caps() {
    assert_eq!(brighten(100_000, 0), 200_000);
    assert_eq!(brighten(100_000, HALF), 400_000);
    assert_eq!(brighten(900_000, TOP), ONE);
}

#[test]
fn star_from_its_draws() {
    let s = settings();
    let st = star_from_draws(&s, &wave(), 0, HALF, HALF, HALF);
    assert_eq!(st.star_type, StarType::Star);
    assert_eq!((st.a, st.b, st.velocity_radius, st.tilt_angle), (0, 0, Some(0), 0));
    assert_eq!(st.temp, 6_000_000);
    assert_eq!(st.mag, 300_000);
    assert_eq!(st.theta0, 180_000_000);
}

#[test]
fn dust_from_its_draws() {
    let s = settings();
    let d = dust_from_draws(&s, 13_000_000, HALF, 50_000);
    assert_eq!(
        d,
        Star {
            theta0: 180_000_000,
            velocity_radius: Some(12_675_000),
            tilt_angle: 5_200_000,
            a: 13_000_000,
            b: 12_350_000,
            temp: 6_888_888,
            mag: 50_000,
            star_type: StarType::Dust,
        }
    );
}

#[test]
fn h2_pair_from_its_draws() {
    let s = settings();
    let (region, core) = h2_pair_from_draws(&s, 0, HALF, 0, 0, 0, TOP, TOP);
    assert_eq!(region.star_type, StarType::H2Region);
    assert_eq!(core.star_type, StarType::H2Core);
    assert_eq!((region.a, region.b, region.velocity_radius), (13_000_000, 12_350_000, Some(12_675_000)));
    assert_eq!((core.a, core.b, core.theta0), (region.a, region.b, region.theta0));
    assert_eq!((region.temp, region.mag), (3_000_000, 100_000));
    assert_eq!((core.temp, core.mag), (8_999_999, 149_999));
}

#[test]
fn filament_from_its_draws() {
    let s = settings();
    let an = filament_anchor(&s, 0, HALF, HALF, 0, HALF);
    assert_eq!(
        an,
        FilamentAnchor { rad: 13_000_000, b: 12_350_000, theta: 180_000_000, mag: 100_000, temp: 5_888_888, count: 50 }
    );
    let p = filament_particle(&s, &an, 13_000_000, HALF, HALF, 0);
    assert_eq!((p.a, p.b, p.theta0, p.mag, p.temp), (13_000_000, 12_350_000, 180_000_000, 100_000, 5_888_888));
    assert_eq!(p.velocity_radius, Some(12_675_000));
    assert_eq!(p.star_type, StarType::DustFilament);
    let q = filament_particle(&s, &an, 13_000_000, 0, 0, TOP);
    assert_eq!(q.a, 13_200_000);
    assert_eq!(q.theta0, 190_000_000);
    assert_eq!(q.mag, 124_999);
}

#[test]
fn out_of_range_settings_generate_nothing() {
    let mut s = settings();
    s.dust_render_size = -1;
    assert_eq!(generate(&s, &wave()), Err(ConfigurationError::OutOfRange));
}
