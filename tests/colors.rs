use galaxy_gen::color::{color_from_temperature_hrd, color_index, ramp_color, Rgba};
use galaxy_gen::fixed::ONE;
use galaxy_gen::projection::{perturbation, Ripple};
use galaxy_gen::settings::GalaxySettings;
use galaxy_gen::stars::{Star, StarType};
use galaxy_gen::ui::AppUIPlugin;
use galaxy_gen::visual::{star_color, star_size};

fn settings() -> GalaxySettings {
    GalaxySettings {
        radius: 13_000_000,
        bulge_radius: 4_000_000,
        far_field_radius: 32_000_000,
        angular_offset: 400,
        inner_excentricity: 850_000,
        outter_excentricity: 950_000,
        ellipse_disturbances: 0,
        ellipse_disturbances_damping: 40,
        count_stars: 100,
        count_dusts: 100,
        count_dusts_filaments: 100,
        count_h2: 4,
        count_h2_core: 4,
        has_dark_matter: true,
        base_temp: 4_000_000,
        dust_render_size: 70_000_000,
        pert_n: 2,
        pert_amp: 40,
        seed: 1234567890,
    }
}

fn star(star_type: StarType, temp: i64, mag: i64) -> Star {
    Star { theta0: 0, velocity_radius: Some(0), tilt_angle: 0, a: 0, b: 0, temp, mag, star_type }
}

#[test]
fn color_index_clamps_to_the_ramp() {
    assert_eq!(color_index(1_000_000), 0);
    assert_eq!(color_index(10_000_000), 199);
    assert_eq!(color_index(500_000), 0);
    assert_eq!(color_index(20_000_000), 199);
}

#[test]
fn color_index_steps_every_45_kelvin() {
    assert_eq!(color_index(1_044_999), 0);
    assert_eq!(color_index(1_045_000), 1);
    assert_eq!(color_index(6_000_000), 111);
    assert_eq!(color_index(9_999_999), 199);
}

#[test]
fn ramp_ends() {
    assert_eq!(ramp_color(0), Rgba { r: 1_000_000, g: -9872, b: -16682, a: ONE });
    assert_eq!(ramp_color(199), Rgba { r: 604720, g: 694643, b: 1_000_000, a: ONE });
    assert_eq!(color_from_temperature_hrd(500_000), ramp_color(0));
    assert_eq!(color_from_temperature_hrd(12_000_000), ramp_color(199));
}

#[test]
fn star_colors_by_population() {
    let base = ramp_color(0);
    let half = |c: i64| c.div_euclid(2);
    let s = star(StarType::Star, 1_000_000, 500_000);
    assert_eq!(star_color(&s), Rgba { r: 500_000, g: half(-9872), b: half(-16682), a: ONE });
    let d = star(StarType::Dust, 1_000_000, 500_000);
    assert_eq!(star_color(&d), Rgba { r: 500_000, g: half(-9872), b: half(-16682), a: ONE });
    let f = star(StarType::DustFilament, 1_000_000, 500_000);
    assert_eq!(star_color(&f), Rgba { r: 500_000, g: half(-9872), b: half(-16682), a: ONE });
    let h = star(StarType::H2Region, 1_000_000, 500_000);
    assert_eq!(star_color(&h), Rgba { r: 1_000_000, g: half(half(-9872)), b: half(half(-16682)), a: ONE });
    let c = star(StarType::H2Core, 1_000_000, 500_000);
    assert_eq!(star_color(&c), Rgba { r: ONE, g: ONE, b: ONE, a: ONE });
    assert_eq!(base.a, ONE);
}

#[test]
fn sprite_sizes_by_population() {
    let s = settings();
    // a star of brightness one is four units wide
    assert_eq!(star_size(&s, &star(StarType::Star, 6_000_000, ONE), 0), 4000);
    // dust: 0.1 * 5 * 70 = 35 units
    assert_eq!(star_size(&s, &star(StarType::Dust, 6_000_000, 100_000), 0), 35_000);
    // filaments: 0.1 * 2 * 70 = 14 units
    assert_eq!(star_size(&s, &star(StarType::DustFilament, 6_000_000, 100_000), 0), 14_000);
    // H2: (1000 - 300) / 10 - 50 = 20 units, the core a tenth of that
    assert_eq!(star_size(&s, &star(StarType::H2Region, 6_000_000, 100_000), 300_000), 20_000);
    assert_eq!(star_size(&s, &star(StarType::H2Core, 6_000_000, 100_000), 300_000), 2_000);
}

#[test]
fn no_ripple_without_amplitude_or_count() {
    let mut s = settings();
    s.pert_amp = 0;
    assert_eq!(perturbation(&s, 13_000_000), None);
    let mut s = settings();
    s.pert_n = 0;
    assert_eq!(perturbation(&s, 13_000_000), None);
    let mut s = settings();
    s.pert_n = -1;
    assert_eq!(perturbation(&s, 13_000_000), None);
}

#[test]
fn ripple_amplitude_and_harmonic() {
    let s = settings();
    assert_eq!(perturbation(&s, 13_000_000), Some(Ripple { amplitude: 325_000, harmonic: 4 }));
    assert_eq!(perturbation(&s, -1), Some(Ripple { amplitude: -1, harmonic: 4 }));
}

#[test]
fn star_buttons_step_by_a_thousand() {
    assert_eq!(AppUIPlugin::stars_count_after_click(40000, true), 41000);
    assert_eq!(AppUIPlugin::stars_count_after_click(40000, false), 39000);
    assert_eq!(AppUIPlugin::stars_count_after_click(500, false), 0);
    assert_eq!(AppUIPlugin::stars_count_after_click(usize::MAX, true), usize::MAX);
    let mut s = settings();
    AppUIPlugin::click_star_button(&mut s, true);
    assert_eq!(s.count_stars, 1100);
}
