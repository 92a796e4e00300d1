use galaxy_gen::fixed::ONE;
use galaxy_gen::settings::{ConfigurationError, GalaxySettings};

fn settings() -> GalaxySettings {
    GalaxySettings {
        radius: 13_000_000,
        bulge_radius: 4_000_000,
        far_field_radius: 32_000_000,
        angular_offset: 400,
        inner_excentricity: 850_000,
        outter_excentricity: 950_000,
        ellipse_disturbances: 0,
        ellipse_disturbances_damping: 40,
        count_stars: 40000,
        count_dusts: 40000,
        count_dusts_filaments: 40000,
        count_h2: 400,
        count_h2_core: 400,
        has_dark_matter: true,
        base_temp: 4_000_000,
        dust_render_size: 70_000_000,
        pert_n: 2,
        pert_amp: 40,
        seed: 1234567890,
    }
}

#[test]
fn excentricity_at_segment_boundaries() {
    let s = settings();
    assert_eq!(s.get_excentricity(s.bulge_radius), 850_000);
    assert_eq!(s.get_excentricity(s.radius), 950_000);
    assert_eq!(s.get_excentricity(s.far_field_radius), ONE);
}

#[test]
fn excentricity_beyond_far_field_is_one() {
    let s = settings();
    assert_eq!(s.get_excentricity(32_000_001), ONE);
    assert_eq!(s.get_excentricity(100_000_000), ONE);
}

#[test]
fn excentricity_inside_segments() {
    let s = settings();
    // centre of the bulge is round
    assert_eq!(s.get_excentricity(0), ONE);
    // half-way through the bulge: 1 + 0.5 * (0.85 - 1) = 0.925
    assert_eq!(s.get_excentricity(2_000_000), 925_000);
    // half-way across the disc: 0.9
    assert_eq!(s.get_excentricity(8_500_000), 900_000);
    // half-way to the far field: 0.975
    assert_eq!(s.get_excentricity(22_500_000), 975_000);
    // below zero the core formula goes on: 1 + 0.25 * 0.15
    assert_eq!(s.get_excentricity(-1_000_000), 1_037_500);
}

#[test]
fn angular_offset_is_linear_in_radius() {
    let s = settings();
    // 13000 pc at 0.0004 degree per parsec: 5.2 degrees
    assert_eq!(s.get_angular_offset(13_000_000), 5_200_000);
    assert_eq!(s.get_angular_offset(0), 0);
    // rounded down below zero
    assert_eq!(s.get_angular_offset(-1), -1);
}

#[test]
fn validate_accepts_defaults() {
    assert_eq!(settings().validate(), Ok(()));
}

#[test]
fn validate_rejects_degenerate_radii() {
    let mut s = settings();
    s.bulge_radius = s.radius;
    assert_eq!(s.validate(), Err(ConfigurationError::DegenerateRadii));
    let mut s = settings();
    s.far_field_radius = s.radius;
    assert_eq!(s.validate(), Err(ConfigurationError::DegenerateRadii));
    let mut s = settings();
    s.bulge_radius = 0;
    assert_eq!(s.validate(), Err(ConfigurationError::DegenerateRadii));
}

#[test]
fn validate_rejects_negative_counts() {
    let mut s = settings();
    s.count_h2 = -1;
    assert_eq!(s.validate(), Err(ConfigurationError::NegativeCount));
}

#[test]
fn validate_rejects_out_of_range() {
    let mut s = settings();
    s.inner_excentricity = 2 * ONE;
    assert_eq!(s.validate(), Err(ConfigurationError::OutOfRange));
    let mut s = settings();
    s.far_field_radius = i64::MAX;
    assert_eq!(s.validate(), Err(ConfigurationError::OutOfRange));
}
