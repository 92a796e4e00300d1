use galaxy_gen::density_wave::{DensityWave, PROB_ONE};
use galaxy_gen::settings::ConfigurationError;

fn uniform_wave() -> DensityWave {
    let mut w = DensityWave::new(0, 1000, 10);
    let samples = vec![1000u64; 11];
    assert_eq!(w.build(&samples), Ok(()));
    w
}

fn galaxy_wave() -> DensityWave {
    // the brightness profile of a galaxy of radius 13000 pc with a 4000 pc bulge
    let mut w = DensityWave::new(0, 26_000_000, 1000);
    let radii = w.sample_radii();
    let bulge = 4000.0f64;
    let bulge_intensity = |r: f64| (-0.02 * r.powf(0.25)).exp();
    let samples: Vec<u64> = radii
        .iter()
        .map(|&r| {
            let r = r as f64 / 1000.0;
            let i = if r < bulge {
                bulge_intensity(r)
            } else {
                bulge_intensity(bulge) * (-(r - bulge) / (13000.0 / 3.0)).exp()
            };
            (i * 1e9) as u64
        })
        .collect();
    assert_eq!(w.build(&samples), Ok(()));
    w
}

#[test]
fn sample_radii_span_the_grid() {
    let w = DensityWave::new(0, 1000, 10);
    assert_eq!(w.sample_radii(), vec![0, 100, 200, 300, 400, 500, 600, 700, 800, 900, 1000]);
    let w = DensityWave::new(5, 1008, 10);
    assert_eq!(w.sample_radii()[10], 1005);
}

#[test]
fn uniform_profile_tables() {
    let w = uniform_wave();
    assert_eq!(w.x1, vec![0, 200, 400, 600, 800, 1000]);
    assert_eq!(w.y1, vec![0, 200_000_000, 400_000_000, 600_000_000, 800_000_000, PROB_ONE]);
    assert_eq!(w.m1, vec![200_000_000; 5].into_iter().chain([0]).collect::<Vec<i64>>());
    assert_eq!(w.y2, vec![0, 100, 200, 300, 400, 500, 600, 700, 800, 900]);
    assert_eq!(w.m2, vec![100, 100, 100, 100, 100, 100, 100, 100, 100, 0]);
    assert_eq!(w.x2[3], 300_000_000);
}

#[test]
fn uniform_profile_sampling() {
    let w = uniform_wave();
    assert_eq!(w.val_from_prob(0), 0);
    assert_eq!(w.val_from_prob(1 << 23), 500);
    assert_eq!(w.val_from_prob((1 << 24) - 1), 999);
    // out of range draws are clamped to the largest draw
    assert_eq!(w.val_from_prob(u32::MAX), 999);
}

#[test]
fn cumulative_table_ends_at_one() {
    let w = galaxy_wave();
    assert_eq!(*w.y1.last().unwrap(), PROB_ONE);
    assert_eq!(w.y1.len(), 501);
    assert_eq!(w.y2.len(), 1000);
}

#[test]
fn sampling_is_monotone() {
    let w = galaxy_wave();
    let mut last = w.val_from_prob(0);
    let mut u: u32 = 0;
    while u < (1 << 24) {
        let r = w.val_from_prob(u);
        assert!(r >= last);
        last = r;
        u += 4099;
    }
    assert!(w.val_from_prob(1 << 23) > w.val_from_prob(1 << 20));
}

#[test]
fn galaxy_profile_is_concentrated() {
    let w = galaxy_wave();
    // half of the draws land inside the disc radius
    let median = w.val_from_prob(1 << 23);
    assert!(median > 0 && median < 13_000_000);
    assert_eq!(w.y2[0], 0);
}

#[test]
fn odd_step_count_is_rejected() {
    let mut w = DensityWave::new(0, 1000, 9);
    assert_eq!(w.build(&vec![1u64; 10]), Err(ConfigurationError::OddStepCount));
    let mut w = DensityWave::new(0, 1000, 0);
    assert_eq!(w.build(&vec![1u64; 1]), Err(ConfigurationError::OddStepCount));
    assert_eq!(w.check_shape(), Err(ConfigurationError::OddStepCount));
}

#[test]
fn degenerate_radii_are_rejected() {
    let mut w = DensityWave::new(1000, 1000, 10);
    assert_eq!(w.build(&vec![1u64; 11]), Err(ConfigurationError::DegenerateRadii));
    let w = DensityWave::new(0, 5, 10);
    assert_eq!(w.check_shape(), Err(ConfigurationError::DegenerateProfile));
    let w = DensityWave::new(0, 1 << 40, 10);
    assert_eq!(w.check_shape(), Err(ConfigurationError::OutOfRange));
    let w = DensityWave::new(0, 1000, 1 << 22);
    assert_eq!(w.check_shape(), Err(ConfigurationError::OutOfRange));
}

#[test]
fn bad_samples_leave_the_profile_untouched() {
    let mut w = uniform_wave();
    let before = w.clone();
    assert_eq!(w.build(&vec![0u64; 11]), Err(ConfigurationError::DegenerateProfile));
    assert_eq!(w.build(&vec![1u64; 12]), Err(ConfigurationError::DegenerateProfile));
    assert_eq!(w.build(&vec![u64::MAX; 11]), Err(ConfigurationError::DegenerateProfile));
    assert_eq!(w.y2, before.y2);
    assert_eq!(w.y1, before.y1);
}
