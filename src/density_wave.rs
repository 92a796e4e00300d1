//! Inverse-transform sampling of radii from a radial intensity profile.
//!
//! The intensity itself is sampled by the caller on the profile's grid; this
//! module integrates those samples with Simpson's rule, normalises the
//! cumulative table and inverts it into a table of radii at evenly spaced
//! probability levels.
use vstd::prelude::*;
use crate::fixed::UNIT_RANGE;
use crate::settings::ConfigurationError;

verus! {

/// Fixed-point one for cumulative probabilities.
pub const PROB_ONE: i64 = 1_000_000_000;

/// Largest step count of a profile.
pub const MAX_STEPS: i32 = 1_048_576;

/// Largest outer radius of a profile.
pub const MAX_PROFILE_RADIUS: i64 = 137_438_953_472;

/// Largest intensity sample.
pub const MAX_INTENSITY: u64 = 4_294_967_296;

/// A radial probability distribution and its inverse.
#[derive(Debug, Clone)]
pub struct DensityWave {
    /// Inner radius of the profile.
    pub min: i64,
    /// Outer radius of the profile.
    pub max: i64,
    /// Number of integration steps; even.
    pub steps: i32,
    /// Rise of the cumulative probability over each pair of steps; zero last.
    pub m1: Vec<i64>,
    /// Cumulative probability at each radius of `x1`, in `PROB_ONE` units.
    pub y1: Vec<i64>,
    /// Radius at the start of each pair of steps, and at the end of the last.
    pub x1: Vec<i64>,
    /// Rise of the radius from each probability level to the next; zero last.
    pub m2: Vec<i64>,
    /// Radius at each probability level.
    pub y2: Vec<i64>,
    /// The probability levels `i / steps`, in `PROB_ONE` units.
    pub x2: Vec<i64>,
}

/// Simpson weight of the `j`-th pair of steps: `f0 + 4 f1 + f2`.
pub open spec fn pair_weight(f: Seq<u64>, j: int) -> int {
    f[2 * j] + 4 * f[2 * j + 1] + f[2 * j + 2]
}

/// Sum of the first `j` pair weights: the integral up to the `j`-th pair, in
/// units of a third of a step.
pub open spec fn cumulative(f: Seq<u64>, j: int) -> int
    decreases j,
{
    if j <= 0 {
        0
    } else {
        cumulative(f, j - 1) + pair_weight(f, j - 1)
    }
}

/// Pair weights are non-negative and bounded by six times the largest sample.
proof fn lemma_cumulative_bounds(f: Seq<u64>, n: int, j: int)
    requires
        f.len() == 2 * n + 1,
        forall|t: int| 0 <= t < f.len() ==> f[t] <= MAX_INTENSITY,
        0 <= j <= n,
    ensures
        0 <= cumulative(f, j) <= 6 * MAX_INTENSITY * j,
    decreases j,
{
    if j > 0 {
        lemma_cumulative_bounds(f, n, j - 1);
        assert(f[2 * (j - 1)] <= MAX_INTENSITY);
        assert(f[2 * (j - 1) + 1] <= MAX_INTENSITY);
        assert(f[2 * (j - 1) + 2] <= MAX_INTENSITY);
        assert(cumulative(f, j) == cumulative(f, j - 1) + pair_weight(f, j - 1));
        assert(6 * MAX_INTENSITY * (j - 1) + 6 * MAX_INTENSITY == 6 * MAX_INTENSITY * j)
            by (nonlinear_arith);
    }
}

/// The cumulative sums never decrease.
proof fn lemma_cumulative_monotone(f: Seq<u64>, n: int, a: int, b: int)
    requires
        f.len() == 2 * n + 1,
        0 <= a <= b <= n,
    ensures
        cumulative(f, a) <= cumulative(f, b),
    decreases b - a,
{
    if a < b {
        lemma_cumulative_monotone(f, n, a, b - 1);
        assert(cumulative(f, b) == cumulative(f, b - 1) + pair_weight(f, b - 1));
    }
}

/// For `0 <= a < d` and `c > 0`, `a * c / d` lies in `[0, c)`.
proof fn lemma_fraction_below(a: int, c: int, d: int)
    requires
        0 <= a < d,
        c > 0,
    ensures
        0 <= (a * c) / d < c,
{
    let q = (a * c) / d;
    let r = (a * c) % d;
    vstd::arithmetic::div_mod::lemma_fundamental_div_mod(a * c, d);
    assert(0 <= q < c) by (nonlinear_arith)
        requires a * c == d * q + r, 0 <= r < d, 0 <= a < d, c > 0;
}

/// `a * c / d` grows with `a`.
proof fn lemma_fraction_monotone(a: int, b: int, c: int, d: int)
    requires
        0 <= a <= b,
        c >= 0,
        d > 0,
    ensures
        (a * c) / d <= (b * c) / d,
{
    assert(a * c <= b * c) by (nonlinear_arith)
        requires 0 <= a <= b, c >= 0;
    vstd::arithmetic::div_mod::lemma_div_is_ordered(a * c, b * c, d);
}

impl DensityWave {
    /// Width of one integration step.
    pub open spec fn step_width(&self) -> int {
        (self.max - self.min) / (self.steps as int)
    }

    /// Number of pairs of steps.
    pub open spec fn pairs(&self) -> int {
        self.steps / 2
    }

    /// The profile's range and step count can be integrated.
    pub open spec fn shape_valid(&self) -> bool {
        &&& 2 <= self.steps <= MAX_STEPS
        &&& self.steps % 2 == 0
        &&& 0 <= self.min < self.max <= MAX_PROFILE_RADIUS
        &&& self.step_width() >= 1
    }

    /// The `j`-th grid radius, where the intensity is sampled.
    pub open spec fn grid_radius(&self, j: int) -> int {
        self.min + j * self.step_width()
    }

    /// Samples that fit the grid: one per grid radius, bounded, not all zero.
    pub open spec fn samples_valid(&self, f: Seq<u64>) -> bool {
        &&& f.len() == self.steps + 1
        &&& forall|j: int| 0 <= j < f.len() ==> f[j] <= MAX_INTENSITY
        &&& cumulative(f, self.pairs()) > 0
    }

    /// The pair `k` brackets level `i`: `S_k <= i / steps < S_(k+1)`, the
    /// cumulative sums taken relative to their total.
    pub open spec fn brackets(&self, f: Seq<u64>, k: int, i: int) -> bool {
        let total = cumulative(f, self.pairs());
        &&& 0 <= k < self.pairs()
        &&& self.steps * cumulative(f, k) <= i * total
        &&& i * total < self.steps * cumulative(f, k + 1)
    }

    /// Radius at level `i` on the linear piece of pair `k`.
    pub open spec fn level_radius(&self, f: Seq<u64>, k: int, i: int) -> int {
        let total = cumulative(f, self.pairs());
        self.grid_radius(2 * k) + ((i * total - self.steps * cumulative(f, k)) * (2
            * self.step_width())) / (self.steps * (cumulative(f, k + 1) - cumulative(f, k)))
    }

    /// The tables are those that the samples `f` give.
    pub open spec fn tables_of(&self, f: Seq<u64>) -> bool {
        let n = self.pairs();
        let total = cumulative(f, n);
        &&& self.x1@.len() == n + 1
        &&& self.y1@.len() == n + 1
        &&& self.m1@.len() == n + 1
        &&& forall|j: int| 0 <= j <= n ==> self.x1@[j] == self.grid_radius(2 * j)
        &&& forall|j: int|
            0 <= j <= n ==> self.y1@[j] == cumulative(f, j) * PROB_ONE / total
        &&& forall|j: int| 0 <= j < n ==> self.m1@[j] == self.y1@[j + 1] - self.y1@[j]
        &&& self.m1@[n] == 0
        &&& self.x2@.len() == self.steps
        &&& forall|i: int| 0 <= i < self.steps ==> self.x2@[i] == i * PROB_ONE / (self.steps as int)
        &&& self.y2@[0] == self.min
        &&& forall|i: int, k: int|
            1 <= i < self.steps && self.brackets(f, k, i) ==> self.y2@[i] == self.level_radius(
                f,
                k,
                i,
            )
    }

    /// Among pairs of a fixed level, only one brackets it.
    pub proof fn lemma_bracket_unique(&self, f: Seq<u64>, k: int, kk: int, i: int)
        requires
            self.shape_valid(),
            f.len() == self.steps + 1,
            self.brackets(f, k, i),
            self.brackets(f, kk, i),
        ensures
            k == kk,
    {
        let n = self.pairs();
        if k < kk {
            lemma_cumulative_monotone(f, n, k + 1, kk);
            assert(self.steps * cumulative(f, k + 1) <= self.steps * cumulative(f, kk)) by (nonlinear_arith)
                requires cumulative(f, k + 1) <= cumulative(f, kk), self.steps >= 0;
        } else if kk < k {
            lemma_cumulative_monotone(f, n, kk + 1, k);
            assert(self.steps * cumulative(f, kk + 1) <= self.steps * cumulative(f, k)) by (nonlinear_arith)
                requires cumulative(f, kk + 1) <= cumulative(f, k), self.steps >= 0;
        }
    }

    /// The inverse table is in place: `steps` radii, non-decreasing, within the
    /// profile's range, with the rise to each next level beside them.
    pub open spec fn is_built(&self) -> bool {
        &&& self.shape_valid()
        &&& self.y2@.len() == self.steps
        &&& self.m2@.len() == self.steps
        &&& forall|i: int| 0 <= i < self.steps ==> self.min <= #[trigger] self.y2@[i] <= self.max
        &&& forall|i: int| 0 <= i < self.steps - 1 ==> #[trigger] self.y2@[i] <= self.y2@[i + 1]
        &&& forall|i: int|
            0 <= i < self.steps - 1 ==> #[trigger] self.m2@[i] == self.y2@[i + 1] - self.y2@[i]
        &&& self.m2@[self.steps - 1] == 0
    }
}

impl DensityWave {
    /// The error that the range and step count give, if any: step count first,
    /// then its size, then the radii, then their size, then the step width.
    pub open spec fn shape_error(&self) -> Option<ConfigurationError> {
        if self.steps < 2 || self.steps % 2 != 0 {
            Some(ConfigurationError::OddStepCount)
        } else if self.steps > MAX_STEPS {
            Some(ConfigurationError::OutOfRange)
        } else if !(0 <= self.min < self.max) {
            Some(ConfigurationError::DegenerateRadii)
        } else if self.max > MAX_PROFILE_RADIUS {
            Some(ConfigurationError::OutOfRange)
        } else if self.step_width() < 1 {
            Some(ConfigurationError::DegenerateProfile)
        } else {
            None
        }
    }

    /// A profile over `[min, max]` with `steps` steps and no tables yet.
    pub fn new(min: i64, max: i64, steps: i32) -> (r: Self)
        ensures
            r.min == min,
            r.max == max,
            r.steps == steps,
            r.m1@.len() == 0,
            r.y1@.len() == 0,
            r.x1@.len() == 0,
            r.m2@.len() == 0,
            r.y2@.len() == 0,
            r.x2@.len() == 0,
    {
        DensityWave {
            min,
            max,
            steps,
            m1: Vec::new(),
            y1: Vec::new(),
            x1: Vec::new(),
            m2: Vec::new(),
            y2: Vec::new(),
            x2: Vec::new(),
        }
    }

    /// Checks the range and the step count.
    pub fn check_shape(&self) -> (r: Result<(), ConfigurationError>)
        ensures
            r is Ok <==> self.shape_valid(),
            match self.shape_error() {
                None => r == Ok::<(), ConfigurationError>(()),
                Some(e) => r == Err::<(), ConfigurationError>(e),
            },
    {
        if self.steps < 2 || self.steps % 2 != 0 {
            return Err(ConfigurationError::OddStepCount);
        }
        if self.steps > MAX_STEPS {
            return Err(ConfigurationError::OutOfRange);
        }
        if !(0 <= self.min && self.min < self.max) {
            return Err(ConfigurationError::DegenerateRadii);
        }
        if self.max > MAX_PROFILE_RADIUS {
            return Err(ConfigurationError::OutOfRange);
        }
        if (self.max - self.min) / (self.steps as i64) < 1 {
            return Err(ConfigurationError::DegenerateProfile);
        }
        Ok(())
    }

    /// The radii at which the intensity is to be sampled: `min + j * h` for
    /// `j` from zero to `steps`, `h` the step width.
    pub fn sample_radii(&self) -> (r: Vec<i64>)
        requires
            self.shape_valid(),
        ensures
            r@.len() == self.steps + 1,
            forall|j: int| 0 <= j <= self.steps ==> r@[j] == self.grid_radius(j),
    {
        let h = (self.max - self.min) / (self.steps as i64);
        let mut r: Vec<i64> = Vec::new();
        let mut j: i64 = 0;
        while j <= self.steps as i64
            invariant
                self.shape_valid(),
                h == self.step_width(),
                0 <= j <= self.steps + 1,
                r@.len() == j,
                forall|t: int| 0 <= t < j ==> r@[t] == self.grid_radius(t),
            decreases self.steps + 1 - j,
        {
            proof {
                assert(j * h <= self.steps * h) by (nonlinear_arith)
                    requires 0 <= j <= self.steps, h >= 1;
                assert(self.steps * h <= self.max - self.min) by (nonlinear_arith)
                    requires h == (self.max - self.min) / (self.steps as int), self.steps > 0,
                        self.max - self.min > 0;
                assert(0 <= j * h) by (nonlinear_arith)
                    requires 0 <= j, h >= 1;
            }
            r.push(self.min + j * h);
            j += 1;
        }
        r
    }
}

/// The cumulative Simpson sums of `f` over its first `n` pairs of steps.
fn cumulative_sums(f: &Vec<u64>, n: usize) -> (r: Vec<u64>)
    requires
        f@.len() == 2 * n + 1,
        n <= MAX_STEPS,
        forall|t: int| 0 <= t < f@.len() ==> f@[t] <= MAX_INTENSITY,
    ensures
        r@.len() == n + 1,
        forall|j: int| 0 <= j <= n ==> r@[j] == cumulative(f@, j),
{
    let mut r: Vec<u64> = vec![0];
    let mut j: usize = 0;
    while j < n
        invariant
            f@.len() == 2 * n + 1,
            n <= MAX_STEPS,
            forall|t: int| 0 <= t < f@.len() ==> f@[t] <= MAX_INTENSITY,
            0 <= j <= n,
            r@.len() == j + 1,
            forall|t: int| 0 <= t <= j ==> r@[t] == cumulative(f@, t),
        decreases n - j,
    {
        proof {
            lemma_cumulative_bounds(f@, n as int, j as int);
            assert(6 * MAX_INTENSITY * j <= 6 * MAX_INTENSITY * MAX_STEPS) by (nonlinear_arith)
                requires j <= MAX_STEPS;
        }
        let w = f[2 * j] + 4 * f[2 * j + 1] + f[2 * j + 2];
        let next = r[j] + w;
        r.push(next);
        j += 1;
    }
    r
}

impl DensityWave {
    /// The forward table: radii, normalised cumulative probabilities and the
    /// rise of the probability over each pair of steps.
    fn forward_tables(&self, sums: &Vec<u64>, f: Ghost<Seq<u64>>) -> (r: (
        Vec<i64>,
        Vec<i64>,
        Vec<i64>,
    ))
        requires
            self.shape_valid(),
            self.samples_valid(f@),
            sums@.len() == self.pairs() + 1,
            forall|j: int| 0 <= j <= self.pairs() ==> sums@[j] == cumulative(f@, j),
        ensures
            r.0@.len() == self.pairs() + 1,
            r.1@.len() == self.pairs() + 1,
            r.2@.len() == self.pairs() + 1,
            forall|j: int| 0 <= j <= self.pairs() ==> r.0@[j] == self.grid_radius(2 * j),
            forall|j: int|
                0 <= j <= self.pairs() ==> r.1@[j] == cumulative(f@, j) * PROB_ONE / cumulative(
                    f@,
                    self.pairs(),
                ),
            forall|j: int| 0 <= j < self.pairs() ==> r.2@[j] == r.1@[j + 1] - r.1@[j],
            r.2@[self.pairs()] == 0,
    {
        let n = (self.steps / 2) as usize;
        let h = (self.max - self.min) / (self.steps as i64);
        let total = sums[n];
        let ghost total_i = cumulative(f@, n as int);
        let mut x1: Vec<i64> = Vec::new();
        let mut y1: Vec<i64> = Vec::new();
        let mut j: usize = 0;
        while j <= n
            invariant
                self.shape_valid(),
                self.samples_valid(f@),
                n == self.pairs(),
                h == self.step_width(),
                total == total_i,
                total_i == cumulative(f@, n as int),
                sums@.len() == n + 1,
                forall|t: int| 0 <= t <= n ==> sums@[t] == cumulative(f@, t),
                0 <= j <= n + 1,
                x1@.len() == j,
                y1@.len() == j,
                forall|t: int| 0 <= t < j ==> x1@[t] == self.grid_radius(2 * t),
                forall|t: int| 0 <= t < j ==> y1@[t] == cumulative(f@, t) * PROB_ONE / total_i,
                forall|t: int| 0 <= t < j ==> 0 <= #[trigger] y1@[t] <= PROB_ONE,
            decreases n + 1 - j,
        {
            proof {
                lemma_cumulative_bounds(f@, n as int, j as int);
                lemma_cumulative_monotone(f@, n as int, j as int, n as int);
                lemma_cumulative_bounds(f@, n as int, n as int);
                assert(6 * MAX_INTENSITY * n <= 6 * MAX_INTENSITY * MAX_STEPS) by (nonlinear_arith)
                    requires n <= MAX_STEPS;
                lemma_fraction_monotone(sums@[j as int] as int, total as int, PROB_ONE as int, total as int);
                vstd::arithmetic::div_mod::lemma_div_by_multiple(PROB_ONE as int, total as int);
                assert(total * PROB_ONE == PROB_ONE * total) by (nonlinear_arith);
                assert(0 <= sums@[j as int] * PROB_ONE) by (nonlinear_arith)
                    requires sums@[j as int] >= 0;
                vstd::arithmetic::div_mod::lemma_div_pos_is_pos(sums@[j as int] * PROB_ONE, total as int);
                assert(2 * j * h <= self.steps * h) by (nonlinear_arith)
                    requires 2 * j <= self.steps, h >= 1;
                assert(self.steps * h <= self.max - self.min) by (nonlinear_arith)
                    requires h == (self.max - self.min) / (self.steps as int), self.steps > 0,
                        self.max - self.min > 0;
                assert(0 <= 2 * j * h) by (nonlinear_arith)
                    requires 0 <= j, h >= 1;
            }
            x1.push(self.min + 2 * (j as i64) * h);
            let y = ((sums[j] as u128) * (PROB_ONE as u128) / (total as u128)) as i64;
            y1.push(y);
            j += 1;
        }
        let mut m1: Vec<i64> = Vec::new();
        let mut j: usize = 0;
        while j < n
            invariant
                n == self.pairs(),
                y1@.len() == n + 1,
                forall|t: int| 0 <= t <= n ==> 0 <= #[trigger] y1@[t] <= PROB_ONE,
                0 <= j <= n,
                m1@.len() == j,
                forall|t: int| 0 <= t < j ==> m1@[t] == y1@[t + 1] - y1@[t],
            decreases n - j,
        {
            m1.push(y1[j + 1] - y1[j]);
            j += 1;
        }
        m1.push(0);
        (x1, y1, m1)
    }
}

impl DensityWave {
    /// The radius at each probability level `i / steps`, found on the piece of
    /// the forward table that brackets it; the pointer into the forward table
    /// only moves on, as the levels grow.
    fn inverse_radii(&self, sums: &Vec<u64>, f: Ghost<Seq<u64>>) -> (r: Vec<i64>)
        requires
            self.shape_valid(),
            self.samples_valid(f@),
            sums@.len() == self.pairs() + 1,
            forall|j: int| 0 <= j <= self.pairs() ==> sums@[j] == cumulative(f@, j),
        ensures
            r@.len() == self.steps,
            r@[0] == self.min,
            forall|i: int, k: int|
                1 <= i < self.steps && self.brackets(f@, k, i) ==> r@[i] == self.level_radius(
                    f@,
                    k,
                    i,
                ),
            forall|i: int| 0 <= i < self.steps ==> self.min <= #[trigger] r@[i] <= self.max,
            forall|i: int| 0 <= i < self.steps - 1 ==> #[trigger] r@[i] <= r@[i + 1],
    {
        let n = (self.steps / 2) as usize;
        let steps = self.steps as usize;
        let h = (self.max - self.min) / (self.steps as i64);
        let total = sums[n];
        let ghost t = cumulative(f@, n as int);
        proof {
            lemma_cumulative_bounds(f@, n as int, n as int);
            assert(6 * MAX_INTENSITY * n <= 6 * MAX_INTENSITY * MAX_STEPS) by (nonlinear_arith)
                requires n <= MAX_STEPS;
            assert(self.steps * h <= self.max - self.min) by (nonlinear_arith)
                requires h == (self.max - self.min) / (self.steps as int), self.steps > 0,
                    self.max - self.min > 0;
        }
        assert(cumulative(f@, 0) == 0);
        let mut r: Vec<i64> = vec![self.min];
        let mut k: usize = 0;
        let mut i: usize = 1;
        while i < steps
            invariant
                self.shape_valid(),
                self.samples_valid(f@),
                n == self.pairs(),
                steps == self.steps,
                h == self.step_width(),
                self.steps * h <= self.max - self.min,
                total == t,
                t == cumulative(f@, n as int),
                0 < t <= 6 * MAX_INTENSITY * MAX_STEPS,
                sums@.len() == n + 1,
                forall|j: int| 0 <= j <= n ==> sums@[j] == cumulative(f@, j),
                1 <= i <= steps,
                k < n,
                r@.len() == i,
                steps * cumulative(f@, k as int) <= (i - 1) * t,
                r@[i - 1] <= self.grid_radius(2 * k + 2),
                i == 1 ==> k == 0 && r@[0] == self.min,
                i >= 2 ==> self.brackets(f@, k as int, i - 1) && r@[i - 1] == self.level_radius(
                    f@,
                    k as int,
                    i - 1,
                ),
                r@[0] == self.min,
                forall|a: int, kk: int|
                    1 <= a < i && self.brackets(f@, kk, a) ==> r@[a] == self.level_radius(
                        f@,
                        kk,
                        a,
                    ),
                forall|a: int| 0 <= a < i ==> self.min <= #[trigger] r@[a] <= self.max,
                forall|a: int| 0 <= a < i - 1 ==> #[trigger] r@[a] <= r@[a + 1],
            decreases steps - i,
        {
            let ghost k0 = k;
            let ghost prev = r@[i - 1];
            proof {
                assert((i - 1) * t <= i * t) by (nonlinear_arith)
                    requires t > 0, i >= 1;
                assert(i * t < steps * t) by (nonlinear_arith)
                    requires t > 0, i < steps;
                assert(i * t <= MAX_STEPS * (6 * MAX_INTENSITY * MAX_STEPS)) by (nonlinear_arith)
                    requires t <= 6 * MAX_INTENSITY * MAX_STEPS, i <= MAX_STEPS;
            }
            proof {
                lemma_cumulative_bounds(f@, n as int, k as int + 1);
                assert(6 * MAX_INTENSITY * (k + 1) <= 6 * MAX_INTENSITY * MAX_STEPS) by (nonlinear_arith)
                    requires k + 1 <= MAX_STEPS;
                assert(steps * sums@[k + 1] <= MAX_STEPS * (6 * MAX_INTENSITY * MAX_STEPS)) by (nonlinear_arith)
                    requires steps <= MAX_STEPS, 0 <= sums@[k + 1] <= 6 * MAX_INTENSITY * MAX_STEPS;
            }
            let level = (i as u128) * (total as u128);
            while (steps as u128) * (sums[k + 1] as u128) <= level
                invariant
                    self.shape_valid(),
                    self.samples_valid(f@),
                    n == self.pairs(),
                    steps == self.steps,
                    h == self.step_width(),
                    self.steps * h <= self.max - self.min,
                    0 < t,
                    t == cumulative(f@, n as int),
                    level == i * t,
                    i < steps,
                    i * t < steps * t,
                    sums@.len() == n + 1,
                    forall|j: int| 0 <= j <= n ==> sums@[j] == cumulative(f@, j),
                    k0 <= k < n,
                    steps * cumulative(f@, k as int) <= i * t,
                    k == k0 || prev <= self.grid_radius(2 * k),
                    prev <= self.grid_radius(2 * k0 + 2),
                    steps * sums@[k + 1] <= MAX_STEPS * (6 * MAX_INTENSITY * MAX_STEPS),
                decreases n - k,
            {
                proof {
                    if k + 1 == n {
                        assert(false);
                    }
                    assert((2 * k) * h <= (2 * k + 2) * h) by (nonlinear_arith)
                        requires h >= 1, k >= 0;
                    lemma_cumulative_bounds(f@, n as int, k as int + 2);
                    assert(6 * MAX_INTENSITY * (k + 2) <= 6 * MAX_INTENSITY * MAX_STEPS) by (nonlinear_arith)
                        requires k + 2 <= MAX_STEPS;
                    assert(steps * sums@[k + 2] <= MAX_STEPS * (6 * MAX_INTENSITY * MAX_STEPS)) by (nonlinear_arith)
                        requires steps <= MAX_STEPS, 0 <= sums@[k + 2] <= 6 * MAX_INTENSITY * MAX_STEPS;
                }
                k += 1;
            }
            proof {
                lemma_cumulative_bounds(f@, n as int, k as int + 1);
                lemma_cumulative_monotone(f@, n as int, k as int, k as int + 1);
                assert(6 * MAX_INTENSITY * (k + 1) <= 6 * MAX_INTENSITY * MAX_STEPS) by (nonlinear_arith)
                    requires k + 1 <= MAX_STEPS;
                assert(self.brackets(f@, k as int, i as int));
                assert(steps * cumulative(f@, k as int) <= steps * cumulative(f@, k as int + 1)) by (nonlinear_arith)
                    requires cumulative(f@, k as int) <= cumulative(f@, k as int + 1), steps >= 0;
            }
            proof {
                let sk = cumulative(f@, k as int);
                let sk1 = cumulative(f@, k as int + 1);
                assert(steps * (sk1 - sk) == steps * sk1 - steps * sk) by (nonlinear_arith);
                assert(steps * (sk1 - sk) <= steps * sk1) by (nonlinear_arith)
                    requires sk >= 0, steps >= 0, sk1 >= sk;
                assert(steps * sk1 <= MAX_STEPS * (6 * MAX_INTENSITY * MAX_STEPS)) by (nonlinear_arith)
                    requires steps <= MAX_STEPS, 0 <= sk1 <= 6 * MAX_INTENSITY * MAX_STEPS;
            }
            let num = level - (steps as u128) * (sums[k] as u128);
            let den = (steps as u128) * ((sums[k + 1] - sums[k]) as u128);
            proof {
                assert(0 <= num <= i * t);
                assert(num * (2 * h) <= (i * t) * (2 * MAX_PROFILE_RADIUS)) by (nonlinear_arith)
                    requires 0 <= num <= i * t, 0 <= h <= MAX_PROFILE_RADIUS;
                assert(2 * k * h + 2 * h <= self.steps * h) by (nonlinear_arith)
                    requires 2 * k + 2 <= self.steps, h >= 1;
                assert(0 <= 2 * k * h) by (nonlinear_arith)
                    requires k >= 0, h >= 1;
                assert((i * t) * (2 * MAX_PROFILE_RADIUS) <= (MAX_STEPS * (6 * MAX_INTENSITY * MAX_STEPS)) * (2 * MAX_PROFILE_RADIUS)) by (nonlinear_arith)
                    requires 0 <= i * t <= MAX_STEPS * (6 * MAX_INTENSITY * MAX_STEPS);
                lemma_fraction_below(num as int, 2 * h, den as int);
                assert(i * t <= 0x600_0000_0000_0000_0000) by (nonlinear_arith)
                    requires 0 <= i <= 0x10_0000, 0 <= t <= 0x60_0000_0000_0000;
                assert(num * (2 * h) <= 0x10_0000_0000_0000_0000_0000_0000_0000) by (nonlinear_arith)
                    requires 0 <= num <= 0x600_0000_0000_0000_0000, 0 <= h <= 0x20_0000_0000;
            }
            let h2 = 2 * h as u128;
            assert(num * h2 <= 0x10_0000_0000_0000_0000_0000_0000_0000);
            let q = (num * h2 / den) as i64;
            let y = self.min + 2 * (k as i64) * h + q;
            proof {
                assert(2 * k * h + 2 * h <= self.steps * h) by (nonlinear_arith)
                    requires 2 * k + 2 <= self.steps, h >= 1;
                assert(y == self.level_radius(f@, k as int, i as int));
                assert((2 * k + 2) * h == 2 * k * h + 2 * h) by (nonlinear_arith);
                assert((2 * k) * h == 2 * k * h) by (nonlinear_arith);
                assert(y < self.grid_radius(2 * k + 2));
                if k == k0 {
                    if i >= 2 {
                        let a = ((i - 1) * t - steps * cumulative(f@, k as int)) as int;
                        let b = (i * t - steps * cumulative(f@, k as int)) as int;
                        lemma_fraction_monotone(a, b, 2 * h, den as int);
                    }
                } else {
                    assert(self.grid_radius(2 * k) <= y);
                }
                assert forall|a: int, kk: int|
                    1 <= a < i + 1 && self.brackets(f@, kk, a) implies
                        r@.push(y)[a] == self.level_radius(f@, kk, a) by {
                    if a == i {
                        self.lemma_bracket_unique(f@, k as int, kk, a);
                    }
                }
            }
            r.push(y);
            i += 1;
        }
        r
    }
}

impl DensityWave {
    /// Integrates the intensity samples `intensities`, one per radius of
    /// `sample_radii`, and builds the forward and inverse tables. On an error
    /// the profile is left as it was.
    pub fn build(&mut self, intensities: &Vec<u64>) -> (r: Result<(), ConfigurationError>)
        ensures
            r is Ok <==> old(self).shape_valid() && old(self).samples_valid(intensities@),
            old(self).shape_error() is Some ==> r == Err::<(), ConfigurationError>(
                old(self).shape_error()->Some_0,
            ),
            old(self).shape_valid() && !old(self).samples_valid(intensities@) ==> r == Err::<
                (),
                ConfigurationError,
            >(ConfigurationError::DegenerateProfile),
            r is Err ==> *final(self) == *old(self),
            r is Ok ==> {
                &&& final(self).min == old(self).min
                &&& final(self).max == old(self).max
                &&& final(self).steps == old(self).steps
                &&& final(self).is_built()
                &&& final(self).tables_of(intensities@)
                &&& final(self).y1@[final(self).pairs()] == PROB_ONE
            },
    {
        match self.check_shape() {
            Err(e) => {
                return Err(e);
            },
            Ok(()) => {},
        }
        assert(self.shape_error() is None);
        let steps = self.steps as usize;
        let n = steps / 2;
        if intensities.len() != steps + 1 {
            return Err(ConfigurationError::DegenerateProfile);
        }
        if !samples_bounded(intensities) {
            return Err(ConfigurationError::DegenerateProfile);
        }
        let sums = cumulative_sums(intensities, n);
        if sums[n] == 0 {
            return Err(ConfigurationError::DegenerateProfile);
        }
        let ghost f = intensities@;
        let (x1, y1, m1) = self.forward_tables(&sums, Ghost(f));
        let y2 = self.inverse_radii(&sums, Ghost(f));
        let (x2, m2) = self.level_tables(&y2);
        let ghost w0 = *self;
        self.x1 = x1;
        self.y1 = y1;
        self.m1 = m1;
        self.x2 = x2;
        self.y2 = y2;
        self.m2 = m2;
        proof {
            assert forall|i: int, k: int|
                1 <= i < self.steps && self.brackets(f, k, i) implies self.y2@[i]
                    == self.level_radius(f, k, i) by {
                assert(w0.brackets(f, k, i));
            }
            lemma_cumulative_ends_at_one(self, f);
        }
        Ok(())
    }
}

/// Every sample is at most `MAX_INTENSITY`.
fn samples_bounded(f: &Vec<u64>) -> (r: bool)
    ensures
        r <==> forall|t: int| 0 <= t < f@.len() ==> f@[t] <= MAX_INTENSITY,
{
    let mut j: usize = 0;
    while j < f.len()
        invariant
            0 <= j <= f@.len(),
            forall|t: int| 0 <= t < j ==> f@[t] <= MAX_INTENSITY,
        decreases f@.len() - j,
    {
        if f[j] > MAX_INTENSITY {
            return false;
        }
        j += 1;
    }
    true
}

impl DensityWave {
    /// The probability levels `i / steps` and the rise of the radius from each
    /// level to the next.
    fn level_tables(&self, y2: &Vec<i64>) -> (r: (Vec<i64>, Vec<i64>))
        requires
            self.shape_valid(),
            y2@.len() == self.steps,
            forall|a: int| 0 <= a < self.steps ==> self.min <= #[trigger] y2@[a] <= self.max,
        ensures
            r.0@.len() == self.steps,
            r.1@.len() == self.steps,
            forall|a: int| 0 <= a < self.steps ==> r.0@[a] == a * PROB_ONE / (self.steps as int),
            forall|a: int| 0 <= a < self.steps - 1 ==> #[trigger] r.1@[a] == y2@[a + 1] - y2@[a],
            r.1@[self.steps - 1] == 0,
    {
        let steps = self.steps as usize;
        let mut x2: Vec<i64> = Vec::new();
        let mut m2: Vec<i64> = Vec::new();
        let mut i: usize = 0;
        while i < steps
            invariant
                self.shape_valid(),
                steps == self.steps,
                y2@.len() == steps,
                forall|a: int| 0 <= a < steps ==> self.min <= #[trigger] y2@[a] <= self.max,
                0 <= i <= steps,
                x2@.len() == i,
                m2@.len() == i,
                forall|a: int| 0 <= a < i ==> x2@[a] == a * PROB_ONE / (steps as int),
                forall|a: int| 0 <= a < i && a < steps - 1 ==> #[trigger] m2@[a] == y2@[a + 1] - y2@[a],
                i == steps ==> m2@[steps - 1] == 0,
            decreases steps - i,
        {
            proof {
                assert(i * PROB_ONE <= MAX_STEPS * PROB_ONE) by (nonlinear_arith)
                    requires i <= MAX_STEPS;
                assert(0 <= i * PROB_ONE) by (nonlinear_arith)
                    requires i >= 0;
                vstd::arithmetic::div_mod::lemma_div_is_ordered(0, i * PROB_ONE, steps as int);
                vstd::arithmetic::div_mod::lemma_div_is_ordered(i * PROB_ONE, MAX_STEPS * PROB_ONE, steps as int);
                assert(MAX_STEPS * PROB_ONE / (steps as int) <= MAX_STEPS * PROB_ONE) by (nonlinear_arith)
                    requires steps >= 1;
            }
            x2.push(((i as i64) * PROB_ONE) / (steps as i64));
            if i + 1 < steps {
                m2.push(y2[i + 1] - y2[i]);
            } else {
                m2.push(0);
            }
            i += 1;
        }
        (x2, m2)
    }
}

impl DensityWave {
    /// The draw `u`, out-of-range values clamped to the largest draw.
    pub open spec fn clamped_draw(u: int) -> int {
        if u < UNIT_RANGE {
            u
        } else {
            UNIT_RANGE - 1
        }
    }

    /// The inverse-table bucket of the draw `u`, at most `steps - 2`.
    pub open spec fn bucket_of(&self, u: int) -> int {
        let b = (Self::clamped_draw(u) * self.steps) / (UNIT_RANGE as int);
        if b > self.steps - 2 {
            self.steps - 2
        } else {
            b
        }
    }

    /// The radius for the draw `u`, standing for `u / 2^24`: the linear piece
    /// of its bucket, evaluated at `u`.
    pub open spec fn radius_for(&self, u: int) -> int {
        let k = Self::clamped_draw(u);
        let b = self.bucket_of(u);
        self.y2@[b] + (self.m2@[b] * (k * self.steps - b * UNIT_RANGE)) / (UNIT_RANGE as int)
    }

    /// The radius that the uniform draw `val` maps to.
    pub fn val_from_prob(&self, val: u32) -> (r: i64)
        requires
            self.is_built(),
        ensures
            r == self.radius_for(val as int),
    {
        let k: u64 = if val < UNIT_RANGE {
            val as u64
        } else {
            (UNIT_RANGE - 1) as u64
        };
        let steps = self.steps as u64;
        proof {
            assert(k * steps < UNIT_RANGE * MAX_STEPS) by (nonlinear_arith)
                requires k < UNIT_RANGE, steps <= MAX_STEPS, steps >= 1;
        }
        let mut b = (k * steps) / (UNIT_RANGE as u64);
        if b > steps - 2 {
            b = steps - 2;
        }
        proof {
            vstd::arithmetic::div_mod::lemma_fundamental_div_mod((k * steps) as int, UNIT_RANGE as int);
            assert(b * UNIT_RANGE <= k * steps) by (nonlinear_arith)
                requires b <= (k * steps) / (UNIT_RANGE as int), k * steps >= 0;
            let q = (k * steps) / (UNIT_RANGE as int);
            let rem = (k * steps) % (UNIT_RANGE as int);
            assert(k * steps < steps * UNIT_RANGE) by (nonlinear_arith)
                requires k < UNIT_RANGE, steps >= 1;
            assert(q < steps) by (nonlinear_arith)
                requires (k * steps) as int == UNIT_RANGE * q + rem, 0 <= rem, k * steps < steps * UNIT_RANGE;
            assert(b == q || b == q - 1);
            assert(k * steps < (q + 1) * UNIT_RANGE) by (nonlinear_arith)
                requires (k * steps) as int == UNIT_RANGE * q + rem, rem < UNIT_RANGE;
            assert((q + 1) * UNIT_RANGE <= (b + 2) * UNIT_RANGE) by (nonlinear_arith)
                requires q + 1 <= b + 2;
            assert(self.y2@[b as int] <= self.y2@[b as int + 1]);
            assert(0 <= self.m2@[b as int] <= MAX_PROFILE_RADIUS);
        }
        let t = k * steps - b * (UNIT_RANGE as u64);
        proof {
            assert(self.m2@[b as int] * t <= MAX_PROFILE_RADIUS * (2 * UNIT_RANGE)) by (nonlinear_arith)
                requires 0 <= self.m2@[b as int] <= MAX_PROFILE_RADIUS, 0 <= t < 2 * UNIT_RANGE;
            assert(0 <= self.m2@[b as int] * t) by (nonlinear_arith)
                requires 0 <= self.m2@[b as int], 0 <= t;
            vstd::arithmetic::div_mod::lemma_div_is_ordered(0, self.m2@[b as int] * t, UNIT_RANGE as int);
            vstd::arithmetic::div_mod::lemma_div_is_ordered(self.m2@[b as int] * t, MAX_PROFILE_RADIUS * (2 * UNIT_RANGE), UNIT_RANGE as int);
        }
        let rise = ((self.m2[b as usize] as i128) * (t as i128)) / (UNIT_RANGE as i128);
        self.y2[b as usize] + rise as i64
    }
}

/// After normalisation the cumulative table ends at exactly one.
pub proof fn lemma_cumulative_ends_at_one(w: &DensityWave, f: Seq<u64>)
    requires
        w.shape_valid(),
        w.samples_valid(f),
        w.tables_of(f),
    ensures
        w.y1@[w.pairs()] == PROB_ONE,
{
    let total = cumulative(f, w.pairs());
    vstd::arithmetic::div_mod::lemma_div_by_multiple(PROB_ONE as int, total);
    assert(total * PROB_ONE == PROB_ONE * total) by (nonlinear_arith);
}

/// The inverse table never decreases between two levels.
proof fn lemma_inverse_ordered(w: &DensityWave, a: int, b: int)
    requires
        w.is_built(),
        0 <= a <= b < w.steps,
    ensures
        w.y2@[a] <= w.y2@[b],
    decreases b - a,
{
    if a < b {
        lemma_inverse_ordered(w, a, b - 1);
        assert(w.y2@[b - 1] <= w.y2@[b]);
    }
}

/// Sampling is monotone: a larger draw never gives a smaller radius.
pub proof fn lemma_val_from_prob_monotone(w: &DensityWave, u1: int, u2: int)
    requires
        w.is_built(),
        0 <= u1 <= u2,
    ensures
        w.radius_for(u1) <= w.radius_for(u2),
{
    let steps = w.steps as int;
    let big = UNIT_RANGE as int;
    let k1 = DensityWave::clamped_draw(u1);
    let k2 = DensityWave::clamped_draw(u2);
    let b1 = w.bucket_of(u1);
    let b2 = w.bucket_of(u2);
    let t1 = k1 * steps - b1 * big;
    let t2 = k2 * steps - b2 * big;
    assert(k1 * steps <= k2 * steps) by (nonlinear_arith)
        requires 0 <= k1 <= k2, steps >= 0;
    vstd::arithmetic::div_mod::lemma_div_is_ordered(k1 * steps, k2 * steps, big);
    vstd::arithmetic::div_mod::lemma_fundamental_div_mod(k1 * steps, big);
    vstd::arithmetic::div_mod::lemma_fundamental_div_mod(k2 * steps, big);
    let q1 = (k1 * steps) / big;
    let q2 = (k2 * steps) / big;
    assert(0 <= k1 * steps) by (nonlinear_arith)
        requires 0 <= k1, steps >= 0;
    vstd::arithmetic::div_mod::lemma_div_pos_is_pos(k1 * steps, big);
    assert(b1 * big <= q1 * big) by (nonlinear_arith)
        requires b1 <= q1, big > 0;
    assert(b2 * big <= q2 * big) by (nonlinear_arith)
        requires b2 <= q2, big > 0;
    assert(0 <= t1);
    assert(0 <= t2);
    assert(w.y2@[b1] <= w.y2@[b1 + 1]);
    assert(w.m2@[b1] >= 0);
    assert(w.m2@[b2] >= 0);
    if b1 == b2 {
        lemma_fraction_monotone(t1, t2, w.m2@[b1] as int, big);
        assert(t1 * w.m2@[b1] == w.m2@[b1] * t1) by (nonlinear_arith);
        assert(t2 * w.m2@[b1] == w.m2@[b1] * t2) by (nonlinear_arith);
    } else {
        assert(b1 < b2);
        assert(b1 == q1);
        assert(t1 < big);
        if w.m2@[b1] > 0 {
            lemma_fraction_below(t1, w.m2@[b1] as int, big);
            assert(t1 * w.m2@[b1] == w.m2@[b1] * t1) by (nonlinear_arith);
        } else {
            assert(w.m2@[b1] * t1 == 0) by (nonlinear_arith)
                requires w.m2@[b1] == 0;
        }
        lemma_inverse_ordered(w, b1 + 1, b2);
        assert(0 <= w.m2@[b2] * t2) by (nonlinear_arith)
            requires 0 <= w.m2@[b2], 0 <= t2;
        vstd::arithmetic::div_mod::lemma_div_pos_is_pos(w.m2@[b2] * t2, big);
    }
}

/// A sampled radius lies between the profile's inner radius and three times
/// its outer radius (the last bucket extends its piece past the table's end).
pub proof fn lemma_radius_for_bounds(w: &DensityWave, u: int)
    requires
        w.is_built(),
        0 <= u,
    ensures
        w.min <= w.radius_for(u) <= 3 * w.max,
{
    let steps = w.steps as int;
    let big = UNIT_RANGE as int;
    let k = DensityWave::clamped_draw(u);
    let b = w.bucket_of(u);
    let t = k * steps - b * big;
    let q = (k * steps) / big;
    vstd::arithmetic::div_mod::lemma_fundamental_div_mod(k * steps, big);
    assert(0 <= k * steps) by (nonlinear_arith)
        requires 0 <= k, steps >= 0;
    vstd::arithmetic::div_mod::lemma_div_pos_is_pos(k * steps, big);
    assert(k * steps < steps * big) by (nonlinear_arith)
        requires 0 <= k < big, steps >= 1;
    assert(q < steps) by (nonlinear_arith)
        requires k * steps == big * q + (k * steps) % big, 0 <= (k * steps) % big,
            k * steps < steps * big, big > 0;
    assert(b * big <= q * big) by (nonlinear_arith)
        requires b <= q, big > 0;
    assert(k * steps < (q + 1) * big) by (nonlinear_arith)
        requires k * steps == big * q + (k * steps) % big, (k * steps) % big < big;
    assert((q + 1) * big <= (b + 2) * big) by (nonlinear_arith)
        requires q + 1 <= b + 2, big > 0;
    assert(0 <= t < 2 * big);
    let m = w.m2@[b];
    assert(w.y2@[b] <= w.y2@[b + 1]);
    assert(0 <= m <= w.max - w.min);
    assert(0 <= m * t <= (2 * m) * big) by (nonlinear_arith)
        requires 0 <= m, 0 <= t < 2 * big;
    vstd::arithmetic::div_mod::lemma_div_pos_is_pos(m * t, big);
    vstd::arithmetic::div_mod::lemma_div_is_ordered(m * t, (2 * m) * big, big);
    vstd::arithmetic::div_mod::lemma_div_multiples_vanish(2 * m, big);
    assert(big * (2 * m) == (2 * m) * big) by (nonlinear_arith);
}

} // verus!
