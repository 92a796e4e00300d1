//! What the position projector needs beyond trigonometry: the spiral-arm
//! ripple that is added to the ellipse, if any.
use vstd::prelude::*;
use crate::fixed::floor_div;
use crate::settings::GalaxySettings;

verus! {

/// The spiral-arm ripple added to a position on the ellipse: `amplitude`
/// times the sine (for x) and cosine (for y) of `harmonic` times the angle.
#[derive(Debug, Clone, Copy, PartialEq, Eq, Structural)]
pub struct Ripple {
    pub amplitude: i64,
    pub harmonic: i64,
}

/// The ripple applies when both the ripple count and the damping divisor are
/// positive.
pub open spec fn ripple_applies(s: GalaxySettings) -> bool {
    s.pert_n > 0 && s.pert_amp > 0
}

/// The ripple of an orbit with semi-minor axis `a`: amplitude `a / pert_amp`,
/// rounded down, at twice `pert_n` times the angle; none when `pert_n` or
/// `pert_amp` is not positive, so that the position is the bare ellipse.
pub fn perturbation(s: &GalaxySettings, a: i64) -> (r: Option<Ripple>)
    ensures
        r is None <==> !ripple_applies(*s),
        s.pert_n == 0 || s.pert_amp == 0 ==> r is None,
        r is Some ==> r->Some_0 == (Ripple {
            amplitude: (a as int / s.pert_amp as int) as i64,
            harmonic: (2 * s.pert_n) as i64,
        }),
{
    if s.pert_n > 0 && s.pert_amp > 0 {
        let amplitude = floor_div(a as i128, s.pert_amp as i128) as i64;
        Some(Ripple { amplitude, harmonic: 2 * (s.pert_n as i64) })
    } else {
        None
    }
}

} // verus!
