//! The user interface's control over the galaxy's settings.
use vstd::prelude::*;
use crate::settings::GalaxySettings;

verus! {

/// Stars added or removed by one click of a star-count button.
pub const STAR_STEP: usize = 1000;

/// The user interface: buttons that add or remove stars.
#[derive(Debug, Clone, Copy, PartialEq, Eq, Structural)]
pub struct AppUIPlugin;

impl AppUIPlugin {
    /// Star count after a click: `STAR_STEP` more for the up button (kept as
    /// it is where that would overflow), `STAR_STEP` fewer for the down button,
    /// never below zero.
    pub fn stars_count_after_click(count: usize, up: bool) -> (r: usize)
        ensures
            up && count + STAR_STEP <= usize::MAX ==> r == count + STAR_STEP,
            up && count + STAR_STEP > usize::MAX ==> r == count,
            !up && count >= STAR_STEP ==> r == count - STAR_STEP,
            !up && count < STAR_STEP ==> r == 0,
    {
        if up {
            if count <= usize::MAX - STAR_STEP {
                count + STAR_STEP
            } else {
                count
            }
        } else if count >= STAR_STEP {
            count - STAR_STEP
        } else {
            0
        }
    }

    /// Applies a click of a star-count button to the settings.
    pub fn click_star_button(settings: &mut GalaxySettings, up: bool)
        ensures
            *final(settings) == (GalaxySettings {
                count_stars: Self::count_after_click_spec(old(settings).count_stars, up),
                ..*old(settings)
            }),
    {
        settings.count_stars = Self::stars_count_after_click(settings.count_stars, up);
    }

    /// Star count after a click, as `stars_count_after_click` computes it.
    pub open spec fn count_after_click_spec(count: usize, up: bool) -> usize {
        if up {
            if count + STAR_STEP <= usize::MAX {
                (count + STAR_STEP) as usize
            } else {
                count
            }
        } else if count >= STAR_STEP {
            (count - STAR_STEP) as usize
        } else {
            0
        }
    }
}

} // verus!
