//! Display size and colour of each generated object.
use vstd::prelude::*;
use crate::color::{color_from_temperature_hrd, color_index_of, ramp, scale_color, scaled, Rgba, MAX_CHANNEL};
use crate::fixed::{floor_div, MAX_LENGTH, ONE};
use crate::settings::GalaxySettings;
use crate::stars::{Star, StarType};

verus! {

/// Sprite size of a star per unit of brightness, in world units.
pub const STAR_SIZE: i64 = 4;
/// Sprite size of dust per unit of brightness and of render size.
pub const DUST_SIZE: i64 = 5;
/// Sprite size of a filament per unit of brightness and of render size.
pub const FILAMENT_SIZE: i64 = 2;
/// Distance at which an H2 region shrinks to nothing, and the size it loses
/// per unit of distance is one tenth.
pub const H2_REACH: i64 = 1_000_000;
/// Size taken off every H2 region.
pub const H2_MARGIN: i64 = 50_000;

/// Colour of an object: the ramp colour of its temperature with red, green
/// and blue scaled by its brightness and alpha kept opaque; tinted red for H2
/// regions; white for H2 cores.
pub open spec fn star_color_of(st: Star) -> Rgba {
    let base = scaled(ramp(color_index_of(st.temp as int)), st.mag as int);
    match st.star_type {
        StarType::GalacticCore | StarType::Star | StarType::Dust | StarType::DustFilament => Rgba {
            a: ONE,
            ..base
        },
        StarType::H2Region => Rgba {
            r: (base.r * 2) as i64,
            g: (base.g / 2) as i64,
            b: (base.b / 2) as i64,
            a: ONE,
        },
        StarType::H2Core => Rgba { r: ONE, g: ONE, b: ONE, a: ONE },
    }
}

/// Colour of an object.
pub fn star_color(st: &Star) -> (r: Rgba)
    requires
        -MAX_CHANNEL <= st.mag <= MAX_CHANNEL,
    ensures
        r == star_color_of(*st),
{
    match st.star_type {
        StarType::H2Core => Rgba { r: ONE, g: ONE, b: ONE, a: ONE },
        _ => {
            let base = scale_color(color_from_temperature_hrd(st.temp), st.mag);
            match st.star_type {
                StarType::H2Region => Rgba {
                    r: ((base.r as i128) * 2) as i64,
                    g: floor_div(base.g as i128, 2) as i64,
                    b: floor_div(base.b as i128, 2) as i64,
                    a: ONE,
                },
                _ => Rgba { a: ONE, ..base },
            }
        },
    }
}

/// Size of an H2 region whose projected position moves by `spread` when its
/// semi-minor axis grows by 1000 parsecs.
pub open spec fn h2_size(spread: int) -> int {
    (H2_REACH - spread) / 10 - H2_MARGIN
}

/// Sprite size of an object, in thousandths of a world unit; `spread` is used
/// by H2 regions and cores only.
pub open spec fn star_size_of(s: GalaxySettings, st: Star, spread: int) -> int {
    match st.star_type {
        StarType::GalacticCore | StarType::Star => (st.mag * STAR_SIZE) / 1000,
        StarType::Dust => (st.mag * DUST_SIZE * s.dust_render_size) / (ONE * 1000),
        StarType::DustFilament => (st.mag * FILAMENT_SIZE * s.dust_render_size) / (ONE * 1000),
        StarType::H2Region => h2_size(spread),
        StarType::H2Core => h2_size(spread) / 10,
    }
}

/// Sprite size of an object, in thousandths of a world unit.
pub fn star_size(s: &GalaxySettings, st: &Star, spread: i64) -> (r: i64)
    requires
        s.valid(),
        -MAX_CHANNEL <= st.mag <= MAX_CHANNEL,
        -MAX_LENGTH <= spread <= MAX_LENGTH,
    ensures
        r == star_size_of(*s, *st, spread as int),
{
    let mag = st.mag as i128;
    let drs = s.dust_render_size as i128;
    assert(0 <= drs <= 0x100_0000_0000);
    assert(-0x100_0000_0000 <= mag <= 0x100_0000_0000);
    assert(-0x10_0000_0000_0000_0000_0000 <= mag * 5 * drs <= 0x10_0000_0000_0000_0000_0000) by (nonlinear_arith)
        requires -0x100_0000_0000 <= mag <= 0x100_0000_0000, 0 <= drs <= 0x100_0000_0000;
    assert(-0x10_0000_0000_0000_0000_0000 <= mag * 2 * drs <= 0x10_0000_0000_0000_0000_0000) by (nonlinear_arith)
        requires -0x100_0000_0000 <= mag <= 0x100_0000_0000, 0 <= drs <= 0x100_0000_0000;
    let dust = mag * (DUST_SIZE as i128) * drs;
    let filament = mag * (FILAMENT_SIZE as i128) * drs;
    assert(-MAX_CHANNEL * STAR_SIZE <= mag * STAR_SIZE <= MAX_CHANNEL * STAR_SIZE);
    let h2 = floor_div((H2_REACH - spread) as i128, 10) - H2_MARGIN as i128;
    let r = match st.star_type {
        StarType::GalacticCore | StarType::Star => floor_div(mag * STAR_SIZE as i128, 1000),
        StarType::Dust => floor_div(dust, ONE as i128 * 1000),
        StarType::DustFilament => floor_div(filament, ONE as i128 * 1000),
        StarType::H2Region => h2,
        StarType::H2Core => floor_div(h2, 10),
    };
    r as i64
}

} // verus!
