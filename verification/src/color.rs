//! Hue-wheel coloring for the many-pendulum population.
//!
//! Each instance of the thousand-pendulum population is tagged with a color
//! taken from a full sweep of the hue wheel: instance `i` gets the hue at
//! fraction `i / 1000` of the wheel, at full saturation and full value.
//! The fraction and the resulting channels are kept in whole thousandths,
//! so the standard six-sector hue-to-channel conversion is exact integer
//! arithmetic: with the scalar in thousandths, `6 * scalar` splits into a
//! sector index (its quotient by 1000) and an in-sector offset (its
//! remainder), and every channel is one of full, dark, the offset, or its
//! complement.

use vstd::prelude::*;

verus! {

/// Channel values run from `0` (dark) to `CHANNEL_SCALE` (full intensity),
/// in thousandths; the host divides by this scale to recover unit-range
/// channels for the renderer.
pub const CHANNEL_SCALE: u16 = 1000;

/// A color as red, green and blue channels, each in thousandths
/// (see [`CHANNEL_SCALE`]).
#[derive(Clone, Copy, Debug, PartialEq, Eq, Structural)]
pub struct Rgb {
    pub r: u16,
    pub g: u16,
    pub b: u16,
}

/// Full intensity on every channel: the tag of the single default pendulum.
pub open spec fn white() -> Rgb {
    Rgb { r: CHANNEL_SCALE, g: CHANNEL_SCALE, b: CHANNEL_SCALE }
}

/// A scalar in thousandths clamped to the unit range `[0, 1000]`.
pub open spec fn clamp_milli(scalar_milli: int) -> int {
    if scalar_milli < 0 {
        0
    } else if scalar_milli > CHANNEL_SCALE {
        CHANNEL_SCALE as int
    } else {
        scalar_milli
    }
}

/// The red, green and blue channels, in thousandths, of the hue at fraction
/// `scalar_milli / 1000` of the hue wheel, at full saturation and value.
///
/// The scalar is clamped to the unit range first. The hue in degrees is the
/// clamped fraction times 360, so `6 * clamped` is the hue over 60: its
/// quotient by 1000 is the sector, its remainder the in-sector offset `f`
/// in thousandths. With saturation and value both 1, the channel candidates
/// of the standard conversion collapse to full (1000), dark (0), `t == f`
/// and `q == 1000 - f`. A clamped scalar of exactly 1000 gives sector 6,
/// which the quotient's remainder by 6 wraps back to sector 0 with offset 0,
/// the top of the wheel.
pub open spec fn rainbow_channels(scalar_milli: int) -> (int, int, int) {
    let c = clamp_milli(scalar_milli);
    let sector = ((6 * c) / 1000) % 6;
    let f = (6 * c) % 1000;
    if sector == 0 {
        (1000, f, 0)
    } else if sector == 1 {
        (1000 - f, 1000, 0)
    } else if sector == 2 {
        (0, 1000, f)
    } else if sector == 3 {
        (0, 1000 - f, 1000)
    } else if sector == 4 {
        (f, 0, 1000)
    } else {
        (1000, 0, 1000 - f)
    }
}

/// `c` holds exactly the given channel triple.
pub open spec fn rgb_is(c: Rgb, channels: (int, int, int)) -> bool {
    &&& c.r as int == channels.0
    &&& c.g as int == channels.1
    &&& c.b as int == channels.2
}

/// The color at fraction `scalar_milli / 1000` of the hue wheel, clamped to
/// the unit range, at full saturation and value.
pub fn rainbow_color(scalar_milli: i64) -> (c: Rgb)
    ensures
        rgb_is(c, rainbow_channels(scalar_milli as int)),
{
    let s: u32 = if scalar_milli < 0 {
        0
    } else if scalar_milli > CHANNEL_SCALE as i64 {
        CHANNEL_SCALE as u32
    } else {
        scalar_milli as u32
    };
    let six: u32 = 6 * s;
    let sector: u32 = (six / 1000) % 6;
    let f: u16 = (six % 1000) as u16;
    if sector == 0 {
        Rgb { r: 1000, g: f, b: 0 }
    } else if sector == 1 {
        Rgb { r: 1000 - f, g: 1000, b: 0 }
    } else if sector == 2 {
        Rgb { r: 0, g: 1000, b: f }
    } else if sector == 3 {
        Rgb { r: 0, g: 1000 - f, b: 1000 }
    } else if sector == 4 {
        Rgb { r: f, g: 0, b: 1000 }
    } else {
        Rgb { r: 1000, g: 0, b: 1000 - f }
    }
}

} // verus!
