//! The color cycle: maps the wrapping frame counter to an RGB color by
//! sweeping the hue circle once over the counter's full range, at maximal
//! saturation and value.

use vstd::prelude::*;

use crate::motion::COUNTER_PERIOD;
use crate::motion::counter_after;
use crate::motion::lemma_counter_period;

verus! {

/// An RGB color, eight bits per channel.
#[derive(Clone, Copy, PartialEq, Eq, Structural, Debug)]
pub struct Color {
    pub r: u8,
    pub g: u8,
    pub b: u8,
}

/// The hue assigned to a frame counter, truncated to a whole degree.
/// The counter range `[0, 255)` sweeps one full turn of the hue circle:
/// `h = counter / 255 * 360`, and sector selection below uses this
/// integer-truncated value.
pub open spec fn hue_degrees(counter: int) -> int {
    counter * 360 / 255
}

/// 255 times the secondary HSV channel `x = 1 - |((h / 60) mod 2) - 1|`
/// at chroma 1, computed exactly: with `h = counter * 360 / 255` as a
/// rational, `h / 60 = 2 * counter / 85`, so `255 * x` is the integer
/// `3 * (85 - |(2 * counter) mod 170 - 85|)`.
pub open spec fn secondary_channel(counter: int) -> int {
    let t = (2 * counter) % 170;
    if t >= 85 {
        3 * (170 - t)
    } else {
        3 * t
    }
}

/// The color of a frame: HSV with saturation and value 1 converted to RGB
/// by the standard six-sector piecewise-linear rule, the sector chosen by
/// the integer-truncated hue, channels scaled to `[0, 255]`.
pub open spec fn color_spec(counter: int) -> Color {
    let h = hue_degrees(counter);
    let x = secondary_channel(counter) as u8;
    if h < 60 {
        Color { r: 255, g: x, b: 0 }
    } else if h < 120 {
        Color { r: x, g: 255, b: 0 }
    } else if h < 180 {
        Color { r: 0, g: 255, b: x }
    } else if h < 240 {
        Color { r: 0, g: x, b: 255 }
    } else if h < 300 {
        Color { r: x, g: 0, b: 255 }
    } else {
        Color { r: 255, g: 0, b: x }
    }
}

/// Frame zero has hue zero, which falls in the first sector: pure red.
pub proof fn lemma_color_red()
    ensures
        color_spec(0) == (Color { r: 255, g: 0, b: 0 }),
{
}

/// The color cycle is periodic with the counter's period: after a full
/// period of 255 frames the counter, and with it the color, is back at
/// its starting value.
pub proof fn lemma_color_periodic(counter: int)
    requires
        0 <= counter < COUNTER_PERIOD,
    ensures
        color_spec(counter_after(counter, COUNTER_PERIOD as nat)) == color_spec(counter),
{
    lemma_counter_period(counter);
}

/// Map a frame counter to its color.
pub fn color_for_frame(counter: u8) -> (color: Color)
    requires
        counter < 255,
    ensures
        color == color_spec(counter as int),
{
    let t: u32 = (2 * counter as u32) % 170;
    let x: u8 = if t >= 85 {
        (3 * (170 - t)) as u8
    } else {
        (3 * t) as u8
    };
    let h: u32 = (counter as u32 * 360) / 255;
    if h < 60 {
        Color { r: 255, g: x, b: 0 }
    } else if h < 120 {
        Color { r: x, g: 255, b: 0 }
    } else if h < 180 {
        Color { r: 0, g: 255, b: x }
    } else if h < 240 {
        Color { r: 0, g: x, b: 255 }
    } else if h < 300 {
        Color { r: x, g: 0, b: 255 }
    } else {
        Color { r: 255, g: 0, b: x }
    }
}

} // verus!
