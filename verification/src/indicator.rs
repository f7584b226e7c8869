//! The indicator color pipeline: the tri-state decision value, the base
//! color each decision maps to, and the brightness/gamma value transform
//! applied before a frame is handed to the indicator-strip driver.

use vstd::prelude::*;
use vstd::arithmetic::div_mod::lemma_div_is_ordered;
use vstd::arithmetic::div_mod::lemma_fundamental_div_mod_converse;

verus! {

/// Brightness level applied to every indicator frame.
pub const INDICATOR_BRIGHTNESS: u8 = 10;

/// One pixel of the indicator strip, eight bits per channel.
#[derive(Clone, Copy, PartialEq, Eq, Structural, Debug)]
pub struct Rgb {
    pub r: u8,
    pub g: u8,
    pub b: u8,
}

/// The tri-state indicator decision: `Off` is the idle/startup value,
/// `Alert` and `Clear` are the two mutually exclusive outputs of the
/// distance-threshold decision.
#[derive(Clone, Copy, PartialEq, Eq, Structural, Debug)]
pub enum IndicatorColor {
    Off,
    Alert,
    Clear,
}

/// The full-intensity color each indicator decision maps to, before
/// gamma correction and brightness scaling.
pub open spec fn base_color_spec(color: IndicatorColor) -> Rgb {
    match color {
        IndicatorColor::Off => Rgb { r: 0, g: 0, b: 0 },
        IndicatorColor::Alert => Rgb { r: 0, g: 255, b: 0 },
        IndicatorColor::Clear => Rgb { r: 255, g: 0, b: 0 },
    }
}

pub fn base_color(color: IndicatorColor) -> (c: Rgb)
    ensures
        c == base_color_spec(color),
{
    match color {
        IndicatorColor::Off => Rgb { r: 0, g: 0, b: 0 },
        IndicatorColor::Alert => Rgb { r: 0, g: 255, b: 0 },
        IndicatorColor::Clear => Rgb { r: 255, g: 0, b: 0 },
    }
}

/// What smart_leds's gamma-correction table maps one eight-bit channel to.
pub uninterp spec fn gamma_channel(x: u8) -> u8;

/// Relies on smart_leds::gamma: every channel of a pixel is mapped through
/// the same fixed 256-entry correction table, whose entry for 0 is 0 and
/// whose entry for 255 is 255.
#[verifier::external_body]
fn gamma_correct(c: Rgb) -> (r: Rgb)
    ensures
        r.r == gamma_channel(c.r),
        r.g == gamma_channel(c.g),
        r.b == gamma_channel(c.b),
        c.r == 0 ==> r.r == 0,
        c.g == 0 ==> r.g == 0,
        c.b == 0 ==> r.b == 0,
        c.r == 255 ==> r.r == 255,
        c.g == 255 ==> r.g == 255,
        c.b == 255 ==> r.b == 255,
{
    let pixel = smart_leds::RGB8 { r: c.r, g: c.g, b: c.b };
    let corrected = smart_leds::gamma(core::iter::once(pixel)).next().unwrap();
    Rgb { r: corrected.r, g: corrected.g, b: corrected.b }
}

/// The brightness scaling smart_leds applies to one channel: the channel
/// is multiplied by `level + 1` and divided by 256, rounding down.
pub open spec fn scaled_channel(x: u8, level: u8) -> u8 {
    ((x as int * (level as int + 1)) / 256) as u8
}

/// Relies on smart_leds::brightness: each channel `x` of a pixel becomes
/// `x * (level + 1) / 256`.
#[verifier::external_body]
fn scale_brightness(c: Rgb, level: u8) -> (r: Rgb)
    ensures
        r.r == scaled_channel(c.r, level),
        r.g == scaled_channel(c.g, level),
        r.b == scaled_channel(c.b, level),
{
    let pixel = smart_leds::RGB8 { r: c.r, g: c.g, b: c.b };
    let scaled = smart_leds::brightness(core::iter::once(pixel), level).next().unwrap();
    Rgb { r: scaled.r, g: scaled.g, b: scaled.b }
}

/// The pure value transform applied to a pixel before it is written out:
/// gamma correction first, then brightness scaling, per channel.
pub open spec fn transform_pixel_spec(c: Rgb, level: u8) -> Rgb {
    Rgb {
        r: scaled_channel(gamma_channel(c.r), level),
        g: scaled_channel(gamma_channel(c.g), level),
        b: scaled_channel(gamma_channel(c.b), level),
    }
}

/// No scaled channel exceeds the brightness level itself.
proof fn lemma_scaled_channel_le_level(x: u8, level: u8)
    ensures
        scaled_channel(x, level) <= level,
{
    let xi = x as int;
    let li = level as int;
    assert(xi * (li + 1) <= 255 * (li + 1)) by (nonlinear_arith)
        requires
            0 <= xi <= 255,
            0 <= li,
    ;
    lemma_div_is_ordered(xi * (li + 1), 255 * (li + 1), 256);
    assert(255 * (li + 1) == 256 * li + (255 - li));
    lemma_fundamental_div_mod_converse(256 * li + (255 - li), 256, li, 255 - li);
}

/// Gamma-correct and brightness-scale one pixel. A black channel stays
/// black, and no channel ever exceeds the brightness level.
pub fn transform_pixel(c: Rgb, level: u8) -> (r: Rgb)
    ensures
        r == transform_pixel_spec(c, level),
        r.r <= level && r.g <= level && r.b <= level,
        c.r == 0 ==> r.r == 0,
        c.g == 0 ==> r.g == 0,
        c.b == 0 ==> r.b == 0,
{
    let corrected = gamma_correct(c);
    let scaled = scale_brightness(corrected, level);
    proof {
        lemma_scaled_channel_le_level(gamma_channel(c.r), level);
        lemma_scaled_channel_le_level(gamma_channel(c.g), level);
        lemma_scaled_channel_le_level(gamma_channel(c.b), level);
    }
    scaled
}

/// The frame committed to the indicator for one decision: its base color,
/// gamma-corrected, then scaled to `level`.
pub open spec fn frame_spec(color: IndicatorColor, level: u8) -> Rgb {
    transform_pixel_spec(base_color_spec(color), level)
}

/// Build the frame for one indicator decision. An `Off` decision always
/// yields an all-black frame, and no channel ever exceeds the brightness
/// level.
pub fn indicator_frame(color: IndicatorColor, level: u8) -> (f: Rgb)
    ensures
        f == frame_spec(color, level),
        f.r <= level && f.g <= level && f.b <= level,
        color is Off ==> f == (Rgb { r: 0, g: 0, b: 0 }),
{
    let base = base_color(color);
    transform_pixel(base, level)
}

} // verus!
