use vstd::prelude::*;

use crate::binary64::Binary64;
use crate::binary64::FULL_TURN_BITS;
use crate::binary64::HUNDRED_BITS;
use crate::binary64::ONE_BITS;
use crate::binary64::ZERO_BITS;

verus! {

/// The RGB component that lies outside `[0, 1]`.
#[derive(Debug, Copy, Clone, PartialEq, Eq, Structural, PartialOrd, Ord)]
pub enum RgbBounds {
    Red,
    Green,
    Blue,
}

/// The HSLuv or HPLuv component that lies outside its range.
#[derive(Debug, Copy, Clone, PartialEq, Eq, Structural, PartialOrd, Ord)]
pub enum HslBounds {
    Hue,
    Saturation,
    Lightness,
}

/// The XYZ component that lies outside `[0, 1]`.
#[derive(Debug, Copy, Clone, PartialEq, Eq, Structural, PartialOrd, Ord)]
pub enum XyzBounds {
    X,
    Y,
    Z,
}

/// `0 <= x <= 1`.
pub open spec fn unit(x: Binary64) -> bool {
    x.within(Binary64 { bits: ZERO_BITS }, Binary64 { bits: ONE_BITS })
}

/// `0 <= x <= 100`.
pub open spec fn percent(x: Binary64) -> bool {
    x.within(Binary64 { bits: ZERO_BITS }, Binary64 { bits: HUNDRED_BITS })
}

/// `0 <= x <= 360`.
pub open spec fn degrees(x: Binary64) -> bool {
    x.within(Binary64 { bits: ZERO_BITS }, Binary64 { bits: FULL_TURN_BITS })
}

fn is_unit(x: Binary64) -> (r: bool)
    ensures
        r == unit(x),
{
    x.is_within(Binary64::from_bits(ZERO_BITS), Binary64::from_bits(ONE_BITS))
}

fn is_percent(x: Binary64) -> (r: bool)
    ensures
        r == percent(x),
{
    x.is_within(Binary64::from_bits(ZERO_BITS), Binary64::from_bits(HUNDRED_BITS))
}

fn is_degrees(x: Binary64) -> (r: bool)
    ensures
        r == degrees(x),
{
    x.is_within(Binary64::from_bits(ZERO_BITS), Binary64::from_bits(FULL_TURN_BITS))
}

/// Checks an RGB triple, each channel in `[0, 1]`, reporting the first channel that is not.
pub fn validate_rgb(red: Binary64, green: Binary64, blue: Binary64) -> (r: Result<(), RgbBounds>)
    ensures
        r == (if !unit(red) {
            Err(RgbBounds::Red)
        } else if !unit(green) {
            Err(RgbBounds::Green)
        } else if !unit(blue) {
            Err(RgbBounds::Blue)
        } else {
            Ok(())
        }),
{
    if !is_unit(red) {
        Err(RgbBounds::Red)
    } else if !is_unit(green) {
        Err(RgbBounds::Green)
    } else if !is_unit(blue) {
        Err(RgbBounds::Blue)
    } else {
        Ok(())
    }
}

/// Checks a hue in `[0, 360]` and a saturation and a lightness in `[0, 100]`, reporting the
/// first component that is out of its range.
pub fn validate_hsl(hue: Binary64, saturation: Binary64, lightness: Binary64) -> (r: Result<
    (),
    HslBounds,
>)
    ensures
        r == (if !degrees(hue) {
            Err(HslBounds::Hue)
        } else if !percent(saturation) {
            Err(HslBounds::Saturation)
        } else if !percent(lightness) {
            Err(HslBounds::Lightness)
        } else {
            Ok(())
        }),
{
    if !is_degrees(hue) {
        Err(HslBounds::Hue)
    } else if !is_percent(saturation) {
        Err(HslBounds::Saturation)
    } else if !is_percent(lightness) {
        Err(HslBounds::Lightness)
    } else {
        Ok(())
    }
}

/// Checks an XYZ triple, each component in `[0, 1]`, reporting the first component that is not.
pub fn validate_xyz(x: Binary64, y: Binary64, z: Binary64) -> (r: Result<(), XyzBounds>)
    ensures
        r == (if !unit(x) {
            Err(XyzBounds::X)
        } else if !unit(y) {
            Err(XyzBounds::Y)
        } else if !unit(z) {
            Err(XyzBounds::Z)
        } else {
            Ok(())
        }),
{
    if !is_unit(x) {
        Err(XyzBounds::X)
    } else if !is_unit(y) {
        Err(XyzBounds::Y)
    } else if !is_unit(z) {
        Err(XyzBounds::Z)
    } else {
        Ok(())
    }
}

} // verus!
