use vstd::prelude::*;

use crate::binary64::Binary64;

verus! {

/// Encoding of `1e-8`, the threshold below which a lightness is black and a chroma or a
/// saturation is gray.
pub const NEAR_ZERO_BITS: u64 = 0x3E45_798E_E230_8C3A;

/// Encoding of `99.9999999`, the threshold above which a lightness is white.
pub const WHITE_BITS: u64 = 0x4058_FFFF_FF94_A036;

/// `lightness < 1e-8`.
pub open spec fn black(lightness: Binary64) -> bool {
    lightness.less(Binary64 { bits: NEAR_ZERO_BITS })
}

/// `lightness <= 1e-8`: the test that guards the inverse chromaticity division.
pub open spec fn black_or_threshold(lightness: Binary64) -> bool {
    lightness.less_eq(Binary64 { bits: NEAR_ZERO_BITS })
}

/// `lightness > 99.9999999`.
pub open spec fn white(lightness: Binary64) -> bool {
    Binary64 { bits: WHITE_BITS }.less(lightness)
}

/// `colorfulness < 1e-8`, for a chroma or a saturation.
pub open spec fn gray(colorfulness: Binary64) -> bool {
    colorfulness.less(Binary64 { bits: NEAR_ZERO_BITS })
}

pub fn is_black(lightness: Binary64) -> (r: bool)
    ensures
        r == black(lightness),
{
    lightness.lt(Binary64::from_bits(NEAR_ZERO_BITS))
}

pub fn is_black_or_threshold(lightness: Binary64) -> (r: bool)
    ensures
        r == black_or_threshold(lightness),
{
    lightness.le(Binary64::from_bits(NEAR_ZERO_BITS))
}

pub fn is_white(lightness: Binary64) -> (r: bool)
    ensures
        r == white(lightness),
{
    Binary64::from_bits(WHITE_BITS).lt(lightness)
}

pub fn is_gray(colorfulness: Binary64) -> (r: bool)
    ensures
        r == gray(colorfulness),
{
    colorfulness.lt(Binary64::from_bits(NEAR_ZERO_BITS))
}

/// Which components of a cylindrical color are replaced by zero when it is carried between
/// LCH and HSLuv or HPLuv.
#[derive(Debug, Copy, Clone, PartialEq, Eq, Structural)]
pub struct Achromatic {
    /// The color is gray: its hue means nothing and becomes zero.
    pub drop_hue: bool,
    /// The color is black or white: its chroma (or saturation) becomes zero.
    pub drop_colorfulness: bool,
}

pub open spec fn achromatic_spec(colorfulness: Binary64, lightness: Binary64) -> Achromatic {
    Achromatic {
        drop_hue: gray(colorfulness),
        drop_colorfulness: black(lightness) || white(lightness),
    }
}

/// The guards of the four transforms between LCH and HSLuv or HPLuv, from the source value's
/// chroma (or saturation) and its lightness.
pub fn achromatic(colorfulness: Binary64, lightness: Binary64) -> (r: Achromatic)
    ensures
        r == achromatic_spec(colorfulness, lightness),
{
    Achromatic {
        drop_hue: is_gray(colorfulness),
        drop_colorfulness: is_black(lightness) || is_white(lightness),
    }
}

/// A color with no chroma (or no saturation), of either sign of zero, has its hue replaced by
/// zero, whatever its lightness.
pub proof fn lemma_zero_colorfulness_drops_hue(colorfulness: Binary64, lightness: Binary64)
    requires
        colorfulness.magnitude() == 0,
    ensures
        achromatic_spec(colorfulness, lightness).drop_hue,
{
}

/// A lightness below `1e-8` or above `99.9999999` has the chroma (or saturation) replaced by
/// zero, whatever the other components are.
pub proof fn lemma_extreme_lightness_drops_colorfulness(lightness: Binary64)
    requires
        black(lightness) || white(lightness),
    ensures
        forall|c: Binary64| #[trigger] achromatic_spec(c, lightness).drop_colorfulness,
{
}

} // verus!
