//! The decisions of a color conversion library between RGB, XYZ, LUV, LCH, HSLuv and HPLuv.
//!
//! Color components are doubles. This library reads each one by its IEEE 754 binary64 encoding
//! ([`binary64::Binary64`]) and decides, with proofs: whether a component lies in its range
//! ([`spaces`]), whether a color is black, white or gray and so loses its chroma or its hue
//! ([`guards`]), and which of the six lines that bound the RGB gamut at a lightness is the
//! tightest ([`gamut`]). The arithmetic on the doubles is left to its callers.

use core::ops::Add;
use core::ops::Mul;
use vstd::prelude::*;
use vstd::std_specs::ops::AddSpec;
use vstd::std_specs::ops::MulSpec;

pub mod binary64;
pub mod gamut;
pub mod guards;
pub mod spaces;

pub use spaces::HslBounds;
pub use spaces::RgbBounds;
pub use spaces::XyzBounds;

verus! {

/// The exact value of `lhs.0 * rhs.0 + lhs.1 * rhs.1 + lhs.2 * rhs.2`, for operand types whose
/// operators follow their specification.
pub open spec fn dot_spec<T, U, V>(lhs: (T, T, T), rhs: (U, U, U)) -> V where
    T: Mul<U, Output = V>,
    V: Add<Output = V>,
 {
    lhs.0.mul_spec(rhs.0).add_spec(lhs.1.mul_spec(rhs.1)).add_spec(lhs.2.mul_spec(rhs.2))
}

/// Sum of the pairwise products of two triples, added left to right.
pub fn dot_product<T, U, V>(lhs: (T, T, T), rhs: (U, U, U)) -> (r: V) where
    T: Mul<U, Output = V>,
    V: Add<Output = V>,

    requires
        lhs.0.mul_req(rhs.0),
        lhs.1.mul_req(rhs.1),
        lhs.2.mul_req(rhs.2),
        T::obeys_mul_spec() ==> lhs.0.mul_spec(rhs.0).add_req(lhs.1.mul_spec(rhs.1)),
        T::obeys_mul_spec() ==> lhs.0.mul_spec(rhs.0).add_spec(lhs.1.mul_spec(rhs.1)).add_req(
            lhs.2.mul_spec(rhs.2),
        ),
        !T::obeys_mul_spec() ==> forall|x: V, y: V| x.add_req(y),
        !V::obeys_add_spec() ==> forall|x: V, y: V| x.add_req(y),
    ensures
        T::obeys_mul_spec() && V::obeys_add_spec() ==> r == dot_spec(lhs, rhs),
{
    let (l0, l1, l2) = lhs;
    let (r0, r1, r2) = rhs;
    let a = l0.mul(r0);
    let b = l1.mul(r1);
    let c = l2.mul(r2);
    let ab = a.add(b);
    ab.add(c)
}

} // verus!
