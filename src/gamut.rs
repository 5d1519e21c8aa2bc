use vstd::prelude::*;

use crate::binary64::Binary64;
use crate::binary64::LARGEST_BITS;
use crate::binary64::ZERO_BITS;

verus! {

/// Number of lines that bound the gamut at one lightness: two for each RGB channel.
pub const BOUND_COUNT: usize = 6;

/// A candidate that takes part in the minimum: any number, or only one `>= 0` when
/// `forward_only` holds. A NaN never does.
pub open spec fn admitted(x: Binary64, forward_only: bool) -> bool {
    !x.nan() && (forward_only ==> Binary64 { bits: ZERO_BITS }.less_eq(x))
}

/// `r` is the least of the largest finite value and the admitted candidates: it is one of them,
/// and no admitted candidate lies below it.
pub open spec fn least_of(r: Binary64, candidates: Seq<Binary64>, forward_only: bool) -> bool {
    &&& !r.nan()
    &&& r.less_eq(Binary64 { bits: LARGEST_BITS })
    &&& forall|i: int|
        0 <= i < candidates.len() && admitted(candidates[i], forward_only) ==> r.less_eq(
            #[trigger] candidates[i],
        )
    &&& (r == (Binary64 { bits: LARGEST_BITS }) || exists|i: int|
        0 <= i < candidates.len() && admitted(candidates[i], forward_only) && r
            == #[trigger] candidates[i])
}

fn least_admitted(candidates: &[Binary64; BOUND_COUNT], forward_only: bool) -> (r: Binary64)
    ensures
        least_of(r, candidates@, forward_only),
{
    let mut least = Binary64::from_bits(LARGEST_BITS);
    let mut i: usize = 0;
    while i < BOUND_COUNT
        invariant
            0 <= i <= BOUND_COUNT,
            candidates@.len() == BOUND_COUNT,
            !least.nan(),
            least.less_eq(Binary64 { bits: LARGEST_BITS }),
            forall|j: int|
                0 <= j < i && admitted(candidates@[j], forward_only) ==> least.less_eq(
                    #[trigger] candidates@[j],
                ),
            least == (Binary64 { bits: LARGEST_BITS }) || exists|j: int|
                0 <= j < i && admitted(candidates@[j], forward_only) && least
                    == #[trigger] candidates@[j],
        decreases BOUND_COUNT - i,
    {
        let c = candidates[i];
        let zero = Binary64::from_bits(ZERO_BITS);
        let takes_part = !c.is_nan() && (!forward_only || zero.le(c));
        if takes_part && c.lt(least) {
            least = c;
        }
        i = i + 1;
    }
    least
}

/// The least of the distances from the pole to the six boundary lines, or the largest finite
/// value where none is a number: the chroma that stays inside the gamut at every hue.
pub fn least_distance(distances: &[Binary64; BOUND_COUNT]) -> (r: Binary64)
    ensures
        least_of(r, distances@, false),
{
    least_admitted(distances, false)
}

/// The least of the ray lengths that are not negative, or the largest finite value where there
/// is none: the chroma at which a ray of a given hue leaves the gamut.
pub fn least_forward_length(lengths: &[Binary64; BOUND_COUNT]) -> (r: Binary64)
    ensures
        least_of(r, lengths@, true),
{
    least_admitted(lengths, true)
}

/// The hue-aware bound is never negative: a ray that meets a boundary line only behind the pole
/// does not bound the gamut.
pub proof fn lemma_forward_length_not_negative(r: Binary64, lengths: Seq<Binary64>)
    requires
        least_of(r, lengths, true),
    ensures
        (Binary64 { bits: ZERO_BITS }).less_eq(r),
{
}

/// Where no candidate is admitted, the bound is the largest finite value, standing for
/// "unbounded".
pub proof fn lemma_no_candidate_is_unbounded(r: Binary64, cs: Seq<Binary64>, forward_only: bool)
    requires
        least_of(r, cs, forward_only),
        forall|i: int| 0 <= i < cs.len() ==> !admitted(#[trigger] cs[i], forward_only),
    ensures
        r == (Binary64 { bits: LARGEST_BITS }),
{
}

} // verus!
