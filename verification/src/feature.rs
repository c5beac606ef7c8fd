//! Random standard features, for exercising the limits and fits tables.

use vstd::prelude::*;
use rand::Rng;
use rand::rngs::ThreadRng;
use crate::labels::{deviation_label, deviation_labels, grade_label, grade_labels, hole_label, hole_labels};
use crate::tolerance::{limits_of, spec_convert, Iso, ToleranceNm};

verus! {

/// The thread-local random number generator of `rand`.
#[verifier::external_type_specification]
#[verifier::external_body]
pub struct ExThreadRng(ThreadRng);

/// A random number generator of `rand` with the record of the ranges that
/// were asked of it: each draw from `0..n` adds `n` to the record.
pub struct FeatureRng {
    rng: ThreadRng,
    requested: Ghost<Seq<nat>>,
}

impl FeatureRng {
    /// The upper ends of the ranges drawn from so far, in order.
    pub closed spec fn requests(&self) -> Seq<nat> {
        self.requested@
    }

    /// A generator around `rng` that has drawn nothing yet.
    pub fn new(rng: ThreadRng) -> (r: Self)
        ensures
            r.requests() == Seq::<nat>::empty(),
    {
        FeatureRng { rng, requested: Ghost(Seq::empty()) }
    }
}

/// Calls `rand::Rng::gen_range` with the range `0..n`. Its documentation
/// promises a value of the range and a panic when the range is empty, which
/// the `requires` rules out; which value comes is chance, and nothing more
/// is claimed of it. The record of requested ranges gains `n`, the end of
/// the range handed to the call.
#[verifier::external_body]
fn gen_index(rng: &mut FeatureRng, n: usize) -> (r: usize)
    requires
        n > 0,
    ensures
        r < n,
        final(rng).requests() == old(rng).requests().push(n as nat),
{
    rng.rng.gen_range(0..n)
}

/// The `d`-th deviation letter offered for a hole or for a shaft.
pub open spec fn offered_deviation(hole: bool, d: int) -> Seq<char> {
    if hole {
        hole_labels()[d]
    } else {
        deviation_labels()[d]
    }
}

/// The limits that a random feature carries: those of its zone, or zero
/// limits where the ISO system holds no such zone.
pub open spec fn limits_or_zero(z: Option<(int, int)>) -> (int, int) {
    match z {
        Some(limits) => limits,
        None => (0, 0),
    }
}

/// The number of whole sizes, grades and deviations that a random feature
/// is drawn from: sizes 0 to 3149 mm, the 20 grades and the 28 deviations.
pub const SIZE_DRAWS: usize = 3150;
pub const GRADE_DRAWS: usize = 20;
pub const DEVIATION_DRAWS: usize = 28;

/// The feature that the draws `size`, `g` and `d` give: that size, the
/// `g`-th grade and the `d`-th deviation (a hole letter for a hole, a shaft
/// letter otherwise), with the limits of that zone. When `valid` asks for
/// a zone that exists and these draws have none, nothing is returned;
/// otherwise a draw without a zone carries zero limits.
pub fn feature_from_draw(hole: bool, valid: bool, size: usize, g: usize, d: usize) -> (r: Option<(i32, Iso, ToleranceNm)>)
    requires
        size < SIZE_DRAWS,
        g < GRADE_DRAWS,
        d < DEVIATION_DRAWS,
    ensures
        match r {
            Some((s, iso, tol)) => {
                &&& s == size
                &&& iso.grade@ == grade_labels()[g as int]
                &&& iso.deviation@ == offered_deviation(hole, d as int)
                &&& tol@ == limits_or_zero(spec_convert(iso.deviation@, iso.grade@, size as int))
            },
            None => true,
        },
        r is None <==> valid && spec_convert(offered_deviation(hole, d as int), grade_labels()[g as int], size as int) is None,
{
    let size = size as i32;
    let deviation = if hole {
        hole_label(d)
    } else {
        deviation_label(d)
    };
    let iso = Iso::new(deviation, grade_label(g));
    assert(iso.grade@ == grade_labels()[g as int]);
    assert(iso.deviation@ == offered_deviation(hole, d as int));
    match iso.convert_nm(size) {
        Some(tolerance) => Some((size, iso, tolerance)),
        None => {
            if valid {
                None
            } else {
                Some((size, iso, ToleranceNm { upper: 0, lower: 0 }))
            }
        },
    }
}

/// One draw of a random standard feature: a size below `SIZE_DRAWS`, a
/// grade below `GRADE_DRAWS` and a deviation below `DEVIATION_DRAWS`, each
/// drawn over its whole range, turned into a feature by
/// `feature_from_draw`. When `valid` asks for a zone that exists and the
/// draw has none, nothing is returned and the caller draws again.
pub fn random_attempt(rng: &mut FeatureRng, hole: bool, valid: bool) -> (r: Option<(i32, Iso, ToleranceNm)>)
    ensures
        final(rng).requests() == old(rng).requests() + seq![
            SIZE_DRAWS as nat,
            GRADE_DRAWS as nat,
            DEVIATION_DRAWS as nat,
        ],
        match r {
            Some((size, iso, tol)) => {
                &&& 0 <= size < SIZE_DRAWS
                &&& exists|g: int| 0 <= g < GRADE_DRAWS && iso.grade@ == #[trigger] grade_labels()[g]
                &&& exists|d: int| 0 <= d < DEVIATION_DRAWS && iso.deviation@ == #[trigger] offered_deviation(hole, d)
                &&& tol@ == limits_or_zero(spec_convert(iso.deviation@, iso.grade@, size as int))
                &&& valid ==> spec_convert(iso.deviation@, iso.grade@, size as int) is Some
            },
            None => valid,
        },
{
    let size = gen_index(rng, SIZE_DRAWS);
    let g = gen_index(rng, GRADE_DRAWS);
    let d = gen_index(rng, DEVIATION_DRAWS);
    feature_from_draw(hole, valid, size, g, d)
}

} // verus!
