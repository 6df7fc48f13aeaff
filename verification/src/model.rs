//! The line correspondence model.
//!
//! A `Morph` holds the two raster images, the two parallel feature-line
//! lists, and the four morph parameters. The constructor is the single
//! validation point: it rejects line lists of unequal length, degenerate
//! lines, and a non-positive weight offset `a`, so that every accepted model
//! is well-formed for the whole computation.

use vstd::prelude::*;
use crate::fixed::Fx;
use crate::geom::{Line, nondegenerate, line_len2};
use crate::raster::Raster;

verus! {

/// Why a model or a morph computation was rejected.
#[derive(Clone, Copy, PartialEq, Eq, Structural, Debug)]
pub enum MorphError {
    /// The two feature-line lists differ in length.
    LineCountMismatch,
    /// A feature line has (fixed-point) zero length.
    DegenerateLine,
    /// The weight offset `a` is not positive.
    NonPositiveA,
    /// Every feature line's weight rounded down to zero at some pixel.
    ZeroWeightSum,
}

/// The morph model: two images, two parallel line lists, four parameters.
///
/// `t` is the interpolation position (zero selects the source image, one the
/// destination); `p` and `b` are the integer exponents and `a` the positive
/// offset of the weight formula `(length^p / (a + distance))^b`.
pub struct Morph {
    pub src: Raster,
    pub dst: Raster,
    pub src_lines: Vec<Line>,
    pub dst_lines: Vec<Line>,
    pub t: Fx,
    pub p: u32,
    pub a: Fx,
    pub b: u32,
}

/// Every line of the list is nondegenerate.
pub open spec fn all_nondegenerate(lines: Seq<Line>) -> bool {
    forall|i: int| 0 <= i < lines.len() ==> nondegenerate(#[trigger] lines[i])
}

impl Morph {
    /// A validated model: images laid out correctly, lists parallel, every
    /// line usable, and `a` positive.
    pub open spec fn wf(self) -> bool {
        &&& self.src.wf()
        &&& self.dst.wf()
        &&& self.src_lines@.len() == self.dst_lines@.len()
        &&& all_nondegenerate(self.src_lines@)
        &&& all_nondegenerate(self.dst_lines@)
        &&& self.a@ >= 1
    }

    /// Build a model, rejecting invalid input exactly as stated: a length
    /// mismatch first, then a degenerate line in either list, then a
    /// non-positive `a`.
    pub fn new(
        src: Raster,
        dst: Raster,
        src_lines: Vec<Line>,
        dst_lines: Vec<Line>,
        params: (Fx, u32, Fx, u32),
    ) -> (r: Result<Morph, MorphError>)
        requires
            src.wf(),
            dst.wf(),
        ensures
            r is Err ==> (r == Err::<Morph, MorphError>(MorphError::LineCountMismatch)
                || r == Err::<Morph, MorphError>(MorphError::DegenerateLine) || r == Err::<
                Morph,
                MorphError,
            >(MorphError::NonPositiveA)),
            (r == Err::<Morph, MorphError>(MorphError::LineCountMismatch)) <==> src_lines@.len()
                != dst_lines@.len(),
            (r == Err::<Morph, MorphError>(MorphError::DegenerateLine)) <==> (src_lines@.len()
                == dst_lines@.len() && !(all_nondegenerate(src_lines@) && all_nondegenerate(
                dst_lines@,
            ))),
            (r == Err::<Morph, MorphError>(MorphError::NonPositiveA)) <==> (src_lines@.len()
                == dst_lines@.len() && all_nondegenerate(src_lines@) && all_nondegenerate(
                dst_lines@,
            ) && params.2@ < 1),
            r is Ok ==> {
                let m = r->Ok_0;
                &&& m.wf()
                &&& m.src == src
                &&& m.dst == dst
                &&& m.src_lines == src_lines
                &&& m.dst_lines == dst_lines
                &&& m.t == params.0
                &&& m.p == params.1
                &&& m.a == params.2
                &&& m.b == params.3
            },
            r is Ok <==> (src_lines@.len() == dst_lines@.len() && all_nondegenerate(src_lines@)
                && all_nondegenerate(dst_lines@) && params.2@ >= 1),
    {
        let (t, p, a, b) = params;
        if src_lines.len() != dst_lines.len() {
            return Err(MorphError::LineCountMismatch);
        }
        let mut i: usize = 0;
        let n: usize = src_lines.len();
        while i < n
            invariant
                i <= n,
                n == src_lines@.len(),
                n == dst_lines@.len(),
                forall|k: int| 0 <= k < i ==> nondegenerate(#[trigger] src_lines@[k]),
                forall|k: int| 0 <= k < i ==> nondegenerate(#[trigger] dst_lines@[k]),
            decreases n - i,
        {
            let sl = line_len2(&src_lines[i]);
            let dl = line_len2(&dst_lines[i]);
            if sl.raw <= 0 || dl.raw <= 0 {
                return Err(MorphError::DegenerateLine);
            }
            i = i + 1;
        }
        if a.raw < 1 {
            return Err(MorphError::NonPositiveA);
        }
        Ok(Morph { src, dst, src_lines, dst_lines, t, p, a, b })
    }
}

} // verus!
