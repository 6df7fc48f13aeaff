//! The line interpolator.
//!
//! At parameter `t` each in-between line joins the convex combinations
//! `(1 - t) * source_endpoint + t * destination_endpoint`, taken
//! independently per endpoint and per coordinate. The result is derived
//! data: it is recomputed from the two canonical lists and never mutated.

use vstd::prelude::*;
use crate::fixed::{Fx, SCALE, fx_add_s, fx_sub_s, fx_mul_s};
use crate::geom::{Vertex, Line};
use crate::model::Morph;

verus! {

/// A fixed-point value from its (already saturated) raw count.
pub open spec fn fx_of(v: int) -> Fx {
    Fx { raw: v as i64 }
}

/// The convex combination `(1 - t) * a + t * b` in saturating fixed point.
pub open spec fn lerp_s(t: int, a: int, b: int) -> int {
    fx_add_s(fx_mul_s(fx_sub_s(SCALE as int, t), a), fx_mul_s(t, b))
}

/// One in-between line: both endpoints interpolated coordinate-wise.
pub open spec fn interp_line_s(s: Line, d: Line, t: int) -> Line {
    Line {
        p: Vertex {
            position: [
                fx_of(lerp_s(t, s.p.x(), d.p.x())),
                fx_of(lerp_s(t, s.p.y(), d.p.y())),
            ],
        },
        q: Vertex {
            position: [
                fx_of(lerp_s(t, s.q.x(), d.q.x())),
                fx_of(lerp_s(t, s.q.y(), d.q.y())),
            ],
        },
    }
}

/// The whole in-between list, index by index.
pub open spec fn interp_lines_s(src: Seq<Line>, dst: Seq<Line>, t: int) -> Seq<Line> {
    Seq::new(src.len(), |i: int| interp_line_s(src[i], dst[i], t))
}

/// Interpolate one endpoint coordinate, mirroring `lerp_s` exactly.
fn lerp(t: Fx, a: Fx, b: Fx) -> (r: Fx)
    ensures
        r@ == lerp_s(t@, a@, b@),
{
    let one = Fx::one();
    one.sub(t).mul(a).add(t.mul(b))
}

impl Morph {
    /// The in-between feature-line list at this model's `t`.
    ///
    /// A pure function of the two line lists and `t`: the result has the
    /// same length, and line `i` joins the interpolated endpoints of source
    /// line `i` and destination line `i`.
    pub fn interpolate_lines(&self) -> (r: Vec<Line>)
        requires
            self.src_lines@.len() == self.dst_lines@.len(),
        ensures
            r@ == interp_lines_s(self.src_lines@, self.dst_lines@, self.t@),
            r@.len() == self.src_lines@.len(),
    {
        let ghost gl: Seq<Line> = interp_lines_s(self.src_lines@, self.dst_lines@, self.t@);
        let n: usize = self.src_lines.len();
        let mut out: Vec<Line> = Vec::new();
        let mut i: usize = 0;
        while i < n
            invariant
                i <= n,
                n == self.src_lines@.len(),
                n == self.dst_lines@.len(),
                out@.len() == i,
                gl == interp_lines_s(self.src_lines@, self.dst_lines@, self.t@),
                forall|k: int| 0 <= k < i ==> out@[k] == gl[k],
            decreases n - i,
        {
            let s = &self.src_lines[i];
            let d = &self.dst_lines[i];
            let px = lerp(self.t, s.p.get_x(), d.p.get_x());
            let py = lerp(self.t, s.p.get_y(), d.p.get_y());
            let qx = lerp(self.t, s.q.get_x(), d.q.get_x());
            let qy = lerp(self.t, s.q.get_y(), d.q.get_y());
            let line = Line { p: Vertex { position: [px, py] }, q: Vertex { position: [qx, qy] } };
            proof {
                assert(line =~~= gl[i as int]);
            }
            out.push(line);
            i = i + 1;
        }
        proof {
            assert(out@ =~= gl);
        }
        out
    }
}

} // verus!
