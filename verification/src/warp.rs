//! The warp field evaluator.
//!
//! For an output-space point and one pair of lines (the in-between
//! *reference* line and the *target* line of the image being solved for),
//! the point is written in the reference line's frame: `u`, the normalized
//! projection onto the line, and `v`, the signed perpendicular offset, with
//! the perpendicular of `(dx, dy)` taken as `(-dy, dx)`. Re-reading `(u, v)`
//! in the target line's frame gives that pair's candidate mapping; the warp
//! is the weighted average of all candidates, each weighted by
//! `(length^p / (a + distance))^b` over the reference line's length and the
//! point's distance to the reference segment. The average is of candidate
//! positions, not of displacements, and a weight sum that rounds to zero is
//! reported as an error rather than divided by.

use vstd::prelude::*;
use crate::fixed::{
    Fx,
    SCALE,
    fx_add_s,
    fx_sub_s,
    fx_mul_s,
    fx_div_s,
    fx_abs_s,
    fx_sqrt_s,
    fx_powi_s,
    isqrt_s,
    lemma_isqrt_bounds,
};
use crate::geom::{Line, len2_s, nondegenerate};
use crate::model::{Morph, MorphError, all_nondegenerate};

verus! {

/// The length of a line: square root of its squared length.
pub open spec fn line_len_s(l: Line) -> int {
    fx_sqrt_s(len2_s(l))
}

/// Normalized projection of the point onto the line: `u` in `[0, 1]` means
/// the foot of the point lies between the endpoints.
pub open spec fn proj_u_s(ptx: int, pty: int, l: Line) -> int {
    let pdx = fx_sub_s(ptx, l.p.x());
    let pdy = fx_sub_s(pty, l.p.y());
    let dx = fx_sub_s(l.q.x(), l.p.x());
    let dy = fx_sub_s(l.q.y(), l.p.y());
    fx_div_s(fx_add_s(fx_mul_s(pdx, dx), fx_mul_s(pdy, dy)), len2_s(l))
}

/// Signed perpendicular offset of the point from the line.
pub open spec fn perp_v_s(ptx: int, pty: int, l: Line) -> int {
    let pdx = fx_sub_s(ptx, l.p.x());
    let pdy = fx_sub_s(pty, l.p.y());
    let dx = fx_sub_s(l.q.x(), l.p.x());
    let dy = fx_sub_s(l.q.y(), l.p.y());
    fx_div_s(fx_sub_s(fx_mul_s(pdy, dx), fx_mul_s(pdx, dy)), line_len_s(l))
}

/// The x coordinate of the candidate mapping: the point `(u, v)` re-read in
/// the target line's frame.
pub open spec fn cand_x_s(ptx: int, pty: int, rl: Line, tl: Line) -> int {
    let u = proj_u_s(ptx, pty, rl);
    let v = perp_v_s(ptx, pty, rl);
    let ex = fx_sub_s(tl.q.x(), tl.p.x());
    let ey = fx_sub_s(tl.q.y(), tl.p.y());
    fx_sub_s(fx_add_s(tl.p.x(), fx_mul_s(u, ex)), fx_div_s(fx_mul_s(v, ey), line_len_s(tl)))
}

/// The y coordinate of the candidate mapping.
pub open spec fn cand_y_s(ptx: int, pty: int, rl: Line, tl: Line) -> int {
    let u = proj_u_s(ptx, pty, rl);
    let v = perp_v_s(ptx, pty, rl);
    let ex = fx_sub_s(tl.q.x(), tl.p.x());
    let ey = fx_sub_s(tl.q.y(), tl.p.y());
    fx_add_s(fx_add_s(tl.p.y(), fx_mul_s(u, ey)), fx_div_s(fx_mul_s(v, ex), line_len_s(tl)))
}

/// Distance used for weighting: to `P` before the segment (`u < 0`), to `Q`
/// past it (`u > 1`), else the perpendicular offset's magnitude.
pub open spec fn dist_s(ptx: int, pty: int, l: Line) -> int {
    let pdx = fx_sub_s(ptx, l.p.x());
    let pdy = fx_sub_s(pty, l.p.y());
    let u = proj_u_s(ptx, pty, l);
    if u < 0 {
        fx_sqrt_s(fx_add_s(fx_mul_s(pdx, pdx), fx_mul_s(pdy, pdy)))
    } else if u > SCALE as int {
        let qdx = fx_sub_s(ptx, l.q.x());
        let qdy = fx_sub_s(pty, l.q.y());
        fx_sqrt_s(fx_add_s(fx_mul_s(qdx, qdx), fx_mul_s(qdy, qdy)))
    } else {
        fx_abs_s(perp_v_s(ptx, pty, l))
    }
}

/// The weight formula as a function of line length and distance:
/// `(length^p / (a + distance))^b`.
pub open spec fn weight_of_dist_s(len: int, a: int, d: int, p: nat, b: nat) -> int {
    fx_powi_s(fx_div_s(fx_powi_s(len, p), fx_add_s(a, d)), b)
}

/// The influence of one reference line on the point: the weight formula at
/// the line's length and the point's distance to it.
pub open spec fn weight_s(ptx: int, pty: int, l: Line, p: nat, a: int, b: nat) -> int {
    weight_of_dist_s(line_len_s(l), a, dist_s(ptx, pty, l), p, b)
}

/// Sum of the weights of the first `n` reference lines.
pub open spec fn wsum_s(ptx: int, pty: int, rls: Seq<Line>, p: nat, a: int, b: nat, n: int) -> int
    decreases n,
{
    if n <= 0 {
        0
    } else {
        fx_add_s(wsum_s(ptx, pty, rls, p, a, b, n - 1), weight_s(ptx, pty, rls[n - 1], p, a, b))
    }
}

/// Sum of the weighted candidate x coordinates of the first `n` line pairs.
pub open spec fn wx_sum_s(
    ptx: int,
    pty: int,
    rls: Seq<Line>,
    tls: Seq<Line>,
    p: nat,
    a: int,
    b: nat,
    n: int,
) -> int
    decreases n,
{
    if n <= 0 {
        0
    } else {
        fx_add_s(
            wx_sum_s(ptx, pty, rls, tls, p, a, b, n - 1),
            fx_mul_s(
                weight_s(ptx, pty, rls[n - 1], p, a, b),
                cand_x_s(ptx, pty, rls[n - 1], tls[n - 1]),
            ),
        )
    }
}

/// Sum of the weighted candidate y coordinates of the first `n` line pairs.
pub open spec fn wy_sum_s(
    ptx: int,
    pty: int,
    rls: Seq<Line>,
    tls: Seq<Line>,
    p: nat,
    a: int,
    b: nat,
    n: int,
) -> int
    decreases n,
{
    if n <= 0 {
        0
    } else {
        fx_add_s(
            wy_sum_s(ptx, pty, rls, tls, p, a, b, n - 1),
            fx_mul_s(
                weight_s(ptx, pty, rls[n - 1], p, a, b),
                cand_y_s(ptx, pty, rls[n - 1], tls[n - 1]),
            ),
        )
    }
}

/// A line whose squared length is positive has positive length.
pub proof fn lemma_line_len_pos(l: Line)
    requires
        nondegenerate(l),
    ensures
        line_len_s(l) >= 1,
{
    let n = (len2_s(l) * (SCALE as int)) as nat;
    assert(n >= 1);
    lemma_isqrt_bounds(n);
    if isqrt_s(n) == 0 {
        assert((0 + 1) * (0 + 1) == 1) by (nonlinear_arith);
    }
}

/// One line pair's contribution: the weight and the candidate mapping.
#[verifier::rlimit(60)]
fn warp_term(x: Fx, y: Fx, rl: &Line, tl: &Line, p: u32, a: Fx, b: u32) -> (r: (Fx, Fx, Fx))
    requires
        nondegenerate(*rl),
        nondegenerate(*tl),
        a@ >= 1,
    ensures
        r.0@ == weight_s(x@, y@, *rl, p as nat, a@, b as nat),
        r.1@ == cand_x_s(x@, y@, *rl, *tl),
        r.2@ == cand_y_s(x@, y@, *rl, *tl),
{
    proof {
        lemma_line_len_pos(*rl);
        lemma_line_len_pos(*tl);
    }
    let pdx = x.sub(rl.p.get_x());
    let pdy = y.sub(rl.p.get_y());
    let dx = rl.q.get_x().sub(rl.p.get_x());
    let dy = rl.q.get_y().sub(rl.p.get_y());
    let len2 = dx.mul(dx).add(dy.mul(dy));
    let dot = pdx.mul(dx).add(pdy.mul(dy));
    let u = dot.div(len2);
    let rlen = len2.sqrt();
    let v = pdy.mul(dx).sub(pdx.mul(dy)).div(rlen);
    proof {
        assert(u@ == proj_u_s(x@, y@, *rl));
        assert(v@ == perp_v_s(x@, y@, *rl));
    }
    let ex = tl.q.get_x().sub(tl.p.get_x());
    let ey = tl.q.get_y().sub(tl.p.get_y());
    let tlen = ex.mul(ex).add(ey.mul(ey)).sqrt();
    let xx = tl.p.get_x().add(u.mul(ex)).sub(v.mul(ey).div(tlen));
    let yy = tl.p.get_y().add(u.mul(ey)).add(v.mul(ex).div(tlen));
    let dist = if u.raw < 0 {
        proof {
            crate::fixed::lemma_fx_mul_square_nonneg(pdx@);
            crate::fixed::lemma_fx_mul_square_nonneg(pdy@);
        }
        pdx.mul(pdx).add(pdy.mul(pdy)).sqrt()
    } else if u.raw > SCALE {
        let qdx = x.sub(rl.q.get_x());
        let qdy = y.sub(rl.q.get_y());
        proof {
            crate::fixed::lemma_fx_mul_square_nonneg(qdx@);
            crate::fixed::lemma_fx_mul_square_nonneg(qdy@);
        }
        qdx.mul(qdx).add(qdy.mul(qdy)).sqrt()
    } else {
        v.abs()
    };
    proof {
        assert(dist@ == dist_s(x@, y@, *rl));
    }
    let w = rlen.powi(p).div(a.add(dist)).powi(b);
    (w, xx, yy)
}

impl Morph {
    /// Map an output-space point through the weighted multi-line field.
    ///
    /// `lines` is the in-between reference set; `img_lines` selects the
    /// image space being solved for (the source or the destination list).
    /// Returns the weighted average of the per-pair candidate mappings, or
    /// `ZeroWeightSum` exactly when every line's weight rounded to zero.
    pub fn warp(&self, x: Fx, y: Fx, lines: &Vec<Line>, img_lines: &Vec<Line>) -> (r: Result<
        (Fx, Fx),
        MorphError,
    >)
        requires
            lines@.len() == img_lines@.len(),
            all_nondegenerate(lines@),
            all_nondegenerate(img_lines@),
            self.a@ >= 1,
        ensures
            ({
                let n = lines@.len() as int;
                let ws = wsum_s(x@, y@, lines@, self.p as nat, self.a@, self.b as nat, n);
                &&& (r is Err <==> ws == 0)
                &&& (r is Err ==> r == Err::<(Fx, Fx), MorphError>(MorphError::ZeroWeightSum))
                &&& (r is Ok ==> r->Ok_0.0@ == fx_div_s(
                    wx_sum_s(
                        x@,
                        y@,
                        lines@,
                        img_lines@,
                        self.p as nat,
                        self.a@,
                        self.b as nat,
                        n,
                    ),
                    ws,
                ))
                &&& (r is Ok ==> r->Ok_0.1@ == fx_div_s(
                    wy_sum_s(
                        x@,
                        y@,
                        lines@,
                        img_lines@,
                        self.p as nat,
                        self.a@,
                        self.b as nat,
                        n,
                    ),
                    ws,
                ))
            }),
    {
        let n: usize = lines.len();
        let mut sx: Fx = Fx::zero();
        let mut sy: Fx = Fx::zero();
        let mut sw: Fx = Fx::zero();
        let mut i: usize = 0;
        while i < n
            invariant
                i <= n,
                n == lines@.len(),
                n == img_lines@.len(),
                all_nondegenerate(lines@),
                all_nondegenerate(img_lines@),
                self.a@ >= 1,
                sx@ == wx_sum_s(
                    x@,
                    y@,
                    lines@,
                    img_lines@,
                    self.p as nat,
                    self.a@,
                    self.b as nat,
                    i as int,
                ),
                sy@ == wy_sum_s(
                    x@,
                    y@,
                    lines@,
                    img_lines@,
                    self.p as nat,
                    self.a@,
                    self.b as nat,
                    i as int,
                ),
                sw@ == wsum_s(x@, y@, lines@, self.p as nat, self.a@, self.b as nat, i as int),
            decreases n - i,
        {
            let rl = &lines[i];
            let tl = &img_lines[i];
            proof {
                assert(nondegenerate(lines@[i as int]));
                assert(nondegenerate(img_lines@[i as int]));
            }
            let (w, xx, yy) = warp_term(x, y, rl, tl, self.p, self.a, self.b);
            sx = sx.add(w.mul(xx));
            sy = sy.add(w.mul(yy));
            sw = sw.add(w);
            i = i + 1;
        }
        if sw.raw == 0 {
            Err(MorphError::ZeroWeightSum)
        } else {
            Ok((sx.div(sw), sy.div(sw)))
        }
    }
}

} // verus!
