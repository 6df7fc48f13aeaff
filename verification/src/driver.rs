//! The morph driver: assembles the in-between image.
//!
//! The output raster has the destination image's dimensions. For every
//! output pixel the driver maps the pixel center through the warp field
//! twice — once toward source space, once toward destination space — clamps
//! both mapped points into their image's pixel rectangle, resamples both
//! images bilinearly, cross-dissolves the two colors at `t`, rounds each
//! channel to the nearest byte, and writes the fully opaque result.
//!
//! Images of differing sizes are handled without rescaling: feature-line
//! coordinates are taken as authored in each image's own pixel space, and
//! each mapped point is clamped into its own image's rectangle.

use vstd::prelude::*;
use crate::fixed::{Fx, SCALE, fx_div_s, fx_clamp_s};
use crate::geom::{Line, nondegenerate, line_len2, clamp_point};
use crate::interp::interp_lines_s;
use crate::model::{Morph, MorphError, all_nondegenerate};
use crate::raster::{Raster, Rgba};
use crate::sample::{sample_s, blend_channel_s};
use crate::warp::{wsum_s, wx_sum_s, wy_sum_s};

verus! {

/// A blended channel rounded to the nearest byte, clamped into `[0, 255]`.
pub open spec fn to_byte_s(v: int) -> int {
    if v < 0 {
        0
    } else {
        let q = (v + (SCALE as int) / 2) / (SCALE as int);
        if q > 255 {
            255
        } else {
            q
        }
    }
}

/// The reference (in-between) line set of a model.
pub open spec fn morph_ref_lines_s(m: Morph) -> Seq<Line> {
    interp_lines_s(m.src_lines@, m.dst_lines@, m.t@)
}

/// The x coordinate of the full weighted average for one target list.
pub open spec fn warp_res_x_s(
    ptx: int,
    pty: int,
    rls: Seq<Line>,
    tls: Seq<Line>,
    p: nat,
    a: int,
    b: nat,
) -> int {
    fx_div_s(
        wx_sum_s(ptx, pty, rls, tls, p, a, b, rls.len() as int),
        wsum_s(ptx, pty, rls, p, a, b, rls.len() as int),
    )
}

/// The y coordinate of the full weighted average for one target list.
pub open spec fn warp_res_y_s(
    ptx: int,
    pty: int,
    rls: Seq<Line>,
    tls: Seq<Line>,
    p: nat,
    a: int,
    b: nat,
) -> int {
    fx_div_s(
        wy_sum_s(ptx, pty, rls, tls, p, a, b, rls.len() as int),
        wsum_s(ptx, pty, rls, p, a, b, rls.len() as int),
    )
}

/// Does the weight sum at output pixel `(x, y)` round down to zero?
pub open spec fn morph_wsum_zero_at_s(m: Morph, x: int, y: int) -> bool {
    wsum_s(
        x * SCALE,
        y * SCALE,
        morph_ref_lines_s(m),
        m.p as nat,
        m.a@,
        m.b as nat,
        morph_ref_lines_s(m).len() as int,
    ) == 0
}

/// The finished color of output pixel `(x, y)`: warp toward both spaces,
/// clamp, resample, cross-dissolve, round; alpha fixed at fully opaque.
pub open spec fn morph_pixel_s(m: Morph, x: int, y: int) -> Rgba {
    let il = morph_ref_lines_s(m);
    let ptx = x * SCALE;
    let pty = y * SCALE;
    let p = m.p as nat;
    let a = m.a@;
    let b = m.b as nat;
    let sx = fx_clamp_s(warp_res_x_s(ptx, pty, il, m.src_lines@, p, a, b), 0, (m.src.spec_width() - 1) * SCALE);
    let sy = fx_clamp_s(warp_res_y_s(ptx, pty, il, m.src_lines@, p, a, b), 0, (m.src.spec_height() - 1) * SCALE);
    let dx = fx_clamp_s(warp_res_x_s(ptx, pty, il, m.dst_lines@, p, a, b), 0, (m.dst.spec_width() - 1) * SCALE);
    let dy = fx_clamp_s(warp_res_y_s(ptx, pty, il, m.dst_lines@, p, a, b), 0, (m.dst.spec_height() - 1) * SCALE);
    let cs = sample_s(m.src, sx, sy);
    let cd = sample_s(m.dst, dx, dy);
    Rgba {
        r: to_byte_s(blend_channel_s(cs.0, cd.0, m.t@)) as u8,
        g: to_byte_s(blend_channel_s(cs.1, cd.1, m.t@)) as u8,
        b: to_byte_s(blend_channel_s(cs.2, cd.2, m.t@)) as u8,
        a: 255,
    }
}

/// Round a blended channel to its byte.
fn to_byte(v: Fx) -> (r: u8)
    ensures
        r as int == to_byte_s(v@),
{
    if v.raw < 0 {
        0
    } else {
        let q: u64 = ((v.raw as u64) + 500_000) / 1_000_000;
        if q > 255 {
            255
        } else {
            q as u8
        }
    }
}

impl Morph {
    /// Compute one output pixel, or report the zero weight sum at it.
    #[verifier::rlimit(60)]
    fn morph_pixel(&self, inter: &Vec<Line>, x: u32, y: u32) -> (r: Result<Rgba, MorphError>)
        requires
            self.wf(),
            self.src.spec_width() >= 2,
            self.src.spec_height() >= 2,
            self.dst.spec_width() >= 2,
            self.dst.spec_height() >= 2,
            inter@ == morph_ref_lines_s(*self),
            all_nondegenerate(inter@),
        ensures
            r is Err <==> morph_wsum_zero_at_s(*self, x as int, y as int),
            r is Err ==> r == Err::<Rgba, MorphError>(MorphError::ZeroWeightSum),
            r is Ok ==> r->Ok_0 == morph_pixel_s(*self, x as int, y as int),
    {
        let xf = Fx::from_int(x as i64);
        let yf = Fx::from_int(y as i64);
        proof {
            assert(xf@ == x * SCALE);
            assert(yf@ == y * SCALE);
        }
        let rs = self.warp(xf, yf, inter, &self.src_lines);
        let rd = self.warp(xf, yf, inter, &self.dst_lines);
        match (rs, rd) {
            (Ok(sp), Ok(dp)) => {
                let sw: u32 = self.src.width();
                let sh: u32 = self.src.height();
                let dw: u32 = self.dst.width();
                let dh: u32 = self.dst.height();
                let max_sx = Fx::from_int((sw - 1) as i64);
                let max_sy = Fx::from_int((sh - 1) as i64);
                let max_dx = Fx::from_int((dw - 1) as i64);
                let max_dy = Fx::from_int((dh - 1) as i64);
                let (sx, sy) = clamp_point(sp.0, sp.1, max_sx, max_sy);
                let (dx, dy) = clamp_point(dp.0, dp.1, max_dx, max_dy);
                let (cr, cg, cb) = self.interpolate_color((sx, sy), (dx, dy), &self.src, &self.dst);
                Ok(Rgba { r: to_byte(cr), g: to_byte(cg), b: to_byte(cb), a: 255 })
            },
            _ => Err(MorphError::ZeroWeightSum),
        }
    }

    /// Assemble the in-between image at this model's parameters.
    ///
    /// Returns a raster of the destination's dimensions whose every pixel is
    /// the composition stated by `morph_pixel_s`. Fails with
    /// `DegenerateLine` exactly when the in-between line set contains a line
    /// whose length rounds to zero, and with `ZeroWeightSum` exactly when
    /// some output pixel's weight sum rounds to zero.
    pub fn morph(&self) -> (r: Result<Raster, MorphError>)
        requires
            self.wf(),
            self.src.spec_width() >= 2,
            self.src.spec_height() >= 2,
            self.dst.spec_width() >= 2,
            self.dst.spec_height() >= 2,
        ensures
            ({
                let il = morph_ref_lines_s(*self);
                let w = self.dst.spec_width();
                let h = self.dst.spec_height();
                &&& (r == Err::<Raster, MorphError>(MorphError::DegenerateLine) <==> !all_nondegenerate(il))
                &&& (r == Err::<Raster, MorphError>(MorphError::ZeroWeightSum) <==> (all_nondegenerate(il) && exists|x: int, y: int|
                    0 <= x < w && 0 <= y < h && morph_wsum_zero_at_s(*self, x, y)))
                &&& (r is Err ==> (r == Err::<Raster, MorphError>(MorphError::DegenerateLine) || r
                    == Err::<Raster, MorphError>(MorphError::ZeroWeightSum)))
                &&& (r is Ok ==> {
                    let out = r->Ok_0;
                    &&& out.wf()
                    &&& out.spec_width() == w
                    &&& out.spec_height() == h
                    &&& forall|x: int, y: int|
                        0 <= x < w && 0 <= y < h ==> out.pix(x, y) == morph_pixel_s(*self, x, y)
                })
            }),
    {
        let inter: Vec<Line> = self.interpolate_lines();
        let n: usize = inter.len();
        let mut i: usize = 0;
        while i < n
            invariant
                i <= n,
                n == inter@.len(),
                inter@ == morph_ref_lines_s(*self),
                forall|k: int| 0 <= k < i ==> nondegenerate(#[trigger] inter@[k]),
            decreases n - i,
        {
            let l2 = line_len2(&inter[i]);
            if l2.raw <= 0 {
                return Err(MorphError::DegenerateLine);
            }
            i = i + 1;
        }
        let dw: u32 = self.dst.width();
        let dh: u32 = self.dst.height();
        proof {
            self.dst.lemma_wf_dims();
        }
        let mut out: Raster = Raster::new(dw, dh);
        let mut y: u32 = 0;
        while y < dh
            invariant
                y <= dh,
                dw == self.dst.spec_width(),
                dh == self.dst.spec_height(),
                self.wf(),
                self.src.spec_width() >= 2,
                self.src.spec_height() >= 2,
                self.dst.spec_width() >= 2,
                self.dst.spec_height() >= 2,
                inter@ == morph_ref_lines_s(*self),
                all_nondegenerate(inter@),
                out.wf(),
                out.spec_width() == dw,
                out.spec_height() == dh,
                forall|xx: int, yy: int|
                    0 <= xx < dw && 0 <= yy < y ==> out.pix(xx, yy) == morph_pixel_s(
                        *self,
                        xx,
                        yy,
                    ),
                forall|xx: int, yy: int|
                    0 <= xx < dw && 0 <= yy < y ==> !morph_wsum_zero_at_s(*self, xx, yy),
            decreases dh - y,
        {
            let mut x: u32 = 0;
            while x < dw
                invariant
                    x <= dw,
                    y < dh,
                    dw == self.dst.spec_width(),
                    dh == self.dst.spec_height(),
                    self.wf(),
                    self.src.spec_width() >= 2,
                    self.src.spec_height() >= 2,
                    self.dst.spec_width() >= 2,
                    self.dst.spec_height() >= 2,
                    inter@ == morph_ref_lines_s(*self),
                    all_nondegenerate(inter@),
                    out.wf(),
                    out.spec_width() == dw,
                    out.spec_height() == dh,
                    forall|xx: int, yy: int|
                        0 <= xx < dw && 0 <= yy < y ==> out.pix(xx, yy) == morph_pixel_s(
                            *self,
                            xx,
                            yy,
                        ),
                    forall|xx: int, yy: int|
                        0 <= xx < dw && 0 <= yy < y ==> !morph_wsum_zero_at_s(*self, xx, yy),
                    forall|xx: int|
                        0 <= xx < x ==> out.pix(xx, y as int) == morph_pixel_s(
                            *self,
                            xx,
                            y as int,
                        ),
                    forall|xx: int| 0 <= xx < x ==> !morph_wsum_zero_at_s(*self, xx, y as int),
                decreases dw - x,
            {
                match self.morph_pixel(&inter, x, y) {
                    Ok(c) => {
                        out.put_pixel(x, y, c);
                    },
                    Err(e) => {
                        proof {
                            assert(morph_wsum_zero_at_s(*self, x as int, y as int));
                        }
                        return Err(MorphError::ZeroWeightSum);
                    },
                }
                x = x + 1;
            }
            y = y + 1;
        }
        Ok(out)
    }
}

} // verus!
