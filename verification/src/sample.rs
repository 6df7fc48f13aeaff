//! The bilinear resampler and the cross-dissolve compositor.
//!
//! Sampling reads the four pixels around a fractional coordinate and blends
//! them with the standard bilinear weights. The window column `i` is the
//! ceiling of `x`, shifted inward to `1` when `x` lies exactly on the left
//! boundary, so the window `[i - 1, i]` never leaves the raster; rows work
//! the same way. The caller must clamp coordinates into
//! `[0, width - 1] x [0, height - 1]` beforehand. Alpha is not interpolated.

use vstd::prelude::*;
use crate::fixed::{Fx, SCALE, fx_add_s, fx_sub_s, fx_mul_s, sat64};
use crate::model::Morph;
use crate::raster::{Raster, Rgba};

verus! {

/// The number of whole units in `x`, rounded upward (for `x >= 0`).
pub open spec fn ceil_units_s(x: int) -> int {
    (x + SCALE - 1) / (SCALE as int)
}

/// The window column (or row): the ceiling of the coordinate, shifted
/// inward to `1` on the left boundary.
pub open spec fn window_s(x: int) -> int {
    if x == 0 {
        1
    } else {
        ceil_units_s(x)
    }
}

/// One resampled channel: the four neighbors blended by the fractional
/// offsets, summed left to right.
pub open spec fn bilin_channel_s(
    alpha: int,
    beta: int,
    c00: int,
    c01: int,
    c10: int,
    c11: int,
) -> int {
    let one = SCALE as int;
    fx_add_s(
        fx_add_s(
            fx_add_s(
                fx_mul_s(fx_mul_s(alpha, beta), c00),
                fx_mul_s(fx_mul_s(fx_sub_s(one, alpha), beta), c01),
            ),
            fx_mul_s(fx_mul_s(alpha, fx_sub_s(one, beta)), c10),
        ),
        fx_mul_s(fx_mul_s(fx_sub_s(one, alpha), fx_sub_s(one, beta)), c11),
    )
}

/// A channel byte as a fixed-point value.
pub open spec fn chan_s(c: u8) -> int {
    sat64(c * (SCALE as int))
}

/// The resampled red, green and blue values at `(x, y)`.
pub open spec fn sample_s(img: Raster, x: int, y: int) -> (int, int, int) {
    let i = window_s(x);
    let j = window_s(y);
    let alpha = fx_sub_s(i * SCALE, x);
    let beta = fx_sub_s(j * SCALE, y);
    let p00 = img.pix(i - 1, j - 1);
    let p01 = img.pix(i, j - 1);
    let p10 = img.pix(i - 1, j);
    let p11 = img.pix(i, j);
    (
        bilin_channel_s(alpha, beta, chan_s(p00.r), chan_s(p01.r), chan_s(p10.r), chan_s(p11.r)),
        bilin_channel_s(alpha, beta, chan_s(p00.g), chan_s(p01.g), chan_s(p10.g), chan_s(p11.g)),
        bilin_channel_s(alpha, beta, chan_s(p00.b), chan_s(p01.b), chan_s(p10.b), chan_s(p11.b)),
    )
}

/// One cross-dissolved channel: `(1 - t) * source + t * destination`.
pub open spec fn blend_channel_s(cs: int, cd: int, t: int) -> int {
    fx_add_s(fx_mul_s(cs, fx_sub_s(SCALE as int, t)), fx_mul_s(cd, t))
}

/// The window column stays strictly inside `[1, m]` for `x` in `[0, m * SCALE]`.
proof fn lemma_window_range(x: int, m: int)
    requires
        m >= 1,
        0 <= x <= m * SCALE,
    ensures
        1 <= window_s(x) <= m,
{
    if x == 0 {
    } else {
        assert(SCALE as int / SCALE as int == 1) by {
            vstd::arithmetic::div_mod::lemma_div_by_self(SCALE as int);
        }
        vstd::arithmetic::div_mod::lemma_div_is_ordered(SCALE as int, x + SCALE - 1, SCALE as int);
        assert(x + SCALE - 1 <= m * SCALE + SCALE - 1);
        vstd::arithmetic::div_mod::lemma_div_is_ordered(
            x + SCALE - 1,
            m * SCALE + SCALE - 1,
            SCALE as int,
        );
        vstd::arithmetic::div_mod::lemma_fundamental_div_mod_converse(
            m * SCALE + SCALE - 1,
            SCALE as int,
            m,
            SCALE - 1,
        );
    }
}

/// Resample one channel from its four neighbor bytes.
fn bilin_channel(alpha: Fx, beta: Fx, c00: u8, c01: u8, c10: u8, c11: u8) -> (r: Fx)
    ensures
        r@ == bilin_channel_s(
            alpha@,
            beta@,
            chan_s(c00),
            chan_s(c01),
            chan_s(c10),
            chan_s(c11),
        ),
{
    let one = Fx::one();
    let f00 = Fx::from_int(c00 as i64);
    let f01 = Fx::from_int(c01 as i64);
    let f10 = Fx::from_int(c10 as i64);
    let f11 = Fx::from_int(c11 as i64);
    let t00 = alpha.mul(beta).mul(f00);
    let t01 = one.sub(alpha).mul(beta).mul(f01);
    let t10 = alpha.mul(one.sub(beta)).mul(f10);
    let t11 = one.sub(alpha).mul(one.sub(beta)).mul(f11);
    t00.add(t01).add(t10).add(t11)
}

/// The window column as executable code.
fn window(x: Fx, m: u32) -> (r: u32)
    requires
        m >= 1,
        0 <= x@ <= m * SCALE,
    ensures
        r == window_s(x@),
        1 <= r <= m,
{
    proof {
        lemma_window_range(x@, m as int);
    }
    if x.raw == 0 {
        1
    } else {
        let num: u64 = (x.raw + (SCALE - 1)) as u64;
        (num / (SCALE as u64)) as u32
    }
}

impl Morph {
    /// Sample the red, green and blue values at the fractional coordinate
    /// `(x, y)`, which the caller has already clamped into
    /// `[0, width - 1] x [0, height - 1]`.
    pub fn bilinear_interpolate(&self, img: &Raster, x: Fx, y: Fx) -> (r: (Fx, Fx, Fx))
        requires
            img.wf(),
            img.spec_width() >= 2,
            img.spec_height() >= 2,
            0 <= x@ <= (img.spec_width() - 1) * SCALE,
            0 <= y@ <= (img.spec_height() - 1) * SCALE,
        ensures
            (r.0@, r.1@, r.2@) == sample_s(*img, x@, y@),
    {
        let w: u32 = img.width();
        let h: u32 = img.height();
        let i: u32 = window(x, w - 1);
        let j: u32 = window(y, h - 1);
        let alpha = Fx { raw: (i as i64) * SCALE }.sub(x);
        let beta = Fx { raw: (j as i64) * SCALE }.sub(y);
        let p00 = img.get_pixel(i - 1, j - 1);
        let p01 = img.get_pixel(i, j - 1);
        let p10 = img.get_pixel(i - 1, j);
        let p11 = img.get_pixel(i, j);
        let red = bilin_channel(alpha, beta, p00.r, p01.r, p10.r, p11.r);
        let green = bilin_channel(alpha, beta, p00.g, p01.g, p10.g, p11.g);
        let blue = bilin_channel(alpha, beta, p00.b, p01.b, p10.b, p11.b);
        (red, green, blue)
    }

    /// Sample both images and cross-dissolve the two colors at this model's
    /// `t`: channel-wise `(1 - t) * source + t * destination`.
    pub fn interpolate_color(
        &self,
        src_pt: (Fx, Fx),
        dst_pt: (Fx, Fx),
        src: &Raster,
        dst: &Raster,
    ) -> (r: (Fx, Fx, Fx))
        requires
            src.wf(),
            src.spec_width() >= 2,
            src.spec_height() >= 2,
            dst.wf(),
            dst.spec_width() >= 2,
            dst.spec_height() >= 2,
            0 <= src_pt.0@ <= (src.spec_width() - 1) * SCALE,
            0 <= src_pt.1@ <= (src.spec_height() - 1) * SCALE,
            0 <= dst_pt.0@ <= (dst.spec_width() - 1) * SCALE,
            0 <= dst_pt.1@ <= (dst.spec_height() - 1) * SCALE,
        ensures
            ({
                let cs = sample_s(*src, src_pt.0@, src_pt.1@);
                let cd = sample_s(*dst, dst_pt.0@, dst_pt.1@);
                &&& r.0@ == blend_channel_s(cs.0, cd.0, self.t@)
                &&& r.1@ == blend_channel_s(cs.1, cd.1, self.t@)
                &&& r.2@ == blend_channel_s(cs.2, cd.2, self.t@)
            }),
    {
        let (sr, sg, sb) = self.bilinear_interpolate(src, src_pt.0, src_pt.1);
        let (dr, dg, db) = self.bilinear_interpolate(dst, dst_pt.0, dst_pt.1);
        let omt = Fx::one().sub(self.t);
        (
            sr.mul(omt).add(dr.mul(self.t)),
            sg.mul(omt).add(dg.mul(self.t)),
            sb.mul(omt).add(db.mul(self.t)),
        )
    }
}

} // verus!
