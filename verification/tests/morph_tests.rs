use imagemorph::fixed::{Fx, SCALE};
use imagemorph::geom::{Vertex, Line, clamp_point};
use imagemorph::model::{Morph, MorphError};
use imagemorph::raster::{Raster, Rgba};

fn fx(raw: i64) -> Fx {
    Fx { raw }
}

fn vertex(x: i64, y: i64) -> Vertex {
    Vertex::new(Fx::from_int(x), Fx::from_int(y))
}

fn line(x1: i64, y1: i64, x2: i64, y2: i64) -> Line {
    Line::new(vertex(x1, y1), vertex(x2, y2))
}

fn blank(w: u32, h: u32) -> Raster {
    Raster::new(w, h)
}

fn fill(img: &mut Raster, c: Rgba) {
    let w = img.width();
    let h = img.height();
    for y in 0..h {
        for x in 0..w {
            img.put_pixel(x, y, c);
        }
    }
}

#[test]
fn test_inter_lines() {
    let src_lines = vec![line(0, 100, 100, 100)];
    let dst_lines = vec![line(0, 50, 100, 50)];
    let src = blank(200, 200);
    let dst = blank(200, 200);
    let morph = Morph::new(src, dst, src_lines, dst_lines, (fx(500_000), 0, fx(1000), 0))
        .unwrap();
    let inter = morph.interpolate_lines();
    assert_eq!(inter[0].p.position[0], Fx::from_int(0));
    assert_eq!(inter[0].p.position[1], Fx::from_int(75));
    assert_eq!(inter[0].q.position[0], Fx::from_int(100));
    assert_eq!(inter[0].q.position[1], Fx::from_int(75));
}

#[test]
fn test_warp() {
    let src_lines = vec![line(0, 100, 100, 100)];
    let dst_lines = vec![line(0, 50, 100, 50)];
    let src = blank(200, 200);
    let dst = blank(200, 200);
    let morph = Morph::new(src, dst, src_lines, dst_lines, (fx(500_000), 0, fx(1000), 0))
        .unwrap();
    let inter = morph.interpolate_lines();
    let x = Fx::from_int(50);
    let y = Fx::from_int(80);
    let new_pt = morph.warp(x, y, &inter, &morph.src_lines).unwrap();
    println!("{}, {}", new_pt.0.raw, new_pt.1.raw);
    assert_eq!(new_pt.0, Fx::from_int(50));
    assert_eq!(new_pt.1, Fx::from_int(105));
}

// The warp scenario with the weight exponent switched on: one line pair
// from (0,100)-(100,100) to (0,50)-(100,50), p = 0, a = 0.001, b = 1,
// t = 0.5. The point (50, 80) sits 5 units below the interpolated line
// y = 75 and maps to 5 units below the source line y = 100: a finite point
// with y above 80, at the single-line candidate (50, 105) exactly.
#[test]
fn warp_single_line_scenario() {
    let src_lines = vec![line(0, 100, 100, 100)];
    let dst_lines = vec![line(0, 50, 100, 50)];
    let src = blank(200, 200);
    let dst = blank(200, 200);
    let morph = Morph::new(src, dst, src_lines, dst_lines, (fx(500_000), 0, fx(1000), 1))
        .unwrap();
    let inter = morph.interpolate_lines();
    assert_eq!(inter[0].p.position[1], Fx::from_int(75));
    let new_pt = morph.warp(Fx::from_int(50), Fx::from_int(80), &inter, &morph.src_lines)
        .unwrap();
    assert_eq!(new_pt.0.raw, 50_000_000);
    assert_eq!(new_pt.1.raw, 105_000_000);
    assert!(new_pt.1.raw > 80_000_000);
    assert!(new_pt.1.raw <= 105_000_000);
}

// Closer reference lines pull harder: with two line pairs, the first
// mapping the point 20 units down and the second holding it in place, a
// point much nearer the first line lands well past the midpoint of the two
// candidates.
#[test]
fn warp_weight_favors_near_line() {
    let ref_lines = vec![line(0, 0, 100, 0), line(0, 10, 100, 10)];
    let tgt_lines = vec![line(0, 20, 100, 20), line(0, 10, 100, 10)];
    let src = blank(200, 200);
    let dst = blank(200, 200);
    let morph = Morph::new(
        src,
        dst,
        ref_lines,
        tgt_lines,
        (fx(500_000), 0, fx(1000), 1),
    )
    .unwrap();
    // candidates: line pair one maps (50, 2) to (50, 22); pair two, whose
    // target equals its reference, maps it to itself (50, 2)
    let new_pt = morph
        .warp(Fx::from_int(50), Fx::from_int(2), &morph.src_lines.clone(), &morph.dst_lines.clone())
        .unwrap();
    assert_eq!(new_pt.0, Fx::from_int(50));
    assert!(new_pt.1.raw > 12_000_000, "nearer line must dominate: {}", new_pt.1.raw);
    assert!(new_pt.1.raw < 22_000_000);
}

// Endpoint identity: interpolation at t = 0 returns the source lines
// exactly, and at t = 1 the destination lines exactly.
#[test]
fn interpolation_endpoint_identity() {
    let src_lines = vec![line(3, 7, 90, 41), line(-5, 0, 12, 2)];
    let dst_lines = vec![line(20, 1, 77, 60), line(8, 8, 9, -3)];
    let at_zero = Morph::new(
        blank(4, 4),
        blank(4, 4),
        src_lines.clone(),
        dst_lines.clone(),
        (fx(0), 0, fx(1000), 1),
    )
    .unwrap()
    .interpolate_lines();
    let at_one = Morph::new(
        blank(4, 4),
        blank(4, 4),
        src_lines.clone(),
        dst_lines.clone(),
        (Fx::one(), 0, fx(1000), 1),
    )
    .unwrap()
    .interpolate_lines();
    for i in 0..2 {
        assert_eq!(at_zero[i], src_lines[i]);
        assert_eq!(at_one[i], dst_lines[i]);
    }
}

#[test]
fn fixed_point_arithmetic_exact() {
    assert_eq!(SCALE, 1_000_000);
    assert_eq!(Fx::from_int(3).raw, 3_000_000);
    assert_eq!(Fx::zero().raw, 0);
    assert_eq!(Fx::one().raw, 1_000_000);
    // products truncate toward zero
    assert_eq!(fx(1_500_000).mul(fx(1_500_000)).raw, 2_250_000);
    assert_eq!(fx(1).mul(fx(500_000)).raw, 0);
    assert_eq!(fx(-1).mul(fx(500_000)).raw, 0);
    assert_eq!(fx(-1_500_000).mul(fx(1_500_000)).raw, -2_250_000);
    // quotients truncate toward zero
    assert_eq!(Fx::from_int(-3).div(Fx::from_int(2)).raw, -1_500_000);
    assert_eq!(Fx::from_int(1).div(Fx::from_int(3)).raw, 333_333);
    assert_eq!(Fx::from_int(-1).div(Fx::from_int(3)).raw, -333_333);
    // square roots round down to a raw unit
    assert_eq!(Fx::from_int(4).sqrt().raw, 2_000_000);
    assert_eq!(Fx::from_int(2).sqrt().raw, 1_414_213);
    assert_eq!(fx(0).sqrt().raw, 0);
    // integer powers
    assert_eq!(fx(1_500_000).powi(2).raw, 2_250_000);
    assert_eq!(Fx::from_int(10).powi(3).raw, 1_000_000_000);
    assert_eq!(Fx::from_int(-7).powi(0).raw, 1_000_000);
    // saturation at the i64 range
    assert_eq!(fx(i64::MAX).add(Fx::one()).raw, i64::MAX);
    assert_eq!(fx(i64::MIN).sub(Fx::one()).raw, i64::MIN);
    assert_eq!(fx(i64::MAX).mul(fx(i64::MAX)).raw, i64::MAX);
    assert_eq!(fx(i64::MIN).neg().raw, i64::MAX);
    // absolute value and clamping
    assert_eq!(Fx::from_int(-5).abs().raw, 5_000_000);
    assert_eq!(Fx::from_int(5).clamp(Fx::zero(), Fx::from_int(3)).raw, 3_000_000);
    assert_eq!(Fx::from_int(-5).clamp(Fx::zero(), Fx::from_int(3)).raw, 0);
}

#[test]
fn clamp_point_stays_in_bounds() {
    let max_x = Fx::from_int(199);
    let max_y = Fx::from_int(99);
    let far = clamp_point(Fx::from_int(1_000_000), Fx::from_int(-4), max_x, max_y);
    assert_eq!(far.0, max_x);
    assert_eq!(far.1, Fx::zero());
    let inside = clamp_point(Fx::from_int(12), fx(500_000), max_x, max_y);
    assert_eq!(inside.0, Fx::from_int(12));
    assert_eq!(inside.1, fx(500_000));
}

#[test]
fn new_rejects_line_count_mismatch() {
    let r = Morph::new(
        blank(4, 4),
        blank(4, 4),
        vec![line(0, 0, 1, 1)],
        vec![],
        (fx(0), 0, fx(1000), 1),
    );
    assert_eq!(r.err().unwrap(), MorphError::LineCountMismatch);
}

#[test]
fn new_rejects_degenerate_line() {
    let r = Morph::new(
        blank(4, 4),
        blank(4, 4),
        vec![line(2, 2, 2, 2)],
        vec![line(0, 0, 1, 1)],
        (fx(0), 0, fx(1000), 1),
    );
    assert_eq!(r.err().unwrap(), MorphError::DegenerateLine);
}

#[test]
fn new_rejects_non_positive_a() {
    let r = Morph::new(
        blank(4, 4),
        blank(4, 4),
        vec![line(0, 0, 1, 1)],
        vec![line(0, 0, 1, 1)],
        (fx(0), 0, fx(0), 1),
    );
    assert_eq!(r.err().unwrap(), MorphError::NonPositiveA);
    let r2 = Morph::new(
        blank(4, 4),
        blank(4, 4),
        vec![line(0, 0, 1, 1)],
        vec![line(0, 0, 1, 1)],
        (fx(0), 0, fx(-5), 1),
    );
    assert_eq!(r2.err().unwrap(), MorphError::NonPositiveA);
}

// A line of minimal accepted length far away from every pixel: with p = 1
// every weight truncates to zero, and the failure is reported rather than
// divided by.
#[test]
fn morph_reports_zero_weight_sum() {
    let lines_src = vec![Line::new(vertex(1000, 1000), Vertex::new(fx(1_000_001_000), Fx::from_int(1000)))];
    let lines_dst = lines_src.clone();
    let morph = Morph::new(
        blank(2, 2),
        blank(2, 2),
        lines_src,
        lines_dst,
        (fx(0), 1, fx(1000), 1),
    )
    .unwrap();
    let r = morph.morph();
    assert_eq!(r.err().unwrap(), MorphError::ZeroWeightSum);
}

#[test]
fn bilinear_interpolation_exact_midpoint() {
    let mut img = blank(2, 2);
    img.put_pixel(0, 0, Rgba { r: 0, g: 10, b: 20, a: 255 });
    img.put_pixel(1, 0, Rgba { r: 100, g: 30, b: 40, a: 255 });
    img.put_pixel(0, 1, Rgba { r: 50, g: 50, b: 60, a: 255 });
    img.put_pixel(1, 1, Rgba { r: 200, g: 70, b: 80, a: 255 });
    let model = Morph::new(
        blank(2, 2),
        blank(2, 2),
        vec![line(0, 0, 1, 1)],
        vec![line(0, 0, 1, 1)],
        (fx(0), 0, fx(1000), 1),
    )
    .unwrap();
    let (r, g, b) = model.bilinear_interpolate(&img, fx(500_000), fx(500_000));
    // (0 + 100 + 50 + 200) with equal quarter weights
    assert_eq!(r.raw, 87_500_000);
    assert_eq!(g.raw, 40_000_000);
    assert_eq!(b.raw, 50_000_000);
    // at an exact pixel the sample is that pixel
    let (r0, g0, b0) = model.bilinear_interpolate(&img, Fx::from_int(1), Fx::from_int(0));
    assert_eq!(r0.raw, 100_000_000);
    assert_eq!(g0.raw, 30_000_000);
    assert_eq!(b0.raw, 40_000_000);
    // the left boundary shifts the window inward
    let (rb, _, _) = model.bilinear_interpolate(&img, Fx::from_int(0), Fx::from_int(0));
    assert_eq!(rb.raw, 0);
}

#[test]
fn cross_dissolve_exact() {
    let mut src = blank(2, 2);
    let mut dst = blank(2, 2);
    fill(&mut src, Rgba { r: 100, g: 0, b: 255, a: 255 });
    fill(&mut dst, Rgba { r: 50, g: 200, b: 0, a: 255 });
    let model = Morph::new(
        src,
        dst,
        vec![line(0, 0, 1, 1)],
        vec![line(0, 0, 1, 1)],
        (fx(500_000), 0, fx(1000), 1),
    )
    .unwrap();
    let zero = (Fx::zero(), Fx::zero());
    let (r, g, b) = model.interpolate_color(zero, zero, &model.src, &model.dst);
    assert_eq!(r.raw, 75_000_000);
    assert_eq!(g.raw, 100_000_000);
    assert_eq!(b.raw, 127_500_000);
}

fn patterned(w: u32, h: u32) -> Raster {
    let mut img = Raster::new(w, h);
    for y in 0..h {
        for x in 0..w {
            img.put_pixel(
                x,
                y,
                Rgba { r: (x * 30) as u8, g: (y * 30) as u8, b: (x + y) as u8, a: 255 },
            );
        }
    }
    img
}

// Idempotence at t = 0: with the source line list as both reference and
// target, the warp is the identity on these coordinates, and the morph
// reproduces the source image pixel for pixel.
#[test]
fn morph_at_zero_reproduces_source() {
    let src = patterned(8, 8);
    let mut dst = blank(8, 8);
    fill(&mut dst, Rgba { r: 200, g: 200, b: 200, a: 255 });
    let morph = Morph::new(
        src,
        dst,
        vec![line(0, 2, 8, 2)],
        vec![line(0, 5, 8, 5)],
        (fx(0), 0, fx(1000), 1),
    )
    .unwrap();
    let out = morph.morph().unwrap();
    assert_eq!(out.width(), 8);
    assert_eq!(out.height(), 8);
    for y in 0..8u32 {
        for x in 0..8u32 {
            let got = out.get_pixel(x, y);
            let want = morph.src.get_pixel(x, y);
            assert_eq!((got.r, got.g, got.b), (want.r, want.g, want.b), "pixel {} {}", x, y);
            assert_eq!(got.a, 255);
        }
    }
}

// Idempotence at t = 1: the morph reproduces the destination image.
#[test]
fn morph_at_one_reproduces_destination() {
    let src = patterned(8, 8);
    let mut dst = blank(8, 8);
    fill(&mut dst, Rgba { r: 200, g: 150, b: 100, a: 255 });
    let morph = Morph::new(
        src,
        dst,
        vec![line(0, 2, 8, 2)],
        vec![line(0, 5, 8, 5)],
        (Fx::one(), 0, fx(1000), 1),
    )
    .unwrap();
    let out = morph.morph().unwrap();
    for y in 0..8u32 {
        for x in 0..8u32 {
            let got = out.get_pixel(x, y);
            assert_eq!((got.r, got.g, got.b, got.a), (200, 150, 100, 255));
        }
    }
}

// The scenario of the morph driver end to end: two uniform images at
// t = 0.5 blend to the channel midpoint everywhere, whatever the warp does
// to the coordinates.
#[test]
fn morph_blends_uniform_images() {
    let mut src = blank(16, 16);
    let mut dst = blank(16, 16);
    fill(&mut src, Rgba { r: 100, g: 40, b: 0, a: 255 });
    fill(&mut dst, Rgba { r: 50, g: 40, b: 90, a: 255 });
    let morph = Morph::new(
        src,
        dst,
        vec![line(0, 10, 10, 10)],
        vec![line(0, 5, 10, 5)],
        (fx(500_000), 0, fx(1000), 1),
    )
    .unwrap();
    let out = morph.morph().unwrap();
    assert_eq!(out.width(), 16);
    assert_eq!(out.height(), 16);
    for y in 0..16u32 {
        for x in 0..16u32 {
            let got = out.get_pixel(x, y);
            assert_eq!((got.r, got.g, got.b, got.a), (75, 40, 45, 255));
        }
    }
}

// The output always takes the destination's dimensions.
#[test]
fn morph_output_has_destination_dimensions() {
    let src = patterned(8, 8);
    let dst = blank(5, 9);
    let morph = Morph::new(
        src,
        dst,
        vec![line(0, 2, 4, 2)],
        vec![line(0, 3, 4, 3)],
        (fx(250_000), 0, fx(1000), 1),
    )
    .unwrap();
    let out = morph.morph().unwrap();
    assert_eq!(out.width(), 5);
    assert_eq!(out.height(), 9);
}
