//! Laws of the morphing pipeline, stated and proved over the same spec
//! functions the executable contracts use.

use vstd::prelude::*;
use vstd::arithmetic::power::{pow, lemma_pow_positive};
use vstd::arithmetic::div_mod::{
    lemma_div_is_ordered,
    lemma_div_is_ordered_by_denominator,
    lemma_div_pos_is_pos,
    lemma_div_multiples_vanish,
    lemma_div_of0,
};
use crate::fixed::{SCALE, rtz, fx_add_s, fx_mul_s, fx_div_s, fx_powi_s};
use crate::geom::Line;
use crate::interp::{lerp_s, interp_line_s, interp_lines_s};
use crate::warp::{weight_of_dist_s, weight_s, wsum_s, line_len_s, dist_s};

verus! {

broadcast use vstd::array::group_array_axioms;

/// Multiplying by fixed-point one returns the value unchanged.
proof fn lemma_fx_mul_one(v: int)
    requires
        i64::MIN as int <= v <= i64::MAX as int,
    ensures
        fx_mul_s(SCALE as int, v) == v,
{
    if v >= 0 {
        lemma_div_multiples_vanish(v, SCALE as int);
        assert((SCALE as int) * v == v * (SCALE as int)) by (nonlinear_arith);
    } else {
        lemma_div_multiples_vanish(-v, SCALE as int);
        assert(-((SCALE as int) * v) == (-v) * (SCALE as int)) by (nonlinear_arith);
    }
}

/// Multiplying by fixed-point zero gives zero.
proof fn lemma_fx_mul_zero(v: int)
    ensures
        fx_mul_s(0, v) == 0,
{
    assert(0 * v == 0) by (nonlinear_arith);
    lemma_div_of0(SCALE as int);
}

/// Interpolating an endpoint coordinate at `t = 0` returns the source
/// coordinate; at `t =` one it returns the destination coordinate.
pub proof fn lemma_lerp_endpoints(a: int, b: int)
    requires
        i64::MIN as int <= a <= i64::MAX as int,
        i64::MIN as int <= b <= i64::MAX as int,
    ensures
        lerp_s(0, a, b) == a,
        lerp_s(SCALE as int, a, b) == b,
{
    lemma_fx_mul_one(a);
    lemma_fx_mul_one(b);
    lemma_fx_mul_zero(a);
    lemma_fx_mul_zero(b);
}

/// Endpoint identity of the line interpolator: at `t = 0` the in-between
/// list is the source list exactly, and at `t =` one it is the destination
/// list exactly, for line lists of equal length.
pub proof fn lemma_interpolation_endpoint_identity(src: Seq<Line>, dst: Seq<Line>)
    requires
        src.len() == dst.len(),
    ensures
        interp_lines_s(src, dst, 0) == src,
        interp_lines_s(src, dst, SCALE as int) == dst,
{
    assert forall|i: int| 0 <= i < src.len() implies interp_lines_s(src, dst, 0)[i] == src[i] by {
        lemma_lerp_endpoints(src[i].p.x(), dst[i].p.x());
        lemma_lerp_endpoints(src[i].p.y(), dst[i].p.y());
        lemma_lerp_endpoints(src[i].q.x(), dst[i].q.x());
        lemma_lerp_endpoints(src[i].q.y(), dst[i].q.y());
        let il = interp_line_s(src[i], dst[i], 0);
        assert(il.p.position =~= src[i].p.position);
        assert(il.q.position =~= src[i].q.position);
        assert(il == src[i]);
    }
    assert forall|i: int|
        0 <= i < dst.len() implies interp_lines_s(src, dst, SCALE as int)[i] == dst[i] by {
        lemma_lerp_endpoints(src[i].p.x(), dst[i].p.x());
        lemma_lerp_endpoints(src[i].p.y(), dst[i].p.y());
        lemma_lerp_endpoints(src[i].q.x(), dst[i].q.x());
        lemma_lerp_endpoints(src[i].q.y(), dst[i].q.y());
        let il = interp_line_s(src[i], dst[i], SCALE as int);
        assert(il.p.position =~= dst[i].p.position);
        assert(il.q.position =~= dst[i].q.position);
        assert(il == dst[i]);
    }
    assert(interp_lines_s(src, dst, 0) =~= src);
    assert(interp_lines_s(src, dst, SCALE as int) =~= dst);
}

/// Single-line shape preservation of the warp.
///
/// With one feature line the warped point is the candidate mapping itself.
/// The exact candidate offset from the target origin is
/// `u * (ex, ey) + k * (-ey, ex)` for the projection parameter `u` and the
/// (generally irrational) perpendicular coefficient `k = v / |e|`. Written
/// with `u`'s numerator `un = pd . d` (so scaled by `|d|^2`) and an
/// arbitrary integer `c` in place of `k`'s numerator, projecting the
/// candidate back onto the target direction `(ex, ey)` yields exactly
/// `un * |e|^2`: the perpendicular part contributes nothing, so the
/// candidate's projection parameter onto the target line equals the
/// point's projection parameter `u` onto the reference line — whatever
/// value the perpendicular coefficient takes.
pub proof fn lemma_warp_preserves_projection(
    pdx: int,
    pdy: int,
    dx: int,
    dy: int,
    ex: int,
    ey: int,
    c: int,
)
    by (nonlinear_arith)
    ensures
        ({
            let un = pdx * dx + pdy * dy;
            let offx = un * ex - c * ey;
            let offy = un * ey + c * ex;
            offx * ex + offy * ey == un * (ex * ex + ey * ey)
        }),
{
}

/// Identity of the single-line frame round trip.
///
/// Splitting an offset `(pdx, pdy)` into its projection numerator along
/// `(dx, dy)` and its perpendicular numerator along `(-dy, dx)`, and then
/// reassembling those two parts along the same line, reconstructs the
/// offset scaled by `|d|^2`. Hence, when the target line coincides with the
/// reference line — as it does for every line pair at `t = 0` against the
/// source list, and at `t =` one against the destination list — the exact
/// candidate mapping of a point is that point itself, and the warp is the
/// identity up to fixed-point rounding.
pub proof fn lemma_identity_candidate(pdx: int, pdy: int, dx: int, dy: int)
    by (nonlinear_arith)
    ensures
        (pdx * dx + pdy * dy) * dx - (pdy * dx - pdx * dy) * dy == pdx * (dx * dx + dy * dy),
        (pdx * dx + pdy * dy) * dy + (pdy * dx - pdx * dy) * dx == pdy * (dx * dx + dy * dy),
{
}

/// Power is strictly monotone in a base of at least one.
proof fn lemma_pow_base_monotone_strict(x: int, y: int, e: nat)
    requires
        1 <= x < y,
        e >= 1,
    ensures
        pow(x, e) < pow(y, e),
    decreases e,
{
    if e == 1 {
        vstd::arithmetic::power::lemma_pow1(x);
        vstd::arithmetic::power::lemma_pow1(y);
    } else {
        reveal(pow);
        lemma_pow_base_monotone_strict(x, y, (e - 1) as nat);
        lemma_pow_positive(x, (e - 1) as nat);
        lemma_pow_positive(y, (e - 1) as nat);
        assert(x * pow(x, (e - 1) as nat) < y * pow(y, (e - 1) as nat)) by (nonlinear_arith)
            requires
                1 <= x < y,
                0 < pow(x, (e - 1) as nat),
                0 < pow(y, (e - 1) as nat),
                pow(x, (e - 1) as nat) < pow(y, (e - 1) as nat),
        ;
    }
}

/// Strict weight monotonicity, in exact arithmetic.
///
/// The mathematical weight of a line of length `len` at distance `d` is the
/// rational `len^(p * b) / (a + d)^b`. For a positive offset `a`, fixed
/// exponents `p` and `b` with `b >= 1`, and a line of positive length,
/// increasing the distance strictly decreases the weight; as rationals,
/// `W(d1) > W(d2)` holds exactly when
/// `len^(p*b) * (a + d2)^b > len^(p*b) * (a + d1)^b`, which is proved here.
/// (At `b = 0` every weight is one, and fixed-point truncation can collapse
/// two small weights, so strictness is a statement about the exact values.)
pub proof fn lemma_weight_strictly_decreasing(
    len: int,
    a: int,
    d1: int,
    d2: int,
    p: nat,
    b: nat,
)
    requires
        len >= 1,
        a >= 1,
        0 <= d1 < d2,
        b >= 1,
    ensures
        pow(len, p * b) * pow(a + d2, b) > pow(len, p * b) * pow(a + d1, b),
{
    lemma_pow_base_monotone_strict(a + d1, a + d2, b);
    lemma_pow_positive(len, p * b);
    assert(pow(len, p * b) * pow(a + d2, b) > pow(len, p * b) * pow(a + d1, b))
        by (nonlinear_arith)
        requires
            0 < pow(len, p * b),
            pow(a + d1, b) < pow(a + d2, b),
    ;
}

/// Truncation toward zero is monotone in the numerator.
proof fn lemma_rtz_mono_num(n1: int, n2: int, d: int)
    requires
        n1 <= n2,
        d >= 1,
    ensures
        rtz(n1, d) <= rtz(n2, d),
{
    if n1 >= 0 {
        lemma_div_is_ordered(n1, n2, d);
    } else if n2 >= 0 {
        lemma_div_pos_is_pos(-n1, d);
        lemma_div_pos_is_pos(n2, d);
    } else {
        lemma_div_is_ordered(-n2, -n1, d);
    }
}

/// Truncation toward zero of a nonnegative numerator shrinks as the
/// denominator grows.
proof fn lemma_rtz_antitone_den(n: int, d1: int, d2: int)
    requires
        n >= 0,
        1 <= d1 <= d2,
    ensures
        rtz(n, d2) <= rtz(n, d1),
{
    lemma_div_is_ordered_by_denominator(n, d1, d2);
}

/// The saturating product is monotone in both nonnegative factors.
proof fn lemma_fx_mul_mono(x1: int, x2: int, y1: int, y2: int)
    requires
        0 <= x1 <= x2,
        0 <= y1 <= y2,
    ensures
        0 <= fx_mul_s(x1, y1) <= fx_mul_s(x2, y2),
{
    assert(0 <= x1 * y1 <= x2 * y2) by (nonlinear_arith)
        requires
            0 <= x1 <= x2,
            0 <= y1 <= y2,
    ;
    lemma_rtz_mono_num(x1 * y1, x2 * y2, SCALE as int);
    lemma_div_pos_is_pos(x1 * y1, SCALE as int);
}

/// The saturating power is monotone in a nonnegative base.
proof fn lemma_fx_powi_mono(x1: int, x2: int, e: nat)
    requires
        0 <= x1 <= x2,
    ensures
        0 <= fx_powi_s(x1, e) <= fx_powi_s(x2, e),
    decreases e,
{
    if e == 0 {
    } else {
        lemma_fx_powi_mono(x1, x2, (e - 1) as nat);
        lemma_fx_mul_mono(x1, x2, fx_powi_s(x1, (e - 1) as nat), fx_powi_s(x2, (e - 1) as nat));
    }
}

/// No line ever pulls with a negative weight.
pub proof fn lemma_weight_nonneg(ptx: int, pty: int, l: Line, p: nat, a: int, b: nat)
    requires
        a >= 1,
    ensures
        weight_s(ptx, pty, l, p, a, b) >= 0,
{
    let len = line_len_s(l);
    lemma_fx_powi_mono(len, len, p);
    let lp = fx_powi_s(len, p);
    let e = fx_add_s(a, dist_s(ptx, pty, l));
    lemma_div_pos_is_pos(lp * (SCALE as int), e);
    lemma_fx_powi_mono(fx_div_s(lp, e), fx_div_s(lp, e), b);
}

/// A weight sum over any prefix of the reference list is nonnegative.
pub proof fn lemma_wsum_nonneg(
    ptx: int,
    pty: int,
    rls: Seq<Line>,
    p: nat,
    a: int,
    b: nat,
    n: int,
)
    requires
        a >= 1,
        n <= rls.len(),
    ensures
        wsum_s(ptx, pty, rls, p, a, b, n) >= 0,
    decreases n,
{
    if n > 0 {
        lemma_wsum_nonneg(ptx, pty, rls, p, a, b, n - 1);
        lemma_weight_nonneg(ptx, pty, rls[n - 1], p, a, b);
    }
}

/// The warp is defined wherever one line pulls: a single positive weight
/// makes the whole weight sum positive, so `warp` returns a point rather
/// than `ZeroWeightSum`.
pub proof fn lemma_wsum_positive(
    ptx: int,
    pty: int,
    rls: Seq<Line>,
    p: nat,
    a: int,
    b: nat,
    k: int,
    n: int,
)
    requires
        a >= 1,
        0 <= k < n <= rls.len(),
        weight_s(ptx, pty, rls[k], p, a, b) > 0,
    ensures
        wsum_s(ptx, pty, rls, p, a, b, n) > 0,
    decreases n,
{
    if k == n - 1 {
        lemma_wsum_nonneg(ptx, pty, rls, p, a, b, n - 1);
    } else {
        lemma_wsum_positive(ptx, pty, rls, p, a, b, k, n - 1);
        lemma_weight_nonneg(ptx, pty, rls[n - 1], p, a, b);
    }
}

/// With exponent `b = 0` every weight is one, so the warp over a nonempty
/// line list always returns a point.
pub proof fn lemma_wsum_positive_b_zero(
    ptx: int,
    pty: int,
    rls: Seq<Line>,
    p: nat,
    a: int,
    n: int,
)
    requires
        a >= 1,
        1 <= n <= rls.len(),
    ensures
        wsum_s(ptx, pty, rls, p, a, 0, n) > 0,
{
    assert(weight_s(ptx, pty, rls[0], p, a, 0) == SCALE as int);
    lemma_wsum_positive(ptx, pty, rls, p, a, 0, 0, n);
}

/// Weight monotonicity of the executable weight formula.
///
/// The fixed-point weight `(len^p / (a + d))^b` never increases as the
/// distance grows, for any nonnegative length and positive `a`. (The
/// strict version holds of the exact values — see
/// `lemma_weight_strictly_decreasing`; truncation toward zero can collapse
/// neighboring weights, for instance both to zero for a line of minimal
/// length, so the executable formula is only non-strictly monotone.)
pub proof fn lemma_weight_nonincreasing(len: int, a: int, d1: int, d2: int, p: nat, b: nat)
    requires
        len >= 0,
        a >= 1,
        0 <= d1 <= d2,
    ensures
        weight_of_dist_s(len, a, d2, p, b) <= weight_of_dist_s(len, a, d1, p, b),
{
    lemma_fx_powi_mono(len, len, p);
    let lp = fx_powi_s(len, p);
    let e1 = fx_add_s(a, d1);
    let e2 = fx_add_s(a, d2);
    assert(1 <= e1 <= e2);
    lemma_rtz_antitone_den(lp * (SCALE as int), e1, e2);
    lemma_div_pos_is_pos(lp * (SCALE as int), e2);
    assert(0 <= fx_div_s(lp, e2) <= fx_div_s(lp, e1));
    lemma_fx_powi_mono(fx_div_s(lp, e2), fx_div_s(lp, e1), b);
}

} // verus!
