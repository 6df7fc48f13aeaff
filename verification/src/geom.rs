//! Points and directed feature lines.
//!
//! A `Vertex` is a 2D position; a `Line` is an ordered (directed) pair of
//! vertices. Direction matters: the warp's projection parameter and the sign
//! of the perpendicular offset both follow it. The perpendicular of a
//! direction `(dx, dy)` is taken as `(-dy, dx)` throughout.

use vstd::prelude::*;
use crate::fixed::{Fx, fx_add_s, fx_sub_s, fx_mul_s, fx_clamp_s};

verus! {

/// A position: `position[0]` is x, `position[1]` is y.
#[derive(Clone, Copy, PartialEq, Debug)]
#[verifier::ext_equal]
pub struct Vertex {
    pub position: [Fx; 2],
}

/// A directed segment from `p` to `q`.
#[derive(Clone, Copy, PartialEq, Debug)]
#[verifier::ext_equal]
pub struct Line {
    pub p: Vertex,
    pub q: Vertex,
}

impl Vertex {
    /// The x coordinate, as a mathematical integer of raw units.
    pub open spec fn x(self) -> int {
        self.position[0]@
    }

    /// The y coordinate, as a mathematical integer of raw units.
    pub open spec fn y(self) -> int {
        self.position[1]@
    }

    /// Build a vertex from its two coordinates.
    pub fn new(x: Fx, y: Fx) -> (r: Vertex)
        ensures
            r.x() == x@,
            r.y() == y@,
    {
        Vertex { position: [x, y] }
    }

    /// The x coordinate.
    pub fn get_x(&self) -> (r: Fx)
        ensures
            r@ == self.x(),
    {
        self.position[0]
    }

    /// The y coordinate.
    pub fn get_y(&self) -> (r: Fx)
        ensures
            r@ == self.y(),
    {
        self.position[1]
    }
}

impl Line {
    /// Build a line from its two endpoints.
    pub fn new(p: Vertex, q: Vertex) -> (r: Line)
        ensures
            r.p == p,
            r.q == q,
    {
        Line { p, q }
    }
}

/// The squared length of a line, computed in saturating fixed point.
pub open spec fn len2_s(l: Line) -> int {
    let dx = fx_sub_s(l.q.x(), l.p.x());
    let dy = fx_sub_s(l.q.y(), l.p.y());
    fx_add_s(fx_mul_s(dx, dx), fx_mul_s(dy, dy))
}

/// A line is usable when its squared length does not round down to zero.
pub open spec fn nondegenerate(l: Line) -> bool {
    len2_s(l) > 0
}

/// The squared length, as executable code.
pub fn line_len2(l: &Line) -> (r: Fx)
    ensures
        r@ == len2_s(*l),
{
    let dx = l.q.get_x().sub(l.p.get_x());
    let dy = l.q.get_y().sub(l.p.get_y());
    dx.mul(dx).add(dy.mul(dy))
}

/// Clamp a point into the pixel rectangle `[0, w - 1] x [0, h - 1]`.
///
/// Every clamped coordinate lies inside the rectangle, whatever point the
/// warp produced; the resampler is therefore never handed an out-of-range
/// coordinate.
pub fn clamp_point(x: Fx, y: Fx, max_x: Fx, max_y: Fx) -> (r: (Fx, Fx))
    requires
        max_x@ >= 0,
        max_y@ >= 0,
    ensures
        r.0@ == fx_clamp_s(x@, 0, max_x@),
        r.1@ == fx_clamp_s(y@, 0, max_y@),
        0 <= r.0@ <= max_x@,
        0 <= r.1@ <= max_y@,
{
    let zero = Fx::zero();
    (x.clamp(zero, max_x), y.clamp(zero, max_y))
}

} // verus!
