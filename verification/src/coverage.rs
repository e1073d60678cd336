//! Which points of the screen a triangle covers, and with what weights.
//!
//! Screen coordinates are raw 16.16 values, so everything here is exact
//! integer arithmetic. A point belongs to a triangle when it lies inside;
//! a point exactly on an edge belongs to the triangle only if the edge
//! runs downwards on the screen, or runs level from right to left, once
//! the triangle is taken in its positive orientation. Two triangles that
//! share an edge run along it in opposite directions, so exactly one of
//! them claims the points on it.

use vstd::prelude::*;
use crate::fixed::sat;

verus! {

/// A point of the screen in raw units, 65536 to a pixel.
pub struct Point {
    pub x: int,
    pub y: int,
}

/// Twice the signed area of the triangle `(a, b, p)`: positive when `p`
/// lies on the inner side of the edge from `a` to `b` of a positively
/// oriented triangle.
pub open spec fn edge(a: Point, b: Point, p: Point) -> int {
    (b.x - a.x) * (p.y - a.y) - (b.y - a.y) * (p.x - a.x)
}

/// The tie-break: whether an edge of direction `(dx, dy)` claims the
/// points that lie exactly on it.
pub open spec fn owns_boundary(dx: int, dy: int) -> bool {
    dy > 0 || (dy == 0 && dx < 0)
}

/// `p` passes the test of the edge from `u` to `v`.
pub open spec fn admits(u: Point, v: Point, p: Point) -> bool {
    edge(u, v, p) > 0 || (edge(u, v, p) == 0 && owns_boundary(v.x - u.x, v.y - u.y))
}

/// `p` passes the tests of all three edges of `(a, b, c)`.
pub open spec fn covers_oriented(a: Point, b: Point, c: Point, p: Point) -> bool {
    admits(a, b, p) && admits(b, c, p) && admits(c, a, p)
}

/// `p` belongs to the triangle `(a, b, c)`, whichever way it winds. A
/// triangle without area has no points.
pub open spec fn covers(a: Point, b: Point, c: Point, p: Point) -> bool {
    if edge(a, b, c) > 0 {
        covers_oriented(a, b, c, p)
    } else if edge(a, b, c) < 0 {
        covers_oriented(a, c, b, p)
    } else {
        false
    }
}

/// Barycentric weights as integers: the weight of each vertex is `a`,
/// `b`, `c` over `total`.
pub struct Weights {
    pub a: int,
    pub b: int,
    pub c: int,
    pub total: int,
}

/// The weights of `p` in the triangle `(a, b, c)`.
pub open spec fn weights(a: Point, b: Point, c: Point, p: Point) -> Weights {
    Weights { a: edge(b, c, p), b: edge(c, a, p), c: edge(a, b, p), total: edge(a, b, c) }
}

/// A per-vertex quantity interpolated with weights `w`: the weighted
/// mean, rounded down and saturated.
pub open spec fn interpolate(w: Weights, fa: int, fb: int, fc: int) -> int {
    sat((w.a * fa + w.b * fb + w.c * fc) / w.total)
}

/// Swapping the ends of an edge negates its function.
pub proof fn lemma_edge_reversed(a: Point, b: Point, p: Point)
    ensures
        edge(b, a, p) == -edge(a, b, p),
{
    let (ax, ay, bx, by, px, py) = (a.x, a.y, b.x, b.y, p.x, p.y);
    assert((ax - bx) * (py - by) - (ay - by) * (px - bx) == -((bx - ax) * (py - ay) - (by - ay) * (
    px - ax))) by (nonlinear_arith);
}

/// Rotating the vertices of a triangle leaves its area as it is.
pub proof fn lemma_edge_rotated(a: Point, b: Point, c: Point)
    ensures
        edge(b, c, a) == edge(a, b, c),
        edge(c, a, b) == edge(a, b, c),
{
    let (ax, ay, bx, by, cx, cy) = (a.x, a.y, b.x, b.y, c.x, c.y);
    assert((cx - bx) * (ay - by) - (cy - by) * (ax - bx) == (bx - ax) * (cy - ay) - (by - ay) * (cx
        - ax)) by (nonlinear_arith);
    assert((ax - cx) * (by - cy) - (ay - cy) * (bx - cx) == (bx - ax) * (cy - ay) - (by - ay) * (cx
        - ax)) by (nonlinear_arith);
}

/// The three barycentric weights of any point add up to the whole.
pub proof fn lemma_weights_sum(a: Point, b: Point, c: Point, p: Point)
    ensures
        edge(b, c, p) + edge(c, a, p) + edge(a, b, p) == edge(a, b, c),
{
    lemma_edge_from_point(b, c, p);
    lemma_edge_from_point(c, a, p);
    lemma_edge_from_point(a, b, p);
    let (ax, ay) = (a.x - p.x, a.y - p.y);
    let (bx, by) = (b.x - p.x, b.y - p.y);
    let (cx, cy) = (c.x - p.x, c.y - p.y);
    lemma_cross_sum(ax, ay, bx, by, cx, cy);
    assert(bx - ax == b.x - a.x && cy - ay == c.y - a.y && by - ay == b.y - a.y && cx - ax == c.x
        - a.x);
}

/// The three cross products of three vectors add up to the cross product
/// of two of their differences.
proof fn lemma_cross_sum(ax: int, ay: int, bx: int, by: int, cx: int, cy: int)
    ensures
        (bx * cy - by * cx) + (cx * ay - cy * ax) + (ax * by - ay * bx) == (bx - ax) * (cy - ay) - (
        by - ay) * (cx - ax),
{
    assert((bx - ax) * (cy - ay) == bx * cy - bx * ay - ax * cy + ax * ay) by (nonlinear_arith);
    assert((by - ay) * (cx - ax) == by * cx - by * ax - ay * cx + ay * ax) by (nonlinear_arith);
    assert(bx * ay == ay * bx && ax * cy == cy * ax && ax * ay == ay * ax && by * ax == ax * by
        && ay * cx == cx * ay) by (nonlinear_arith);
}

/// The weights place the point: weighted by them, the offsets from `p`
/// to the three vertices cancel, in `x` and in `y`.
pub proof fn lemma_weights_place_point(a: Point, b: Point, c: Point, p: Point)
    ensures
        edge(b, c, p) * (a.x - p.x) + edge(c, a, p) * (b.x - p.x) + edge(a, b, p) * (c.x - p.x)
            == 0,
        edge(b, c, p) * (a.y - p.y) + edge(c, a, p) * (b.y - p.y) + edge(a, b, p) * (c.y - p.y)
            == 0,
{
    lemma_edge_from_point(b, c, p);
    lemma_edge_from_point(c, a, p);
    lemma_edge_from_point(a, b, p);
    lemma_cross_cancel(a.x - p.x, a.y - p.y, b.x - p.x, b.y - p.y, c.x - p.x, c.y - p.y);
}

/// Seen from `p`, the edge function is the cross product of the two ends.
proof fn lemma_edge_from_point(u: Point, v: Point, p: Point)
    ensures
        edge(u, v, p) == (u.x - p.x) * (v.y - p.y) - (u.y - p.y) * (v.x - p.x),
{
    let (ux, uy, vx, vy, px, py) = (u.x, u.y, v.x, v.y, p.x, p.y);
    assert((vx - ux) * (py - uy) - (vy - uy) * (px - ux) == (ux - px) * (vy - py) - (uy - py) * (vx
        - px)) by (nonlinear_arith);
}

/// The three cross products of three vectors, each times a coordinate of
/// the vector it leaves out, cancel.
proof fn lemma_cross_cancel(ax: int, ay: int, bx: int, by: int, cx: int, cy: int)
    ensures
        (bx * cy - by * cx) * ax + (cx * ay - cy * ax) * bx + (ax * by - ay * bx) * cx == 0,
        (bx * cy - by * cx) * ay + (cx * ay - cy * ax) * by + (ax * by - ay * bx) * cy == 0,
{
    assert((bx * cy - by * cx) * ax == bx * cy * ax - by * cx * ax) by (nonlinear_arith);
    assert((cx * ay - cy * ax) * bx == cx * ay * bx - cy * ax * bx) by (nonlinear_arith);
    assert((ax * by - ay * bx) * cx == ax * by * cx - ay * bx * cx) by (nonlinear_arith);
    assert(bx * cy * ax == cy * ax * bx) by (nonlinear_arith);
    assert(by * cx * ax == ax * by * cx) by (nonlinear_arith);
    assert(cx * ay * bx == ay * bx * cx) by (nonlinear_arith);
    assert((bx * cy - by * cx) * ay == bx * cy * ay - by * cx * ay) by (nonlinear_arith);
    assert((cx * ay - cy * ax) * by == cx * ay * by - cy * ax * by) by (nonlinear_arith);
    assert((ax * by - ay * bx) * cy == ax * by * cy - ay * bx * cy) by (nonlinear_arith);
    assert(bx * cy * ay == ay * bx * cy) by (nonlinear_arith);
    assert(by * cx * ay == cx * ay * by) by (nonlinear_arith);
    assert(cy * ax * by == ax * by * cy) by (nonlinear_arith);
}

/// Non-negative weights with a positive sum cannot cancel offsets that
/// are all positive.
proof fn lemma_no_cancel(wa: int, wb: int, wc: int, da: int, db: int, dc: int)
    requires
        wa >= 0,
        wb >= 0,
        wc >= 0,
        wa + wb + wc > 0,
        da > 0,
        db > 0,
        dc > 0,
    ensures
        wa * da + wb * db + wc * dc > 0,
{
    assert(wa * da >= wa) by (nonlinear_arith)
        requires
            wa >= 0,
            da >= 1,
    ;
    assert(wb * db >= wb) by (nonlinear_arith)
        requires
            wb >= 0,
            db >= 1,
    ;
    assert(wc * dc >= wc) by (nonlinear_arith)
        requires
            wc >= 0,
            dc >= 1,
    ;
}

/// A point inside a positively oriented triangle lies within the span of
/// its vertices in `x` and in `y`.
proof fn lemma_covered_in_span_oriented(a: Point, b: Point, c: Point, p: Point)
    requires
        edge(a, b, c) > 0,
        edge(a, b, p) >= 0,
        edge(b, c, p) >= 0,
        edge(c, a, p) >= 0,
    ensures
        !(p.x < a.x && p.x < b.x && p.x < c.x),
        !(p.x > a.x && p.x > b.x && p.x > c.x),
        !(p.y < a.y && p.y < b.y && p.y < c.y),
        !(p.y > a.y && p.y > b.y && p.y > c.y),
{
    lemma_weights_sum(a, b, c, p);
    lemma_weights_place_point(a, b, c, p);
    let wa = edge(b, c, p);
    let wb = edge(c, a, p);
    let wc = edge(a, b, p);
    if p.x < a.x && p.x < b.x && p.x < c.x {
        lemma_no_cancel(wa, wb, wc, a.x - p.x, b.x - p.x, c.x - p.x);
    }
    if p.x > a.x && p.x > b.x && p.x > c.x {
        lemma_no_cancel(wa, wb, wc, p.x - a.x, p.x - b.x, p.x - c.x);
        assert(wa * (p.x - a.x) == -(wa * (a.x - p.x))) by (nonlinear_arith);
        assert(wb * (p.x - b.x) == -(wb * (b.x - p.x))) by (nonlinear_arith);
        assert(wc * (p.x - c.x) == -(wc * (c.x - p.x))) by (nonlinear_arith);
    }
    if p.y < a.y && p.y < b.y && p.y < c.y {
        lemma_no_cancel(wa, wb, wc, a.y - p.y, b.y - p.y, c.y - p.y);
    }
    if p.y > a.y && p.y > b.y && p.y > c.y {
        lemma_no_cancel(wa, wb, wc, p.y - a.y, p.y - b.y, p.y - c.y);
        assert(wa * (p.y - a.y) == -(wa * (a.y - p.y))) by (nonlinear_arith);
        assert(wb * (p.y - b.y) == -(wb * (b.y - p.y))) by (nonlinear_arith);
        assert(wc * (p.y - c.y) == -(wc * (c.y - p.y))) by (nonlinear_arith);
    }
}

/// A covered point lies within the bounding box of the triangle.
pub proof fn lemma_covered_in_box(a: Point, b: Point, c: Point, p: Point)
    requires
        covers(a, b, c, p),
    ensures
        !(p.x < a.x && p.x < b.x && p.x < c.x),
        !(p.x > a.x && p.x > b.x && p.x > c.x),
        !(p.y < a.y && p.y < b.y && p.y < c.y),
        !(p.y > a.y && p.y > b.y && p.y > c.y),
{
    if edge(a, b, c) > 0 {
        lemma_covered_in_span_oriented(a, b, c, p);
    } else {
        lemma_edge_reversed(a, b, c);
        lemma_edge_rotated(b, a, c);
        lemma_covered_in_span_oriented(a, c, b, p);
    }
}

/// No point belongs to both of two triangles that lie on opposite sides
/// of a shared edge.
pub proof fn lemma_shared_edge_disjoint(a: Point, b: Point, c: Point, d: Point, p: Point)
    requires
        edge(a, b, c) > 0,
        edge(b, a, d) > 0,
    ensures
        !(covers(a, b, c, p) && covers(b, a, d, p)),
{
    lemma_edge_reversed(a, b, p);
    if covers(a, b, c, p) && covers(b, a, d, p) {
        assert(admits(a, b, p));
        assert(admits(b, a, p));
        assert(edge(a, b, p) == 0);
        if a.x == b.x && a.y == b.y {
            assert(edge(a, b, c) == 0) by (nonlinear_arith)
                requires
                    a.x == b.x,
                    a.y == b.y,
                    edge(a, b, c) == (b.x - a.x) * (c.y - a.y) - (b.y - a.y) * (c.x - a.x),
            ;
        }
    }
}

/// A point on the shared edge of two such triangles that passes the
/// other two edges of each is claimed by exactly one of them.
pub proof fn lemma_shared_edge_claimed(a: Point, b: Point, c: Point, d: Point, p: Point)
    requires
        edge(a, b, c) > 0,
        edge(b, a, d) > 0,
        edge(a, b, p) == 0,
        admits(b, c, p),
        admits(c, a, p),
        admits(a, d, p),
        admits(d, b, p),
    ensures
        covers(a, b, c, p) != covers(b, a, d, p),
{
    lemma_edge_reversed(a, b, p);
    if a.x == b.x && a.y == b.y {
        assert(edge(a, b, c) == 0) by (nonlinear_arith)
            requires
                a.x == b.x,
                a.y == b.y,
                edge(a, b, c) == (b.x - a.x) * (c.y - a.y) - (b.y - a.y) * (c.x - a.x),
        ;
    }
}

/// A point strictly inside the three edges is covered whatever the
/// tie-break: the triangle has no gaps.
pub proof fn lemma_interior_covered(a: Point, b: Point, c: Point, p: Point)
    requires
        edge(a, b, c) > 0,
        edge(a, b, p) > 0,
        edge(b, c, p) > 0,
        edge(c, a, p) > 0,
    ensures
        covers(a, b, c, p),
{
}

/// The cross product of the vectors `(ux, uy)` and `(vx, vy)`.
pub open spec fn cross(ux: int, uy: int, vx: int, vy: int) -> int {
    ux * vy - uy * vx
}

/// Four factors multiplied in pairs: the pairing does not matter.
proof fn lemma_pairs(a: int, b: int, c: int, d: int)
    ensures
        (a * b) * (c * d) == (a * c) * (b * d),
        (a * b) * (c * d) == (a * d) * (b * c),
        (a * b) * (c * d) == (a * d) * (c * b),
        (a * b) * (c * d) == (a * c) * (d * b),
{
    assert((a * b) * (c * d) == (a * c) * (b * d)) by (nonlinear_arith);
    assert((a * b) * (c * d) == (a * d) * (b * c)) by (nonlinear_arith);
    assert((a * b) * (c * d) == (a * d) * (c * b)) by (nonlinear_arith);
    assert((a * b) * (c * d) == (a * c) * (d * b)) by (nonlinear_arith);
}

/// The product of two differences, multiplied out.
proof fn lemma_product_of_differences(a: int, b: int, c: int, d: int)
    ensures
        (a - b) * (c - d) == a * c - a * d - b * c + b * d,
{
    assert((a - b) * (c - d) == a * c - a * d - b * c + b * d) by (nonlinear_arith);
}

/// For four vectors `u`, `v`, `w`, `t` of the plane,
/// `(u x v)(w x t) = (u x w)(v x t) - (u x t)(v x w)`.
proof fn lemma_cross_exchange(
    ux: int,
    uy: int,
    vx: int,
    vy: int,
    wx: int,
    wy: int,
    tx: int,
    ty: int,
)
    ensures
        cross(ux, uy, vx, vy) * cross(wx, wy, tx, ty) == cross(ux, uy, wx, wy) * cross(
            vx,
            vy,
            tx,
            ty,
        ) - cross(ux, uy, tx, ty) * cross(vx, vy, wx, wy),
{
    lemma_product_of_differences(ux * vy, uy * vx, wx * ty, wy * tx);
    lemma_product_of_differences(ux * wy, uy * wx, vx * ty, vy * tx);
    lemma_product_of_differences(ux * ty, uy * tx, vx * wy, vy * wx);
    // the two products that occur on the right only cancel
    lemma_pairs(ux, wy, vx, ty);
    assert((ux * wy) * (vx * ty) == (ux * ty) * (vx * wy));
    lemma_pairs(uy, wx, vy, tx);
    assert((uy * wx) * (vy * tx) == (uy * tx) * (vy * wx));
    // the other four are those on the left
    lemma_pairs(ux, vy, wy, tx);
    assert((ux * vy) * (wy * tx) == (ux * wy) * (vy * tx));
    lemma_pairs(uy, vx, wx, ty);
    assert((uy * vx) * (wx * ty) == (uy * wx) * (vx * ty));
    lemma_pairs(ux, vy, wx, ty);
    assert((ux * vy) * (wx * ty) == (ux * ty) * (vy * wx));
    lemma_pairs(uy, vx, wy, tx);
    assert((uy * vx) * (wy * tx) == (uy * tx) * (vx * wy));
}

/// If `s * x == t * y` with `s`, `t` and `y` positive, then `x` is positive.
proof fn lemma_positive_share(s: int, x: int, t: int, y: int)
    requires
        s > 0,
        t > 0,
        y > 0,
        s * x == t * y,
    ensures
        x > 0,
{
    assert(t * y > 0) by (nonlinear_arith)
        requires
            t > 0,
            y > 0,
    ;
    if x <= 0 {
        assert(s * x <= 0) by (nonlinear_arith)
            requires
                s > 0,
                x <= 0,
        ;
    }
}

/// Two triangles on opposite sides of a shared edge leave no gap along
/// it: a point on the edge, strictly inside the other two edges of one
/// of them, is strictly inside the other two edges of the other as well,
/// and exactly one of the two triangles covers it.
pub proof fn lemma_shared_edge_no_gap(a: Point, b: Point, c: Point, d: Point, p: Point)
    requires
        edge(a, b, c) > 0,
        edge(b, a, d) > 0,
        edge(a, b, p) == 0,
        edge(b, c, p) > 0,
        edge(c, a, p) > 0,
    ensures
        edge(a, d, p) > 0,
        edge(d, b, p) > 0,
        covers(a, b, c, p) != covers(b, a, d, p),
{
    // seen from `a`
    lemma_edge_rotated(a, p, c);
    lemma_edge_rotated(a, d, b);
    let (bx, by) = (b.x - a.x, b.y - a.y);
    let (cx, cy) = (c.x - a.x, c.y - a.y);
    let (dx, dy) = (d.x - a.x, d.y - a.y);
    let (px, py) = (p.x - a.x, p.y - a.y);
    assert(edge(a, b, c) == cross(bx, by, cx, cy));
    assert(edge(a, d, p) == cross(dx, dy, px, py));
    assert(edge(a, b, p) == cross(bx, by, px, py));
    assert(edge(c, a, p) == cross(px, py, cx, cy));
    assert(edge(b, a, d) == cross(dx, dy, bx, by));
    lemma_cross_exchange(bx, by, cx, cy, dx, dy, px, py);
    assert(cross(bx, by, dx, dy) == -cross(dx, dy, bx, by)) by (nonlinear_arith);
    assert(cross(cx, cy, px, py) == -cross(px, py, cx, cy)) by (nonlinear_arith);
    assert(cross(bx, by, dx, dy) * cross(cx, cy, px, py) == cross(dx, dy, bx, by) * cross(
        px,
        py,
        cx,
        cy,
    )) by (nonlinear_arith)
        requires
            cross(bx, by, dx, dy) == -cross(dx, dy, bx, by),
            cross(cx, cy, px, py) == -cross(px, py, cx, cy),
    ;
    assert(cross(bx, by, px, py) * cross(cx, cy, dx, dy) == 0) by (nonlinear_arith)
        requires
            cross(bx, by, px, py) == 0,
    ;
    lemma_positive_share(edge(a, b, c), edge(a, d, p), edge(b, a, d), edge(c, a, p));
    // seen from `b`
    lemma_edge_rotated(b, c, a);
    lemma_edge_rotated(b, p, a);
    lemma_edge_rotated(b, p, d);
    let (ax2, ay2) = (a.x - b.x, a.y - b.y);
    let (cx2, cy2) = (c.x - b.x, c.y - b.y);
    let (dx2, dy2) = (d.x - b.x, d.y - b.y);
    let (px2, py2) = (p.x - b.x, p.y - b.y);
    assert(edge(b, c, p) == cross(cx2, cy2, px2, py2));
    assert(edge(b, a, d) == cross(ax2, ay2, dx2, dy2));
    assert(edge(a, b, c) == cross(cx2, cy2, ax2, ay2));
    assert(edge(a, b, p) == cross(px2, py2, ax2, ay2));
    assert(edge(d, b, p) == cross(px2, py2, dx2, dy2));
    lemma_cross_exchange(cx2, cy2, ax2, ay2, px2, py2, dx2, dy2);
    assert(cross(ax2, ay2, px2, py2) == -cross(px2, py2, ax2, ay2)) by (nonlinear_arith);
    assert(cross(cx2, cy2, dx2, dy2) * cross(ax2, ay2, px2, py2) == 0) by (nonlinear_arith)
        requires
            cross(ax2, ay2, px2, py2) == 0,
    ;
    lemma_positive_share(edge(a, b, c), edge(d, b, p), edge(b, c, p), edge(b, a, d));
    lemma_shared_edge_claimed(a, b, c, d, p);
}

/// The weights with which a fragment at `p` is interpolated: those of the
/// triangle in its positive orientation.
pub open spec fn fragment_weights(a: Point, b: Point, c: Point, p: Point) -> Weights {
    if edge(a, b, c) >= 0 {
        weights(a, b, c, p)
    } else {
        weights(a, c, b, p)
    }
}

/// The weights of every fragment are at least zero and add up to the
/// positive whole, whichever way the triangle winds.
pub proof fn lemma_fragment_weights(a: Point, b: Point, c: Point, p: Point)
    requires
        covers(a, b, c, p),
    ensures
        fragment_weights(a, b, c, p).a >= 0,
        fragment_weights(a, b, c, p).b >= 0,
        fragment_weights(a, b, c, p).c >= 0,
        fragment_weights(a, b, c, p).total > 0,
        fragment_weights(a, b, c, p).a + fragment_weights(a, b, c, p).b + fragment_weights(
            a,
            b,
            c,
            p,
        ).c == fragment_weights(a, b, c, p).total,
{
    if edge(a, b, c) > 0 {
        lemma_weights_sum(a, b, c, p);
    } else {
        lemma_edge_reversed(a, b, c);
        lemma_edge_rotated(b, a, c);
        lemma_weights_sum(a, c, b, p);
    }
}

/// A quantity interpolated with weights that are at least zero lies
/// between the least and the greatest of its values at the vertices.
pub proof fn lemma_interpolate_between(w: Weights, fa: int, fb: int, fc: int, lo: int, hi: int)
    requires
        w.a >= 0,
        w.b >= 0,
        w.c >= 0,
        w.total > 0,
        w.a + w.b + w.c == w.total,
        -0x8000_0000 <= lo <= fa <= hi <= 0x7fff_ffff,
        lo <= fb <= hi,
        lo <= fc <= hi,
    ensures
        lo <= interpolate(w, fa, fb, fc) <= hi,
{
    let n = w.a * fa + w.b * fb + w.c * fc;
    assert(w.a * lo <= w.a * fa <= w.a * hi) by (nonlinear_arith)
        requires
            w.a >= 0,
            lo <= fa <= hi,
    ;
    assert(w.b * lo <= w.b * fb <= w.b * hi) by (nonlinear_arith)
        requires
            w.b >= 0,
            lo <= fb <= hi,
    ;
    assert(w.c * lo <= w.c * fc <= w.c * hi) by (nonlinear_arith)
        requires
            w.c >= 0,
            lo <= fc <= hi,
    ;
    assert(w.a * lo + w.b * lo + w.c * lo == w.total * lo) by (nonlinear_arith)
        requires
            w.a + w.b + w.c == w.total,
    ;
    assert(w.a * hi + w.b * hi + w.c * hi == w.total * hi) by (nonlinear_arith)
        requires
            w.a + w.b + w.c == w.total,
    ;
    vstd::arithmetic::div_mod::lemma_div_is_ordered(w.total * lo, n, w.total);
    vstd::arithmetic::div_mod::lemma_div_is_ordered(n, w.total * hi, w.total);
    vstd::arithmetic::div_mod::lemma_div_multiples_vanish(lo, w.total);
    vstd::arithmetic::div_mod::lemma_div_multiples_vanish(hi, w.total);
}

/// A quantity that is the same at all three vertices is the same at
/// every point of the triangle.
pub proof fn lemma_interpolate_flat(w: Weights, f: int)
    requires
        w.total > 0,
        w.a + w.b + w.c == w.total,
        -0x8000_0000 <= f <= 0x7fff_ffff,
    ensures
        interpolate(w, f, f, f) == f,
{
    assert(w.a * f + w.b * f + w.c * f == f * w.total) by (nonlinear_arith)
        requires
            w.a + w.b + w.c == w.total,
    ;
    vstd::arithmetic::div_mod::lemma_div_multiples_vanish(f, w.total);
}

} // verus!
