//! The rasterizer: from a triangle on the screen to its fragments.
//!
//! A pixel belongs to a triangle when the triangle covers its centre. The
//! fragments of a triangle are found by testing the centres of the pixels
//! in its bounding box, cut to the buffer, row by row.

use vstd::prelude::*;
use crate::coverage::{
    covers, edge, interpolate, lemma_covered_in_box, lemma_edge_reversed, lemma_edge_rotated,
    owns_boundary, weights, Point, Weights,
};
use crate::fixed::{div_floor, saturate, Fixed};
use crate::fragment::Fragment;
use crate::vector::Vec3;
use crate::vertex::Vertex;

verus! {

/// The raw coordinate of the centre of pixel column, or row, `i`.
pub open spec fn center(i: int) -> int {
    i * 65536 + 32768
}

/// The centre of pixel `(x, y)`.
pub open spec fn pixel_center(x: int, y: int) -> Point {
    Point { x: center(x), y: center(y) }
}

/// Where a transformed vertex lies on the screen.
pub open spec fn screen(v: Vertex) -> Point {
    Point { x: v.transformed_position.x.raw as int, y: v.transformed_position.y.raw as int }
}

/// A per-vertex vector interpolated component by component.
pub open spec fn interpolate_vec3(w: Weights, fa: Vec3, fb: Vec3, fc: Vec3) -> Vec3 {
    Vec3 {
        x: Fixed { raw: interpolate(w, fa.x.raw as int, fb.x.raw as int, fc.x.raw as int) as i32 },
        y: Fixed { raw: interpolate(w, fa.y.raw as int, fb.y.raw as int, fc.y.raw as int) as i32 },
        z: Fixed { raw: interpolate(w, fa.z.raw as int, fb.z.raw as int, fc.z.raw as int) as i32 },
    }
}

/// The direction the ambient light comes from: straight out of the screen.
pub open spec fn ambient_light_spec() -> Vec3 {
    Vec3 { x: Fixed { raw: 0 }, y: Fixed { raw: 0 }, z: Fixed { raw: 65536 } }
}

/// The fragment of the positively oriented triangle `(v1, v2, v3)` at
/// pixel `(x, y)`.
pub open spec fn fragment_oriented(v1: Vertex, v2: Vertex, v3: Vertex, x: int, y: int) -> Fragment {
    let w = weights(screen(v1), screen(v2), screen(v3), pixel_center(x, y));
    let normal = interpolate_vec3(
        w,
        v1.transformed_normal,
        v2.transformed_normal,
        v3.transformed_normal,
    );
    Fragment {
        x: x as usize,
        y: y as usize,
        depth: Fixed {
            raw: interpolate(
                w,
                v1.transformed_position.z.raw as int,
                v2.transformed_position.z.raw as int,
                v3.transformed_position.z.raw as int,
            ) as i32,
        },
        normal,
        intensity: normal.dot(&ambient_light_spec()).clamp(Fixed::zero(), Fixed::one()),
        vertex_position: interpolate_vec3(w, v1.position, v2.position, v3.position),
    }
}

/// The fragment of the triangle `(v1, v2, v3)` at pixel `(x, y)`: a
/// triangle that winds negatively is taken as `(v1, v3, v2)`.
pub open spec fn fragment_at(v1: Vertex, v2: Vertex, v3: Vertex, x: int, y: int) -> Fragment {
    if edge(screen(v1), screen(v2), screen(v3)) >= 0 {
        fragment_oriented(v1, v2, v3, x, y)
    } else {
        fragment_oriented(v1, v3, v2, x, y)
    }
}

/// The triangle `(v1, v2, v3)` covers the centre of pixel `(x, y)`.
pub open spec fn covers_pixel(v1: Vertex, v2: Vertex, v3: Vertex, x: int, y: int) -> bool {
    covers(screen(v1), screen(v2), screen(v3), pixel_center(x, y))
}

/// Some fragment of `frags` sits at pixel `(x, y)`.
pub open spec fn has_fragment(frags: Seq<Fragment>, x: int, y: int) -> bool {
    exists|k: int| 0 <= k < frags.len() && (#[trigger] frags[k]).x == x && frags[k].y == y
}

/// `f` comes before `g` when pixels are read row by row.
pub open spec fn row_major_before(f: Fragment, g: Fragment) -> bool {
    f.y < g.y || (f.y == g.y && f.x < g.x)
}

/// Whether the triangle covers the pixel stored at index `i` of a buffer
/// `width` pixels wide.
pub open spec fn covers_index(v1: Vertex, v2: Vertex, v3: Vertex, width: int, i: int) -> bool {
    covers_pixel(v1, v2, v3, i % width, i / width)
}

/// The fragments of the triangle among the first `n` pixels of a buffer
/// `width` pixels wide, read row by row.
pub open spec fn scan(v1: Vertex, v2: Vertex, v3: Vertex, width: int, n: nat) -> Seq<Fragment>
    decreases n,
{
    if n == 0 || width <= 0 {
        Seq::empty()
    } else {
        let i = n - 1;
        let earlier = scan(v1, v2, v3, width, (n - 1) as nat);
        if covers_index(v1, v2, v3, width, i) {
            earlier.push(fragment_at(v1, v2, v3, i % width, i / width))
        } else {
            earlier
        }
    }
}

/// The fragments of the triangle `(v1, v2, v3)` in a buffer of `width` by
/// `height` pixels: one for each pixel whose centre the triangle covers,
/// row by row.
pub open spec fn triangle_fragments(
    v1: Vertex,
    v2: Vertex,
    v3: Vertex,
    width: int,
    height: int,
) -> Seq<Fragment> {
    if width <= 0 || height <= 0 {
        Seq::empty()
    } else {
        scan(v1, v2, v3, width, (width * height) as nat)
    }
}

/// A raw screen point of the rasterizer's inner loops.
#[derive(Clone, Copy)]
struct RawPoint {
    x: i64,
    y: i64,
}

impl RawPoint {
    spec fn point(self) -> Point {
        Point { x: self.x as int, y: self.y as int }
    }

    spec fn in_range(self) -> bool {
        -0x8000_0000 <= self.x <= 0x8000_0000 && -0x8000_0000 <= self.y <= 0x8000_0000
    }
}

fn raw_point(v: &Vertex) -> (p: RawPoint)
    ensures
        p.point() == screen(*v),
        p.in_range(),
{
    RawPoint { x: v.transformed_position.x.raw as i64, y: v.transformed_position.y.raw as i64 }
}

fn edge_value(a: RawPoint, b: RawPoint, p: RawPoint) -> (e: i128)
    requires
        a.in_range(),
        b.in_range(),
        p.in_range(),
    ensures
        e == edge(a.point(), b.point(), p.point()),
        -0x2_0000_0000_0000_0000 <= e <= 0x2_0000_0000_0000_0000,
{
    let dx: i128 = b.x as i128 - a.x as i128;
    let dy: i128 = b.y as i128 - a.y as i128;
    let qx: i128 = p.x as i128 - a.x as i128;
    let qy: i128 = p.y as i128 - a.y as i128;
    assert(-0x1_0000_0000_0000_0000 <= dx * qy <= 0x1_0000_0000_0000_0000) by (nonlinear_arith)
        requires
            -0x1_0000_0000 <= dx <= 0x1_0000_0000,
            -0x1_0000_0000 <= qy <= 0x1_0000_0000,
    ;
    assert(-0x1_0000_0000_0000_0000 <= dy * qx <= 0x1_0000_0000_0000_0000) by (nonlinear_arith)
        requires
            -0x1_0000_0000 <= dy <= 0x1_0000_0000,
            -0x1_0000_0000 <= qx <= 0x1_0000_0000,
    ;
    dx * qy - dy * qx
}

fn edge_admits(u: RawPoint, v: RawPoint, e: i128) -> (ok: bool)
    ensures
        ok == (e > 0 || (e == 0 && owns_boundary(v.x - u.x, v.y - u.y))),
{
    e > 0 || (e == 0 && (v.y > u.y || (v.y == u.y && v.x < u.x)))
}

/// Barycentric weights as the inner loops hold them.
#[derive(Clone, Copy)]
struct RawWeights {
    a: i128,
    b: i128,
    c: i128,
    total: i128,
}

impl RawWeights {
    spec fn weights(self) -> Weights {
        Weights { a: self.a as int, b: self.b as int, c: self.c as int, total: self.total as int }
    }

    spec fn in_range(self) -> bool {
        &&& -0x2_0000_0000_0000_0000 <= self.a <= 0x2_0000_0000_0000_0000
        &&& -0x2_0000_0000_0000_0000 <= self.b <= 0x2_0000_0000_0000_0000
        &&& -0x2_0000_0000_0000_0000 <= self.c <= 0x2_0000_0000_0000_0000
        &&& 0 < self.total
    }
}

fn interpolate_value(w: RawWeights, fa: Fixed, fb: Fixed, fc: Fixed) -> (f: Fixed)
    requires
        w.in_range(),
    ensures
        f.raw == interpolate(w.weights(), fa.raw as int, fb.raw as int, fc.raw as int),
{
    let xa: i128 = fa.raw as i128;
    let xb: i128 = fb.raw as i128;
    let xc: i128 = fc.raw as i128;
    assert(-0x1_0000_0000_0000_0000_0000_0000 <= w.a * xa <= 0x1_0000_0000_0000_0000_0000_0000)
        by (nonlinear_arith)
        requires
            -0x2_0000_0000_0000_0000 <= w.a <= 0x2_0000_0000_0000_0000,
            -0x8000_0000 <= xa <= 0x8000_0000,
    ;
    assert(-0x1_0000_0000_0000_0000_0000_0000 <= w.b * xb <= 0x1_0000_0000_0000_0000_0000_0000)
        by (nonlinear_arith)
        requires
            -0x2_0000_0000_0000_0000 <= w.b <= 0x2_0000_0000_0000_0000,
            -0x8000_0000 <= xb <= 0x8000_0000,
    ;
    assert(-0x1_0000_0000_0000_0000_0000_0000 <= w.c * xc <= 0x1_0000_0000_0000_0000_0000_0000)
        by (nonlinear_arith)
        requires
            -0x2_0000_0000_0000_0000 <= w.c <= 0x2_0000_0000_0000_0000,
            -0x8000_0000 <= xc <= 0x8000_0000,
    ;
    let sum: i128 = w.a * xa + w.b * xb + w.c * xc;
    Fixed { raw: saturate(div_floor(sum, w.total)) }
}

fn interpolate_vector(w: RawWeights, fa: &Vec3, fb: &Vec3, fc: &Vec3) -> (v: Vec3)
    requires
        w.in_range(),
    ensures
        v == interpolate_vec3(w.weights(), *fa, *fb, *fc),
{
    Vec3 {
        x: interpolate_value(w, fa.x, fb.x, fc.x),
        y: interpolate_value(w, fa.y, fb.y, fc.y),
        z: interpolate_value(w, fa.z, fb.z, fc.z),
    }
}

/// The direction the ambient light comes from.
pub fn ambient_light() -> (light: Vec3)
    ensures
        light == ambient_light_spec(),
{
    Vec3 { x: Fixed::zero(), y: Fixed::zero(), z: Fixed::one() }
}

/// The smallest and the largest of three raw coordinates.
fn span(a: i32, b: i32, c: i32) -> (r: (i32, i32))
    ensures
        r.0 <= a && r.0 <= b && r.0 <= c,
        r.0 == a || r.0 == b || r.0 == c,
        r.1 >= a && r.1 >= b && r.1 >= c,
        r.1 == a || r.1 == b || r.1 == c,
{
    let mut lo: i32 = a;
    let mut hi: i32 = a;
    if b < lo {
        lo = b;
    }
    if c < lo {
        lo = c;
    }
    if b > hi {
        hi = b;
    }
    if c > hi {
        hi = c;
    }
    (lo, hi)
}

/// The pixels between which the centres of a span of raw coordinates
/// can lie, cut to `[0, limit)`: `None` where there is none.
fn pixel_span(lo: i32, hi: i32, limit: usize) -> (r: Option<(usize, usize)>)
    requires
        lo <= hi,
    ensures
        match r {
            Some((first, last)) => {
                &&& first <= last < limit
                &&& last <= 32767
                &&& forall|i: int|
                    0 <= i < limit && lo <= #[trigger] center(i) <= hi ==> first <= i <= last
            },
            None => forall|i: int| 0 <= i < limit ==> !(lo <= #[trigger] center(i) <= hi),
        },
{
    let top: i32 = Fixed { raw: hi }.floor();
    let bottom: i32 = Fixed { raw: lo }.floor();
    if top < 0 || limit == 0 {
        return None;
    }
    let first: usize = if bottom < 0 {
        0
    } else {
        bottom as usize
    };
    let last: usize = if (top as usize) < limit {
        top as usize
    } else {
        limit - 1
    };
    if first > last {
        return None;
    }
    Some((first, last))
}

/// The fragment of a positively oriented triangle at one pixel, if the
/// triangle covers its centre.
fn shade_pixel(v1: &Vertex, v2: &Vertex, v3: &Vertex, x: usize, y: usize) -> (r: Option<Fragment>)
    requires
        edge(screen(*v1), screen(*v2), screen(*v3)) > 0,
        x <= 32767,
        y <= 32767,
    ensures
        r.is_some() == covers_pixel(*v1, *v2, *v3, x as int, y as int),
        r.is_some() ==> r.unwrap() == fragment_oriented(*v1, *v2, *v3, x as int, y as int),
{
    let a = raw_point(v1);
    let b = raw_point(v2);
    let c = raw_point(v3);
    let p = RawPoint { x: x as i64 * 65536 + 32768, y: y as i64 * 65536 + 32768 };
    assert(p.point() == pixel_center(x as int, y as int));
    let total: i128 = edge_value(a, b, c);
    let wa: i128 = edge_value(b, c, p);
    let wb: i128 = edge_value(c, a, p);
    let wc: i128 = edge_value(a, b, p);
    if edge_admits(a, b, wc) && edge_admits(b, c, wa) && edge_admits(c, a, wb) {
        let w = RawWeights { a: wa, b: wb, c: wc, total };
        assert(w.weights() == weights(screen(*v1), screen(*v2), screen(*v3), p.point()));
        let normal: Vec3 = interpolate_vector(
            w,
            &v1.transformed_normal,
            &v2.transformed_normal,
            &v3.transformed_normal,
        );
        let depth: Fixed = interpolate_value(
            w,
            v1.transformed_position.z,
            v2.transformed_position.z,
            v3.transformed_position.z,
        );
        let light: Vec3 = ambient_light();
        let intensity: Fixed = normal.dot(&light).clamp(Fixed::zero(), Fixed::one());
        let vertex_position: Vec3 = interpolate_vector(w, &v1.position, &v2.position, &v3.position);
        Some(Fragment { x, y, depth, normal, intensity, vertex_position })
    } else {
        None
    }
}

proof fn lemma_push_keeps(before: Seq<Fragment>, f: Fragment, x: int, y: int)
    requires
        has_fragment(before, x, y),
    ensures
        has_fragment(before.push(f), x, y),
{
    let k = choose|k: int| 0 <= k < before.len() && (#[trigger] before[k]).x == x && before[k].y == y;
    assert(before.push(f)[k] == before[k]);
}

proof fn lemma_push_has(before: Seq<Fragment>, f: Fragment)
    ensures
        has_fragment(before.push(f), f.x as int, f.y as int),
{
    assert(before.push(f)[before.len() as int] == f);
}

/// A stretch of pixels that the triangle does not cover adds nothing.
pub proof fn lemma_scan_skip(v1: Vertex, v2: Vertex, v3: Vertex, width: int, m: nat, n: nat)
    requires
        width > 0,
        m <= n,
        forall|i: int| m <= i < n ==> !#[trigger] covers_index(v1, v2, v3, width, i),
    ensures
        scan(v1, v2, v3, width, n) == scan(v1, v2, v3, width, m),
    decreases n - m,
{
    if m < n {
        assert(!covers_index(v1, v2, v3, width, n - 1));
        lemma_scan_skip(v1, v2, v3, width, m, (n - 1) as nat);
    }
}

/// A triangle that winds negatively has the fragments of the same
/// triangle with two vertices exchanged.
pub proof fn lemma_scan_swapped(v1: Vertex, v2: Vertex, v3: Vertex, width: int, n: nat)
    requires
        edge(screen(v1), screen(v2), screen(v3)) < 0,
    ensures
        scan(v1, v2, v3, width, n) == scan(v1, v3, v2, width, n),
    decreases n,
{
    lemma_edge_reversed(screen(v1), screen(v2), screen(v3));
    lemma_edge_rotated(screen(v2), screen(v1), screen(v3));
    if n > 0 && width > 0 {
        lemma_scan_swapped(v1, v2, v3, width, (n - 1) as nat);
    }
}

/// Reading row by row, pixel `(px, py)` comes before pixel `(x, y)`
/// exactly if its index is the smaller one.
pub proof fn lemma_index_order(width: int, x: int, y: int, px: int, py: int)
    requires
        width > 0,
        0 <= x <= width,
        0 <= px < width,
    ensures
        (py * width + px < y * width + x) <==> (py < y || (py == y && px < x)),
{
    if py < y {
        assert(py * width + width <= y * width) by (nonlinear_arith)
            requires
                py + 1 <= y,
                width > 0,
        ;
    } else if py > y {
        assert(y * width + width <= py * width) by (nonlinear_arith)
            requires
                y + 1 <= py,
                width > 0,
        ;
    }
}

/// The pixel stored at index `i` of a buffer: its column, its row, and
/// that the row lies within the buffer if the index does.
pub proof fn lemma_index_pixel(width: int, height: int, i: int)
    requires
        width > 0,
        0 <= i < width * height,
    ensures
        0 <= i % width < width,
        0 <= i / width < height,
        i == (i / width) * width + i % width,
{
    vstd::arithmetic::div_mod::lemma_fundamental_div_mod(i, width);
    assert(width * (i / width) == (i / width) * width) by (nonlinear_arith);
    let row = i / width;
    if row >= height {
        assert(row * width >= height * width) by (nonlinear_arith)
            requires
                row >= height,
                width > 0,
        ;
        assert(height * width == width * height) by (nonlinear_arith);
    }
    if row < 0 {
        assert(row * width <= -width) by (nonlinear_arith)
            requires
                row <= -1,
                width > 0,
        ;
    }
}

/// Pixel `(px, py)` lies in the box of columns `x0..=x1` and rows `y0..=y1`.
spec fn in_box(px: int, py: int, x0: int, x1: int, y0: int, y1: int) -> bool {
    x0 <= px <= x1 && y0 <= py <= y1
}

/// Reading row by row, pixel `(px, py)` comes before `(x, y)`, or not
/// before `(nx, ny)`.
spec fn outside_stretch(px: int, py: int, x: int, y: int, nx: int, ny: int) -> bool {
    py < y || (py == y && px < x) || py > ny || (py == ny && px >= nx)
}

/// No pixel between two places of the scan, `(x, y)` and a later
/// `(nx, ny)`, is covered, if every covered pixel lies in a box that the
/// stretch between them misses.
proof fn lemma_skip_outside_box(
    v1: Vertex,
    v2: Vertex,
    v3: Vertex,
    width: int,
    height: int,
    x: int,
    y: int,
    nx: int,
    ny: int,
    x0: int,
    x1: int,
    y0: int,
    y1: int,
)
    requires
        width > 0,
        height > 0,
        0 <= x <= width,
        0 <= nx <= width,
        0 <= y,
        0 <= y * width + x <= ny * width + nx <= width * height,
        forall|px: int, py: int|
            0 <= px < width && 0 <= py < height && covers_pixel(v1, v2, v3, px, py) ==> x0 <= px
                <= x1 && y0 <= py <= y1,
        forall|px: int, py: int| #[trigger]
            in_box(px, py, x0, x1, y0, y1) ==> outside_stretch(px, py, x, y, nx, ny),
    ensures
        scan(v1, v2, v3, width, (ny * width + nx) as nat) == scan(
            v1,
            v2,
            v3,
            width,
            (y * width + x) as nat,
        ),
{
    let m = y * width + x;
    let n = ny * width + nx;
    assert forall|i: int| m <= i < n implies !#[trigger] covers_index(v1, v2, v3, width, i) by {
        lemma_index_pixel(width, height, i);
        let px = i % width;
        let py = i / width;
        lemma_index_order(width, x, y, px, py);
        lemma_index_order(width, nx, ny, px, py);
        if covers_pixel(v1, v2, v3, px, py) {
            assert(in_box(px, py, x0, x1, y0, y1));
        }
    }
    lemma_scan_skip(v1, v2, v3, width, m as nat, n as nat);
}

/// The fragments of a positively oriented triangle.
fn fill(v1: &Vertex, v2: &Vertex, v3: &Vertex, width: usize, height: usize) -> (frags: Vec<
    Fragment,
>)
    requires
        edge(screen(*v1), screen(*v2), screen(*v3)) > 0,
    ensures
        frags@ == triangle_fragments(*v1, *v2, *v3, width as int, height as int),
        forall|k: int|
            0 <= k < frags@.len() ==> {
                let f = #[trigger] frags@[k];
                &&& f.x < width
                &&& f.y < height
                &&& covers_pixel(*v1, *v2, *v3, f.x as int, f.y as int)
                &&& f == fragment_oriented(*v1, *v2, *v3, f.x as int, f.y as int)
            },
        forall|x: int, y: int|
            0 <= x < width && 0 <= y < height && covers_pixel(*v1, *v2, *v3, x, y)
                ==> has_fragment(frags@, x, y),
        forall|j: int, k: int|
            0 <= j < k < frags@.len() ==> row_major_before(#[trigger] frags@[j], #[trigger] frags@[k]),
{
    let mut frags: Vec<Fragment> = Vec::new();
    let xs = span(
        v1.transformed_position.x.raw,
        v2.transformed_position.x.raw,
        v3.transformed_position.x.raw,
    );
    let ys = span(
        v1.transformed_position.y.raw,
        v2.transformed_position.y.raw,
        v3.transformed_position.y.raw,
    );
    let columns = pixel_span(xs.0, xs.1, width);
    let rows = pixel_span(ys.0, ys.1, height);
    proof {
        assert forall|x: int, y: int|
            0 <= x < width && 0 <= y < height && covers_pixel(*v1, *v2, *v3, x, y) implies xs.0
            <= center(x) <= xs.1 && ys.0 <= center(y) <= ys.1 by {
            lemma_covered_in_box(screen(*v1), screen(*v2), screen(*v3), pixel_center(x, y));
        }
    }
    if columns.is_none() || rows.is_none() {
        proof {
            if width > 0 && height > 0 {
                assert(0 <= 0 * (width as int) + 0 <= (height as int) * (width as int) + 0
                    <= width as int * height as int) by (nonlinear_arith)
                    requires
                        width > 0,
                        height > 0,
                ;
                lemma_skip_outside_box(
                    *v1,
                    *v2,
                    *v3,
                    width as int,
                    height as int,
                    0,
                    0,
                    0,
                    height as int,
                    0,
                    -1,
                    0,
                    -1,
                );
            }
        }
        return frags;
    }
    let (x0, x1) = columns.unwrap();
    let (y0, y1) = rows.unwrap();
    proof {
        assert(0 <= 0 * (width as int) + 0 <= (y0 as int) * (width as int) + 0 <= width as int
            * height as int) by (nonlinear_arith)
            requires
                width > 0,
                0 <= y0 < height,
        ;
        lemma_skip_outside_box(
            *v1,
            *v2,
            *v3,
            width as int,
            height as int,
            0,
            0,
            0,
            y0 as int,
            x0 as int,
            x1 as int,
            y0 as int,
            y1 as int,
        );
    }
    let mut y: usize = y0;
    while y <= y1
        invariant
            edge(screen(*v1), screen(*v2), screen(*v3)) > 0,
            x0 <= x1 < width,
            x1 <= 32767,
            y0 <= y <= y1 + 1,
            y1 < height,
            y1 <= 32767,
            frags@ == scan(*v1, *v2, *v3, width as int, (y * width) as nat),
            forall|k: int|
                0 <= k < frags@.len() ==> {
                    let f = #[trigger] frags@[k];
                    &&& f.x < width
                    &&& f.y < y
                    &&& covers_pixel(*v1, *v2, *v3, f.x as int, f.y as int)
                    &&& f == fragment_oriented(*v1, *v2, *v3, f.x as int, f.y as int)
                },
            forall|px: int, py: int|
                0 <= px < width && 0 <= py < y && covers_pixel(*v1, *v2, *v3, px, py)
                    ==> has_fragment(frags@, px, py),
            forall|px: int, py: int|
                0 <= px < width && 0 <= py < height && covers_pixel(*v1, *v2, *v3, px, py) ==> x0
                    <= px <= x1 && y0 <= py <= y1,
            forall|j: int, k: int|
                0 <= j < k < frags@.len() ==> row_major_before(
                    #[trigger] frags@[j],
                    #[trigger] frags@[k],
                ),
        decreases y1 + 1 - y,
    {
        proof {
            assert(0 <= (y as int) * (width as int) + 0 <= (y as int) * (width as int) + x0
                <= (y as int) * (width as int) + width <= width as int * height as int)
                by (nonlinear_arith)
                requires
                    0 <= x0 < width,
                    0 <= y < height,
            ;
            lemma_skip_outside_box(
                *v1,
                *v2,
                *v3,
                width as int,
                height as int,
                0,
                y as int,
                x0 as int,
                y as int,
                x0 as int,
                x1 as int,
                y0 as int,
                y1 as int,
            );
        }
        let mut x: usize = x0;
        while x <= x1
            invariant
                edge(screen(*v1), screen(*v2), screen(*v3)) > 0,
                x0 <= x <= x1 + 1,
                x1 < width,
                x1 <= 32767,
                y0 <= y <= y1,
                y1 < height,
                y1 <= 32767,
                frags@ == scan(*v1, *v2, *v3, width as int, (y * width + x) as nat),
                forall|k: int|
                    0 <= k < frags@.len() ==> {
                        let f = #[trigger] frags@[k];
                        &&& f.x < width
                        &&& (f.y < y || (f.y == y && f.x < x))
                        &&& covers_pixel(*v1, *v2, *v3, f.x as int, f.y as int)
                        &&& f == fragment_oriented(*v1, *v2, *v3, f.x as int, f.y as int)
                    },
                forall|px: int, py: int|
                    0 <= px < width && 0 <= py < y && covers_pixel(*v1, *v2, *v3, px, py)
                        ==> has_fragment(frags@, px, py),
                forall|px: int|
                    0 <= px < x && covers_pixel(*v1, *v2, *v3, px, y as int) ==> has_fragment(
                        frags@,
                        px,
                        y as int,
                    ),
                forall|px: int, py: int|
                    0 <= px < width && 0 <= py < height && covers_pixel(*v1, *v2, *v3, px, py)
                        ==> x0 <= px <= x1 && y0 <= py <= y1,
                forall|j: int, k: int|
                    0 <= j < k < frags@.len() ==> row_major_before(
                        #[trigger] frags@[j],
                        #[trigger] frags@[k],
                    ),
            decreases x1 + 1 - x,
        {
            let found = shade_pixel(v1, v2, v3, x, y);
            proof {
                let i = y as int * width as int + x as int;
                assert(0 <= y as int * width as int) by (nonlinear_arith)
                    requires
                        0 <= y,
                        0 <= width,
                ;
                vstd::arithmetic::div_mod::lemma_fundamental_div_mod_converse(
                    i,
                    width as int,
                    y as int,
                    x as int,
                );
                assert(covers_index(*v1, *v2, *v3, width as int, i) == covers_pixel(
                    *v1,
                    *v2,
                    *v3,
                    x as int,
                    y as int,
                ));
                assert(scan(*v1, *v2, *v3, width as int, (i + 1) as nat) == if covers_index(
                    *v1,
                    *v2,
                    *v3,
                    width as int,
                    i,
                ) {
                    scan(*v1, *v2, *v3, width as int, i as nat).push(
                        fragment_at(*v1, *v2, *v3, x as int, y as int),
                    )
                } else {
                    scan(*v1, *v2, *v3, width as int, i as nat)
                });
            }
            if found.is_some() {
                let f: Fragment = found.unwrap();
                let ghost before = frags@;
                frags.push(f);
                proof {
                    lemma_push_has(before, f);
                    assert forall|px: int, py: int|
                        0 <= px < width && 0 <= py < y && covers_pixel(
                            *v1,
                            *v2,
                            *v3,
                            px,
                            py,
                        ) implies has_fragment(frags@, px, py) by {
                        lemma_push_keeps(before, f, px, py);
                    }
                    assert forall|px: int|
                        0 <= px < x + 1 && covers_pixel(
                            *v1,
                            *v2,
                            *v3,
                            px,
                            y as int,
                        ) implies has_fragment(frags@, px, y as int) by {
                        if px < x {
                            lemma_push_keeps(before, f, px, y as int);
                        }
                    }
                }
            }
            x = x + 1;
        }
        proof {
            assert(0 <= (y as int) * (width as int) + (x1 + 1) <= (y as int + 1) * (width as int)
                + 0 <= width as int * height as int) by (nonlinear_arith)
                requires
                    0 <= x1 < width,
                    0 <= y < height,
            ;
            lemma_skip_outside_box(
                *v1,
                *v2,
                *v3,
                width as int,
                height as int,
                x1 as int + 1,
                y as int,
                0,
                y as int + 1,
                x0 as int,
                x1 as int,
                y0 as int,
                y1 as int,
            );
        }
        y = y + 1;
    }
    proof {
        assert(0 <= (y as int) * (width as int) + 0 <= (height as int) * (width as int) + 0
            <= width as int * height as int) by (nonlinear_arith)
            requires
                width > 0,
                0 <= y <= height,
        ;
        lemma_skip_outside_box(
            *v1,
            *v2,
            *v3,
            width as int,
            height as int,
            0,
            y as int,
            0,
            height as int,
            x0 as int,
            x1 as int,
            y0 as int,
            y1 as int,
        );
    }
    frags
}

/// Rasterizes the triangle `(v1, v2, v3)` into a buffer of `width` by
/// `height` pixels.
///
/// The result holds one fragment for each pixel of the buffer whose
/// centre the triangle covers, and no other; the fragments come row by
/// row, and each carries the attributes interpolated for its pixel. A
/// triangle without area gives no fragments.
pub fn triangle(v1: &Vertex, v2: &Vertex, v3: &Vertex, width: usize, height: usize) -> (frags: Vec<
    Fragment,
>)
    ensures
        frags@ == triangle_fragments(*v1, *v2, *v3, width as int, height as int),
        forall|k: int|
            0 <= k < frags@.len() ==> {
                let f = #[trigger] frags@[k];
                &&& f.x < width
                &&& f.y < height
                &&& covers_pixel(*v1, *v2, *v3, f.x as int, f.y as int)
                &&& f == fragment_at(*v1, *v2, *v3, f.x as int, f.y as int)
            },
        forall|x: int, y: int|
            0 <= x < width && 0 <= y < height && covers_pixel(*v1, *v2, *v3, x, y)
                ==> has_fragment(frags@, x, y),
        forall|j: int, k: int|
            0 <= j < k < frags@.len() ==> row_major_before(#[trigger] frags@[j], #[trigger] frags@[k]),
{
    let a = raw_point(v1);
    let b = raw_point(v2);
    let c = raw_point(v3);
    let area: i128 = edge_value(a, b, c);
    if area > 0 {
        fill(v1, v2, v3, width, height)
    } else if area < 0 {
        proof {
            lemma_edge_reversed(screen(*v1), screen(*v2), screen(*v3));
            lemma_edge_rotated(screen(*v2), screen(*v1), screen(*v3));
            if width > 0 && height > 0 {
                lemma_scan_swapped(
                    *v1,
                    *v2,
                    *v3,
                    width as int,
                    (width as int * height as int) as nat,
                );
            }
        }
        fill(v1, v3, v2, width, height)
    } else {
        proof {
            if width > 0 && height > 0 {
                assert(0 <= width as int * height as int) by (nonlinear_arith)
                    requires
                        width > 0,
                        height > 0,
                ;
                lemma_scan_skip(
                    *v1,
                    *v2,
                    *v3,
                    width as int,
                    0,
                    (width as int * height as int) as nat,
                );
            }
        }
        Vec::new()
    }
}

} // verus!
