//! A zoom and the same zoom back return the eye to where it was.
//!
//! Every step is rounded twice, once where the offset of the eye is
//! brought to unit length and once where it is scaled by the step, and
//! the way back starts from a rounded place. The law at the end bounds
//! what is lost.

use vstd::prelude::*;
use crate::camera::{zoom_step, Camera};
use crate::fixed::Fixed;

verus! {

/// The quotient of a floor division and what it leaves: for a positive
/// divisor, `d * (n / d) <= n < d * (n / d) + d`.
pub proof fn lemma_floor_quotient(n: int, d: int)
    requires
        d > 0,
    ensures
        d * (n / d) <= n < d * (n / d) + d,
{
    vstd::arithmetic::div_mod::lemma_fundamental_div_mod(n, d);
    vstd::arithmetic::div_mod::lemma_mod_bound(n, d);
}

/// How far a step along a direction misses the exact share of the
/// offset: if `a` is `v` over the radius `l` and `s` is `a` times the
/// step `d`, both rounded down, then `s * l` misses `v * d` by no more
/// than `l * q`, where `q` is at least the step plus one.
proof fn lemma_step_share(v: int, l: int, a: int, d: int, s: int, q: int)
    requires
        l > 0,
        l * a <= v * 65536 < l * a + l,
        65536 * s <= a * d < 65536 * s + 65536,
        q * 65536 >= d + 65536,
        q * 65536 >= -d + 65536,
    ensures
        -(l * q) <= v * d - s * l <= l * q,
{
    let la = l * a;
    let vs = v * 65536;
    // s * l * 65536 against a * d * l
    assert(65536 * s * l <= a * d * l < 65536 * s * l + 65536 * l) by (nonlinear_arith)
        requires
            l > 0,
            65536 * s <= a * d < 65536 * s + 65536,
    ;
    assert(a * d * l == la * d) by (nonlinear_arith)
        requires
            la == l * a,
    ;
    if d >= 0 {
        assert(la * d <= vs * d && vs * d <= la * d + l * d) by (nonlinear_arith)
            requires
                la <= vs < la + l,
                d >= 0,
        ;
    } else {
        assert(la * d >= vs * d && vs * d >= la * d + l * d) by (nonlinear_arith)
            requires
                la <= vs < la + l,
                d < 0,
        ;
    }
    assert(vs * d == 65536 * (v * d)) by (nonlinear_arith)
        requires
            vs == v * 65536,
    ;
    assert(65536 * s * l == 65536 * (s * l)) by (nonlinear_arith);
    assert(65536 * (l * q) == l * (q * 65536)) by (nonlinear_arith);
    assert(l * (q * 65536) >= l * (d + 65536) && l * (q * 65536) >= l * (-d + 65536))
        by (nonlinear_arith)
        requires
            l > 0,
            q * 65536 >= d + 65536,
            q * 65536 >= -d + 65536,
    ;
    assert(l * (d + 65536) == l * d + 65536 * l && l * (-d + 65536) == -(l * d) + 65536 * l)
        by (nonlinear_arith);
}

/// The square of `rho * v + theta`, where `v` is at most `l` and `theta`
/// at most `l * q` in size: it misses `rho^2 v^2` by no more than the
/// mixed term and the square of `theta` allow.
proof fn lemma_shifted_square(rho: int, v: int, theta: int, l: int, q: int)
    requires
        l > 0,
        rho > 0,
        q >= 1,
        -l <= v <= l,
        -(l * q) <= theta <= l * q,
    ensures
        (rho * v + theta) * (rho * v + theta) >= rho * rho * (v * v) - 2 * (rho * (l * l * q)),
        (rho * v + theta) * (rho * v + theta) <= rho * rho * (v * v) + 2 * (rho * (l * l * q)) + l
            * l * (q * q),
{
    let p = rho * v;
    let lq = l * q;
    let vt = v * theta;
    assert((p + theta) * (p + theta) == p * p + 2 * (p * theta) + theta * theta)
        by (nonlinear_arith);
    assert(p * p == rho * rho * (v * v)) by (nonlinear_arith)
        requires
            p == rho * v,
    ;
    assert(p * theta == rho * vt) by (nonlinear_arith)
        requires
            p == rho * v,
            vt == v * theta,
    ;
    assert(-(l * lq) <= vt <= l * lq) by (nonlinear_arith)
        requires
            vt == v * theta,
            -l <= v <= l,
            -lq <= theta <= lq,
            l > 0,
            lq >= 0,
    ;
    assert(l * lq == l * l * q) by (nonlinear_arith)
        requires
            lq == l * q,
    ;
    assert(-(rho * (l * l * q)) <= rho * vt <= rho * (l * l * q)) by (nonlinear_arith)
        requires
            rho > 0,
            -(l * l * q) <= vt <= l * l * q,
    ;
    assert(0 <= theta * theta <= lq * lq) by (nonlinear_arith)
        requires
            -lq <= theta <= lq,
    ;
    assert(lq * lq == l * l * (q * q)) by (nonlinear_arith)
        requires
            lq == l * q,
    ;
}

/// Squares grow with their base from zero on.
proof fn lemma_square_monotone(x: int, y: int)
    requires
        0 <= x <= y,
    ensures
        x * x <= y * y,
{
    assert(x * x <= y * y) by (nonlinear_arith)
        requires
            0 <= x <= y,
    ;
}

/// The radius after a step. An offset `v` of radius `l` is replaced by
/// `w` with `l * w = rho * v + theta` in every coordinate, each `theta`
/// at most `l * q` in size. Then the radius of `w` is `rho` to within
/// `6 q` below and `3 q + 2` above.
proof fn lemma_radius_after(
    l: int,
    rho: int,
    q: int,
    vx: int,
    vy: int,
    vz: int,
    tx: int,
    ty: int,
    tz: int,
    wx: int,
    wy: int,
    wz: int,
    l1: int,
)
    requires
        l > 0,
        q >= 1,
        rho >= 6 * q,
        rho <= 2 * l,
        -l <= vx <= l,
        -l <= vy <= l,
        -l <= vz <= l,
        -(l * q) <= tx <= l * q,
        -(l * q) <= ty <= l * q,
        -(l * q) <= tz <= l * q,
        l * wx == rho * vx + tx,
        l * wy == rho * vy + ty,
        l * wz == rho * vz + tz,
        l * l <= vx * vx + vy * vy + vz * vz < (l + 1) * (l + 1),
        l1 >= 0,
        l1 * l1 <= wx * wx + wy * wy + wz * wz < (l1 + 1) * (l1 + 1),
    ensures
        rho - 6 * q <= l1 <= rho + 3 * q + 2,
{
    let n2 = vx * vx + vy * vy + vz * vz;
    let m2 = wx * wx + wy * wy + wz * wz;
    let ll = l * l;
    let rr = rho * rho;
    let k = rho * (l * l * q);
    let qq = l * l * (q * q);
    lemma_shifted_square(rho, vx, tx, l, q);
    lemma_shifted_square(rho, vy, ty, l, q);
    lemma_shifted_square(rho, vz, tz, l, q);
    assert((l * wx) * (l * wx) == ll * (wx * wx)) by (nonlinear_arith)
        requires
            ll == l * l,
    ;
    assert((l * wy) * (l * wy) == ll * (wy * wy)) by (nonlinear_arith)
        requires
            ll == l * l,
    ;
    assert((l * wz) * (l * wz) == ll * (wz * wz)) by (nonlinear_arith)
        requires
            ll == l * l,
    ;
    assert(ll * m2 == ll * (wx * wx) + ll * (wy * wy) + ll * (wz * wz)) by (nonlinear_arith)
        requires
            m2 == wx * wx + wy * wy + wz * wz,
    ;
    assert(rr * n2 == rr * (vx * vx) + rr * (vy * vy) + rr * (vz * vz)) by (nonlinear_arith)
        requires
            n2 == vx * vx + vy * vy + vz * vz,
    ;
    assert(rr * n2 - 6 * k <= ll * m2 <= rr * n2 + 6 * k + 3 * qq);
    assert(ll > 0) by (nonlinear_arith)
        requires
            l > 0,
            ll == l * l,
    ;
    assert(rr >= 0) by (nonlinear_arith)
        requires
            rr == rho * rho,
    ;
    assert(rr * ll <= rr * n2) by (nonlinear_arith)
        requires
            rr >= 0,
            ll <= n2,
    ;
    assert(rr * n2 <= rr * ((l + 1) * (l + 1)) - rr) by (nonlinear_arith)
        requires
            rr >= 0,
            n2 <= (l + 1) * (l + 1) - 1,
    ;
    assert(k == ll * (rho * q)) by (nonlinear_arith)
        requires
            k == rho * (l * l * q),
            ll == l * l,
    ;
    assert(qq == ll * (q * q)) by (nonlinear_arith)
        requires
            qq == l * l * (q * q),
            ll == l * l,
    ;
    // from below
    let below = rho - 6 * q;
    assert(below * below == rr - 12 * (rho * q) + 36 * (q * q)) by (nonlinear_arith)
        requires
            below == rho - 6 * q,
            rr == rho * rho,
    ;
    assert(6 * (q * q) <= rho * q) by (nonlinear_arith)
        requires
            q >= 1,
            6 * q <= rho,
    ;
    assert(below * below <= rr - 6 * (rho * q));
    assert(ll * (rr - 6 * (rho * q)) == rr * ll - 6 * k) by (nonlinear_arith)
        requires
            k == ll * (rho * q),
    ;
    assert(ll * (rr - 6 * (rho * q)) <= ll * m2);
    if m2 < rr - 6 * (rho * q) {
        assert(ll * m2 < ll * (rr - 6 * (rho * q))) by (nonlinear_arith)
            requires
                ll > 0,
                m2 < rr - 6 * (rho * q),
        ;
    }
    assert(below * below <= m2);
    if l1 + 1 <= below {
        lemma_square_monotone(l1 + 1, below);
    }
    // from above
    let above = rho + 3 * q + 3;
    if l1 >= above {
        lemma_square_monotone(above, l1);
        assert(above * above <= m2);
        assert(ll * (above * above) <= ll * m2) by (nonlinear_arith)
            requires
                ll > 0,
                above * above <= m2,
        ;
        let c = 3 * q + 3;
        assert(above * above == rr + 2 * (rho * c) + c * c) by (nonlinear_arith)
            requires
                above == rho + c,
                rr == rho * rho,
        ;
        assert(rho * c == 3 * (rho * q) + 3 * rho) by (nonlinear_arith)
            requires
                c == 3 * q + 3,
        ;
        assert(c * c >= 3 * (q * q) + 1) by (nonlinear_arith)
            requires
                c == 3 * q + 3,
                q >= 1,
        ;
        assert(ll * (above * above) == ll * rr + 6 * (ll * (rho * q)) + 6 * (ll * rho) + ll * (c * c))
            by (nonlinear_arith)
            requires
                above * above == rr + 2 * (rho * c) + c * c,
                rho * c == 3 * (rho * q) + 3 * rho,
        ;
        assert(ll * (c * c) >= 3 * (ll * (q * q)) + ll) by (nonlinear_arith)
            requires
                ll > 0,
                c * c >= 3 * (q * q) + 1,
        ;
        assert(rr * ((l + 1) * (l + 1)) == rr * ll + 2 * (rr * l) + rr) by (nonlinear_arith)
            requires
                ll == l * l,
        ;
        assert(rr * l <= 2 * (ll * rho)) by (nonlinear_arith)
            requires
                rr == rho * rho,
                ll == l * l,
                0 < rho <= 2 * l,
                l > 0,
        ;
        assert(ll * rr == rr * ll) by (nonlinear_arith);
        assert(ll * rho > 0) by (nonlinear_arith)
            requires
                ll > 0,
                rho > 0,
        ;
        assert(false);
    }
}

/// How far the eye is from where it started after a step and the step
/// back, in one coordinate. `a` and `s` are direction and step on the way
/// in, `b` and `t` on the way back, from the offset `w` of radius `l1`.
proof fn lemma_return_error(
    l: int,
    l1: int,
    rho: int,
    q: int,
    v: int,
    theta: int,
    w: int,
    a: int,
    b: int,
    d: int,
    s: int,
    t: int,
)
    requires
        l > 0,
        l1 > 0,
        q >= 1,
        -l <= v <= l,
        -(l * q) <= theta <= l * q,
        l * w == rho * v + theta,
        rho - 6 * q <= l1 <= rho + 6 * q,
        l * a <= v * 65536 < l * a + l,
        l1 * b <= w * 65536 < l1 * b + l1,
        65536 * s <= a * d < 65536 * s + 65536,
        65536 * t <= -(b * d) < 65536 * t + 65536,
        -l1 <= d <= l1,
        q * 65536 >= d + 2 * 65536,
        q * 65536 >= -d + 2 * 65536,
    ensures
        -8 * q <= s + t <= 8 * q,
{
    let dd = v * l1 - w * l;
    let lq = l * q;
    // the two directions differ by little
    assert(w * l == l * w) by (nonlinear_arith);
    assert(v * l1 - rho * v == v * (l1 - rho)) by (nonlinear_arith);
    assert(-(l * (6 * q)) <= v * (l1 - rho) <= l * (6 * q)) by (nonlinear_arith)
        requires
            -l <= v <= l,
            -(6 * q) <= l1 - rho <= 6 * q,
            l > 0,
            q >= 1,
    ;
    assert(l * (6 * q) == 6 * lq) by (nonlinear_arith)
        requires
            lq == l * q,
    ;
    assert(-(7 * lq) <= dd <= 7 * lq);
    let x = l1 * (a - b);
    let la = l * a;
    let lb = l1 * b;
    let vs = v * 65536;
    let ws = w * 65536;
    assert(la * l1 <= vs * l1 && vs * l1 < la * l1 + l * l1) by (nonlinear_arith)
        requires
            la <= vs < la + l,
            l1 > 0,
    ;
    assert(lb * l <= ws * l && ws * l < lb * l + l1 * l) by (nonlinear_arith)
        requires
            lb <= ws < lb + l1,
            l > 0,
    ;
    assert(la * l1 - lb * l == l * x) by (nonlinear_arith)
        requires
            la == l * a,
            lb == l1 * b,
            x == l1 * (a - b),
    ;
    assert(vs * l1 - ws * l == 65536 * dd) by (nonlinear_arith)
        requires
            vs == v * 65536,
            ws == w * 65536,
            dd == v * l1 - w * l,
    ;
    assert(l1 * l == l * l1) by (nonlinear_arith);
    assert(65536 * dd - l * l1 < l * x && l * x < 65536 * dd + l * l1);
    assert(l * (458752 * q + l1) == 65536 * (7 * lq) + l * l1) by (nonlinear_arith)
        requires
            lq == l * q,
    ;
    let bound = 458752 * q + l1;
    assert(-(l * bound) < l * x && l * x < l * bound);
    assert(-bound < x && x < bound) by (nonlinear_arith)
        requires
            l > 0,
            -(l * bound) < l * x,
            l * x < l * bound,
    ;
    // and so do the two steps
    let e = s + t;
    let ad = a * d;
    let bd = b * d;
    assert(x * d == l1 * (ad - bd)) by (nonlinear_arith)
        requires
            x == l1 * (a - b),
            ad == a * d,
            bd == b * d,
    ;
    assert(65536 * e <= ad - bd && ad - bd < 65536 * e + 2 * 65536);
    assert(l1 * (65536 * e) <= l1 * (ad - bd) && l1 * (ad - bd) < l1 * (65536 * e + 2 * 65536))
        by (nonlinear_arith)
        requires
            l1 > 0,
            65536 * e <= ad - bd,
            ad - bd < 65536 * e + 2 * 65536,
    ;
    let size = if d >= 0 {
        d
    } else {
        -d
    };
    assert(-(bound * size) <= x * d <= bound * size) by (nonlinear_arith)
        requires
            -bound < x < bound,
            size == if d >= 0 {
                d
            } else {
                -d
            },
    ;
    assert(bound * size <= l1 * (458752 * q + size)) by (nonlinear_arith)
        requires
            bound == 458752 * q + l1,
            0 <= size <= l1,
            q >= 1,
    ;
    let cap = 458752 * q + size;
    assert(l1 * (65536 * e) <= l1 * cap);
    assert(65536 * e <= cap) by (nonlinear_arith)
        requires
            l1 > 0,
            l1 * (65536 * e) <= l1 * cap,
    ;
    assert(l1 * (-cap) == -(l1 * cap)) by (nonlinear_arith);
    assert(l1 * (65536 * e + 2 * 65536) > l1 * (-cap));
    assert(65536 * e + 2 * 65536 > -cap) by (nonlinear_arith)
        requires
            l1 > 0,
            l1 * (65536 * e + 2 * 65536) > l1 * (-cap),
    ;
    assert(size <= q * 65536 - 2 * 65536);
    assert(cap <= 8 * (q * 65536) - 2 * 65536);
    assert(65536 * e <= 65536 * (8 * q));
    assert(65536 * e > 65536 * (-8 * q));
}

/// The step along one coordinate: the coordinate `v` of an offset of
/// radius `l`, over the radius, times the step `d`, each rounded down.
pub open spec fn step_along(v: int, l: int, d: int) -> int {
    (((v * 65536) / l) * d) / 65536
}

/// The sum of the squares of three numbers.
pub open spec fn square_sum(x: int, y: int, z: int) -> int {
    x * x + y * y + z * z
}

/// A number whose square is below that of `l + 1` is at most `l` in size.
proof fn lemma_within_radius(v: int, l: int)
    requires
        l >= 0,
        v * v < (l + 1) * (l + 1),
    ensures
        -l <= v <= l,
{
    if v > l {
        lemma_square_monotone(l + 1, v);
    }
    if v < -l {
        lemma_square_monotone(l + 1, -v);
        assert((-v) * (-v) == v * v) by (nonlinear_arith);
    }
}

/// The direction along one coordinate is at most one in size, and a
/// step along it at most the whole step.
proof fn lemma_step_fits(v: int, l: int, d: int)
    requires
        l > 0,
        -l <= v <= l,
        -0x1000_0000 <= d <= 0x1000_0000,
    ensures
        -65536 <= (v * 65536) / l <= 65536,
        -0x1000_0000 <= step_along(v, l, d) <= 0x1000_0000,
{
    let a = (v * 65536) / l;
    lemma_floor_quotient(v * 65536, l);
    assert(a <= 65536) by (nonlinear_arith)
        requires
            l > 0,
            l * a <= v * 65536,
            v <= l,
    ;
    assert(a >= -65536) by (nonlinear_arith)
        requires
            l > 0,
            v * 65536 < l * a + l,
            v >= -l,
    ;
    let s = (a * d) / 65536;
    lemma_floor_quotient(a * d, 65536);
    assert(-(65536 * 0x1000_0000) <= a * d <= 65536 * 0x1000_0000) by (nonlinear_arith)
        requires
            -65536 <= a <= 65536,
            -0x1000_0000 <= d <= 0x1000_0000,
    ;
}

impl Camera {
    /// The distance of the eye from the centre.
    pub open spec fn radius_spec(&self) -> Fixed {
        self.center.sub(&self.eye).length()
    }

    /// Eye and centre lie within `limit` raw units of the origin in
    /// every coordinate.
    pub open spec fn within(&self, limit: int) -> bool {
        &&& -limit <= self.eye.x.raw <= limit
        &&& -limit <= self.eye.y.raw <= limit
        &&& -limit <= self.eye.z.raw <= limit
        &&& -limit <= self.center.x.raw <= limit
        &&& -limit <= self.center.y.raw <= limit
        &&& -limit <= self.center.z.raw <= limit
    }

    /// A zoom by `delta` moves the eye by all of `delta`: the least
    /// radius does not hold it back.
    pub open spec fn zooms_freely(&self, delta: Fixed) -> bool {
        zoom_step(self.radius_spec(), delta) == delta
    }
}

/// A free zoom, spelled out: in every coordinate the eye moves by the
/// step along that coordinate of its offset from the centre.
proof fn lemma_zoom_unfolded(camera: Camera, delta: Fixed)
    requires
        camera.within(0x2000_0000),
        -0x1000_0000 <= delta.raw <= 0x1000_0000,
        camera.radius_spec().raw > 0,
        camera.zooms_freely(delta),
    ensures
        ({
            let vx = camera.center.x.raw - camera.eye.x.raw;
            let vy = camera.center.y.raw - camera.eye.y.raw;
            let vz = camera.center.z.raw - camera.eye.z.raw;
            let l = camera.radius_spec().raw as int;
            let after = camera.zoom_spec(delta);
            &&& crate::fixed::is_floor_sqrt(square_sum(vx, vy, vz), l)
            &&& -l <= vx <= l
            &&& -l <= vy <= l
            &&& -l <= vz <= l
            &&& after.center == camera.center
            &&& after.up == camera.up
            &&& after.eye.x.raw == camera.eye.x.raw + step_along(vx, l, delta.raw as int)
            &&& after.eye.y.raw == camera.eye.y.raw + step_along(vy, l, delta.raw as int)
            &&& after.eye.z.raw == camera.eye.z.raw + step_along(vz, l, delta.raw as int)
        }),
{
    let vx = camera.center.x.raw - camera.eye.x.raw;
    let vy = camera.center.y.raw - camera.eye.y.raw;
    let vz = camera.center.z.raw - camera.eye.z.raw;
    let toward = camera.center.sub(&camera.eye);
    assert(toward.x.raw == vx && toward.y.raw == vy && toward.z.raw == vz);
    let n2 = square_sum(vx, vy, vz);
    assert(0 <= vx * vx <= 0x4000_0000 * 0x4000_0000) by (nonlinear_arith)
        requires
            -0x4000_0000 <= vx <= 0x4000_0000,
    ;
    assert(0 <= vy * vy <= 0x4000_0000 * 0x4000_0000) by (nonlinear_arith)
        requires
            -0x4000_0000 <= vy <= 0x4000_0000,
    ;
    assert(0 <= vz * vz <= 0x4000_0000 * 0x4000_0000) by (nonlinear_arith)
        requires
            -0x4000_0000 <= vz <= 0x4000_0000,
    ;
    crate::fixed::lemma_floor_sqrt_exists(n2);
    let root = crate::fixed::floor_sqrt(n2);
    if root >= 0x7fff_ffff {
        lemma_square_monotone(0x7fff_ffff, root);
    }
    let l = toward.length().raw as int;
    assert(l == root);
    lemma_within_radius(vx, l);
    lemma_within_radius(vy, l);
    lemma_within_radius(vz, l);
    let d = delta.raw as int;
    lemma_step_fits(vx, l, d);
    lemma_step_fits(vy, l, d);
    lemma_step_fits(vz, l, d);
    let direction = toward.normalize();
    assert(direction.x.raw == (vx * 65536) / l);
    assert(direction.y.raw == (vy * 65536) / l);
    assert(direction.z.raw == (vz * 65536) / l);
    let moved = direction.scale(delta);
    assert(moved.x.raw == step_along(vx, l, d));
    assert(moved.y.raw == step_along(vy, l, d));
    assert(moved.z.raw == step_along(vz, l, d));
}

/// How far a zoom and the same zoom back may leave the eye from where it
/// started, in raw units and in every coordinate: 24, and 8 more for
/// every whole unit of the step.
pub open spec fn zoom_slack(delta: Fixed) -> int {
    8 * (magnitude(delta) / 65536 + 3)
}

/// The size of a step in raw units, whichever way it goes.
pub open spec fn magnitude(delta: Fixed) -> int {
    if delta.raw >= 0 {
        delta.raw as int
    } else {
        -(delta.raw as int)
    }
}

/// A zoom followed by the opposite zoom brings the eye back to where it
/// was, to within `zoom_slack`, and leaves centre and up as they were.
/// This holds for a camera within 4096 units of the origin whose radius
/// is more than twice the step and the slack, as long as the least
/// radius holds neither zoom back.
pub proof fn lemma_zoom_returns(camera: Camera, delta: Fixed)
    requires
        camera.within(0x1000_0000),
        -0x1000_0000 <= delta.raw <= 0x1000_0000,
        camera.radius_spec().raw > 2 * magnitude(delta) + zoom_slack(delta),
        camera.zooms_freely(delta),
        camera.zoom_spec(delta).zooms_freely(delta.neg()),
    ensures
        ({
            let back = camera.zoom_spec(delta).zoom_spec(delta.neg());
            &&& back.center == camera.center
            &&& back.up == camera.up
            &&& -zoom_slack(delta) <= back.eye.x.raw - camera.eye.x.raw <= zoom_slack(delta)
            &&& -zoom_slack(delta) <= back.eye.y.raw - camera.eye.y.raw <= zoom_slack(delta)
            &&& -zoom_slack(delta) <= back.eye.z.raw - camera.eye.z.raw <= zoom_slack(delta)
        }),
{
    let d = delta.raw as int;
    let size = if d >= 0 {
        d
    } else {
        -d
    };
    let q = size / 65536 + 3;
    lemma_floor_quotient(size, 65536);
    assert(zoom_slack(delta) == 8 * q);
    assert(q * 65536 >= size + 2 * 65536);
    let l = camera.radius_spec().raw as int;
    assert(l > 2 * size + 6 * q);
    let vx = camera.center.x.raw - camera.eye.x.raw;
    let vy = camera.center.y.raw - camera.eye.y.raw;
    let vz = camera.center.z.raw - camera.eye.z.raw;
    lemma_zoom_unfolded(camera, delta);
    let first = camera.zoom_spec(delta);
    let (ax, ay, az) = ((vx * 65536) / l, (vy * 65536) / l, (vz * 65536) / l);
    let (sx, sy, sz) = (step_along(vx, l, d), step_along(vy, l, d), step_along(vz, l, d));
    lemma_floor_quotient(vx * 65536, l);
    lemma_floor_quotient(vy * 65536, l);
    lemma_floor_quotient(vz * 65536, l);
    lemma_floor_quotient(ax * d, 65536);
    lemma_floor_quotient(ay * d, 65536);
    lemma_floor_quotient(az * d, 65536);
    lemma_step_fits(vx, l, d);
    lemma_step_fits(vy, l, d);
    lemma_step_fits(vz, l, d);
    lemma_step_share(vx, l, ax, d, sx, q);
    lemma_step_share(vy, l, ay, d, sy, q);
    lemma_step_share(vz, l, az, d, sz, q);
    let (tx, ty, tz) = (vx * d - sx * l, vy * d - sy * l, vz * d - sz * l);
    let (wx, wy, wz) = (vx - sx, vy - sy, vz - sz);
    let rho = l - d;
    assert(l * wx == rho * vx + tx) by (nonlinear_arith)
        requires
            wx == vx - sx,
            rho == l - d,
            tx == vx * d - sx * l,
    ;
    assert(l * wy == rho * vy + ty) by (nonlinear_arith)
        requires
            wy == vy - sy,
            rho == l - d,
            ty == vy * d - sy * l,
    ;
    assert(l * wz == rho * vz + tz) by (nonlinear_arith)
        requires
            wz == vz - sz,
            rho == l - d,
            tz == vz * d - sz * l,
    ;
    // the way back
    let back_delta = delta.neg();
    assert(back_delta.raw == -d);
    assert(first.within(0x2000_0000));
    assert(first.center.x.raw - first.eye.x.raw == wx);
    assert(first.center.y.raw - first.eye.y.raw == wy);
    assert(first.center.z.raw - first.eye.z.raw == wz);
    let l1 = first.radius_spec().raw as int;
    let m2 = square_sum(wx, wy, wz);
    assert(0 <= wx * wx) by (nonlinear_arith);
    assert(0 <= wy * wy) by (nonlinear_arith);
    assert(0 <= wz * wz) by (nonlinear_arith);
    assert(wx * wx <= 0x4000_0000 * 0x4000_0000) by (nonlinear_arith)
        requires
            -0x4000_0000 <= wx <= 0x4000_0000,
    ;
    assert(wy * wy <= 0x4000_0000 * 0x4000_0000) by (nonlinear_arith)
        requires
            -0x4000_0000 <= wy <= 0x4000_0000,
    ;
    assert(wz * wz <= 0x4000_0000 * 0x4000_0000) by (nonlinear_arith)
        requires
            -0x4000_0000 <= wz <= 0x4000_0000,
    ;
    crate::fixed::lemma_floor_sqrt_exists(m2);
    let root = crate::fixed::floor_sqrt(m2);
    if root >= 0x7fff_ffff {
        lemma_square_monotone(0x7fff_ffff, root);
    }
    assert(l1 == root);
    lemma_radius_after(l, rho, q, vx, vy, vz, tx, ty, tz, wx, wy, wz, l1);
    assert(l1 > 0);
    lemma_zoom_unfolded(first, back_delta);
    let (bx, by, bz) = ((wx * 65536) / l1, (wy * 65536) / l1, (wz * 65536) / l1);
    let (ux, uy, uz) = (step_along(wx, l1, -d), step_along(wy, l1, -d), step_along(wz, l1, -d));
    lemma_floor_quotient(wx * 65536, l1);
    lemma_floor_quotient(wy * 65536, l1);
    lemma_floor_quotient(wz * 65536, l1);
    lemma_floor_quotient(bx * (-d), 65536);
    lemma_floor_quotient(by * (-d), 65536);
    lemma_floor_quotient(bz * (-d), 65536);
    assert(bx * (-d) == -(bx * d)) by (nonlinear_arith);
    assert(by * (-d) == -(by * d)) by (nonlinear_arith);
    assert(bz * (-d) == -(bz * d)) by (nonlinear_arith);
    lemma_return_error(l, l1, rho, q, vx, tx, wx, ax, bx, d, sx, ux);
    lemma_return_error(l, l1, rho, q, vy, ty, wy, ay, by, d, sy, uy);
    lemma_return_error(l, l1, rho, q, vz, tz, wz, az, bz, d, sz, uz);
}

} // verus!
