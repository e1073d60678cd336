//! The colour buffer and its depth buffer.
//!
//! A pixel keeps the colour of the nearest write since the last clear: a
//! write lands only where its depth is strictly smaller than the depth
//! already stored.

use vstd::prelude::*;
use crate::fixed::Fixed;

verus! {

/// The depth every pixel holds after a clear: 1.0, the far plane.
pub const FAR_DEPTH_RAW: i32 = 65536;

/// What a framebuffer holds, as plain values. Pixels are stored row by
/// row: pixel `(x, y)` is entry `y * width + x` of `colors` and `depths`.
pub struct FramebufferView {
    pub width: nat,
    pub height: nat,
    pub colors: Seq<u32>,
    pub depths: Seq<int>,
    pub background_color: u32,
    pub current_color: u32,
}

impl FramebufferView {
    /// Both buffers hold one entry per pixel.
    pub open spec fn wf(self) -> bool {
        &&& self.colors.len() == self.width * self.height
        &&& self.depths.len() == self.width * self.height
    }

    /// `(x, y)` names a pixel of the buffer.
    pub open spec fn in_bounds(self, x: int, y: int) -> bool {
        0 <= x < self.width && 0 <= y < self.height
    }

    /// Where pixel `(x, y)` is stored.
    pub open spec fn index(self, x: int, y: int) -> int {
        y * self.width + x
    }

    /// The buffer after a depth-tested write of `color` at `(x, y)`.
    pub open spec fn write(self, x: int, y: int, depth: int, color: u32) -> FramebufferView {
        if self.in_bounds(x, y) && depth < self.depths[self.index(x, y)] {
            FramebufferView {
                colors: self.colors.update(self.index(x, y), color),
                depths: self.depths.update(self.index(x, y), depth),
                ..self
            }
        } else {
            self
        }
    }

    /// The buffer after `color` has been offered to `(x, y)` as backdrop:
    /// the pixel takes it, at the far depth, unless something nearer than
    /// the far plane has been drawn there.
    pub open spec fn backdrop(self, x: int, y: int, color: u32) -> FramebufferView {
        if self.in_bounds(x, y) && self.depths[self.index(x, y)] >= 65536 {
            FramebufferView {
                colors: self.colors.update(self.index(x, y), color),
                depths: self.depths.update(self.index(x, y), 65536),
                ..self
            }
        } else {
            self
        }
    }

    /// The buffer after a clear.
    pub open spec fn cleared(self) -> FramebufferView {
        FramebufferView {
            colors: Seq::new(self.width * self.height, |i: int| self.background_color),
            depths: Seq::new(self.width * self.height, |i: int| 65536int),
            ..self
        }
    }
}

/// The index of an in-range pixel is an index into the buffers.
pub proof fn lemma_index_in_range(width: int, height: int, x: int, y: int)
    requires
        0 <= x < width,
        0 <= y < height,
    ensures
        0 <= y * width + x < width * height,
{
    assert(y * width + x < width * height) by (nonlinear_arith)
        requires
            0 <= x < width,
            0 <= y < height,
    ;
    assert(0 <= y * width) by (nonlinear_arith)
        requires
            0 <= y,
            0 <= width,
    ;
}

/// Two in-range pixels are stored at the same place only if they are the
/// same pixel.
pub proof fn lemma_index_injective(width: int, x1: int, y1: int, x2: int, y2: int)
    requires
        0 <= x1 < width,
        0 <= x2 < width,
        y1 * width + x1 == y2 * width + x2,
    ensures
        x1 == x2,
        y1 == y2,
{
    if y1 < y2 {
        assert(y1 * width + width <= y2 * width) by (nonlinear_arith)
            requires
                y1 + 1 <= y2,
                0 < width,
        ;
    } else if y2 < y1 {
        assert(y2 * width + width <= y1 * width) by (nonlinear_arith)
            requires
                y2 + 1 <= y1,
                0 < width,
        ;
    }
}

/// A colour buffer with a parallel depth buffer.
pub struct Framebuffer {
    width: usize,
    height: usize,
    buffer: Vec<u32>,
    zbuffer: Vec<Fixed>,
    background_color: u32,
    current_color: u32,
}

impl View for Framebuffer {
    type V = FramebufferView;

    closed spec fn view(&self) -> FramebufferView {
        FramebufferView {
            width: self.width as nat,
            height: self.height as nat,
            colors: self.buffer@,
            depths: Seq::new(self.zbuffer@.len(), |i: int| self.zbuffer@[i].raw as int),
            background_color: self.background_color,
            current_color: self.current_color,
        }
    }
}

impl Framebuffer {
    /// The buffers have one entry per pixel.
    pub open spec fn wf(&self) -> bool {
        self@.wf()
    }

    /// A buffer of `width` by `height` pixels, cleared to black, drawing
    /// in white.
    pub fn new(width: usize, height: usize) -> (fb: Framebuffer)
        requires
            width * height <= usize::MAX,
        ensures
            fb.wf(),
            fb@.width == width,
            fb@.height == height,
            fb@.background_color == 0,
            fb@.current_color == 0xff_ffff,
            fb@ == fb@.cleared(),
    {
        let count: usize = width * height;
        let mut buffer: Vec<u32> = Vec::new();
        let mut zbuffer: Vec<Fixed> = Vec::new();
        let mut i: usize = 0;
        while i < count
            invariant
                i <= count,
                buffer@.len() == i,
                zbuffer@.len() == i,
                forall|k: int| 0 <= k < i ==> buffer@[k] == 0,
                forall|k: int| 0 <= k < i ==> (#[trigger] zbuffer@[k]).raw == 65536,
            decreases count - i,
        {
            buffer.push(0);
            zbuffer.push(Fixed { raw: FAR_DEPTH_RAW });
            i = i + 1;
        }
        let fb = Framebuffer {
            width,
            height,
            buffer,
            zbuffer,
            background_color: 0,
            current_color: 0xff_ffff,
        };
        proof {
            assert(fb@.colors =~= fb@.cleared().colors);
            assert(fb@.depths =~= fb@.cleared().depths);
        }
        fb
    }

    pub fn width(&self) -> (w: usize)
        ensures
            w == self@.width,
    {
        self.width
    }

    pub fn height(&self) -> (h: usize)
        ensures
            h == self@.height,
    {
        self.height
    }

    /// The packed colours, row by row, for presentation.
    pub fn buffer(&self) -> (colors: &Vec<u32>)
        ensures
            colors@ == self@.colors,
    {
        &self.buffer
    }

    /// The colour and depth stored at `(x, y)`, or `None` outside the buffer.
    pub fn get(&self, x: usize, y: usize) -> (pixel: Option<(u32, Fixed)>)
        requires
            self.wf(),
        ensures
            self@.in_bounds(x as int, y as int) ==> pixel == Some(
                (
                    self@.colors[self@.index(x as int, y as int)],
                    Fixed { raw: self@.depths[self@.index(x as int, y as int)] as i32 },
                ),
            ),
            !self@.in_bounds(x as int, y as int) ==> pixel.is_none(),
    {
        if x < self.width && y < self.height {
            let count: usize = self.buffer.len();
            proof {
                lemma_index_in_range(self.width as int, self.height as int, x as int, y as int);
                assert(count == self.width as int * self.height as int);
                assert(self.zbuffer@.len() == count);
                assert(0 <= y as int * self.width as int) by (nonlinear_arith);
            }
            let index: usize = y * self.width + x;
            Some((self.buffer[index], self.zbuffer[index]))
        } else {
            None
        }
    }

    /// Resets every pixel to the background colour and the far depth.
    pub fn clear(&mut self)
        requires
            old(self).wf(),
        ensures
            final(self)@ == old(self)@.cleared(),
            final(self).wf(),
    {
        let count: usize = self.buffer.len();
        let mut i: usize = 0;
        while i < count
            invariant
                i <= count,
                self.buffer@.len() == count,
                self.zbuffer@.len() == count,
                self.width == old(self).width,
                self.height == old(self).height,
                self.background_color == old(self).background_color,
                self.current_color == old(self).current_color,
                count == old(self).width * old(self).height,
                forall|k: int| 0 <= k < i ==> self.buffer@[k] == self.background_color,
                forall|k: int| 0 <= k < i ==> (#[trigger] self.zbuffer@[k]).raw == 65536,
            decreases count - i,
        {
            self.buffer.set(i, self.background_color);
            self.zbuffer.set(i, Fixed { raw: FAR_DEPTH_RAW });
            i = i + 1;
        }
        proof {
            assert(self@.colors =~= old(self)@.cleared().colors);
            assert(self@.depths =~= old(self)@.cleared().depths);
        }
    }

    /// Sets the colour that `clear` fills with.
    pub fn set_background_color(&mut self, color: u32)
        ensures
            final(self)@ == (FramebufferView { background_color: color, ..old(self)@ }),
    {
        self.background_color = color;
    }

    /// Sets the colour that `point` writes.
    pub fn set_current_color(&mut self, color: u32)
        ensures
            final(self)@ == (FramebufferView { current_color: color, ..old(self)@ }),
    {
        self.current_color = color;
    }

    /// Offers the current colour to `(x, y)` as backdrop: the pixel takes
    /// it, at the far depth, unless something nearer than the far plane
    /// has been drawn there. Does nothing outside the buffer.
    pub fn backdrop(&mut self, x: usize, y: usize)
        requires
            old(self).wf(),
        ensures
            final(self)@ == old(self)@.backdrop(x as int, y as int, old(self)@.current_color),
            final(self).wf(),
    {
        if x < self.width && y < self.height {
            let count: usize = self.buffer.len();
            proof {
                lemma_index_in_range(self.width as int, self.height as int, x as int, y as int);
                assert(count == self.width as int * self.height as int);
                assert(self.zbuffer@.len() == count);
                assert(0 <= y as int * self.width as int) by (nonlinear_arith);
            }
            let index: usize = y * self.width + x;
            if self.zbuffer[index].raw >= FAR_DEPTH_RAW {
                self.buffer.set(index, self.current_color);
                self.zbuffer.set(index, Fixed { raw: FAR_DEPTH_RAW });
                proof {
                    let after = old(self)@.backdrop(x as int, y as int, old(self)@.current_color);
                    assert(self@.colors =~= after.colors);
                    assert(self@.depths =~= after.depths);
                }
            } else {
                assert(self@.depths =~= old(self)@.depths);
            }
        }
    }

    /// Writes the current colour at `(x, y)` if `depth` is nearer than what
    /// the pixel holds; does nothing otherwise, or outside the buffer.
    pub fn point(&mut self, x: usize, y: usize, depth: Fixed)
        requires
            old(self).wf(),
        ensures
            final(self)@ == old(self)@.write(
                x as int,
                y as int,
                depth.raw as int,
                old(self)@.current_color,
            ),
            final(self).wf(),
    {
        if x < self.width && y < self.height {
            let count: usize = self.buffer.len();
            proof {
                lemma_index_in_range(self.width as int, self.height as int, x as int, y as int);
                assert(count == self.width as int * self.height as int);
                assert(self.zbuffer@.len() == count);
                assert(0 <= y as int * self.width as int) by (nonlinear_arith);
            }
            let index: usize = y * self.width + x;
            if depth.raw < self.zbuffer[index].raw {
                self.buffer.set(index, self.current_color);
                self.zbuffer.set(index, depth);
                proof {
                    let after = old(self)@.write(
                        x as int,
                        y as int,
                        depth.raw as int,
                        old(self)@.current_color,
                    );
                    assert(self@.colors =~= after.colors);
                    assert(self@.depths =~= after.depths);
                }
            } else {
                assert(self@.depths =~= old(self)@.depths);
            }
        }
    }
}

/// The depth test is idempotent: a write repeated changes nothing more.
pub proof fn lemma_write_idempotent(fb: FramebufferView, x: int, y: int, depth: int, color: u32)
    requires
        fb.wf(),
    ensures
        fb.write(x, y, depth, color).write(x, y, depth, color) == fb.write(x, y, depth, color),
{
    if fb.in_bounds(x, y) {
        lemma_index_in_range(fb.width as int, fb.height as int, x, y);
    }
}

/// Of two writes to one pixel with depths `d1 < d2`, the nearer one wins in
/// either order: both orders leave the same buffer, and if the nearer
/// write passes the depth test at all, the pixel holds its colour and depth.
pub proof fn lemma_nearest_write_wins(
    fb: FramebufferView,
    x: int,
    y: int,
    d1: int,
    c1: u32,
    d2: int,
    c2: u32,
)
    requires
        fb.wf(),
        fb.in_bounds(x, y),
        d1 < d2,
    ensures
        fb.write(x, y, d1, c1).write(x, y, d2, c2) == fb.write(x, y, d2, c2).write(x, y, d1, c1),
        d1 < fb.depths[fb.index(x, y)] ==> {
            let after = fb.write(x, y, d2, c2).write(x, y, d1, c1);
            &&& after.colors[fb.index(x, y)] == c1
            &&& after.depths[fb.index(x, y)] == d1
        },
        d1 >= fb.depths[fb.index(x, y)] ==> fb.write(x, y, d2, c2).write(x, y, d1, c1) == fb,
{
    lemma_index_in_range(fb.width as int, fb.height as int, x, y);
    let i = fb.index(x, y);
    let first = fb.write(x, y, d1, c1).write(x, y, d2, c2);
    let second = fb.write(x, y, d2, c2).write(x, y, d1, c1);
    assert(first.colors =~= second.colors);
    assert(first.depths =~= second.depths);
}

/// The backdrop yields to whatever is drawn in front of the far plane: a
/// pixel that holds something nearer keeps it, and something nearer
/// written after the backdrop replaces it.
pub proof fn lemma_backdrop_yields(
    fb: FramebufferView,
    x: int,
    y: int,
    backdrop: u32,
    depth: int,
    color: u32,
)
    requires
        fb.wf(),
        fb.in_bounds(x, y),
        depth < 65536,
    ensures
        fb.depths[fb.index(x, y)] < 65536 ==> fb.backdrop(x, y, backdrop) == fb,
        fb.backdrop(x, y, backdrop).write(x, y, depth, color).colors[fb.index(x, y)] == (if depth
            < fb.depths[fb.index(x, y)] {
            color
        } else {
            fb.colors[fb.index(x, y)]
        }),
        fb.write(x, y, depth, color).backdrop(x, y, backdrop) == fb.write(x, y, depth, color),
{
    lemma_index_in_range(fb.width as int, fb.height as int, x, y);
}

/// A stored depth never grows: after any write every pixel is at least as
/// near as before, and it is the smaller of the old depth and the written one.
pub proof fn lemma_write_keeps_nearest(
    fb: FramebufferView,
    x: int,
    y: int,
    depth: int,
    color: u32,
    i: int,
)
    requires
        fb.wf(),
        0 <= i < fb.depths.len(),
    ensures
        fb.write(x, y, depth, color).depths[i] <= fb.depths[i],
        fb.in_bounds(x, y) && i == fb.index(x, y) ==> fb.write(x, y, depth, color).depths[i] == (
        if depth < fb.depths[i] {
            depth
        } else {
            fb.depths[i]
        }),
        !(fb.in_bounds(x, y) && i == fb.index(x, y)) ==> fb.write(x, y, depth, color).depths[i]
            == fb.depths[i] && fb.write(x, y, depth, color).colors[i] == fb.colors[i],
{
    if fb.in_bounds(x, y) {
        lemma_index_in_range(fb.width as int, fb.height as int, x, y);
    }
}

/// One depth-tested write: a colour for a pixel at a depth.
pub struct Write {
    pub x: int,
    pub y: int,
    pub depth: int,
    pub color: u32,
}

/// The buffer after the first `n` of a sequence of writes.
pub open spec fn written(fb: FramebufferView, writes: Seq<Write>, n: nat) -> FramebufferView
    decreases n,
{
    if n == 0 || n > writes.len() {
        fb
    } else {
        written(fb, writes, (n - 1) as nat).write(
            writes[n - 1].x,
            writes[n - 1].y,
            writes[n - 1].depth,
            writes[n - 1].color,
        )
    }
}

/// The least of `start` and the depths of those of the first `n` writes
/// that go to pixel `(x, y)`.
pub open spec fn nearest(start: int, writes: Seq<Write>, n: nat, x: int, y: int) -> int
    decreases n,
{
    if n == 0 || n > writes.len() {
        start
    } else {
        let earlier = nearest(start, writes, (n - 1) as nat, x, y);
        if writes[n - 1].x == x && writes[n - 1].y == y && writes[n - 1].depth < earlier {
            writes[n - 1].depth
        } else {
            earlier
        }
    }
}

/// After any sequence of writes a pixel holds the smallest depth written
/// to it, or the depth it started with if that is smaller still.
pub proof fn lemma_depth_is_nearest(fb: FramebufferView, writes: Seq<Write>, n: nat, x: int, y: int)
    requires
        fb.wf(),
        fb.in_bounds(x, y),
    ensures
        written(fb, writes, n).wf(),
        written(fb, writes, n).width == fb.width,
        written(fb, writes, n).height == fb.height,
        written(fb, writes, n).depths[fb.index(x, y)] == nearest(
            fb.depths[fb.index(x, y)],
            writes,
            n,
            x,
            y,
        ),
    decreases n,
{
    lemma_index_in_range(fb.width as int, fb.height as int, x, y);
    if n > 0 && n <= writes.len() {
        lemma_depth_is_nearest(fb, writes, (n - 1) as nat, x, y);
        let earlier = written(fb, writes, (n - 1) as nat);
        let w = writes[n - 1];
        if earlier.in_bounds(w.x, w.y) {
            lemma_index_in_range(fb.width as int, fb.height as int, w.x, w.y);
            if fb.index(w.x, w.y) == fb.index(x, y) {
                lemma_index_injective(fb.width as int, w.x, w.y, x, y);
            }
        }
    }
}

/// Nothing at or beyond the far plane lands on a buffer that holds no
/// depth beyond it, as every buffer does from its clear onwards.
pub proof fn lemma_beyond_far_discarded(fb: FramebufferView, x: int, y: int, depth: int, color: u32)
    requires
        fb.wf(),
        forall|i: int| 0 <= i < fb.depths.len() ==> fb.depths[i] <= 65536,
        depth >= 65536,
    ensures
        fb.write(x, y, depth, color) == fb,
        forall|i: int| 0 <= i < fb.cleared().depths.len() ==> fb.cleared().depths[i] <= 65536,
{
    if fb.in_bounds(x, y) {
        lemma_index_in_range(fb.width as int, fb.height as int, x, y);
    }
}

} // verus!
