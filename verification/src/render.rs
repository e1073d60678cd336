//! One draw call: background, vertex stage, rasterizer, shading, writes.
//!
//! The noise field belongs to the caller, so a draw call runs in steps:
//! `paint_background`, then `transform_vertices` and `rasterize`, then
//! `fragment_queries` to learn where the field is to be sampled, and
//! `draw_fragments` with the samples.

use vstd::prelude::*;
use image::DynamicImage;
use image::GenericImageView;
use crate::color::Color;
use crate::fixed::{clamp_int, div_floor, sat, saturate, Fixed};
use crate::fragment::Fragment;
use crate::framebuffer::{Framebuffer, FramebufferView};
use crate::noise::NoiseQuery;
use crate::shaders::{fragment_color, fragment_shader, noise_points, noise_queries, vertex_shader};
use crate::triangle::{triangle, triangle_fragments};
use crate::uniforms::Uniforms;
use crate::vertex::Vertex;

verus! {

/// `image::DynamicImage`: an image in memory, of whatever pixel format,
/// carried as it is.
#[verifier::external_type_specification]
#[verifier::external_body]
pub struct ExDynamicImage(image::DynamicImage);

/// The width and the height of an image, in pixels.
pub uninterp spec fn image_size(image: DynamicImage) -> (u32, u32);

/// The red, green and blue of every pixel of an image, by column and row.
pub uninterp spec fn image_pixels(image: DynamicImage) -> Map<(u32, u32), (u8, u8, u8)>;

/// `GenericImageView::dimensions` on a `DynamicImage`: the width and the
/// height of the image.
#[verifier::external_body]
fn image_dimensions(image: &DynamicImage) -> (size: (u32, u32))
    ensures
        size == image_size(*image),
{
    image.dimensions()
}

/// `GenericImageView::get_pixel` on a `DynamicImage`, which panics outside
/// the image: the pixel at column `x` and row `y`, converted to 8-bit
/// RGBA, of which the first three channels are handed on.
#[verifier::external_body]
fn image_pixel(image: &DynamicImage, x: u32, y: u32) -> (rgb: (u8, u8, u8))
    requires
        x < image_size(*image).0,
        y < image_size(*image).1,
    ensures
        rgb == image_pixels(*image)[(x, y)],
{
    let pixel = image.get_pixel(x, y);
    (pixel[0], pixel[1], pixel[2])
}

/// The angle of pixel column, or row, `i` of `extent`, on a scale of
/// `turn` degrees centred on zero: `i / extent * turn - turn / 2`.
pub open spec fn angle_of(i: int, extent: int, turn: int) -> Fixed {
    Fixed {
        raw: sat(
            (if extent > 0 {
                (i * turn * 65536) / extent
            } else {
                0
            }) - turn * 32768,
        ) as i32,
    }
}

/// Longitude and latitude of pixel `(x, y)` of a buffer of `width` by
/// `height`: `x / width * 360 - 180` and `y / height * 180 - 90`.
pub open spec fn pixel_angles_spec(x: usize, y: usize, width: usize, height: usize) -> (
    Fixed,
    Fixed,
) {
    (angle_of(x as int, width as int, 360), angle_of(y as int, height as int, 180))
}

/// The column, or row, of an image of `extent` pixels for an angle on a
/// scale centred on zero that reaches `half_turn` degrees either way:
/// the angle is normalized to `[0, 1)` and multiplied by the extent.
pub open spec fn image_coordinate(angle: Fixed, half_turn: int, extent: u32) -> u32 {
    let normalized = (angle.raw + half_turn * 65536) / (2 * half_turn);
    clamp_int((normalized * extent) / 65536, 0, 0xffff_ffff) as u32
}

/// The pixel of an image of `image_width` by `image_height` that a
/// longitude and a latitude fall on.
pub open spec fn project_to_image_spec(
    x_angle: Fixed,
    y_angle: Fixed,
    image_width: u32,
    image_height: u32,
) -> (u32, u32) {
    (image_coordinate(x_angle, 180, image_width), image_coordinate(y_angle, 90, image_height))
}

/// A background colour as the buffer stores it: `0xRRGGBB`, as every
/// other colour.
pub open spec fn background_color_spec(r: u8, g: u8, b: u8) -> u32 {
    Color::new(r, g, b).to_hex()
}

/// The buffer after the background has been offered to its first `n`
/// pixels, row by row: each pixel is offered, as backdrop, the colour of
/// the image pixel its angles fall on, if that lies in the image.
pub open spec fn background_painted(
    fb: FramebufferView,
    image: DynamicImage,
    image_width: u32,
    image_height: u32,
    n: nat,
) -> FramebufferView
    decreases n,
{
    if n == 0 || fb.width == 0 {
        fb
    } else {
        let earlier = background_painted(fb, image, image_width, image_height, (n - 1) as nat);
        let x = ((n - 1) % (fb.width as int)) as usize;
        let y = ((n - 1) / (fb.width as int)) as usize;
        let angles = pixel_angles_spec(x, y, fb.width as usize, fb.height as usize);
        let at = project_to_image_spec(angles.0, angles.1, image_width, image_height);
        if at.0 < image_size(image).0 && at.1 < image_size(image).1 {
            let rgb = image_pixels(image)[at];
            let color = background_color_spec(rgb.0, rgb.1, rgb.2);
            FramebufferView { current_color: color, ..earlier }.backdrop(x as int, y as int, color)
        } else {
            earlier
        }
    }
}

/// The vertices of a mesh after the vertex stage.
pub open spec fn transformed(vertices: Seq<Vertex>, uniforms: Uniforms) -> Seq<Vertex> {
    Seq::new(vertices.len(), |i: int| vertex_shader(&vertices[i], &uniforms))
}

/// The fragments of the first `k` triangles of a mesh: vertices `0, 1, 2`
/// form the first triangle, `3, 4, 5` the next, and so on.
pub open spec fn first_triangles(vertices: Seq<Vertex>, width: int, height: int, k: nat) -> Seq<
    Fragment,
>
    decreases k,
{
    if k == 0 || 3 * k > vertices.len() {
        Seq::empty()
    } else {
        first_triangles(vertices, width, height, (k - 1) as nat) + triangle_fragments(
            vertices[3 * k - 3],
            vertices[3 * k - 2],
            vertices[3 * k - 1],
            width,
            height,
        )
    }
}

/// The fragments of a mesh, triangle after triangle. Vertices left over
/// after the last whole triangle are dropped.
pub open spec fn mesh_fragments(vertices: Seq<Vertex>, width: int, height: int) -> Seq<Fragment> {
    first_triangles(vertices, width, height, (vertices.len() / 3) as nat)
}

/// The samples taken for fragment `k`: none where the caller supplied
/// fewer lists than fragments.
pub open spec fn samples_at(samples: Seq<Vec<Fixed>>, k: int) -> Seq<Fixed> {
    if 0 <= k < samples.len() {
        samples[k]@
    } else {
        Seq::empty()
    }
}

/// The buffer after one shaded fragment: the colour becomes the current
/// colour and is written at the fragment's pixel with its depth. A
/// fragment outside the buffer changes nothing.
pub open spec fn shaded_write(fb: FramebufferView, f: Fragment, color: Color) -> FramebufferView {
    if f.x < fb.width && f.y < fb.height {
        FramebufferView { current_color: color.to_hex(), ..fb }.write(
            f.x as int,
            f.y as int,
            f.depth.raw as int,
            color.to_hex(),
        )
    } else {
        fb
    }
}

/// The buffer after the first `n` fragments have been shaded and written.
pub open spec fn drawn(
    fb: FramebufferView,
    uniforms: Uniforms,
    fragments: Seq<Fragment>,
    samples: Seq<Vec<Fixed>>,
    n: nat,
) -> FramebufferView
    decreases n,
{
    if n == 0 || n > fragments.len() {
        fb
    } else {
        shaded_write(
            drawn(fb, uniforms, fragments, samples, (n - 1) as nat),
            fragments[n - 1],
            fragment_color(&fragments[n - 1], &uniforms, samples_at(samples, n - 1)),
        )
    }
}

fn angle(i: usize, extent: usize, turn: i128) -> (a: Fixed)
    requires
        turn == 360 || turn == 180,
    ensures
        a == angle_of(i as int, extent as int, turn as int),
{
    let whole: i128 = if turn == 360 {
        i as i128 * 23592960
    } else {
        i as i128 * 11796480
    };
    assert(whole == i as int * turn as int * 65536) by (nonlinear_arith)
        requires
            turn == 360 && whole == i as int * 23592960 || turn == 180 && whole == i as int
                * 11796480,
    ;
    let share: i128 = if extent > 0 {
        div_floor(whole, extent as i128)
    } else {
        0
    };
    proof {
        if extent > 0 {
            vstd::arithmetic::div_mod::lemma_div_pos_is_pos(whole as int, extent as int);
            vstd::arithmetic::div_mod::lemma_div_is_ordered_by_denominator(
                whole as int,
                1,
                extent as int,
            );
            assert(whole as int / 1 == whole);
        }
    }
    let half: i128 = if turn == 360 {
        11796480
    } else {
        5898240
    };
    Fixed { raw: saturate(share - half) }
}

/// Longitude and latitude of a pixel, in degrees.
#[verifier::when_used_as_spec(pixel_angles_spec)]
pub fn pixel_angles(x: usize, y: usize, width: usize, height: usize) -> (angles: (Fixed, Fixed))
    ensures
        angles == pixel_angles_spec(x, y, width, height),
{
    (angle(x, width, 360), angle(y, height, 180))
}

fn coordinate(angle: Fixed, half_turn: i128, extent: u32) -> (c: u32)
    requires
        half_turn == 180 || half_turn == 90,
    ensures
        c == image_coordinate(angle, half_turn as int, extent),
{
    let normalized: i128 = div_floor(angle.raw as i128 + half_turn * 65536, 2 * half_turn);
    assert(-0x1_0000_0000_0000_0000 <= normalized * extent as int <= 0x1_0000_0000_0000_0000)
        by (nonlinear_arith)
        requires
            -0x1_0000_0000 <= normalized <= 0x1_0000_0000,
            0 <= extent <= 0xffff_ffff,
    ;
    let scaled: i128 = div_floor(normalized * extent as i128, 65536);
    if scaled < 0 {
        0
    } else if scaled > 0xffff_ffff {
        0xffff_ffff
    } else {
        scaled as u32
    }
}

/// The pixel of the panorama that a longitude and a latitude fall on.
#[verifier::when_used_as_spec(project_to_image_spec)]
pub fn project_to_image(x_angle: Fixed, y_angle: Fixed, image_width: u32, image_height: u32) -> (at:
    (u32, u32))
    ensures
        at == project_to_image_spec(x_angle, y_angle, image_width, image_height),
{
    (coordinate(x_angle, 180, image_width), coordinate(y_angle, 90, image_height))
}

/// Packs a background colour.
#[verifier::when_used_as_spec(background_color_spec)]
pub fn background_color(r: u8, g: u8, b: u8) -> (color: u32)
    ensures
        color == background_color_spec(r, g, b),
{
    let red: u32 = r as u32;
    let green: u32 = g as u32;
    let blue: u32 = b as u32;
    red * 65536 + green * 256 + blue
}

/// Every pixel of a buffer looks up a pixel that lies in the image: the
/// angles of a pixel are at least -180 and -90 and stay below 180 and 90,
/// and such angles fall inside the image.
pub proof fn lemma_projection_in_image(
    x: usize,
    y: usize,
    width: usize,
    height: usize,
    image_width: u32,
    image_height: u32,
)
    requires
        x < width,
        y < height,
        image_width > 0,
        image_height > 0,
    ensures
        ({
            let angles = pixel_angles_spec(x, y, width, height);
            let at = project_to_image_spec(angles.0, angles.1, image_width, image_height);
            &&& -180 * 65536 <= angles.0.raw < 180 * 65536
            &&& -90 * 65536 <= angles.1.raw < 90 * 65536
            &&& at.0 < image_width
            &&& at.1 < image_height
        }),
{
    lemma_coordinate_in_extent(x as int, width as int, 180, image_width);
    lemma_coordinate_in_extent(y as int, height as int, 90, image_height);
}

proof fn lemma_coordinate_in_extent(i: int, extent: int, half_turn: int, image_extent: u32)
    requires
        0 <= i < extent,
        half_turn == 180 || half_turn == 90,
        image_extent > 0,
    ensures
        -half_turn * 65536 <= angle_of(i, extent, 2 * half_turn).raw < half_turn * 65536,
        image_coordinate(angle_of(i, extent, 2 * half_turn), half_turn, image_extent)
            < image_extent,
{
    let turn = 2 * half_turn;
    let n = i * turn * 65536;
    assert(0 <= n && n < extent * (turn * 65536)) by (nonlinear_arith)
        requires
            n == i * turn * 65536,
            0 <= i < extent,
            turn > 0,
    ;
    vstd::arithmetic::div_mod::lemma_div_pos_is_pos(n, extent);
    vstd::arithmetic::div_mod::lemma_multiply_divide_lt(n, extent, turn * 65536);
    let share = n / extent;
    assert(0 <= share < turn * 65536);
    assert(turn * 32768 == half_turn * 65536);
    let a = angle_of(i, extent, turn);
    assert(a.raw == share - half_turn * 65536);
    let normalized = (a.raw + half_turn * 65536) / (2 * half_turn);
    if half_turn == 180 {
        assert(normalized == share / 360);
        assert(0 <= normalized < 65536);
    } else {
        assert(normalized == share / 180);
        assert(0 <= normalized < 65536);
    }
    assert(0 <= normalized * image_extent && normalized * image_extent < 65536 * image_extent)
        by (nonlinear_arith)
        requires
            0 <= normalized < 65536,
            image_extent > 0,
    ;
}

/// Offers the panorama to every pixel of the buffer, at the far depth.
///
/// A pixel takes the colour of the image pixel its angles fall on unless
/// it holds something nearer than the far plane: the background never
/// replaces anything drawn in front of it, and anything drawn later
/// replaces it.
pub fn paint_background(
    framebuffer: &mut Framebuffer,
    image: &DynamicImage,
    image_width: u32,
    image_height: u32,
)
    requires
        old(framebuffer).wf(),
    ensures
        final(framebuffer).wf(),
        final(framebuffer)@ == background_painted(
            old(framebuffer)@,
            *image,
            image_width,
            image_height,
            (old(framebuffer)@.width * old(framebuffer)@.height) as nat,
        ),
{
    let width: usize = framebuffer.width();
    let height: usize = framebuffer.height();
    let size = image_dimensions(image);
    if width == 0 {
        return ;
    }
    let ghost start = framebuffer@;
    assert(0 * width == 0);
    let mut y: usize = 0;
    while y < height
        invariant
            y <= height,
            width > 0,
            framebuffer.wf(),
            start.width == width,
            start.height == height,
            framebuffer@.width == width,
            framebuffer@.height == height,
            size == image_size(*image),
            framebuffer@ == background_painted(
                start,
                *image,
                image_width,
                image_height,
                (y * width) as nat,
            ),
        decreases height - y,
    {
        let mut x: usize = 0;
        while x < width
            invariant
                x <= width,
                y < height,
                width > 0,
                framebuffer.wf(),
                start.width == width,
                start.height == height,
                framebuffer@.width == width,
                framebuffer@.height == height,
                size == image_size(*image),
                framebuffer@ == background_painted(
                    start,
                    *image,
                    image_width,
                    image_height,
                    (y * width + x) as nat,
                ),
            decreases width - x,
        {
            proof {
                let i = y as int * width as int + x as int;
                assert(0 <= y as int * width as int) by (nonlinear_arith)
                    requires
                        0 <= y,
                        0 <= width,
                ;
                vstd::arithmetic::div_mod::lemma_fundamental_div_mod_converse(
                    i,
                    width as int,
                    y as int,
                    x as int,
                );
            }
            let angles = pixel_angles(x, y, width, height);
            let at = project_to_image(angles.0, angles.1, image_width, image_height);
            if at.0 < size.0 && at.1 < size.1 {
                let rgb = image_pixel(image, at.0, at.1);
                let color: u32 = background_color(rgb.0, rgb.1, rgb.2);
                framebuffer.set_current_color(color);
                framebuffer.backdrop(x, y);
            }
            x = x + 1;
        }
        proof {
            assert((y + 1) * width == y * width + width) by (nonlinear_arith);
        }
        y = y + 1;
    }
    proof {
        assert(height * width == width * height) by (nonlinear_arith);
    }
}

/// Runs the vertex stage over a mesh.
pub fn transform_vertices(vertex_array: &Vec<Vertex>, uniforms: &Uniforms) -> (out: Vec<Vertex>)
    ensures
        out@ == transformed(vertex_array@, *uniforms),
{
    let mut out: Vec<Vertex> = Vec::new();
    let mut i: usize = 0;
    while i < vertex_array.len()
        invariant
            i <= vertex_array@.len(),
            out@.len() == i,
            forall|k: int| 0 <= k < i ==> out@[k] == vertex_shader(&vertex_array@[k], uniforms),
        decreases vertex_array@.len() - i,
    {
        out.push(vertex_shader(&vertex_array[i], uniforms));
        i = i + 1;
    }
    assert(out@ =~= transformed(vertex_array@, *uniforms));
    out
}

/// Assembles the transformed vertices into triangles, three by three,
/// and rasterizes them into a buffer of `width` by `height` pixels.
pub fn rasterize(vertices: &Vec<Vertex>, width: usize, height: usize) -> (fragments: Vec<Fragment>)
    ensures
        fragments@ == mesh_fragments(vertices@, width as int, height as int),
{
    let mut fragments: Vec<Fragment> = Vec::new();
    let len: usize = vertices.len();
    let count: usize = len / 3;
    let mut k: usize = 0;
    while k < count
        invariant
            k <= count,
            len == vertices@.len(),
            count == len / 3,
            fragments@ == first_triangles(vertices@, width as int, height as int, k as nat),
        decreases count - k,
    {
        assert(3 * k + 2 < len);
        let i: usize = 3 * k;
        let mut piece: Vec<Fragment> = triangle(
            &vertices[i],
            &vertices[i + 1],
            &vertices[i + 2],
            width,
            height,
        );
        fragments.append(&mut piece);
        k = k + 1;
    }
    fragments
}

/// Names, for each fragment, the points of the noise field that shading
/// it needs.
pub fn fragment_queries(fragments: &Vec<Fragment>, uniforms: &Uniforms) -> (queries: Vec<
    Vec<NoiseQuery>,
>)
    ensures
        queries@.len() == fragments@.len(),
        forall|k: int|
            0 <= k < fragments@.len() ==> (#[trigger] queries@[k])@ == noise_points(
                &fragments@[k],
                uniforms,
            ),
{
    let mut queries: Vec<Vec<NoiseQuery>> = Vec::new();
    let mut i: usize = 0;
    while i < fragments.len()
        invariant
            i <= fragments@.len(),
            queries@.len() == i,
            forall|k: int|
                0 <= k < i ==> (#[trigger] queries@[k])@ == noise_points(&fragments@[k], uniforms),
        decreases fragments@.len() - i,
    {
        queries.push(noise_queries(&fragments[i], uniforms));
        i = i + 1;
    }
    queries
}

/// Shades each fragment from its samples and writes it, depth-tested,
/// to the buffer. `samples[k]` holds the samples for fragment `k`, in the
/// order of its queries.
pub fn draw_fragments(
    framebuffer: &mut Framebuffer,
    uniforms: &Uniforms,
    fragments: &Vec<Fragment>,
    samples: &Vec<Vec<Fixed>>,
)
    requires
        old(framebuffer).wf(),
    ensures
        final(framebuffer).wf(),
        final(framebuffer)@ == drawn(
            old(framebuffer)@,
            *uniforms,
            fragments@,
            samples@,
            fragments@.len(),
        ),
{
    let none: Vec<Fixed> = Vec::new();
    let mut i: usize = 0;
    while i < fragments.len()
        invariant
            i <= fragments@.len(),
            framebuffer.wf(),
            none@.len() == 0,
            framebuffer@ == drawn(old(framebuffer)@, *uniforms, fragments@, samples@, i as nat),
        decreases fragments@.len() - i,
    {
        let fragment: &Fragment = &fragments[i];
        let taken: &Vec<Fixed> = if i < samples.len() {
            &samples[i]
        } else {
            &none
        };
        assert(taken@ =~= samples_at(samples@, i as int));
        if fragment.x < framebuffer.width() && fragment.y < framebuffer.height() {
            let shaded_color: Color = fragment_shader(fragment, uniforms, taken);
            let color: u32 = shaded_color.to_hex();
            framebuffer.set_current_color(color);
            framebuffer.point(fragment.x, fragment.y, fragment.depth);
        }
        i = i + 1;
    }
}

/// The fragments a mesh leaves in a buffer: those of its triangles after
/// the vertex stage.
pub open spec fn screen_fragments(
    vertices: Seq<Vertex>,
    uniforms: Uniforms,
    fb: FramebufferView,
) -> Seq<Fragment> {
    mesh_fragments(transformed(vertices, uniforms), fb.width as int, fb.height as int)
}

/// `samples` answers the queries of `fragments`: one list for each
/// fragment, holding one sample for each point its material names, each
/// of them a value that `noise` may return for that point.
pub open spec fn answered<N: Fn(NoiseQuery) -> Fixed>(
    noise: &N,
    uniforms: Uniforms,
    fragments: Seq<Fragment>,
    samples: Seq<Vec<Fixed>>,
) -> bool {
    &&& samples.len() == fragments.len()
    &&& forall|k: int|
        0 <= k < fragments.len() ==> taken_from(
            noise,
            noise_points(&fragments[k], &uniforms),
            (#[trigger] samples[k])@,
        )
}

/// `taken` holds one sample for each of `points`, each a value that
/// `noise` may return for its point.
pub open spec fn taken_from<N: Fn(NoiseQuery) -> Fixed>(
    noise: &N,
    points: Seq<NoiseQuery>,
    taken: Seq<Fixed>,
) -> bool {
    &&& taken.len() == points.len()
    &&& forall|j: int| 0 <= j < points.len() ==> call_ensures(*noise, (points[j],), #[trigger] taken[j])
}

/// Samples the noise field at each of the points named.
pub fn sample_points<N: Fn(NoiseQuery) -> Fixed>(noise: &N, points: &Vec<NoiseQuery>) -> (taken: Vec<
    Fixed,
>)
    requires
        forall|q: NoiseQuery| call_requires(*noise, (q,)),
    ensures
        taken_from(noise, points@, taken@),
{
    let mut taken: Vec<Fixed> = Vec::new();
    let mut j: usize = 0;
    while j < points.len()
        invariant
            j <= points@.len(),
            taken@.len() == j,
            forall|q: NoiseQuery| call_requires(*noise, (q,)),
            forall|i: int| 0 <= i < j ==> call_ensures(*noise, (points@[i],), #[trigger] taken@[i]),
        decreases points@.len() - j,
    {
        let value: Fixed = noise(points[j]);
        taken.push(value);
        j = j + 1;
    }
    taken
}

/// Draws a mesh: paints the background, carries the vertices to the
/// screen, rasterizes the triangles, samples `noise` where the material
/// asks, shades the fragments and writes them, depth-tested.
///
/// Whatever `noise` returns, the buffer ends as `drawn` says for the
/// fragments of the mesh and samples that `noise` gave for their queries.
pub fn render<N: Fn(NoiseQuery) -> Fixed>(
    framebuffer: &mut Framebuffer,
    uniforms: &Uniforms,
    vertex_array: &Vec<Vertex>,
    image: &DynamicImage,
    image_width: u32,
    image_height: u32,
    noise: &N,
)
    requires
        old(framebuffer).wf(),
        forall|q: NoiseQuery| call_requires(*noise, (q,)),
    ensures
        final(framebuffer).wf(),
        exists|samples: Seq<Vec<Fixed>>|
            {
                &&& #[trigger] answered(
                    noise,
                    *uniforms,
                    screen_fragments(vertex_array@, *uniforms, old(framebuffer)@),
                    samples,
                )
                &&& final(framebuffer)@ == drawn(
                    background_painted(
                        old(framebuffer)@,
                        *image,
                        image_width,
                        image_height,
                        (old(framebuffer)@.width * old(framebuffer)@.height) as nat,
                    ),
                    *uniforms,
                    screen_fragments(vertex_array@, *uniforms, old(framebuffer)@),
                    samples,
                    screen_fragments(vertex_array@, *uniforms, old(framebuffer)@).len(),
                )
            },
{
    let width: usize = framebuffer.width();
    let height: usize = framebuffer.height();
    paint_background(framebuffer, image, image_width, image_height);
    proof {
        lemma_background_keeps_shape(
            old(framebuffer)@,
            *image,
            image_width,
            image_height,
            (old(framebuffer)@.width * old(framebuffer)@.height) as nat,
        );
    }
    let transformed_vertices: Vec<Vertex> = transform_vertices(vertex_array, uniforms);
    let fragments: Vec<Fragment> = rasterize(&transformed_vertices, width, height);
    let queries: Vec<Vec<NoiseQuery>> = fragment_queries(&fragments, uniforms);
    let mut samples: Vec<Vec<Fixed>> = Vec::new();
    let mut k: usize = 0;
    while k < queries.len()
        invariant
            k <= queries@.len(),
            queries@.len() == fragments@.len(),
            samples@.len() == k,
            forall|q: NoiseQuery| call_requires(*noise, (q,)),
            forall|i: int|
                0 <= i < fragments@.len() ==> (#[trigger] queries@[i])@ == noise_points(
                    &fragments@[i],
                    uniforms,
                ),
            forall|i: int|
                0 <= i < k ==> taken_from(
                    noise,
                    noise_points(&fragments@[i], uniforms),
                    (#[trigger] samples@[i])@,
                ),
        decreases queries@.len() - k,
    {
        let taken: Vec<Fixed> = sample_points(noise, &queries[k]);
        samples.push(taken);
        k = k + 1;
    }
    draw_fragments(framebuffer, uniforms, &fragments, &samples);
    proof {
        assert(fragments@ == screen_fragments(vertex_array@, *uniforms, old(framebuffer)@));
        assert(answered(noise, *uniforms, fragments@, samples@));
    }
}

/// Painting the background leaves the size of the buffer as it is.
pub proof fn lemma_background_keeps_shape(
    fb: FramebufferView,
    image: DynamicImage,
    image_width: u32,
    image_height: u32,
    n: nat,
)
    requires
        fb.wf(),
    ensures
        background_painted(fb, image, image_width, image_height, n).width == fb.width,
        background_painted(fb, image, image_width, image_height, n).height == fb.height,
        background_painted(fb, image, image_width, image_height, n).wf(),
    decreases n,
{
    if n > 0 && fb.width > 0 {
        lemma_background_keeps_shape(fb, image, image_width, image_height, (n - 1) as nat);
        let earlier = background_painted(fb, image, image_width, image_height, (n - 1) as nat);
        let x = (((n - 1) % (fb.width as int)) as usize) as int;
        let y = (((n - 1) / (fb.width as int)) as usize) as int;
        if earlier.in_bounds(x, y) {
            crate::framebuffer::lemma_index_in_range(fb.width as int, fb.height as int, x, y);
        }
    }
}

} // verus!
