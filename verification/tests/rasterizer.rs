use space_renderer::fixed::Fixed;
use space_renderer::fragment::Fragment;
use space_renderer::triangle::{ambient_light, triangle};
use space_renderer::vector::{Vec2, Vec3};
use space_renderer::vertex::Vertex;

fn at(x: i32, y: i32, depth_raw: i32) -> Vertex {
    Vertex::on_screen(Fixed::from_int(x), Fixed::from_int(y), Fixed::from_raw(depth_raw))
}

fn at_raw(x: i32, y: i32) -> Vertex {
    Vertex::on_screen(Fixed::from_raw(x), Fixed::from_raw(y), Fixed::zero())
}

fn pixels(fragments: &[Fragment]) -> Vec<(usize, usize)> {
    fragments.iter().map(|f| (f.x, f.y)).collect()
}

#[test]
fn right_triangle_fills_ten_pixels() {
    let a = at(0, 0, 32768);
    let b = at(4, 0, 32768);
    let c = at(0, 4, 32768);
    let fragments = triangle(&a, &b, &c, 8, 8);
    let mut expected = Vec::new();
    for y in 0..8usize {
        for x in 0..8usize {
            if x + y <= 3 {
                expected.push((x, y));
            }
        }
    }
    assert_eq!(fragments.len(), 10);
    assert_eq!(pixels(&fragments), expected);
    for f in fragments.iter() {
        assert_eq!(f.depth, Fixed::from_raw(32768));
    }
}

#[test]
fn winding_does_not_change_the_fragments() {
    let a = at(0, 0, 1000);
    let b = at(4, 0, 2000);
    let c = at(0, 4, 3000);
    let forward = triangle(&a, &b, &c, 8, 8);
    let backward = triangle(&a, &c, &b, 8, 8);
    assert_eq!(forward.len(), 10);
    assert_eq!(forward, backward);
}

#[test]
fn triangle_without_area_has_no_fragments() {
    let a = at(0, 0, 0);
    let b = at(2, 2, 0);
    let c = at(4, 4, 0);
    assert_eq!(triangle(&a, &b, &c, 8, 8).len(), 0);
    assert_eq!(triangle(&a, &a, &a, 8, 8).len(), 0);
    assert_eq!(triangle(&a, &b, &b, 8, 8).len(), 0);
}

#[test]
fn two_triangles_tile_a_square_without_overlap() {
    let a = at(0, 0, 0);
    let b = at(4, 0, 0);
    let c = at(4, 4, 0);
    let d = at(0, 4, 0);
    let first = triangle(&a, &b, &d, 8, 8);
    let second = triangle(&b, &c, &d, 8, 8);
    assert_eq!(first.len(), 10);
    assert_eq!(second.len(), 6);
    let mut all = pixels(&first);
    all.extend(pixels(&second));
    all.sort();
    let mut expected = Vec::new();
    for x in 0..4usize {
        for y in 0..4usize {
            expected.push((x, y));
        }
    }
    assert_eq!(all, expected);
}

#[test]
fn shared_edge_through_pixel_centres_is_claimed_once() {
    // the shared edge runs through the centres of the middle column
    let top = at_raw(2 * 65536 + 32768, 0);
    let bottom = at_raw(2 * 65536 + 32768, 6 * 65536);
    let left = at_raw(0, 3 * 65536);
    let right = at_raw(5 * 65536, 3 * 65536);
    let west = triangle(&top, &bottom, &left, 8, 8);
    let east = triangle(&bottom, &top, &right, 8, 8);
    let mut all = pixels(&west);
    all.extend(pixels(&east));
    let total = all.len();
    all.sort();
    all.dedup();
    assert_eq!(all.len(), total);
    for y in 1..5usize {
        assert!(all.contains(&(2, y)));
    }
    // either order of the same two triangles gives the same owner
    let west_again = triangle(&left, &top, &bottom, 8, 8);
    assert_eq!(west, west_again);
}

#[test]
fn fragments_stay_inside_the_buffer() {
    let a = at(-10, -10, 0);
    let b = at(100, -10, 0);
    let c = at(-10, 100, 0);
    let fragments = triangle(&a, &b, &c, 4, 3);
    assert_eq!(fragments.len(), 12);
    let mut expected = Vec::new();
    for y in 0..3usize {
        for x in 0..4usize {
            expected.push((x, y));
        }
    }
    assert_eq!(pixels(&fragments), expected);
    assert_eq!(triangle(&a, &b, &c, 0, 3).len(), 0);
    assert_eq!(triangle(&a, &b, &c, 4, 0).len(), 0);
}

#[test]
fn triangle_off_the_screen_has_no_fragments() {
    let a = at(-10, -10, 0);
    let b = at(-2, -10, 0);
    let c = at(-10, -2, 0);
    assert_eq!(triangle(&a, &b, &c, 8, 8).len(), 0);
    let d = at(20, 20, 0);
    let e = at(30, 20, 0);
    let f = at(20, 30, 0);
    assert_eq!(triangle(&d, &e, &f, 8, 8).len(), 0);
}

#[test]
fn extreme_coordinates_do_not_overflow() {
    let a = at_raw(i32::MIN, i32::MIN);
    let b = at_raw(i32::MAX, i32::MIN);
    let c = at_raw(0, i32::MAX);
    let fragments = triangle(&a, &b, &c, 3, 3);
    assert_eq!(fragments.len(), 9);
    // the far corner of this one lies beyond the origin
    let d = at_raw(i32::MIN, i32::MAX);
    assert_eq!(triangle(&a, &b, &d, 3, 3).len(), 0);
}

#[test]
fn depth_is_interpolated_by_the_weights() {
    let a = at(0, 0, 0);
    let b = at(4, 0, 65536);
    let c = at(0, 4, 0);
    let fragments = triangle(&a, &b, &c, 8, 8);
    for f in fragments.iter() {
        // the weight of `b` at a pixel centre is (x + 1/2) / 4
        let expected = (f.x as i32 * 65536 + 32768) / 4;
        assert_eq!(f.depth.raw, expected);
    }
}

#[test]
fn attributes_are_interpolated_from_the_vertices() {
    let place = |x: i32, y: i32| Vec3::new(Fixed::from_int(x), Fixed::from_int(y), Fixed::zero());
    let mut a = at(0, 0, 0);
    let mut b = at(8, 0, 0);
    let mut c = at(0, 8, 0);
    a.position = place(10, 0);
    b.position = place(20, 0);
    c.position = place(10, 40);
    a.transformed_normal = Vec3::new(Fixed::zero(), Fixed::zero(), Fixed::one());
    b.transformed_normal = Vec3::new(Fixed::one(), Fixed::zero(), Fixed::zero());
    c.transformed_normal = Vec3::new(Fixed::zero(), Fixed::one(), Fixed::zero());
    a.tex_coords = Vec2 { x: Fixed::zero(), y: Fixed::zero() };
    let fragments = triangle(&a, &b, &c, 8, 8);
    let first = fragments[0];
    assert_eq!((first.x, first.y), (0, 0));
    // centre (1/2, 1/2): weights 7/8, 1/16, 1/16
    assert_eq!(first.vertex_position.x.raw, 10 * 65536 + 65536 * 10 / 16);
    assert_eq!(first.vertex_position.y.raw, 40 * 65536 / 16);
    assert_eq!(first.normal, Vec3::new(Fixed::from_raw(4096), Fixed::from_raw(4096), Fixed::from_raw(57344)));
    assert_eq!(first.intensity.raw, 57344);
}

#[test]
fn intensity_is_the_light_on_the_normal_held_in_range() {
    assert_eq!(ambient_light(), Vec3::new(Fixed::zero(), Fixed::zero(), Fixed::one()));
    let mut a = at(0, 0, 0);
    let mut b = at(4, 0, 0);
    let mut c = at(0, 4, 0);
    for f in triangle(&a, &b, &c, 8, 8).iter() {
        assert_eq!(f.intensity, Fixed::one());
    }
    let away = Vec3::new(Fixed::zero(), Fixed::zero(), Fixed::from_int(-1));
    a.transformed_normal = away;
    b.transformed_normal = away;
    c.transformed_normal = away;
    for f in triangle(&a, &b, &c, 8, 8).iter() {
        assert_eq!(f.intensity, Fixed::zero());
    }
    let long = Vec3::new(Fixed::zero(), Fixed::zero(), Fixed::from_int(3));
    a.transformed_normal = long;
    b.transformed_normal = long;
    c.transformed_normal = long;
    for f in triangle(&a, &b, &c, 8, 8).iter() {
        assert_eq!(f.intensity, Fixed::one());
        assert_eq!(f.normal, long);
    }
}

#[test]
fn fragments_come_row_by_row() {
    let a = at(1, 1, 0);
    let b = at(7, 2, 0);
    let c = at(3, 7, 0);
    let fragments = triangle(&a, &b, &c, 8, 8);
    assert!(fragments.len() > 0);
    for pair in fragments.windows(2) {
        assert!((pair[0].y, pair[0].x) < (pair[1].y, pair[1].x));
    }
}
