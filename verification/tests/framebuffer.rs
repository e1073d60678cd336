use space_renderer::fixed::Fixed;
use space_renderer::framebuffer::Framebuffer;

fn raw(value: i32) -> Fixed {
    Fixed::from_raw(value)
}

fn write(fb: &mut Framebuffer, x: usize, y: usize, depth: i32, color: u32) {
    fb.set_current_color(color);
    fb.point(x, y, raw(depth));
}

#[test]
fn new_buffer_is_black_and_far() {
    let fb = Framebuffer::new(4, 3);
    assert_eq!(fb.width(), 4);
    assert_eq!(fb.height(), 3);
    assert_eq!(fb.buffer().len(), 12);
    for y in 0..3 {
        for x in 0..4 {
            assert_eq!(fb.get(x, y), Some((0, Fixed::one())));
        }
    }
    assert_eq!(fb.get(4, 0), None);
    assert_eq!(fb.get(0, 3), None);
}

#[test]
fn empty_buffer_takes_no_writes() {
    let mut fb = Framebuffer::new(0, 5);
    assert_eq!(fb.buffer().len(), 0);
    write(&mut fb, 0, 0, 0, 7);
    fb.clear();
    assert_eq!(fb.get(0, 0), None);
}

#[test]
fn point_writes_only_nearer_depths() {
    let mut fb = Framebuffer::new(4, 4);
    write(&mut fb, 1, 2, 32768, 0xaa);
    assert_eq!(fb.get(1, 2), Some((0xaa, raw(32768))));
    assert_eq!(fb.buffer()[2 * 4 + 1], 0xaa);
    // farther: discarded
    write(&mut fb, 1, 2, 40000, 0xbb);
    assert_eq!(fb.get(1, 2), Some((0xaa, raw(32768))));
    // equal: discarded
    write(&mut fb, 1, 2, 32768, 0xcc);
    assert_eq!(fb.get(1, 2), Some((0xaa, raw(32768))));
    // nearer: lands
    write(&mut fb, 1, 2, 100, 0xdd);
    assert_eq!(fb.get(1, 2), Some((0xdd, raw(100))));
    // a depth in front of the near plane wins as any other
    write(&mut fb, 1, 2, -5, 0xee);
    assert_eq!(fb.get(1, 2), Some((0xee, raw(-5))));
}

#[test]
fn write_at_the_far_depth_is_discarded_after_clear() {
    let mut fb = Framebuffer::new(2, 2);
    write(&mut fb, 0, 0, 65536, 0x123);
    assert_eq!(fb.get(0, 0), Some((0, Fixed::one())));
    write(&mut fb, 0, 0, 70000, 0x123);
    assert_eq!(fb.get(0, 0), Some((0, Fixed::one())));
}

#[test]
fn out_of_range_point_is_a_no_op() {
    let mut fb = Framebuffer::new(3, 2);
    let before: Vec<u32> = fb.buffer().clone();
    write(&mut fb, 3, 0, 0, 0xff);
    write(&mut fb, 0, 2, 0, 0xff);
    write(&mut fb, usize::MAX, usize::MAX, 0, 0xff);
    assert_eq!(*fb.buffer(), before);
}

#[test]
fn same_write_twice_is_the_same_as_once() {
    let mut once = Framebuffer::new(3, 3);
    let mut twice = Framebuffer::new(3, 3);
    write(&mut once, 2, 1, 1234, 0x00ff00);
    write(&mut twice, 2, 1, 1234, 0x00ff00);
    write(&mut twice, 2, 1, 1234, 0x00ff00);
    assert_eq!(once.buffer(), twice.buffer());
    for y in 0..3 {
        for x in 0..3 {
            assert_eq!(once.get(x, y), twice.get(x, y));
        }
    }
}

#[test]
fn nearer_write_wins_in_either_order() {
    let mut near_first = Framebuffer::new(2, 2);
    let mut far_first = Framebuffer::new(2, 2);
    write(&mut near_first, 1, 1, 1000, 0x111111);
    write(&mut near_first, 1, 1, 2000, 0x222222);
    write(&mut far_first, 1, 1, 2000, 0x222222);
    write(&mut far_first, 1, 1, 1000, 0x111111);
    assert_eq!(near_first.get(1, 1), Some((0x111111, raw(1000))));
    assert_eq!(far_first.get(1, 1), Some((0x111111, raw(1000))));
    assert_eq!(near_first.buffer(), far_first.buffer());
}

#[test]
fn clear_fills_with_the_background_and_resets_depth() {
    let mut fb = Framebuffer::new(3, 2);
    write(&mut fb, 0, 0, 5, 0x777);
    fb.set_background_color(0x334455);
    fb.clear();
    for y in 0..2 {
        for x in 0..3 {
            assert_eq!(fb.get(x, y), Some((0x334455, Fixed::one())));
        }
    }
    // writes land again after the clear
    write(&mut fb, 0, 0, 60000, 0x1);
    assert_eq!(fb.get(0, 0), Some((0x1, raw(60000))));
}

#[test]
fn backdrop_fills_untouched_pixels_only() {
    let mut fb = Framebuffer::new(2, 1);
    write(&mut fb, 0, 0, 30000, 0xaaaaaa);
    fb.set_current_color(0x0000ff);
    fb.backdrop(0, 0);
    fb.backdrop(1, 0);
    fb.backdrop(2, 0);
    assert_eq!(fb.get(0, 0), Some((0xaaaaaa, raw(30000))));
    assert_eq!(fb.get(1, 0), Some((0x0000ff, Fixed::one())));
    // geometry drawn afterwards replaces the backdrop
    write(&mut fb, 1, 0, 65535, 0xbbbbbb);
    assert_eq!(fb.get(1, 0), Some((0xbbbbbb, raw(65535))));
    // and a second backdrop does not come back over it
    fb.set_current_color(0x00ff00);
    fb.backdrop(1, 0);
    assert_eq!(fb.get(1, 0), Some((0xbbbbbb, raw(65535))));
}
