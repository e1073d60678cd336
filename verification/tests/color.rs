use space_renderer::color::Color;
use space_renderer::fixed::Fixed;

fn raw(value: i32) -> Fixed {
    Fixed::from_raw(value)
}

#[test]
fn lerp_at_zero_is_first_and_at_one_is_second() {
    let colors = [
        Color::new(0, 0, 0),
        Color::new(255, 255, 255),
        Color::new(255, 69, 0),
        Color::new(13, 105, 171),
        Color::new(1, 254, 128),
    ];
    for a in colors.iter() {
        for b in colors.iter() {
            assert_eq!(a.lerp(b, Fixed::zero()), *a);
            assert_eq!(a.lerp(b, Fixed::one()), *b);
        }
    }
}

#[test]
fn lerp_holds_the_weight_between_zero_and_one() {
    let a = Color::new(10, 20, 30);
    let b = Color::new(200, 100, 0);
    assert_eq!(a.lerp(&b, Fixed::from_int(-3)), a);
    assert_eq!(a.lerp(&b, Fixed::from_int(7)), b);
}

#[test]
fn lerp_rounds_to_nearest() {
    let a = Color::new(0, 100, 255);
    let b = Color::new(255, 200, 0);
    // halfway: 127.5 rounds up, 150 is exact
    assert_eq!(a.lerp(&b, raw(32768)), Color::new(128, 150, 128));
    // a quarter: 63.75, 125, 191.25
    assert_eq!(a.lerp(&b, raw(16384)), Color::new(64, 125, 191));
}

#[test]
fn scale_rounds_down_and_holds_the_range() {
    let c = Color::new(255, 223, 0);
    assert_eq!(c.scale(raw(45875)), Color::new(178, 156, 0));
    assert_eq!(c.scale(Fixed::one()), c);
    assert_eq!(c.scale(Fixed::zero()), Color::black());
    assert_eq!(c.scale(Fixed::from_int(-1)), Color::black());
    assert_eq!(c.scale(Fixed::from_int(2)), Color::new(255, 255, 0));
    assert_eq!(Color::new(100, 1, 2).scale(Fixed::from_int(3)), Color::new(255, 3, 6));
}

#[test]
fn sums_saturate_per_channel() {
    let a = Color::new(200, 10, 255);
    let b = Color::new(100, 20, 1);
    assert_eq!(a.add(b), Color::new(255, 30, 255));
}

#[test]
fn blend_keeps_the_shares() {
    let a = Color::new(200, 100, 0);
    let b = Color::new(0, 100, 255);
    assert_eq!(a.blend(b, Fixed::zero()), a);
    assert_eq!(a.blend(b, Fixed::one()), b);
    assert_eq!(a.blend(b, raw(32768)), Color::new(100, 100, 127));
    // 0.4 is 26214 units: 200 * 39322 / 65536 = 120.0006, 255 * 26214 / 65536 = 101.99
    assert_eq!(a.blend(b, raw(26214)), Color::new(120, 99, 101));
    assert_eq!(a.blend(b, Fixed::from_int(5)), b);
    assert_eq!(a.blend(b, Fixed::from_int(-5)), a);
}

#[test]
fn hex_packs_red_high() {
    assert_eq!(Color::new(0x12, 0x34, 0x56).to_hex(), 0x123456);
    assert_eq!(Color::black().to_hex(), 0);
    assert_eq!(Color::new(255, 255, 255).to_hex(), 0xffffff);
    assert_eq!(Color::from_hex(0x123456), Color::new(0x12, 0x34, 0x56));
    assert_eq!(Color::from_hex(0xff123456), Color::new(0x12, 0x34, 0x56));
    for hex in [0u32, 1, 0xff, 0x100, 0xabcdef, 0xffffff] {
        assert_eq!(Color::from_hex(hex).to_hex(), hex);
    }
}
