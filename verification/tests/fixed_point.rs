use space_renderer::fixed::{div_floor, isqrt, saturate, Fixed};
use space_renderer::trig::{cos, sin, wrap_angle};

fn raw(value: i32) -> Fixed {
    Fixed::from_raw(value)
}

#[test]
fn whole_numbers_scale_by_65536() {
    assert_eq!(Fixed::from_int(3).raw, 196608);
    assert_eq!(Fixed::from_int(-2).raw, -131072);
    assert_eq!(Fixed::one().raw, 65536);
    assert_eq!(Fixed::zero().raw, 0);
}

#[test]
fn whole_numbers_saturate() {
    assert_eq!(Fixed::from_int(40000).raw, i32::MAX);
    assert_eq!(Fixed::from_int(-40000).raw, i32::MIN);
}

#[test]
fn sums_and_differences_saturate() {
    assert_eq!(raw(i32::MAX).add(raw(1)).raw, i32::MAX);
    assert_eq!(raw(i32::MIN).sub(raw(1)).raw, i32::MIN);
    assert_eq!(raw(100).add(raw(-30)).raw, 70);
    assert_eq!(raw(100).sub(raw(130)).raw, -30);
    assert_eq!(raw(i32::MIN).neg().raw, i32::MAX);
    assert_eq!(raw(i32::MIN).abs().raw, i32::MAX);
    assert_eq!(raw(-5).abs().raw, 5);
}

#[test]
fn products_round_down() {
    // 1.5 * 2.5 = 3.75
    assert_eq!(raw(98304).mul(raw(163840)).raw, 245760);
    // the smallest negative times the smallest positive rounds to minus one unit
    assert_eq!(raw(-1).mul(raw(1)).raw, -1);
    assert_eq!(raw(1).mul(raw(1)).raw, 0);
    assert_eq!(Fixed::from_int(30000).mul(Fixed::from_int(30000)).raw, i32::MAX);
    assert_eq!(Fixed::from_int(30000).mul(Fixed::from_int(-30000)).raw, i32::MIN);
}

#[test]
fn quotients_round_down_and_zero_divides_to_zero() {
    assert_eq!(Fixed::one().div(Fixed::from_int(3)).raw, 21845);
    assert_eq!(Fixed::from_int(-1).div(Fixed::from_int(3)).raw, -21846);
    assert_eq!(Fixed::one().div(Fixed::from_int(-3)).raw, -21846);
    assert_eq!(Fixed::from_int(7).div(Fixed::zero()).raw, 0);
    assert_eq!(Fixed::from_int(7).div(raw(1)).raw, i32::MAX);
    assert_eq!(Fixed::from_int(-7).div(raw(1)).raw, i32::MIN);
}

#[test]
fn square_roots_round_down() {
    assert_eq!(Fixed::from_int(4).sqrt().raw, 131072);
    assert_eq!(Fixed::from_int(2).sqrt().raw, 92681);
    assert_eq!(Fixed::from_int(-1).sqrt().raw, 0);
    assert_eq!(Fixed::zero().sqrt().raw, 0);
    assert_eq!(isqrt(0), 0);
    assert_eq!(isqrt(15), 3);
    assert_eq!(isqrt(16), 4);
    assert_eq!(isqrt(u64::MAX), 4294967295);
}

#[test]
fn floor_and_bounds() {
    assert_eq!(raw(-32768).floor(), -1);
    assert_eq!(raw(98304).floor(), 1);
    assert_eq!(raw(5).min(raw(9)).raw, 5);
    assert_eq!(raw(5).max(raw(9)).raw, 9);
    assert_eq!(raw(12).clamp(raw(0), raw(10)).raw, 10);
    assert_eq!(raw(-3).clamp(raw(0), raw(10)).raw, 0);
    assert_eq!(raw(4).clamp(raw(0), raw(10)).raw, 4);
    assert_eq!(div_floor(-7, 2), -4);
    assert_eq!(div_floor(7, 2), 3);
    assert_eq!(div_floor(-8, 2), -4);
    assert_eq!(saturate(1 << 40), i32::MAX);
    assert_eq!(saturate(-(1 << 40)), i32::MIN);
    assert_eq!(saturate(-17), -17);
}

#[test]
fn sine_and_cosine_at_the_quarter_turns() {
    assert_eq!(sin(0).raw, 0);
    assert_eq!(sin(102944).raw, 65536);
    assert_eq!(sin(205888).raw, 0);
    assert_eq!(sin(308832).raw, -65536);
    assert_eq!(cos(0).raw, 65536);
    assert_eq!(cos(102944).raw, 0);
    assert_eq!(cos(205888).raw, -65536);
}

#[test]
fn sine_of_a_sixth_of_a_half_turn_is_one_half() {
    assert_eq!(sin(34315).raw, 32768);
    assert_eq!(cos(68629).raw, 32768);
    assert_eq!(sin(65536).raw, 55064);
    assert_eq!(cos(65536).raw, 35389);
}

#[test]
fn sine_is_periodic_and_odd_about_the_half_turn() {
    for angle in [-900_000i64, -12345, 0, 777, 102944, 250_000, 5_000_000] {
        assert_eq!(sin(angle).raw, sin(angle + 411776).raw);
        assert_eq!(sin(angle).raw, -sin(angle + 205888).raw);
        assert_eq!(sin(angle).raw, sin(wrap_angle(angle as i128)).raw);
    }
    assert_eq!(wrap_angle(-1), 411775);
    assert_eq!(wrap_angle(411776), 0);
}

#[test]
fn sine_stays_close_to_the_true_sine() {
    let mut angle: i64 = -2_000_000;
    while angle < 2_000_000 {
        let got = sin(angle).raw;
        assert!((-65536..=65536).contains(&got));
        let truth = ((angle as f64) / 65536.0).sin();
        assert!(((got as f64) / 65536.0 - truth).abs() < 0.002);
        angle += 997;
    }
}

#[test]
fn sine_accepts_the_ends_of_the_range() {
    let low = sin(i64::MIN).raw;
    let high = cos(i64::MAX).raw;
    assert!((-65536..=65536).contains(&low));
    assert!((-65536..=65536).contains(&high));
}
