use map_render_state::zoom::Zoom;

fn level(zoom: f64) -> u8 {
    Zoom { bits: zoom.to_bits() }.floor_to_level()
}

#[test]
fn whole_zooms_are_their_own_level() {
    for z in 0..=255u8 {
        assert_eq!(level(f64::from(z)), z);
    }
}

#[test]
fn zooms_are_rounded_down() {
    assert_eq!(level(0.999_999), 0);
    assert_eq!(level(1.5), 1);
    assert_eq!(level(13.7), 13);
    assert_eq!(level(14.0 - 1e-12), 13);
    assert_eq!(level(254.999), 254);
    assert_eq!(level(255.999), 255);
}

#[test]
fn large_zooms_stop_at_the_highest_level() {
    assert_eq!(level(256.0), 255);
    assert_eq!(level(1e300), 255);
    assert_eq!(level(f64::MAX), 255);
    assert_eq!(level(f64::INFINITY), 255);
}

#[test]
fn zooms_below_one_are_level_zero() {
    assert_eq!(level(0.0), 0);
    assert_eq!(level(-0.0), 0);
    assert_eq!(level(-0.5), 0);
    assert_eq!(level(-300.0), 0);
    assert_eq!(level(f64::NEG_INFINITY), 0);
    assert_eq!(level(f64::NAN), 0);
    assert_eq!(level(-f64::NAN), 0);
    assert_eq!(level(f64::MIN_POSITIVE), 0);
    assert_eq!(level(f64::from_bits(1)), 0);
}

#[test]
fn levels_agree_with_float_arithmetic() {
    let mut zoom = -5.0f64;
    while zoom < 300.0 {
        assert_eq!(level(zoom), zoom.floor() as u8);
        zoom += 0.0371;
    }
    for shift in 0..64u32 {
        for pattern in [1u64, 3, 0x1234_5678_9abc, 0x7ff0_0000_0000_0001, u64::MAX] {
            let bits = pattern.rotate_left(shift);
            assert_eq!(Zoom { bits }.floor_to_level(), f64::from_bits(bits).floor() as u8);
        }
    }
}

#[test]
fn zooming_in_never_lowers_the_level() {
    let mut last = 0u8;
    let mut zoom = -3.0f64;
    while zoom < 20.0 {
        let next = level(zoom);
        assert!(last <= next);
        last = next;
        zoom += 0.01;
    }
    assert_eq!(last, 19);
}

#[test]
fn the_zero_zoom_is_positive_zero() {
    assert_eq!(Zoom::zero().bits, 0.0f64.to_bits());
}
