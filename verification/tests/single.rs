use mandelrust::protocol::Region;
use mandelrust::single::{finite, less_than, region_usable};

fn samples() -> Vec<f32> {
    vec![
        0.0,
        -0.0,
        1.0,
        -1.0,
        -1.4,
        0.6,
        0.1,
        -0.1,
        4.0,
        1.0e-45,
        -1.0e-45,
        1.1754942e-38,
        1.17549435e-38,
        -1.17549435e-38,
        3.4028235e38,
        -3.4028235e38,
        f32::INFINITY,
        f32::NEG_INFINITY,
        f32::NAN,
        -f32::NAN,
        f32::from_bits(0x7F80_0001),
        f32::from_bits(0xFFFF_FFFF),
        f32::EPSILON,
        1.0 + f32::EPSILON,
        -1.0 - f32::EPSILON,
        123456.789,
        -123456.789,
    ]
}

#[test]
fn order_of_patterns_is_the_order_of_numbers() {
    let all = samples();
    for a in &all {
        for b in &all {
            assert_eq!(less_than(a.to_bits(), b.to_bits()), a < b, "{} < {}", a, b);
        }
    }
}

#[test]
fn zeros_are_equal() {
    assert!(!less_than((-0.0f32).to_bits(), 0.0f32.to_bits()));
    assert!(!less_than(0.0f32.to_bits(), (-0.0f32).to_bits()));
}

#[test]
fn nothing_compares_with_what_is_no_number() {
    let nan = f32::NAN.to_bits();
    assert!(!less_than(nan, 1.0f32.to_bits()));
    assert!(!less_than(1.0f32.to_bits(), nan));
    assert!(!less_than(nan, nan));
}

#[test]
fn finite_patterns() {
    for a in samples() {
        assert_eq!(finite(a.to_bits()), a.is_finite(), "{}", a);
    }
}

#[test]
fn order_along_a_sweep_of_patterns() {
    let mut bits: u32 = 0;
    let mut previous: Option<u32> = None;
    // every 65521st pattern of the positive numbers, then of the negative ones
    while bits < 0x7F80_0000 {
        if let Some(p) = previous {
            assert!(less_than(p, bits));
            assert!(!less_than(bits, p));
            assert!(less_than(bits | 0x8000_0000, p | 0x8000_0000));
            assert_eq!(less_than(p, bits), f32::from_bits(p) < f32::from_bits(bits));
        }
        previous = Some(bits);
        bits += 65521;
    }
}

fn region(re0: f32, re1: f32, im0: f32, im1: f32) -> Region {
    Region { re0: re0.to_bits(), re1: re1.to_bits(), im0: im0.to_bits(), im1: im1.to_bits() }
}

#[test]
fn usable_regions() {
    assert!(region_usable(Region::initial()));
    assert!(region_usable(region(-1.4, 0.6, -1.0, 1.0)));
    assert!(region_usable(region(-0.0, 1.0e-45, -1.0e-45, 0.0)));
    assert!(region_usable(region(-3.4028235e38, 3.4028235e38, 1.0, 2.0)));
}

#[test]
fn unusable_regions() {
    // inverted on one axis
    assert!(!region_usable(region(0.6, -1.4, -1.0, 1.0)));
    assert!(!region_usable(region(-1.4, 0.6, 1.0, -1.0)));
    // without extent
    assert!(!region_usable(region(0.5, 0.5, -1.0, 1.0)));
    assert!(!region_usable(region(-1.4, 0.6, 0.0, -0.0)));
    // not finite
    assert!(!region_usable(region(f32::NEG_INFINITY, 0.6, -1.0, 1.0)));
    assert!(!region_usable(region(-1.4, f32::INFINITY, -1.0, 1.0)));
    assert!(!region_usable(region(-1.4, 0.6, f32::NAN, 1.0)));
    assert!(!region_usable(region(-1.4, 0.6, -1.0, f32::NAN)));
}
