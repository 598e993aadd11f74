use nexus_core::analog::Analog;

fn analog(value: f32) -> Analog {
    Analog::from_bits(value.to_bits())
}

#[test]
fn bits_round_trip() {
    assert_eq!(Analog::from_bits(0x3f3a_e148).to_bits(), 0x3f3a_e148);
    assert_eq!(f32::from_bits(analog(0.73).to_bits()), 0.73);
    assert_eq!(f32::from_bits(analog(-0.95).to_bits()), -0.95);
}

#[test]
fn zero_is_positive_zero() {
    assert_eq!(Analog::zero().to_bits(), 0);
    assert_eq!(f32::from_bits(Analog::zero().to_bits()), 0.0);
}

#[test]
fn threshold_is_one_half() {
    assert!(analog(0.5).is_down());
    assert!(analog(0.500_000_06).is_down());
    assert!(!analog(0.499_999_97).is_down());
    assert_eq!(analog(0.5).to_bits(), 0x3f00_0000);
    assert!(Analog::from_bits(0x3f00_0000).is_down());
    assert!(!Analog::from_bits(0x3eff_ffff).is_down());
}

#[test]
fn threshold_on_ordinary_values() {
    assert!(analog(1.0).is_down());
    assert!(analog(0.73).is_down());
    assert!(analog(0.75).is_down());
    assert!(!analog(0.0).is_down());
    assert!(!analog(0.02).is_down());
    assert!(!analog(0.25).is_down());
}

#[test]
fn threshold_rejects_negative_values() {
    assert!(!analog(-0.5).is_down());
    assert!(!analog(-0.95).is_down());
    assert!(!analog(-1.0).is_down());
    assert!(!analog(-0.0).is_down());
    assert!(!analog(f32::NEG_INFINITY).is_down());
}

#[test]
fn threshold_on_extremes() {
    assert!(analog(f32::MAX).is_down());
    assert!(analog(f32::INFINITY).is_down());
    assert!(!analog(f32::MIN_POSITIVE).is_down());
    assert!(!analog(f32::from_bits(1)).is_down());
    assert!(!analog(f32::NAN).is_down());
    assert!(!Analog::from_bits(0x7f80_0001).is_down());
    assert!(!Analog::from_bits(0x7fff_ffff).is_down());
    assert!(!Analog::from_bits(0xffff_ffff).is_down());
}

#[test]
fn threshold_agrees_with_comparison_across_the_range() {
    let mut bits: u32 = 0;
    let mut checked: u32 = 0;
    loop {
        let expected = f32::from_bits(bits) >= 0.5;
        assert_eq!(Analog::from_bits(bits).is_down(), expected, "bits {:#010x}", bits);
        checked += 1;
        match bits.checked_add(65_521) {
            Some(next) => bits = next,
            None => break,
        }
    }
    assert!(checked > 65_000);
}

#[test]
fn threshold_agrees_with_comparison_near_the_edges() {
    let edges: [u32; 6] = [0x0000_0000, 0x3f00_0000, 0x7f80_0000, 0x8000_0000, 0xbf00_0000, 0xff80_0000];
    for edge in edges {
        let mut offset: u32 = 0;
        while offset < 64 {
            for bits in [edge.wrapping_add(offset), edge.wrapping_sub(offset)] {
                let expected = f32::from_bits(bits) >= 0.5;
                assert_eq!(Analog::from_bits(bits).is_down(), expected, "bits {:#010x}", bits);
            }
            offset += 1;
        }
    }
}
