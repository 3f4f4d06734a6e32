use midi_gun::fraction::{Fraction, FULL_SCALE};

fn tenths(numerator: u32) -> Fraction {
    Fraction { numerator, denominator: 10 }
}

#[test]
fn full_scale_is_the_largest_seven_bit_value() {
    assert_eq!(FULL_SCALE, 127);
}

#[test]
fn a_level_is_a_part_of_full_scale() {
    let half = Fraction::from_level(64);
    assert_eq!(half.numerator, 64);
    assert_eq!(half.denominator, 127);
    let nothing = Fraction::from_level(0);
    assert_eq!((nothing.numerator, nothing.denominator), (0, 127));
    let all = Fraction::from_level(127);
    assert_eq!((all.numerator, all.denominator), (127, 127));
}

#[test]
fn seven_tenths_lie_between_88_and_89() {
    assert!(!tenths(7).is_reached_by(88));
    assert!(tenths(7).is_reached_by(89));
    assert!(!tenths(7).is_exceeded_by(88));
    assert!(tenths(7).is_exceeded_by(89));
}

#[test]
fn three_tenths_lie_between_38_and_39() {
    assert!(!tenths(3).is_exceeded_by(38));
    assert!(tenths(3).is_exceeded_by(39));
    assert!(!tenths(3).is_reached_by(38));
    assert!(tenths(3).is_reached_by(39));
}

#[test]
fn a_threshold_that_a_level_hits_is_reached_and_not_exceeded() {
    let hit = Fraction { numerator: 64, denominator: 127 };
    assert!(hit.is_reached_by(64));
    assert!(!hit.is_exceeded_by(64));
    assert!(!hit.is_reached_by(63));
    assert!(hit.is_exceeded_by(65));
    let one = Fraction { numerator: 1, denominator: 1 };
    assert!(one.is_reached_by(127));
    assert!(!one.is_exceeded_by(127));
    assert!(!one.is_reached_by(126));
    let zero = Fraction { numerator: 0, denominator: 1 };
    assert!(zero.is_reached_by(0));
    assert!(!zero.is_exceeded_by(0));
    assert!(zero.is_exceeded_by(1));
}

#[test]
fn equal_fractions_compare_alike() {
    let a = Fraction { numerator: 1, denominator: 2 };
    let b = Fraction { numerator: 2_000_000_000, denominator: 4_000_000_000 };
    for level in 0..=255u8 {
        assert_eq!(a.is_reached_by(level), b.is_reached_by(level));
        assert_eq!(a.is_exceeded_by(level), b.is_exceeded_by(level));
        assert_eq!(a.is_reached_by(level), level >= 64);
        assert_eq!(a.is_exceeded_by(level), level >= 64);
    }
}

#[test]
fn the_largest_terms_do_not_overflow() {
    let large = Fraction { numerator: u32::MAX, denominator: u32::MAX };
    assert!(large.is_reached_by(127));
    assert!(!large.is_exceeded_by(127));
    assert!(large.is_exceeded_by(255));
    let steep = Fraction { numerator: u32::MAX, denominator: 1 };
    assert!(!steep.is_reached_by(255));
}

#[test]
fn a_zero_denominator_is_never_reached() {
    for numerator in [0u32, 1, 7] {
        let none = Fraction { numerator, denominator: 0 };
        for level in [0u8, 1, 127, 255] {
            assert!(!none.is_reached_by(level));
            assert!(!none.is_exceeded_by(level));
        }
    }
}
