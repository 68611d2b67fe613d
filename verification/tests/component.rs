use palette::{Component, FromComponent, IntoComponent};

#[test]
fn u16_from_u8_1() {
    assert_eq!(u16::from_component(0xFEu8), 0xFEFEu16);
}

#[test]
fn u16_from_u8_2() {
    assert_eq!(u16::from_component(0xFFu8), 0xFFFFu16);
}

#[test]
fn u32_from_u8_1() {
    assert_eq!(u32::from_component(0xFEu8), 0xFEFEFEFEu32);
}

#[test]
fn u32_from_u8_2() {
    assert_eq!(u32::from_component(0xFFu8), 0xFFFFFFFFu32);
}

#[test]
fn u32_from_u16_1() {
    assert_eq!(u32::from_component(0xFFFEu16), 0xFFFEFFFEu32);
}

#[test]
fn u32_from_u16_2() {
    assert_eq!(u32::from_component(0xFFFFu16), 0xFFFFFFFFu32);
}

#[test]
fn u8_from_u16_1() {
    assert_eq!(u8::from_component(0xFF7Eu16), 0xFEu8);
}

#[test]
fn u8_from_u16_2() {
    assert_eq!(u8::from_component(0xFF7Fu16), 0xFFu8);
}

#[test]
fn u8_from_u32_1() {
    assert_eq!(u8::from_component(0xFF7F7F7Eu32), 0xFEu8);
}

#[test]
fn u8_from_u32_2() {
    assert_eq!(u8::from_component(0xFF7F7F7Fu32), 0xFFu8);
}

#[test]
fn u16_from_u32_1() {
    assert_eq!(u16::from_component(0xFFFF7FFEu32), 0xFFFEu16);
}

#[test]
fn u16_from_u32_2() {
    assert_eq!(u16::from_component(0xFFFF7FFFu32), 0xFFFFu16);
}

#[test]
fn max_intensity_of_each_integer_type() {
    assert_eq!(u8::max_intensity(), 255);
    assert_eq!(u16::max_intensity(), 65535);
    assert_eq!(u32::max_intensity(), 4294967295);
    assert_eq!(u64::max_intensity(), u64::MAX);
}

#[test]
fn widening_then_narrowing_is_identity() {
    for v in 0..=255u8 {
        let wide: u16 = v.into_component();
        assert_eq!(u8::from_component(wide), v);
        let wider: u32 = v.into_component();
        assert_eq!(u8::from_component(wider), v);
    }
    for v in [0u16, 1, 2, 127, 128, 255, 256, 0x7FFF, 0x8000, 0xFFFE, 0xFFFF] {
        let wide: u32 = v.into_component();
        assert_eq!(u16::from_component(wide), v);
    }
}

#[test]
fn narrowing_rounds_to_nearest() {
    // 128 / 257 is closer to 0, 129 / 257 is closer to 1.
    assert_eq!(u8::from_component(128u16), 0);
    assert_eq!(u8::from_component(129u16), 1);
    assert_eq!(u8::from_component(0u16), 0);
    assert_eq!(u16::from_component(32768u32), 0);
    assert_eq!(u16::from_component(32769u32), 1);
}

#[test]
fn narrowing_is_monotonic() {
    let mut previous = 0u8;
    for v in (0..=0xFFFFu16).step_by(7) {
        let n = u8::from_component(v);
        assert!(n >= previous);
        previous = n;
    }
}
