use si5351::encoder::encode;
use si5351::{Error, OutputDivider};

fn fields(bytes: &[u8; 8]) -> (u32, u32, u32) {
    let p3 = ((bytes[5] as u32 >> 4) << 16) | ((bytes[0] as u32) << 8) | bytes[1] as u32;
    let p1 = ((bytes[2] as u32 & 0x03) << 16) | ((bytes[3] as u32) << 8) | bytes[4] as u32;
    let p2 = ((bytes[5] as u32 & 0x0F) << 16) | ((bytes[6] as u32) << 8) | bytes[7] as u32;
    (p1, p2, p3)
}

#[test]
fn integer_ratio_has_p1_from_the_divider_alone() {
    for d in [6u16, 8, 15, 36, 90, 900, 1800] {
        for denom in [1u32, 2, 1000, 0xF_FFFF] {
            let (bytes, integer_mode) = encode(d, 0, denom, OutputDivider::Div1).unwrap();
            assert!(integer_mode);
            assert_eq!(fields(&bytes), (128 * d as u32 - 512, 0, 1));
        }
    }
}

#[test]
fn integer_ratio_bytes() {
    assert_eq!(
        encode(36, 0, 1, OutputDivider::Div1),
        Ok(([0x00, 0x01, 0x00, 0x10, 0x00, 0x00, 0x00, 0x00], true))
    );
    assert_eq!(
        encode(900, 0, 1, OutputDivider::Div1),
        Ok(([0x00, 0x01, 0x01, 0xC0, 0x00, 0x00, 0x00, 0x00], true))
    );
    assert_eq!(
        encode(1800, 0, 5, OutputDivider::Div1),
        Ok(([0x00, 0x01, 0x03, 0x82, 0x00, 0x00, 0x00, 0x00], true))
    );
}

#[test]
fn fractional_ratio_bytes() {
    assert_eq!(
        encode(35, 671_088, 1_048_575, OutputDivider::Div1),
        Ok(([0xFF, 0xFF, 0x00, 0x0F, 0xD1, 0xFE, 0xB8, 0x51], false))
    );
    assert_eq!(
        encode(35, 408_357, 1_048_575, OutputDivider::Div1),
        Ok(([0xFF, 0xFF, 0x00, 0x0F, 0xB1, 0xFD, 0x92, 0xB1], false))
    );
    assert_eq!(
        encode(36, 1, 2, OutputDivider::Div8),
        Ok(([0x00, 0x02, 0x03, 0x10, 0x40, 0x00, 0x00, 0x00], false))
    );
}

#[test]
fn fractional_fields_follow_the_formulas() {
    let (bytes, integer_mode) = encode(35, 671_088, 1_048_575, OutputDivider::Div1).unwrap();
    assert!(!integer_mode);
    let ratio = (128u64 * 671_088 / 1_048_575) as u32;
    assert_eq!(ratio, 81);
    assert_eq!(
        fields(&bytes),
        (128 * 35 + ratio - 512, 128 * 671_088 - 1_048_575 * ratio, 1_048_575)
    );
}

#[test]
fn output_divider_code_shares_the_byte_with_the_top_of_p1() {
    assert_eq!(encode(6, 0, 1, OutputDivider::Div1).unwrap().0[2], 0x00);
    assert_eq!(encode(6, 0, 1, OutputDivider::Div2).unwrap().0[2], 0x01);
    assert_eq!(encode(6, 0, 1, OutputDivider::Div16).unwrap().0[2], 0x04);
    assert_eq!(encode(6, 0, 1, OutputDivider::Div128).unwrap().0[2], 0x07);
    assert_eq!(encode(562, 0, 1, OutputDivider::Div16).unwrap().0[2], 0x05);
    assert_eq!(encode(2048, 0, 1, OutputDivider::Div32).unwrap().0, [0x00, 0x01, 0x07, 0xFE, 0x00, 0x00, 0x00, 0x00]);
}

#[test]
fn numerator_equal_to_denominator_is_encoded() {
    assert_eq!(
        encode(8, 0xF_FFFF, 0xF_FFFF, OutputDivider::Div128),
        Ok(([0xFF, 0xFF, 0x07, 0x02, 0x80, 0xF0, 0x00, 0x00], false))
    );
}

#[test]
fn zero_denominator_is_rejected() {
    assert_eq!(encode(36, 0, 0, OutputDivider::Div1), Err(Error::InvalidParameter));
    assert_eq!(encode(36, 5, 0, OutputDivider::Div1), Err(Error::InvalidParameter));
}

#[test]
fn oversized_denominator_is_rejected() {
    assert_eq!(encode(36, 0, 0x10_0000, OutputDivider::Div1), Err(Error::InvalidParameter));
    assert_eq!(encode(36, 1, u32::MAX, OutputDivider::Div1), Err(Error::InvalidParameter));
    assert!(encode(36, 1, 0xF_FFFF, OutputDivider::Div1).is_ok());
}

#[test]
fn oversized_numerator_is_rejected() {
    assert_eq!(encode(36, 0x10_0000, 1, OutputDivider::Div1), Err(Error::InvalidParameter));
    assert!(encode(36, 0xF_FFFF, 1, OutputDivider::Div1).is_ok());
}

#[test]
fn smallest_integer_part_gives_p1_of_zero() {
    assert_eq!(
        encode(4, 0, 1, OutputDivider::Div1),
        Ok(([0x00, 0x01, 0x00, 0x00, 0x00, 0x00, 0x00, 0x00], true))
    );
}
