use server::text::{color_string, i32_decimal, push_hex_byte, uuid_string};

#[test]
fn color_string_is_hash_and_lowercase_hex() {
    assert_eq!(color_string(&[0x12, 0xab, 0xff]), "#12abff");
    assert_eq!(color_string(&[0, 0, 0]), "#000000");
    assert_eq!(color_string(&[0x0f, 0xf0, 0x7e]), "#0ff07e");
}

#[test]
fn color_string_matches_two_digit_hex_formatting() {
    for b in [0u8, 1, 9, 10, 15, 16, 127, 128, 200, 255] {
        let expected = format!("#{:02x}{:02x}{:02x}", b, 255 - b, b / 3);
        assert_eq!(color_string(&[b, 255 - b, b / 3]), expected);
    }
}

#[test]
fn push_hex_byte_appends_two_digits() {
    let mut s = String::from("x");
    push_hex_byte(&mut s, 0x5c);
    assert_eq!(s, "x5c");
    push_hex_byte(&mut s, 0x07);
    assert_eq!(s, "x5c07");
}

#[test]
fn uuid_string_is_hyphenated_lowercase() {
    let bytes = [
        0x67, 0xe5, 0x50, 0x44, 0x10, 0xb1, 0x42, 0x6f, 0x92, 0x47, 0xbb, 0x68, 0x0e, 0x5f, 0xe0,
        0xc8,
    ];
    assert_eq!(uuid_string(&bytes), "67e55044-10b1-426f-9247-bb680e5fe0c8");
    assert_eq!(uuid_string(&[0u8; 16]), "00000000-0000-0000-0000-000000000000");
}

#[test]
fn uuid_string_agrees_with_the_uuid_crate() {
    let bytes = [
        0xa1, 0xa2, 0xa3, 0xa4, 0xb1, 0xb2, 0xc1, 0xc2, 0xd1, 0xd2, 0xd3, 0xd4, 0xd5, 0xd6, 0xd7,
        0xd8,
    ];
    let expected = uuid::Uuid::from_bytes(bytes).to_hyphenated().to_string();
    assert_eq!(uuid_string(&bytes), expected);
}

#[test]
fn i32_decimal_matches_to_string() {
    for n in [0, 7, 10, 42, 1234, -1, -10, -987, i32::MAX, i32::MIN] {
        assert_eq!(i32_decimal(n), n.to_string());
    }
    assert_eq!(i32_decimal(i32::MIN), "-2147483648");
    assert_eq!(i32_decimal(305), "305");
}

#[test]
fn distinct_ids_have_distinct_decimal_texts() {
    let values = [-100, -10, -1, 0, 1, 10, 100, 1000, i32::MAX, i32::MIN];
    for a in values {
        for b in values {
            assert_eq!(a == b, i32_decimal(a) == i32_decimal(b));
        }
    }
}
