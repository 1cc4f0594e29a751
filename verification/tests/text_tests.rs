use dot_capture::text::{digit, push_decimal, push_hex};

#[test]
fn digits_are_lower_case() {
    let all: String = (0..16).map(digit).collect();
    assert_eq!(all, "0123456789abcdef");
}

#[test]
fn hex_of_every_byte_matches_the_standard_rendering() {
    for n in 0..=u8::MAX {
        let mut text = String::from("x");
        push_hex(&mut text, n);
        assert_eq!(text, format!("x{:02x}", n));
    }
}

#[test]
fn decimal_of_every_byte_matches_the_standard_rendering() {
    for n in 0..=u8::MAX {
        let mut text = String::from("x");
        push_decimal(&mut text, n);
        assert_eq!(text, format!("x{}", n));
    }
}
