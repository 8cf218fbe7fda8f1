use tv::text::{digits, text_width};

#[test]
fn digits_counts_decimal_digits() {
    assert_eq!(digits(0), 1);
    assert_eq!(digits(9), 1);
    assert_eq!(digits(10), 2);
    assert_eq!(digits(99), 2);
    assert_eq!(digits(100), 3);
    assert_eq!(digits(12345), 5);
    assert_eq!(digits(usize::MAX), usize::MAX.to_string().len());
}

#[test]
fn text_width_counts_bytes() {
    assert_eq!(text_width(&"".to_string()), 0);
    assert_eq!(text_width(&"abc".to_string()), 3);
    assert_eq!(text_width(&"\u{00e9}".to_string()), 2);
    assert_eq!(text_width(&"\u{2205}".to_string()), 3);
}
