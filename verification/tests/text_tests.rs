use curriculum_board::text::{i32_text, parse_i32};

const SAMPLES: [&str; 24] = [
    "0", "42", "-7", "+5", "007", "-0", "", "-", "+", "abc", "1a", " 1", "1 ", "2147483647",
    "2147483648", "-2147483648", "-2147483649", "99999999999999999999", "+-1", "--1", "١٢", "12٣",
    "-+3", "+0",
];

#[test]
fn parse_i32_agrees_with_std() {
    for s in SAMPLES.iter() {
        assert_eq!(parse_i32(s), s.parse::<i32>().ok(), "input {:?}", s);
    }
}

#[test]
fn parse_i32_examples() {
    assert_eq!(parse_i32("42"), Some(42));
    assert_eq!(parse_i32("-2147483648"), Some(i32::MIN));
    assert_eq!(parse_i32("2147483648"), None);
    assert_eq!(parse_i32(""), None);
    assert_eq!(parse_i32("-"), None);
    assert_eq!(parse_i32("x1"), None);
}

#[test]
fn i32_text_agrees_with_display() {
    let values = [0, 1, 9, 10, 42, 100, -1, -10, 12345, i32::MAX, i32::MIN, -2147483647];
    for v in values.iter() {
        assert_eq!(i32_text(*v), v.to_string());
    }
}

#[test]
fn text_reads_back() {
    for v in [0, 7, -7, 2024, i32::MAX, i32::MIN].iter() {
        assert_eq!(parse_i32(&i32_text(*v)), Some(*v));
    }
}
