use schani_import::decimal::{i32_text, u64_text};

#[test]
fn decimal_text_of_small_numbers() {
    assert_eq!(i32_text(0), "0");
    assert_eq!(i32_text(7), "7");
    assert_eq!(i32_text(42), "42");
    assert_eq!(i32_text(-5), "-5");
}

#[test]
fn decimal_text_of_extremes_matches_to_string() {
    for n in [i32::MIN, i32::MIN + 1, -10, -9, -1, 9, 10, 99, 100, 1000000, i32::MAX] {
        assert_eq!(i32_text(n), n.to_string());
    }
    for n in [0u64, 9, 10, 11, 255, 1 << 32, u64::MAX] {
        assert_eq!(u64_text(n), n.to_string());
    }
}

#[test]
fn distinct_numbers_have_distinct_texts() {
    let texts: Vec<String> = (-20..20).map(i32_text).collect();
    for (i, a) in texts.iter().enumerate() {
        for (j, b) in texts.iter().enumerate() {
            assert_eq!(i == j, a == b);
        }
    }
}
