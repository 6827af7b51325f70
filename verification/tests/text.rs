use query_macros::text::{str_eq, u128_to_string, usize_to_string};

#[test]
fn decimal_rendering() {
    assert_eq!(usize_to_string(0), "0");
    assert_eq!(usize_to_string(7), "7");
    assert_eq!(usize_to_string(10), "10");
    assert_eq!(usize_to_string(1234567890), "1234567890");
    assert_eq!(usize_to_string(usize::MAX), usize::MAX.to_string());
    assert_eq!(u128_to_string(u128::MAX), u128::MAX.to_string());
    assert_eq!(u128_to_string(100), "100");
}

#[test]
fn strings_compare_by_characters() {
    assert!(str_eq("", ""));
    assert!(str_eq("source", "source"));
    assert!(!str_eq("source", "source_file"));
    assert!(!str_eq("Source", "source"));
}
