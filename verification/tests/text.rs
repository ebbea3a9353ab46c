use lv2_smoketest::text::{bool_string, decimal_string, int_string, join_strings, string_le};

#[test]
fn decimal_renders_digits() {
    assert_eq!(decimal_string(0), "0");
    assert_eq!(decimal_string(7), "7");
    assert_eq!(decimal_string(10), "10");
    assert_eq!(decimal_string(1234), "1234");
    assert_eq!(decimal_string(u64::MAX), u64::MAX.to_string());
}

#[test]
fn int_renders_like_rust() {
    assert_eq!(int_string(0), "0");
    assert_eq!(int_string(7), "7");
    assert_eq!(int_string(-42), "-42");
    assert_eq!(int_string(i32::MAX), "2147483647");
    assert_eq!(int_string(i32::MIN), "-2147483648");
    for v in [-1000, -1, 1, 99, 100, 65536] {
        assert_eq!(int_string(v), v.to_string());
    }
}

#[test]
fn bool_renders_like_rust() {
    assert_eq!(bool_string(true), "true");
    assert_eq!(bool_string(false), "false");
}

#[test]
fn join_puts_separator_between() {
    let none: Vec<String> = vec![];
    assert_eq!(join_strings(&none, ", "), "");
    assert_eq!(join_strings(&vec!["a".to_string()], ", "), "a");
    let items = vec!["urn:a".to_string(), "urn:b".to_string(), "urn:c".to_string()];
    assert_eq!(join_strings(&items, ", "), "urn:a, urn:b, urn:c");
}

#[test]
fn string_order_is_rust_order() {
    let words = ["", "a", "ab", "b", "B", "z", "é", "ä", "http://x/1", "http://x/10", "http://x/2"];
    for a in words {
        for b in words {
            assert_eq!(string_le(&a.to_string(), &b.to_string()), a <= b, "{a} <= {b}");
        }
    }
}
