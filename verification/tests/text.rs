use paddle_api::text::{bool_to_string, followed_by, i32_to_string, join, str_eq};

#[test]
fn decimal_numerals() {
    assert_eq!(i32_to_string(0), "0");
    assert_eq!(i32_to_string(7), "7");
    assert_eq!(i32_to_string(10), "10");
    assert_eq!(i32_to_string(200), "200");
    assert_eq!(i32_to_string(-1), "-1");
    assert_eq!(i32_to_string(1234567890), "1234567890");
    assert_eq!(i32_to_string(i32::MAX), "2147483647");
    assert_eq!(i32_to_string(i32::MIN), "-2147483648");
    for n in [-1000, -99, -10, -9, 9, 11, 99, 100, 101, 65535] {
        assert_eq!(i32_to_string(n), n.to_string());
    }
}

#[test]
fn truth_values() {
    assert_eq!(bool_to_string(true), "true");
    assert_eq!(bool_to_string(false), "false");
}

#[test]
fn joining() {
    let none: Vec<String> = vec![];
    assert_eq!(join(&none, ","), "");
    assert_eq!(join(&vec!["a".to_string()], ","), "a");
    assert_eq!(
        join(&vec!["a".to_string(), "b".to_string(), "c".to_string()], ","),
        "a,b,c"
    );
    assert_eq!(
        join(&vec!["".to_string(), "".to_string()], ", "),
        ", "
    );
    assert_eq!(followed_by("Bearer ", "x"), "Bearer x");
}

#[test]
fn equality_of_texts() {
    assert!(str_eq("", ""));
    assert!(str_eq("saas", "saas"));
    assert!(!str_eq("saas", "saa"));
    assert!(!str_eq("saas", "saat"));
    assert!(str_eq("é\u{1F600}", "é\u{1F600}"));
    assert!(!str_eq("é", "e"));
}
