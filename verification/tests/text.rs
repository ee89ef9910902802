use demo_server::text::{parse_i32, push_i32};

fn shown(n: i32) -> String {
    let mut s = String::new();
    push_i32(&mut s, n);
    s
}

#[test]
fn displays_like_the_standard_library() {
    for n in [0, 7, 10, 42, -1, -42, 1000000, i32::MAX, i32::MIN] {
        assert_eq!(shown(n), n.to_string());
    }
}

#[test]
fn appends_after_existing_text() {
    let mut s = String::from("id=");
    push_i32(&mut s, -305);
    assert_eq!(s, "id=-305");
}

#[test]
fn parses_plain_and_signed_numbers() {
    assert_eq!(parse_i32("12"), Some(12));
    assert_eq!(parse_i32("+12"), Some(12));
    assert_eq!(parse_i32("-12"), Some(-12));
    assert_eq!(parse_i32("-0"), Some(0));
    assert_eq!(parse_i32("007"), Some(7));
}

#[test]
fn parses_the_limits_of_i32() {
    assert_eq!(parse_i32("2147483647"), Some(i32::MAX));
    assert_eq!(parse_i32("-2147483648"), Some(i32::MIN));
    assert_eq!(parse_i32("2147483648"), None);
    assert_eq!(parse_i32("-2147483649"), None);
    assert_eq!(parse_i32("99999999999999999999"), None);
}

#[test]
fn refuses_what_the_standard_library_refuses() {
    for s in ["", "+", "-", " 1", "1 ", "1a", "a1", "--1", "+-1", "1.0", "١٢"] {
        assert_eq!(parse_i32(s), None, "{s:?}");
        assert!(s.parse::<i32>().is_err());
    }
}

#[test]
fn agrees_with_the_standard_library() {
    for s in ["0", "-7", "+2147483647", "000000000000000000001", "-00", "12x", "99999999999999999999x"] {
        assert_eq!(parse_i32(s), s.parse::<i32>().ok(), "{s:?}");
    }
}

#[test]
fn parsing_the_display_of_a_number_gives_it_back() {
    for n in [0, 1, -1, 9, 10, -10, 123456, i32::MAX, i32::MIN, i32::MIN + 1] {
        assert_eq!(parse_i32(&shown(n)), Some(n));
    }
}
