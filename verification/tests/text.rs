use webrtc_camera_server::text::{
    chars_of, contains, is_blank, is_less, parse_u16, push_decimal, replace, same_opt, same_text,
};

#[test]
fn port_numbers_are_read() {
    assert_eq!(parse_u16("8090"), Some(8090));
    assert_eq!(parse_u16("+8090"), Some(8090));
    assert_eq!(parse_u16("0"), Some(0));
    assert_eq!(parse_u16("0000000000065535"), Some(65535));
}

#[test]
fn what_is_no_port_number_is_refused() {
    for s in ["", "+", "-1", "-0", "65536", "99999999999999999999", " 80", "80 ", "8_0", "0x50", "++1", "٣"] {
        assert_eq!(parse_u16(s), None, "{s:?}");
        assert!(s.parse::<u16>().is_err());
    }
}

#[test]
fn every_port_reads_back() {
    let mut n: u64 = 0;
    while n <= 65535 {
        let mut s = String::new();
        push_decimal(&mut s, n);
        assert_eq!(s, n.to_string());
        assert_eq!(parse_u16(&s), Some(n as u16));
        n += 1;
    }
}

#[test]
fn decimals_are_appended() {
    let mut s = "n=".to_string();
    push_decimal(&mut s, u64::MAX);
    assert_eq!(s, "n=18446744073709551615");
}

#[test]
fn replaces_like_the_standard_library() {
    for (s, from, to) in [
        ("aXbX", "X", "yy"),
        ("aaa", "aa", "b"),
        ("", "a", "b"),
        ("abc", "", "-"),
        ("", "", "-"),
        ("héé", "é", ""),
        ("10.0.0.1 10.0.0.10", "10.0.0.1", "10.0.2.2"),
        ("short", "much longer", "x"),
    ] {
        assert_eq!(replace(s, from, to), s.replace(from, to));
    }
}

#[test]
fn finds_like_the_standard_library() {
    for (s, pat) in [
        ("candidate 10.0.0.1 x", "10.0.0.1"),
        ("abc", "c"),
        ("abc", "d"),
        ("", ""),
        ("abc", ""),
        ("ab", "abc"),
        ("aab", "ab"),
    ] {
        assert_eq!(contains(s, pat), s.contains(pat));
    }
}

#[test]
fn orders_like_the_standard_library() {
    let words = ["", "a", "ab", "b", "NV12", "YUY2", "é", "z", "\u{10000}", "\u{ffff}"];
    for a in words {
        for b in words {
            assert_eq!(is_less(a, b), a < b, "{a:?} {b:?}");
        }
    }
}

#[test]
fn white_space_is_that_of_unicode() {
    let mut n: u32 = 0;
    while n <= 0x10ffff {
        if let Some(c) = char::from_u32(n) {
            let mut s = String::new();
            s.push(c);
            assert_eq!(is_blank(&s), c.is_whitespace(), "{n:x}");
        }
        n += 1;
    }
    assert!(is_blank(""));
    assert!(is_blank(" \t\n"));
    assert!(!is_blank(" x "));
}

#[test]
fn characters_come_in_order() {
    let s = "grüße \u{1f600}";
    assert_eq!(chars_of(s).into_iter().collect::<String>(), s);
    assert_eq!(chars_of(s).len(), 7);
}

#[test]
fn texts_are_compared() {
    assert!(same_text("a", "a"));
    assert!(!same_text("a", "A"));
    assert!(same_opt(&None, &None));
    assert!(!same_opt(&None, &Some(String::new())));
    assert!(same_opt(&Some("x".to_string()), &Some("x".to_string())));
    assert!(!same_opt(&Some("x".to_string()), &Some("y".to_string())));
}
