use nutrition_helper::text::{
    char_is_whitespace, chars_of, decimal_string, push_decimal, push_natural, push_two_digits,
    str_contains, str_eq, str_is_blank,
};

#[test]
fn str_eq_compares_characters() {
    assert!(str_eq("", ""));
    assert!(str_eq("lunch", "lunch"));
    assert!(!str_eq("lunch", "Lunch"));
    assert!(!str_eq("lunch", "lunc"));
    assert!(!str_eq("lunc", "lunch"));
    assert!(!str_eq("", "a"));
    assert!(str_eq("pastà", "pastà"));
    assert!(!str_eq("pastà", "pasta"));
}

#[test]
fn chars_of_keeps_order() {
    assert_eq!(chars_of(""), Vec::<char>::new());
    assert_eq!(chars_of("aé界"), vec!['a', 'é', '界']);
}

#[test]
fn whitespace_is_the_unicode_property() {
    for code in 0..0x11_0000u32 {
        if let Some(c) = char::from_u32(code) {
            assert_eq!(char_is_whitespace(c), c.is_whitespace(), "U+{:04X}", code);
        }
    }
}

#[test]
fn blank_is_what_trimming_empties() {
    for s in ["", " ", " \t\r\n", "\u{3000}", "a", " a ", "\u{200b}", " \u{feff}"] {
        assert_eq!(str_is_blank(s), s.trim().is_empty(), "{:?}", s);
    }
}

#[test]
fn contains_finds_runs_of_characters() {
    let cases = [
        ("", ""),
        ("abc", ""),
        ("", "a"),
        ("abc", "abc"),
        ("abc", "abcd"),
        ("abc", "bc"),
        ("abc", "ac"),
        ("aab", "ab"),
        ("UNIQUE constraint failed: tags.name", "UNIQUE constraint"),
        ("(code: 787) FOREIGN KEY constraint failed", "FOREIGN KEY constraint"),
        ("unique constraint", "UNIQUE constraint"),
        ("pastà e ceci", "à e"),
        ("ababac", "abac"),
    ];
    for (hay, needle) in cases {
        assert_eq!(str_contains(hay, needle), hay.contains(needle), "{:?} in {:?}", needle, hay);
    }
}

#[test]
fn decimal_is_what_display_writes() {
    for n in [
        0i64, 1, 9, 10, 11, 99, 100, 101, 2024, 9999, 10000, -1, -9, -10, -2024,
        i32::MAX as i64, i32::MIN as i64, i64::MAX, i64::MIN, i64::MIN + 1,
    ] {
        assert_eq!(decimal_string(n), n.to_string());
        let mut out = String::from("n=");
        push_decimal(&mut out, n);
        assert_eq!(out, format!("n={}", n));
    }
    for n in [0u64, 7, 10, 1234567890, u64::MAX] {
        let mut out = String::new();
        push_natural(&mut out, n);
        assert_eq!(out, n.to_string());
    }
}

#[test]
fn two_digits_pad_below_ten() {
    for n in [0u32, 1, 9, 10, 45, 53, 99, 100, 12345, u32::MAX] {
        let mut out = String::from("w");
        push_two_digits(&mut out, n);
        assert_eq!(out, format!("w{:02}", n));
    }
}
