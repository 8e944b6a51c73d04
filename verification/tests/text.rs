use reservation::text::{
    chars_of, find_char, push_decimal, push_quoted, same_text, string_of, strip_char,
};

fn decimal_string(n: i64) -> String {
    let mut out = String::new();
    push_decimal(&mut out, n);
    out
}

#[test]
fn decimal_of_each_kind_of_number() {
    assert_eq!(decimal_string(0), "0");
    assert_eq!(decimal_string(7), "7");
    assert_eq!(decimal_string(10), "10");
    assert_eq!(decimal_string(1234567890), "1234567890");
    assert_eq!(decimal_string(-1), "-1");
    assert_eq!(decimal_string(-120), "-120");
    assert_eq!(decimal_string(i64::MAX), "9223372036854775807");
    assert_eq!(decimal_string(i64::MIN), "-9223372036854775808");
    for n in -1000..1000 {
        assert_eq!(decimal_string(n), n.to_string());
    }
}

#[test]
fn decimal_is_appended() {
    let mut out = "n = ".to_string();
    push_decimal(&mut out, 42);
    push_decimal(&mut out, -3);
    assert_eq!(out, "n = 42-3");
}

#[test]
fn quoted_text_doubles_its_quotes() {
    let quoted = |s: &str| {
        let mut out = String::new();
        push_quoted(&mut out, s);
        out
    };
    assert_eq!(quoted(""), "''");
    assert_eq!(quoted("tyr"), "'tyr'");
    assert_eq!(quoted("o'neil"), "'o''neil'");
    assert_eq!(quoted("'"), "''''");
    assert_eq!(quoted("''"), "''''''");
    assert_eq!(quoted("a\"b"), "'a\"b'");
    assert_eq!(quoted("zimmer-\u{fc}"), "'zimmer-\u{fc}'");

    let mut out = "x = ".to_string();
    push_quoted(&mut out, "y");
    assert_eq!(out, "x = 'y'");
}

#[test]
fn characters_in_and_out() {
    assert_eq!(chars_of(""), Vec::<char>::new());
    assert_eq!(chars_of("a\u{fc}c"), vec!['a', '\u{fc}', 'c']);
    let chars = chars_of("hello");
    assert_eq!(string_of(&chars, 0, 5), "hello");
    assert_eq!(string_of(&chars, 1, 3), "el");
    assert_eq!(string_of(&chars, 2, 2), "");
}

#[test]
fn stripping_and_finding_a_character() {
    assert_eq!(strip_char(&chars_of("\"a\",\"b\""), '"'), chars_of("a,b"));
    assert_eq!(strip_char(&chars_of("abc"), '"'), chars_of("abc"));
    assert_eq!(strip_char(&chars_of("\"\"\""), '"'), Vec::<char>::new());
    assert_eq!(find_char(&chars_of("a,b,c"), ','), Some(1));
    assert_eq!(find_char(&chars_of(",a"), ','), Some(0));
    assert_eq!(find_char(&chars_of("abc"), ','), None);
    assert_eq!(find_char(&chars_of(""), ','), None);
}

#[test]
fn same_text_compares_the_characters() {
    assert!(same_text("", ""));
    assert!(same_text("23P01", "23P01"));
    assert!(!same_text("23P01", "23p01"));
    assert!(!same_text("a", "ab"));
}
