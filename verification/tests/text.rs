use ai_tuber::text::{chars_of, eq_ignore_ascii_case, len_before, starts_with_char, to_ascii_lower, trim};

#[test]
fn trim_strips_white_space_on_both_sides() {
    assert_eq!(trim("  a b \n"), "a b");
    assert_eq!(trim("a"), "a");
    assert_eq!(trim(""), "");
    assert_eq!(trim(" \t\r\n"), "");
    assert_eq!(trim("\u{3000}日本語\u{a0}"), "日本語");
    assert_eq!(trim("x \u{200b}"), "x \u{200b}");
    for s in ["", " ", "a ", " a", " a b ", "\n\nab\n", "あ い "] {
        assert_eq!(trim(s), s.trim());
    }
}

#[test]
fn chars_are_listed_in_order() {
    assert_eq!(chars_of("aé日"), vec!['a', 'é', '日']);
    assert!(chars_of("").is_empty());
}

#[test]
fn only_ascii_capitals_are_lowered() {
    assert_eq!(to_ascii_lower('A'), 'a');
    assert_eq!(to_ascii_lower('Z'), 'z');
    assert_eq!(to_ascii_lower('a'), 'a');
    assert_eq!(to_ascii_lower('@'), '@');
    assert_eq!(to_ascii_lower('['), '[');
    assert_eq!(to_ascii_lower('É'), 'É');
    for c in ['\0', '0', 'A', 'M', 'Z', 'a', 'z', '~', 'ſ', 'K', 'Ä'] {
        assert_eq!(to_ascii_lower(c), c.to_ascii_lowercase());
    }
}

#[test]
fn comparison_ignores_ascii_case_only() {
    assert!(eq_ignore_ascii_case(&chars_of("Happy"), &chars_of("hAPPY")));
    assert!(eq_ignore_ascii_case(&[], &[]));
    assert!(!eq_ignore_ascii_case(&chars_of("happy"), &chars_of("happ")));
    assert!(!eq_ignore_ascii_case(&chars_of("é"), &chars_of("É")));
}

#[test]
fn length_before_the_first_stop() {
    assert_eq!(len_before(&chars_of("happy] x"), ']'), 5);
    assert_eq!(len_before(&chars_of("]"), ']'), 0);
    assert_eq!(len_before(&chars_of("abc"), ']'), 3);
    assert_eq!(len_before(&chars_of(""), ']'), 0);
}

#[test]
fn first_character_is_tested() {
    assert!(starts_with_char("!a", '!'));
    assert!(!starts_with_char("a!", '!'));
    assert!(!starts_with_char("", '!'));
}

#[test]
fn white_space_is_the_listed_set() {
    let listed = |c: char| {
        matches!(
            c,
            '\u{9}'..='\u{d}'
                | ' '
                | '\u{85}'
                | '\u{a0}'
                | '\u{1680}'
                | '\u{2000}'..='\u{200a}'
                | '\u{2028}'
                | '\u{2029}'
                | '\u{202f}'
                | '\u{205f}'
                | '\u{3000}'
        )
    };
    let mut count = 0;
    for code in 0..=0x10ffffu32 {
        if let Some(c) = char::from_u32(code) {
            let text = c.to_string();
            assert_eq!(trim(&text).is_empty(), listed(c), "U+{:04X}", code);
            if listed(c) {
                count += 1;
            }
        }
    }
    assert_eq!(count, 25);
}
