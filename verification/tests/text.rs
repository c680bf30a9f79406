use nullscan::text::{
    contains_char, contains_chars, decimal_chars, from_chars, has_prefix, is_whitespace_char,
    lex_le_chars, remove_char, replace_char, replace_with_str, same_chars, split_chars,
    strip_prefix_chars, to_chars, trim_chars,
};

fn chars(s: &str) -> Vec<char> {
    s.chars().collect()
}

fn text(v: &[char]) -> String {
    v.iter().collect()
}

#[test]
fn whitespace_is_what_the_standard_library_calls_whitespace() {
    for n in 0..=0x10ffffu32 {
        if let Some(c) = char::from_u32(n) {
            assert_eq!(is_whitespace_char(c), c.is_whitespace(), "U+{:04X}", n);
        }
    }
}

#[test]
fn trimming_agrees_with_the_standard_library() {
    for s in ["", " ", "a", " a ", "\t\r\n a b \u{a0}\u{3000}", "\u{2003}x\u{2029}", "  ", "a  b", "\u{200b} x"] {
        assert_eq!(text(&trim_chars(&chars(s))), s.trim(), "trim of {:?}", s);
    }
}

#[test]
fn characters_round_trip() {
    for s in ["", "abc", "héllo 🔍", "\u{0}x"] {
        assert_eq!(to_chars(s), chars(s));
        assert_eq!(from_chars(&chars(s)), s);
    }
}

#[test]
fn splitting_agrees_with_the_standard_library() {
    for s in ["", ",", "a", "a,b", ",a,,b,", "a,b,c", ",,"] {
        let expected: Vec<String> = s.split(',').map(|p| p.to_string()).collect();
        let got: Vec<String> = split_chars(&chars(s), ',').iter().map(|p| text(p)).collect();
        assert_eq!(got, expected, "split of {:?}", s);
    }
}

#[test]
fn prefixes_and_occurrences() {
    assert!(has_prefix(&chars("SSH-2.0"), &chars("SSH-")));
    assert!(has_prefix(&chars("SSH-"), &chars("SSH-")));
    assert!(has_prefix(&chars("x"), &chars("")));
    assert!(!has_prefix(&chars("SSH"), &chars("SSH-")));
    assert!(!has_prefix(&chars("ssh-2"), &chars("SSH-")));
    assert!(contains_chars(&chars("hello world"), &chars("o w")));
    assert!(contains_chars(&chars("hello"), &chars("")));
    assert!(contains_chars(&chars(""), &chars("")));
    assert!(contains_chars(&chars("hello"), &chars("hello")));
    assert!(contains_chars(&chars("aab"), &chars("ab")));
    assert!(!contains_chars(&chars("hello"), &chars("hellos")));
    assert!(!contains_chars(&chars("hello"), &chars("lol")));
    assert!(contains_char(&chars("a-b"), '-'));
    assert!(!contains_char(&chars("ab"), '-'));
    assert!(same_chars(&chars("ab"), &chars("ab")));
    assert!(!same_chars(&chars("ab"), &chars("abc")));
    assert!(!same_chars(&chars("ab"), &chars("ac")));
    assert_eq!(strip_prefix_chars(&chars("regex:a.*"), "regex:").map(|r| text(&r)), Some("a.*".to_string()));
    assert_eq!(strip_prefix_chars(&chars("regex:"), "regex:").map(|r| text(&r)), Some("".to_string()));
    assert_eq!(strip_prefix_chars(&chars("rege"), "regex:"), None);
}

#[test]
fn decimal_notation() {
    for n in [0u64, 1, 9, 10, 42, 99, 100, 65535, 1_000_000, u64::MAX] {
        assert_eq!(text(&decimal_chars(n)), n.to_string());
    }
}

#[test]
fn replacing_characters() {
    assert_eq!(text(&remove_char(&chars("a\rb\r\r"), '\r')), "ab");
    assert_eq!(text(&replace_char(&chars("a\nb\n"), '\n', ' ')), "a b ");
    assert_eq!(text(&replace_with_str(&chars("a\"b\""), '"', "\"\"")), "a\"\"b\"\"");
    assert_eq!(text(&replace_with_str(&chars("a|b"), '|', "\\|")), "a\\|b");
    assert_eq!(text(&replace_with_str(&chars("aaa"), 'a', "")), "");
    assert_eq!(text(&replace_with_str(&chars(""), 'a', "x")), "");
}

#[test]
fn dictionary_order_agrees_with_string_order() {
    let words = ["", "a", "ab", "b", "10.0.0.1", "10.0.0.10", "10.0.0.2", "::1", "fe80::1", "é", "z"];
    for a in words {
        for b in words {
            assert_eq!(lex_le_chars(&chars(a), &chars(b)), a <= b, "{:?} <= {:?}", a, b);
        }
    }
}
