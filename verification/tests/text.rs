use tapedeck::backoff::retry_message;
use tapedeck::number::{decimal_string, parse_u32};
use tapedeck::text::{
    chars_of, has_substring, join, lines, same_text, splitn, starts_with, trim, trimmed,
};

fn s(v: &[char]) -> String {
    v.iter().collect()
}

fn strings(v: Vec<Vec<char>>) -> Vec<String> {
    v.iter().map(|l| s(l)).collect()
}

#[test]
fn decimal_text_of_numbers() {
    assert_eq!(decimal_string(0), "0");
    assert_eq!(decimal_string(7), "7");
    assert_eq!(decimal_string(10), "10");
    assert_eq!(decimal_string(1234567890), "1234567890");
    assert_eq!(decimal_string(u64::MAX), "18446744073709551615");
}

#[test]
fn unsigned_numbers_are_read_like_the_standard_parser() {
    for text in [
        "0", "3", "+3", "007", "4294967295", "4294967296", "", "+", "-1", " 1", "1 ", "1_000",
        "0x10", "++1", "99999999999999999999", "١٢",
    ] {
        assert_eq!(parse_u32(text), text.parse::<u32>().ok(), "{text:?}");
    }
}

#[test]
fn retry_message_text() {
    assert_eq!(
        retry_message(1, 3, "exit status 1", 2),
        "Attempt 1/3 failed: exit status 1. Retrying in 2s\u{2026}"
    );
    assert_eq!(
        retry_message(10, 4294967295, "", 1024),
        "Attempt 10/4294967295 failed: . Retrying in 1024s\u{2026}"
    );
}

#[test]
fn characters_and_equality() {
    assert_eq!(chars_of("añ√"), vec!['a', 'ñ', '√']);
    assert!(same_text("", ""));
    assert!(same_text("abc", "abc"));
    assert!(!same_text("abc", "abd"));
    assert!(!same_text("abc", "ab"));
}

#[test]
fn trimming_drops_white_space_at_both_ends() {
    for text in
        ["", " ", "a", "  a b  ", "\t\r\na\u{a0}", "\u{3000}x\u{2028}", "\u{200b}x", "a\u{85}"]
    {
        assert_eq!(trimmed(text), text.trim(), "{text:?}");
        assert_eq!(s(trim(&chars_of(text))), text.trim());
    }
}

#[test]
fn lines_like_the_standard_library() {
    for text in [
        "", "a", "a\n", "a\nb", "a\r\nb\r\n", "\n", "\n\n", "a\r", "a\rb\n", "\r\n", "a\n\r\nb",
        "x\r\r\n",
    ] {
        let expected: Vec<String> = text.lines().map(|l| l.to_string()).collect();
        assert_eq!(strings(lines(&chars_of(text))), expected, "{text:?}");
    }
}

#[test]
fn splitting_like_the_standard_library() {
    for text in ["", "a", "a|b", "a|b|c|d", "|", "||", "a||b|", "|a"] {
        for n in 0..6usize {
            let expected: Vec<String> = text.splitn(n, '|').map(|l| l.to_string()).collect();
            assert_eq!(strings(splitn(&chars_of(text), n, '|')), expected, "{text:?} {n}");
        }
    }
}

#[test]
fn substrings_and_prefixes() {
    let hay = chars_of("a WARNING here");
    assert!(has_substring(&hay, &chars_of("WARNING")));
    assert!(has_substring(&hay, &chars_of("")));
    assert!(has_substring(&hay, &chars_of("here")));
    assert!(!has_substring(&hay, &chars_of("warning")));
    assert!(!has_substring(&chars_of("ab"), &chars_of("abc")));
    assert!(starts_with(&hay, &chars_of("a W")));
    assert!(starts_with(&hay, &chars_of("")));
    assert!(!starts_with(&hay, &chars_of("W")));
    assert!(!starts_with(&chars_of("IN"), &chars_of("INFO:")));
}

#[test]
fn joining() {
    let v = |xs: &[&str]| xs.iter().map(|x| x.to_string()).collect::<Vec<_>>();
    assert_eq!(join(&v(&[]), "\n"), "");
    assert_eq!(join(&v(&["a"]), "\n"), "a");
    assert_eq!(join(&v(&["a", "", "b"]), ", "), "a, , b");
}
