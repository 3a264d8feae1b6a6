use task_orchestrator::ident::{id_text, parse_id};
use task_orchestrator::claude_api::extract_json;
use task_orchestrator::text::{
    blank, char_is_whitespace, chars_of, decimal_string, find_in, join, push_decimal, str_eq,
};

#[test]
fn whitespace_is_what_the_standard_library_says() {
    let mut c = 0u32;
    while c <= 0x10ffff {
        if let Some(ch) = char::from_u32(c) {
            assert_eq!(char_is_whitespace(ch), ch.is_whitespace(), "U+{:04X}", c);
        }
        c += 1;
    }
}

#[test]
fn trimming_agrees_with_the_standard_library() {
    let samples = [
        "",
        " ",
        "a",
        "  a  ",
        "\t\n a b \r\n",
        "\u{2003}x\u{2003}",
        "no-space",
        " \u{85}\u{a0}mid dle\u{1680}\u{3000} ",
    ];
    for s in samples {
        // Without a code block, the JSON text of an answer is the trimmed
        // answer.
        assert_eq!(extract_json(s), s.trim(), "{:?}", s);
    }
}

#[test]
fn blank_texts() {
    assert!(blank(""));
    assert!(blank(" \t\r\n\u{3000}"));
    assert!(!blank(" x "));
}

#[test]
fn finding_a_text() {
    let hay = chars_of("abcabcabd");
    assert_eq!(find_in(&hay, &chars_of("abc"), 0), Some(0));
    assert_eq!(find_in(&hay, &chars_of("abc"), 1), Some(3));
    assert_eq!(find_in(&hay, &chars_of("abd"), 0), Some(6));
    assert_eq!(find_in(&hay, &chars_of("abd"), 7), None);
    assert_eq!(find_in(&hay, &chars_of("x"), 0), None);
    assert_eq!(find_in(&hay, &chars_of(""), 4), Some(4));
    assert_eq!(find_in(&hay, &chars_of(""), 9), Some(9));
    assert_eq!(find_in(&hay, &chars_of(""), 10), None);
    assert_eq!(find_in(&hay, &chars_of("abcabcabdx"), 0), None);
    assert_eq!(find_in(&chars_of(""), &chars_of(""), 0), Some(0));
}

#[test]
fn finding_agrees_with_the_standard_library() {
    let hay = "the cat sat on the mat";
    for needle in ["the", "at", "mat", "t", "dog", " ", "the cat sat on the mat"] {
        let got = find_in(&chars_of(hay), &chars_of(needle), 0);
        assert_eq!(got, hay.find(needle), "{:?}", needle);
    }
}

#[test]
fn decimal_renderings() {
    assert_eq!(decimal_string(0), "0");
    assert_eq!(decimal_string(7), "7");
    assert_eq!(decimal_string(10), "10");
    assert_eq!(decimal_string(1234567890), "1234567890");
    assert_eq!(decimal_string(-1), "-1");
    assert_eq!(decimal_string(-905), "-905");
    assert_eq!(decimal_string(i128::MAX), i128::MAX.to_string());
    assert_eq!(decimal_string(i128::MIN), i128::MIN.to_string());
    assert_eq!(decimal_string(i64::MIN as i128), i64::MIN.to_string());
    let mut out = "n=".to_string();
    push_decimal(&mut out, 42);
    assert_eq!(out, "n=42");
}

#[test]
fn joining_texts() {
    assert_eq!(join(&vec![], ", "), "");
    assert_eq!(join(&vec!["a".to_string()], ", "), "a");
    assert_eq!(join(&vec!["a".to_string(), "b".to_string(), "".to_string()], ", "), "a, b, ");
}

#[test]
fn comparing_texts() {
    assert!(str_eq("abc", "abc"));
    assert!(!str_eq("abc", "abd"));
    assert!(!str_eq("abc", "ab"));
    assert!(str_eq("", ""));
}

#[test]
fn identifiers_are_written_hyphenated_and_lower_case() {
    assert_eq!(
        id_text(0x550e8400_e29b_41d4_a716_446655440000),
        "550e8400-e29b-41d4-a716-446655440000"
    );
    assert_eq!(id_text(0), "00000000-0000-0000-0000-000000000000");
    assert_eq!(id_text(u128::MAX), "ffffffff-ffff-ffff-ffff-ffffffffffff");
    assert_eq!(id_text(0xABCDEF), "00000000-0000-0000-0000-000000abcdef");
}

#[test]
fn identifiers_are_read_in_every_form() {
    let id = 0x550e8400_e29b_41d4_a716_446655440000u128;
    assert_eq!(parse_id("550e8400-e29b-41d4-a716-446655440000"), Some(id));
    assert_eq!(parse_id("550E8400-E29B-41D4-A716-446655440000"), Some(id));
    assert_eq!(parse_id("550e8400e29b41d4a716446655440000"), Some(id));
    assert_eq!(parse_id("{550e8400-e29b-41d4-a716-446655440000}"), Some(id));
    assert_eq!(parse_id("urn:uuid:550e8400-e29b-41d4-a716-446655440000"), Some(id));
    assert_eq!(parse_id(&id_text(id)), Some(id));
    assert_eq!(parse_id(""), None);
    assert_eq!(parse_id("task-1"), None);
    assert_eq!(parse_id("550e8400-e29b-41d4-a716-44665544000"), None);
    assert_eq!(parse_id("550e8400-e29b-41d4-a716-44665544000g"), None);
}
