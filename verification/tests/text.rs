use gitsitter::clock::Duration;
use gitsitter::table::Table;
use gitsitter::text::{
    cat, cat3, cat4, cat5, chars_of, clone_list, clone_opt, code_of, contains, drop_suffix,
    ends_with, eq_ignore_ascii_case, find_char, find_part, format_u128, format_u64, join_from,
    list_contains, parse_u64, replace_char, space, split_lines, stands_at, starts_with, string_of,
    strip_prefix, tail_lines, text_eq, trim, trim_end_chars,
};

fn list(items: &[&str]) -> Vec<String> {
    items.iter().map(|s| s.to_string()).collect()
}

// --- Strings ---

#[test]
fn strings_are_put_together() {
    assert_eq!(cat("a", "é"), "aé");
    assert_eq!(cat3("a", "b", "c"), "abc");
    assert_eq!(cat4("a", "b", "c", "d"), "abcd");
    assert_eq!(cat5("a", "b", "c", "d", "e"), "abcde");
    assert_eq!(join_from(&list(&["a", "b", "c"]), 1, ", "), "b, c");
    assert_eq!(join_from(&list(&["a"]), 1, ", "), "");
    assert_eq!(clone_list(&list(&["x", "y"])), ["x", "y"]);
    assert_eq!(clone_opt(&Some("x".to_string())).as_deref(), Some("x"));
    assert_eq!(clone_opt(&None), None);
}

#[test]
fn strings_are_compared() {
    assert!(text_eq("straße", "straße"));
    assert!(!text_eq("a", "A"));
    assert!(eq_ignore_ascii_case("ME@Example.com", "me@example.COM"));
    assert!(!eq_ignore_ascii_case("é", "É"));
    assert!(list_contains(&list(&["a", "b"]), "b"));
    assert!(!list_contains(&list(&["a", "b"]), "c"));
}

#[test]
fn parts_are_found() {
    let text = chars_of("abcabc");
    assert_eq!(find_part(&text, &chars_of("ca")), Some(2));
    assert_eq!(find_part(&text, &chars_of("cc")), None);
    assert_eq!(find_char(&text, 1, 'a'), 3);
    assert_eq!(find_char(&text, 4, 'a'), 6);
    assert!(stands_at(&text, &chars_of("abc"), 3));
    assert_eq!(string_of(&text, 2, 4), "ca");
    assert!(contains("abc", "bc") && !contains("abc", "cb"));
    assert!(starts_with("abc", "ab") && !starts_with("abc", "bc"));
    assert!(ends_with("abc", "bc") && !ends_with("abc", "ab"));
    assert_eq!(strip_prefix("abc", "ab").as_deref(), Some("c"));
    assert_eq!(strip_prefix("abc", "b"), None);
    assert_eq!(drop_suffix("x.git", ".git"), "x");
    assert_eq!(drop_suffix("x", ".git"), "x");
}

#[test]
fn strings_are_trimmed_as_std_does() {
    for text in ["", " ", "\u{3000} a b\u{85}\n", "a\u{200B}", "\u{1680}\u{2009}x\u{A0}"] {
        assert_eq!(trim(text), text.trim());
    }
    for c in '\0'..='\u{3100}' {
        assert_eq!(space(c), c.is_whitespace(), "{:?}", c);
    }
    assert_eq!(trim_end_chars("/r/.git/\\/", '/', '\\'), "/r/.git");
    assert_eq!(replace_char("a_b_c", '_', ' '), "a b c");
    assert_eq!(code_of('é'), 0xE9);
}

#[test]
fn lines_are_split_as_std_does() {
    for text in ["", "\n", "a", "a\n", "a\r\nb", "a\n\nb\r", "\r\n\r\n"] {
        assert_eq!(split_lines(text), text.lines().collect::<Vec<_>>());
    }
    assert_eq!(tail_lines("1\n2\n3\n4\n", 3), "2\n3\n4");
    assert_eq!(tail_lines("1", 3), "1");
}

#[test]
fn numbers_are_written_and_read() {
    assert_eq!(format_u64(0), "0");
    assert_eq!(format_u64(u64::MAX), "18446744073709551615");
    assert_eq!(format_u128(u128::MAX), u128::MAX.to_string());
    for text in ["0", "007", "+5", "-5", "", "+", "5 ", "18446744073709551615", "18446744073709551616"] {
        assert_eq!(parse_u64(text), text.parse::<u64>().ok(), "{:?}", text);
    }
}

// --- Spans of time ---

#[test]
fn spans_of_time() {
    let d = Duration::new(1, 500_000_000);
    assert_eq!(d, Duration::from_millis(1500));
    assert_eq!((d.as_secs(), d.subsec_nanos(), d.as_millis()), (1, 500_000_000, 1500));
    assert!(d.at_least(Duration::from_secs(1)) && d.at_least(d));
    assert!(!d.at_least(Duration::from_secs(2)));
    assert_eq!(d.saturating_sub(Duration::from_secs(2)), Duration::from_secs(0));
    assert_eq!(d.saturating_sub(Duration::from_secs(1)), Duration::from_millis(500));
    assert_eq!(d.checked_add(d), Some(Duration::from_secs(3)));
    assert_eq!(d.checked_mul(4), Some(Duration::from_secs(6)));
    let longest = Duration::new(u64::MAX, 999_999_999);
    assert_eq!(longest.checked_add(Duration::new(0, 1)), None);
    assert_eq!(longest.checked_mul(2), None);
}

// --- Tables ---

#[test]
fn tables_keep_their_order() {
    let mut table = Table::new();
    assert!(table.is_empty());
    table.insert("b".to_string(), 1u32);
    table.insert("a".to_string(), 2);
    table.insert("b".to_string(), 3);
    assert_eq!(table.len(), 2);
    assert_eq!((table.key_at(0), *table.value_at(0)), ("b", 3));
    assert_eq!((table.key_at(1), *table.value_at(1)), ("a", 2));
    if let Some(v) = table.get_mut("a") {
        *v = 5;
    }
    assert_eq!(table.get("a"), Some(&5));
    assert!(table.get_mut("c").is_none());
    assert_eq!(table.remove("b"), Some(3));
    assert_eq!(table.remove("b"), None);
    assert!(!table.contains_key("b") && table.contains_key("a"));
}
