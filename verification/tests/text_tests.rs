use beeper_automations::text::{
    contains_id, dedup_ids, parse_u64, str_lt, tail_lines, u64_to_string,
};

#[test]
fn parse_u64_reads_digits() {
    assert_eq!(parse_u64("0"), Some(0));
    assert_eq!(parse_u64("123"), Some(123));
    assert_eq!(parse_u64("18446744073709551615"), Some(u64::MAX));
}

#[test]
fn parse_u64_rejects_junk() {
    assert_eq!(parse_u64(""), None);
    assert_eq!(parse_u64("12a"), None);
    assert_eq!(parse_u64("-5"), None);
    assert_eq!(parse_u64("18446744073709551616"), None);
}

#[test]
fn u64_to_string_writes_decimal() {
    assert_eq!(u64_to_string(0), "0");
    assert_eq!(u64_to_string(7), "7");
    assert_eq!(u64_to_string(12345), "12345");
    assert_eq!(u64_to_string(u64::MAX), "18446744073709551615");
}

#[test]
fn str_lt_is_lexicographic() {
    assert!(str_lt("a", "b"));
    assert!(str_lt("abc", "abd"));
    assert!(str_lt("ab", "abc"));
    assert!(!str_lt("abc", "abc"));
    assert!(!str_lt("b", "a"));
    assert!(str_lt("", "a"));
}

#[test]
fn dedup_keeps_first_occurrences() {
    let v = vec!["a".to_string(), "b".to_string(), "a".to_string(), "c".to_string()];
    assert_eq!(dedup_ids(&v), vec!["a".to_string(), "b".to_string(), "c".to_string()]);
}

#[test]
fn contains_id_finds_matches() {
    let v = vec!["a".to_string(), "b".to_string()];
    assert!(contains_id(&v, &"b".to_string()));
    assert!(!contains_id(&v, &"c".to_string()));
}

#[test]
fn tail_lines_keeps_the_last() {
    let lines: Vec<String> = (0..5).map(|i| i.to_string()).collect();
    assert_eq!(tail_lines(lines.clone(), 2), vec!["3".to_string(), "4".to_string()]);
    assert_eq!(tail_lines(lines.clone(), 10), lines);
}
