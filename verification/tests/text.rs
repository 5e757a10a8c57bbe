use spark::scan::{
    contains_text, eq_ignore_ascii_case, parse_small_number, position_of, word_from,
};
use spark::text::{
    chars_of, compare_text, join, push_decimal, push_hexadecimal, same_text, text_of, TextOrder,
};
use spark::text_map::TextMap;

#[test]
fn numbers_are_written_without_leading_zeros() {
    let mut text = String::new();
    push_decimal(&mut text, 0);
    push_decimal(&mut text, 1_250);
    assert_eq!(text, "01250");
    let mut text = String::new();
    push_hexadecimal(&mut text, 0xbeef);
    assert_eq!(text, "beef");
    let mut text = String::new();
    push_decimal(&mut text, u64::MAX);
    assert_eq!(text, "18446744073709551615");
}

#[test]
fn texts_are_compared_by_their_characters() {
    let a = chars_of("alpha");
    let b = chars_of("alphabet");
    assert!(matches!(compare_text(&a, &b), TextOrder::Before));
    assert!(matches!(compare_text(&b, &a), TextOrder::After));
    assert!(matches!(compare_text(&a, &a), TextOrder::Same));
    assert!(same_text("路由", "路由"));
    assert!(!same_text("路由", "路"));
    assert_eq!(text_of(&chars_of("路由")), "路由");
}

#[test]
fn joining_puts_separators_between() {
    let parts = vec!["a".to_string(), "b".to_string(), "c".to_string()];
    assert_eq!(join(&parts, "; "), "a; b; c");
    assert_eq!(join(&vec!["a".to_string()], "; "), "a");
    assert_eq!(join(&Vec::new(), "; "), "");
}

#[test]
fn small_numbers_fit_in_a_byte() {
    assert_eq!(parse_small_number(&chars_of("0")), Some(0));
    assert_eq!(parse_small_number(&chars_of("255")), Some(255));
    assert_eq!(parse_small_number(&chars_of("+101")), Some(101));
    assert_eq!(parse_small_number(&chars_of("000007")), Some(7));
    assert_eq!(parse_small_number(&chars_of("256")), None);
    assert_eq!(parse_small_number(&chars_of("-1")), None);
    assert_eq!(parse_small_number(&chars_of("")), None);
    assert_eq!(parse_small_number(&chars_of("+")), None);
    assert_eq!(parse_small_number(&chars_of("1x")), None);
}

#[test]
fn words_end_at_white_space() {
    let chars = chars_of("  101\u{a0}0-15");
    assert_eq!(text_of(&word_from(&chars, 0)), "101");
    assert_eq!(text_of(&word_from(&chars, 6)), "0-15");
    assert_eq!(position_of(&chars, '-'), 7);
    assert_eq!(position_of(&chars, '?'), chars.len());
}

#[test]
fn case_is_ignored_for_basic_letters_only() {
    assert!(eq_ignore_ascii_case("AuDiO", "audio"));
    assert!(!eq_ignore_ascii_case("audio", "audios"));
    assert!(!eq_ignore_ascii_case("É", "é"));
    assert!(eq_ignore_ascii_case("[", "["));
    assert!(!eq_ignore_ascii_case("[", "{"));
}

#[test]
fn a_text_is_found_inside_another() {
    assert!(contains_text("deadline reached: forced", "forced"));
    assert!(contains_text("abc", ""));
    assert!(contains_text("aab", "ab"));
    assert!(!contains_text("abc", "abcd"));
    assert!(!contains_text("abc", "ac"));
}

#[test]
fn a_map_is_walked_in_the_order_of_its_keys() {
    let mut map = TextMap::new();
    assert!(map.is_empty());
    map.insert("route".to_string(), 1);
    map.insert("audit".to_string(), 2);
    map.insert("tenant".to_string(), 3);
    map.insert("route".to_string(), 4);
    assert_eq!(map.len(), 3);
    let keys: Vec<&str> = (0..map.len()).map(|i| map.key_at(i)).collect();
    assert_eq!(keys, vec!["audit", "route", "tenant"]);
    assert_eq!(*map.value_at(1), 4);
    assert_eq!(map.get("tenant"), Some(&3));
    assert_eq!(map.get("absent"), None);

    let mut other = TextMap::new();
    other.insert("tenant".to_string(), 3);
    other.insert("audit".to_string(), 2);
    other.insert("route".to_string(), 4);
    for i in 0..3 {
        assert_eq!(other.key_at(i), map.key_at(i));
        assert_eq!(other.value_at(i), map.value_at(i));
    }
}
