use cargo_chrono::json::Json;
use cargo_chrono::scan::{rfind_char, split_words, trimmed_tail};
use cargo_chrono::text::{
    decimal_string, from_chars, leading_bytes, padded_left, padded_right, to_chars,
};
use cargo_chrono::time::Duration;

#[test]
fn duration_units_and_carry() {
    let d = Duration::new(3, 2_500_000_000);
    assert_eq!(d.as_secs(), 5);
    assert_eq!(d.subsec_nanos(), 500_000_000);
    assert_eq!(d.as_millis(), 5_500);
    assert_eq!(Duration::from_secs(2).as_nanos(), 2_000_000_000);
    assert_eq!(Duration::from_millis(1500), Duration::from_nanos(1_500_000_000));
}

#[test]
fn duration_saturating_sub_and_order() {
    let a = Duration::from_millis(300);
    let b = Duration::from_millis(100);
    assert_eq!(a.saturating_sub(b), Duration::from_millis(200));
    assert_eq!(b.saturating_sub(a), Duration::zero());
    assert!(a > b);
}

#[test]
fn decimal_and_padding() {
    assert_eq!(decimal_string(0), "0");
    assert_eq!(decimal_string(1234567890123), "1234567890123");
    assert_eq!(padded_left(&"7".to_string(), 3, '0'), "007");
    assert_eq!(padded_left(&"1234".to_string(), 3, '0'), "1234");
    assert_eq!(padded_right(&"ab".to_string(), 4, '.'), "ab..");
    assert_eq!(padded_right(&"é".to_string(), 3, ' '), "é  ");
}

#[test]
fn chars_round_trip() {
    let v = to_chars("a→b");
    assert_eq!(v, vec!['a', '→', 'b']);
    assert_eq!(from_chars(&v), "a→b");
}

#[test]
fn leading_bytes_cut_at_a_byte_count() {
    assert_eq!(leading_bytes("abc1234def", 7), "abc1234");
    assert_eq!(leading_bytes("abc", 7), "abc");
    assert_eq!(leading_bytes("ab→cd", 5), "ab→");
}

#[test]
fn words_and_tails() {
    let v = to_chars("  Compiling  foo v1.0 ");
    let w: Vec<String> = split_words(&v).iter().map(from_chars).collect();
    assert_eq!(w, vec!["Compiling", "foo", "v1.0"]);
    let p = to_chars("a#b@c");
    assert_eq!(rfind_char(&p, '#'), Some(1));
    assert_eq!(rfind_char(&p, 'z'), None);
    assert_eq!(from_chars(&trimmed_tail(&to_chars("x@ 1.0 "), 2)), "1.0");
}

#[test]
fn json_lookups() {
    let j = Json::Object(vec![
        ("reason".to_string(), Json::Str("x".to_string())),
        ("reason".to_string(), Json::Str("second".to_string())),
        ("list".to_string(), Json::Array(vec![Json::Bool(true), Json::Null])),
    ]);
    assert_eq!(j.get("reason").and_then(|r| r.as_str()).map(|s| s.as_str()), Some("x"));
    assert!(j.get("missing").is_none());
    let list = j.get("list").unwrap();
    assert_eq!(list.at(0).and_then(|b| b.as_bool()), Some(true));
    assert!(list.at(1).unwrap().as_bool().is_none());
    assert!(list.at(2).is_none());
    assert!(Json::Number("1".to_string()).get("a").is_none());
}
