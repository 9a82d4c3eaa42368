use ggsbot::text::{
    capitalize, ends_with_str, i64_to_decimal, join_strings, parse_unsigned_radix, replace_str, split_char,
    split_once_char, u64_to_decimal,
};
use ggsbot::traits::color::trim_start_matches_char;

#[test]
fn decimal_rendering() {
    assert_eq!(u64_to_decimal(0), "0");
    assert_eq!(u64_to_decimal(7), "7");
    assert_eq!(u64_to_decimal(1234567890), "1234567890");
    assert_eq!(u64_to_decimal(u64::MAX), u64::MAX.to_string());
}

#[test]
fn signed_decimal_rendering() {
    assert_eq!(i64_to_decimal(0), "0");
    assert_eq!(i64_to_decimal(-42), "-42");
    assert_eq!(i64_to_decimal(1700000000), "1700000000");
    assert_eq!(i64_to_decimal(i64::MIN), i64::MIN.to_string());
    assert_eq!(i64_to_decimal(i64::MAX), i64::MAX.to_string());
}

#[test]
fn parsing_unsigned_like_from_str_radix() {
    assert_eq!(parse_unsigned_radix("255", 10, 255), Some(255));
    assert_eq!(parse_unsigned_radix("256", 10, 255), None);
    assert_eq!(parse_unsigned_radix("+12", 10, 255), Some(12));
    assert_eq!(parse_unsigned_radix("+", 10, 255), None);
    assert_eq!(parse_unsigned_radix("", 10, 255), None);
    assert_eq!(parse_unsigned_radix("-1", 10, 255), None);
    assert_eq!(parse_unsigned_radix("12a", 10, 255), None);
    assert_eq!(parse_unsigned_radix("4889D8", 16, u32::MAX as u64), Some(0x4889D8));
    assert_eq!(parse_unsigned_radix("ffffffff", 16, u32::MAX as u64), Some(0xffffffff));
    assert_eq!(parse_unsigned_radix("100000000", 16, u32::MAX as u64), None);
    assert_eq!(parse_unsigned_radix("2199023255552", 10, u64::MAX), Some(2199023255552));
}

#[test]
fn splitting_once() {
    assert_eq!(split_once_char("hello:nav:0:next", ':'), Some(("hello".to_string(), "nav:0:next".to_string())));
    assert_eq!(split_once_char(":x", ':'), Some((String::new(), "x".to_string())));
    assert_eq!(split_once_char("plain", ':'), None);
}

#[test]
fn splitting_on_every_separator() {
    assert_eq!(split_char("guilds:1:nasa:config", ':'), vec!["guilds", "1", "nasa", "config"]);
    assert_eq!(split_char("a::b:", ':'), vec!["a", "", "b", ""]);
    assert_eq!(split_char("", ':'), vec![""]);
}

#[test]
fn replacing_every_match() {
    assert_eq!(replace_str("One. Two. Three.", ". ", ". \n\n"), "One. \n\nTwo. \n\nThree.");
    assert_eq!(replace_str("aaa", "aa", "b"), "ba");
    assert_eq!(replace_str("nothing", "xyz", "b"), "nothing");
    assert_eq!(replace_str("abc", "", "X"), "abc".replace("", "X"));
    assert_eq!(replace_str("abc", "", "X"), "XaXbXcX");
    assert_eq!(replace_str("", "", "X"), "X");
}

#[test]
fn joining_with_separator() {
    let parts = vec!["a".to_string(), "b".to_string(), "c".to_string()];
    assert_eq!(join_strings(&parts, ","), "a,b,c");
    assert_eq!(join_strings(&Vec::new(), ","), "");
    assert_eq!(join_strings(&vec!["only".to_string()], ","), "only");
}

#[test]
fn suffixes() {
    assert!(ends_with_str("guilds:1:nasa:config", ":nasa:config"));
    assert!(!ends_with_str("guilds:1:nasa:conf", ":nasa:config"));
    assert!(ends_with_str("x", ""));
    assert!(!ends_with_str("", "x"));
}

#[test]
fn capitalizing_the_first_letter() {
    assert_eq!(capitalize("nasa"), "Nasa");
    assert_eq!(capitalize(""), "");
    assert_eq!(capitalize("Ext"), "Ext");
    assert_eq!(capitalize("ßx"), "SSx");
}

#[test]
fn trimming_leading_characters() {
    assert_eq!(trim_start_matches_char("##4889D8", '#'), "4889D8");
    assert_eq!(trim_start_matches_char("4889D8", '#'), "4889D8");
    assert_eq!(trim_start_matches_char("###", '#'), "");
}
