use auth_sync::text::{parse_i64, str_ends_with, str_eq, trim, u32_dec};

#[test]
fn trim_strips_both_ends() {
    assert_eq!(trim("  hello  "), "hello");
    assert_eq!(trim("\t a b \r\n"), "a b");
    assert_eq!(trim("none"), "none");
    assert_eq!(trim("   "), "");
    assert_eq!(trim(""), "");
}

#[test]
fn str_eq_compares_contents() {
    assert!(str_eq("abc", "abc"));
    assert!(!str_eq("abc", "abd"));
    assert!(!str_eq("abc", "ab"));
    assert!(str_eq("", ""));
}

#[test]
fn str_ends_with_finds_suffixes() {
    assert!(str_ends_with("a@oxidecomputer.com", "@oxidecomputer.com"));
    assert!(!str_ends_with("a@oxidecomputer.org", "@oxidecomputer.com"));
    assert!(str_ends_with("anything", ""));
    assert!(!str_ends_with("a", "ba"));
}

#[test]
fn parse_i64_accepts_plain_numbers() {
    assert_eq!(parse_i64("123"), Some(123));
    assert_eq!(parse_i64("0"), Some(0));
    assert_eq!(parse_i64("-45"), Some(-45));
    assert_eq!(parse_i64("+7"), Some(7));
    assert_eq!(parse_i64("007"), Some(7));
}

#[test]
fn parse_i64_rejects_junk() {
    assert_eq!(parse_i64(""), None);
    assert_eq!(parse_i64("-"), None);
    assert_eq!(parse_i64("+"), None);
    assert_eq!(parse_i64("12a"), None);
    assert_eq!(parse_i64("a12"), None);
    assert_eq!(parse_i64(" 12"), None);
    assert_eq!(parse_i64("1.5"), None);
}

#[test]
fn parse_i64_handles_the_range_ends() {
    assert_eq!(parse_i64("9223372036854775807"), Some(i64::MAX));
    assert_eq!(parse_i64("9223372036854775808"), None);
    assert_eq!(parse_i64("-9223372036854775808"), Some(i64::MIN));
    assert_eq!(parse_i64("-9223372036854775809"), None);
    assert_eq!(parse_i64("99999999999999999999999999"), None);
}

#[test]
fn u32_dec_renders_decimal() {
    assert_eq!(u32_dec(0), "0");
    assert_eq!(u32_dec(7), "7");
    assert_eq!(u32_dec(20), "20");
    assert_eq!(u32_dec(105), "105");
    assert_eq!(u32_dec(u32::MAX), "4294967295");
}
