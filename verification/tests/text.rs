use lanshare::text::{
    contains_char, decimal_string, has_prefix, parse_u64, push_decimal, same_text,
    sanitize_file_name,
};

#[test]
fn sanitize_replaces_colon() {
    assert_eq!(sanitize_file_name("image:1000.jpg"), "image_1000.jpg");
}

#[test]
fn sanitize_replaces_slashes() {
    assert_eq!(sanitize_file_name("../etc/passwd"), ".._etc_passwd");
    assert_eq!(sanitize_file_name("C:\\Users\\me\\x.txt"), "C__Users_me_x.txt");
    assert_eq!(sanitize_file_name("a/b\\c:d"), "a_b_c_d");
}

#[test]
fn sanitize_keeps_everything_else() {
    assert_eq!(sanitize_file_name(""), "");
    assert_eq!(sanitize_file_name("plain name.txt"), "plain name.txt");
    assert_eq!(sanitize_file_name("über_ñ-日本.png"), "über_ñ-日本.png");
    assert_eq!(sanitize_file_name("a%3Ab"), "a%3Ab");
}

#[test]
fn sanitize_matches_replace() {
    for name in ["", ":", "a:b/c\\d", "日本:語", "no-change", "///", "x\\y"] {
        let expected = name.replace(':', "_").replace('/', "_").replace('\\', "_");
        let got = sanitize_file_name(name);
        assert_eq!(got, expected);
        assert_eq!(got.chars().count(), name.chars().count());
        assert!(!got.contains(':') && !got.contains('/') && !got.contains('\\'));
    }
}

#[test]
fn prefix_test() {
    assert!(has_prefix("msf_1000", "msf_"));
    assert!(has_prefix("msf_", "msf_"));
    assert!(has_prefix("anything", ""));
    assert!(!has_prefix("msf", "msf_"));
    assert!(!has_prefix("xmsf_1", "msf_"));
    assert!(has_prefix("日本語", "日本"));
}

#[test]
fn same_text_test() {
    assert!(same_text("", ""));
    assert!(same_text("abc", "abc"));
    assert!(!same_text("abc", "abd"));
    assert!(!same_text("abc", "abcd"));
    assert!(!same_text("abcd", "abc"));
}

#[test]
fn contains_char_test() {
    assert!(contains_char("a.b", '.'));
    assert!(contains_char(".", '.'));
    assert!(!contains_char("ab", '.'));
    assert!(!contains_char("", '.'));
}

#[test]
fn decimal_rendering() {
    assert_eq!(decimal_string(0), "0");
    assert_eq!(decimal_string(7), "7");
    assert_eq!(decimal_string(10), "10");
    assert_eq!(decimal_string(3030), "3030");
    assert_eq!(decimal_string(1700000000123), "1700000000123");
    assert_eq!(decimal_string(u128::MAX), u128::MAX.to_string());
    for n in [1u128, 9, 99, 100, 101, 65535, 4294967296, 18446744073709551615] {
        assert_eq!(decimal_string(n), n.to_string());
    }
}

#[test]
fn decimal_is_appended() {
    let mut s = String::from("id_");
    push_decimal(&mut s, 42);
    assert_eq!(s, "id_42");
    push_decimal(&mut s, 0);
    assert_eq!(s, "id_420");
}

#[test]
fn parse_reads_plain_numbers() {
    assert_eq!(parse_u64("0"), Some(0));
    assert_eq!(parse_u64("12345"), Some(12345));
    assert_eq!(parse_u64("+7"), Some(7));
    assert_eq!(parse_u64("007"), Some(7));
    assert_eq!(parse_u64("18446744073709551615"), Some(u64::MAX));
    assert_eq!(parse_u64("00000000000000000000000000001"), Some(1));
}

#[test]
fn parse_rejects_everything_else() {
    assert_eq!(parse_u64(""), None);
    assert_eq!(parse_u64("+"), None);
    assert_eq!(parse_u64("-1"), None);
    assert_eq!(parse_u64("++1"), None);
    assert_eq!(parse_u64("1+"), None);
    assert_eq!(parse_u64(" 1"), None);
    assert_eq!(parse_u64("1 "), None);
    assert_eq!(parse_u64("12a"), None);
    assert_eq!(parse_u64("1.5"), None);
    assert_eq!(parse_u64("١٢٣"), None);
    assert_eq!(parse_u64("18446744073709551616"), None);
    assert_eq!(parse_u64("99999999999999999999999"), None);
}

#[test]
fn parse_agrees_with_std() {
    for text in [
        "", "+", "0", "+0", "42", "042", "4 2", "18446744073709551615",
        "18446744073709551616", "184467440737095516150", "-0", "0x10", "１２",
    ] {
        assert_eq!(parse_u64(text), text.parse::<u64>().ok());
    }
}
