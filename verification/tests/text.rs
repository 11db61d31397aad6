use flowstt::text::{
    eq_ignore_ascii_case, ends_with, find_first, find_last, replace_char, starts_with, str_contains,
    parse_usize, str_eq, str_lt, trim, u128_to_decimal, u32_to_hex8, usize_to_decimal,
};

#[test]
fn contains_and_equality() {
    assert!(str_contains("NVIDIA CUDA : ARCHS = 860", "CUDA : ARCHS"));
    assert!(!str_contains("METAL = 0", "METAL = 1"));
    assert!(str_contains("abc", ""));
    assert!(str_eq("abc", "abc"));
    assert!(!str_eq("abc", "abd"));
    assert!(eq_ignore_ascii_case("Y", "y"));
    assert!(eq_ignore_ascii_case("NoNe", "none"));
    assert!(!eq_ignore_ascii_case("yes", "y"));
}

#[test]
fn ordering_of_strings() {
    assert!(str_lt("F1", "F2"));
    assert!(str_lt("Key", "KeyA"));
    assert!(!str_lt("b", "a"));
    assert!(!str_lt("a", "a"));
}

#[test]
fn trimming_white_space() {
    assert_eq!(trim("  hello world \n"), "hello world");
    assert_eq!(trim("\u{3000}x\u{a0}"), "x");
    assert_eq!(trim("   "), "");
    assert_eq!(trim(""), "");
    assert_eq!(trim("a b"), "a b");
}

#[test]
fn prefixes_suffixes_and_positions() {
    assert!(starts_with("Monitor of X", "Monitor of "));
    assert!(!starts_with("Mon", "Monitor"));
    assert!(ends_with("a.monitor", ".monitor"));
    assert!(!ends_with("monitor", ".monitor"));
    assert_eq!(find_first("a.b.c", '.'), Some(1));
    assert_eq!(find_last("a.b.c", '.'), Some(3));
    assert_eq!(find_last("abc", '.'), None);
}

#[test]
fn replacing_and_numbers() {
    assert_eq!(replace_char("a_b_c", '_', " "), "a b c");
    assert_eq!(usize_to_decimal(0), "0");
    assert_eq!(usize_to_decimal(7), "7");
    assert_eq!(usize_to_decimal(1234), "1234");
}

#[test]
fn parse_usize_follows_std_parse() {
    for s in ["0", "7", "42", "+5", "007", "18446744073709551615", "18446744073709551616", "", "+", "-1", " 1", "1a", "1.0"] {
        assert_eq!(parse_usize(s), s.parse::<usize>().ok(), "input {:?}", s);
    }
    assert_eq!(parse_usize("123"), Some(123));
    assert_eq!(parse_usize("+"), None);
}

#[test]
fn number_formatting_matches_std() {
    for n in [0u32, 1, 9, 10, 15, 16, 255, 4096, 0x1234abcd, u32::MAX] {
        assert_eq!(u32_to_hex8(n), format!("{:08x}", n));
    }
    for n in [0u128, 7, 10, 99, 1000, u64::MAX as u128, u128::MAX] {
        assert_eq!(u128_to_decimal(n), n.to_string());
    }
}
