use isaac_save_installer::text::{decimal_string, eq_ignoring_case, parse_number, same_text, trim};

#[test]
fn decimal_string_writes_numbers() {
    assert_eq!(decimal_string(0), "0");
    assert_eq!(decimal_string(7), "7");
    assert_eq!(decimal_string(10), "10");
    assert_eq!(decimal_string(250900), "250900");
    assert_eq!(decimal_string(4294967295), "4294967295");
    assert_eq!(decimal_string(u64::MAX), "18446744073709551615");
}

#[test]
fn decimal_string_agrees_with_the_standard_library() {
    for n in [0u64, 1, 9, 10, 11, 99, 100, 101, 999, 1000, 65535, 65536, 1234567890] {
        assert_eq!(decimal_string(n), n.to_string());
    }
}

#[test]
fn same_text_compares_every_character() {
    assert!(same_text("", ""));
    assert!(same_text("SteamCloud", "SteamCloud"));
    assert!(!same_text("SteamCloud", "steamcloud"));
    assert!(!same_text("0", "1"));
    assert!(!same_text("0", "00"));
}

#[test]
fn trim_takes_white_space_away() {
    assert_eq!(trim(""), "");
    assert_eq!(trim("   "), "");
    assert_eq!(trim("y"), "y");
    assert_eq!(trim("  yes \r\n"), "yes");
    assert_eq!(trim("\t 3"), "3");
    assert_eq!(trim("a b"), "a b");
    assert_eq!(trim(" a  b "), "a  b");
    assert_eq!(trim("\u{a0}\u{3000}no\u{2028}\u{85}"), "no");
}

#[test]
fn trim_agrees_with_the_standard_library() {
    let spaces = [
        '\u{9}', '\u{a}', '\u{b}', '\u{c}', '\u{d}', '\u{20}', '\u{85}', '\u{a0}', '\u{1680}',
        '\u{2000}', '\u{2001}', '\u{2002}', '\u{2003}', '\u{2004}', '\u{2005}', '\u{2006}',
        '\u{2007}', '\u{2008}', '\u{2009}', '\u{200a}', '\u{2028}', '\u{2029}', '\u{202f}',
        '\u{205f}', '\u{3000}',
    ];
    for c in spaces {
        let text = format!("{}x{}", c, c);
        assert_eq!(trim(&text), "x");
        assert_eq!(trim(&text), text.trim());
    }
    let others = ['\u{8}', '\u{e}', '\u{1f}', '\u{21}', '\u{84}', '\u{86}', '\u{200b}', '\u{feff}'];
    for c in others {
        let text = format!("{}x{}", c, c);
        assert_eq!(trim(&text), text);
        assert_eq!(trim(&text), text.trim());
    }
}

#[test]
fn eq_ignoring_case_ignores_ascii_case_only() {
    assert!(eq_ignoring_case("yes", "yes"));
    assert!(eq_ignoring_case("YES", "yes"));
    assert!(eq_ignoring_case("yEs", "Yes"));
    assert!(eq_ignoring_case("", ""));
    assert!(!eq_ignoring_case("yes", "ye"));
    assert!(!eq_ignoring_case("yes", "yet"));
    assert!(!eq_ignoring_case("@", "`"));
    assert!(!eq_ignoring_case("[", "{"));
    assert!(!eq_ignoring_case("\u{c9}", "\u{e9}"));
}

#[test]
fn parse_number_reads_decimal() {
    assert_eq!(parse_number("0"), Some(0));
    assert_eq!(parse_number("1"), Some(1));
    assert_eq!(parse_number("5"), Some(5));
    assert_eq!(parse_number("42"), Some(42));
    assert_eq!(parse_number("007"), Some(7));
    assert_eq!(parse_number("+3"), Some(3));
    assert_eq!(parse_number(&usize::MAX.to_string()), Some(usize::MAX));
}

#[test]
fn parse_number_rejects_what_is_no_number() {
    assert_eq!(parse_number(""), None);
    assert_eq!(parse_number("+"), None);
    assert_eq!(parse_number("-1"), None);
    assert_eq!(parse_number("++1"), None);
    assert_eq!(parse_number("1+"), None);
    assert_eq!(parse_number(" 1"), None);
    assert_eq!(parse_number("1 "), None);
    assert_eq!(parse_number("one"), None);
    assert_eq!(parse_number("1.0"), None);
    assert_eq!(parse_number("\u{661}"), None);
    assert_eq!(parse_number("18446744073709551616"), None);
    assert_eq!(parse_number("99999999999999999999999999"), None);
}

#[test]
fn parse_number_agrees_with_the_standard_library() {
    let texts = [
        "", "+", "-", "0", "+0", "-0", "12", "+12", "0012", "12a", "a12", "1 2", "１２",
        "18446744073709551615", "18446744073709551616", "4294967295", "4294967296",
    ];
    for text in texts {
        assert_eq!(parse_number(text), text.parse::<usize>().ok(), "{:?}", text);
    }
}
