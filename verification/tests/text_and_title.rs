use twist_dl::decimal::{digit_char, push_decimal, push_signed_decimal};
use twist_dl::text::{from_chars, push_text, to_chars};
use twist_dl::title::{clear_title, dash_separators, dropped, strip_punctuation, trim};

fn chars(s: &str) -> Vec<char> {
    s.chars().collect()
}

fn decimal(n: u64) -> String {
    let mut s = String::new();
    push_decimal(&mut s, n);
    s
}

fn signed(n: i64) -> String {
    let mut s = String::new();
    push_signed_decimal(&mut s, n);
    s
}

#[test]
fn clears_a_plain_title() {
    assert_eq!(clear_title("Attack on Titan"), "attack-on-titan");
}

#[test]
fn clears_surrounding_whitespace() {
    assert_eq!(clear_title("  Attack on Titan \t\n"), "attack-on-titan");
    assert_eq!(clear_title("\u{a0}Bleach\u{3000}"), "bleach");
}

#[test]
fn clears_apostrophes_into_dashes() {
    assert_eq!(clear_title("JoJo's Bizarre Adventure: Part 3"), "jojo-s-bizarre-adventure-part-3");
}

#[test]
fn clears_punctuation() {
    assert_eq!(clear_title("Steins;Gate 0"), "steinsgate-0");
    assert_eq!(clear_title("K-On!!"), "k-on");
    assert_eq!(clear_title("Fate/stay night [UBW]"), "fatestay-night-[ubw]");
    assert_eq!(clear_title("~@#$&()*!+=:;,.?/"), "");
}

#[test]
fn clears_to_lowercase_beyond_ascii() {
    assert_eq!(clear_title("\u{c9}COLE"), "\u{e9}cole");
    assert_eq!(clear_title("\u{39f}\u{394}\u{39f}\u{3a3}"), "\u{3bf}\u{3b4}\u{3bf}\u{3c2}");
}

#[test]
fn clears_the_empty_title() {
    assert_eq!(clear_title(""), "");
    assert_eq!(clear_title("   "), "");
}

#[test]
fn inner_whitespace_other_than_space_stays() {
    assert_eq!(clear_title("a\tb"), "a\tb");
}

#[test]
fn trims_both_ends_only() {
    assert_eq!(trim(&chars("  a b  ")), chars("a b"));
    assert_eq!(trim(&chars("\n\ta")), chars("a"));
    assert_eq!(trim(&chars("a\r\n")), chars("a"));
    assert_eq!(trim(&chars(" \t ")), chars(""));
    assert_eq!(trim(&chars("")), chars(""));
    assert_eq!(trim(&chars("ab")), chars("ab"));
}

#[test]
fn dashes_spaces_and_apostrophes() {
    assert_eq!(dash_separators(&chars("a b'c-d")), chars("a-b-c-d"));
    assert_eq!(dash_separators(&chars("")), chars(""));
}

#[test]
fn strips_the_listed_characters() {
    assert_eq!(strip_punctuation(&chars("a~b@c#d$e&f(g)h*i!j+k=l:m;n,o.p?q/r's t")), chars("abcdefghijklmnopqrst"));
    assert_eq!(strip_punctuation(&chars("a-b_c[d]")), chars("a-b_c[d]"));
}

#[test]
fn dropped_characters() {
    for c in " ~@#$&()*!+=:;,.?/'".chars() {
        assert!(dropped(c));
    }
    for c in "-_[]aZ09%^\"\\|<>{}`\t".chars() {
        assert!(!dropped(c));
    }
}

#[test]
fn characters_of_a_string_and_back() {
    assert_eq!(to_chars("a\u{e9}\u{65e5}\u{1f600}z"), chars("a\u{e9}\u{65e5}\u{1f600}z"));
    assert_eq!(to_chars(""), Vec::<char>::new());
    assert_eq!(from_chars(&chars("a\u{e9}\u{65e5}\u{1f600}z")), "a\u{e9}\u{65e5}\u{1f600}z");
    assert_eq!(from_chars(&Vec::new()), "");
}

#[test]
fn pushes_text() {
    let mut s = "ab".to_string();
    push_text(&mut s, "cd");
    assert_eq!(s, "abcd");
    push_text(&mut s, "");
    assert_eq!(s, "abcd");
}

#[test]
fn digits() {
    let all: Vec<char> = (0u8..10).map(digit_char).collect();
    assert_eq!(all, chars("0123456789"));
}

#[test]
fn decimal_notation() {
    assert_eq!(decimal(0), "0");
    assert_eq!(decimal(7), "7");
    assert_eq!(decimal(10), "10");
    assert_eq!(decimal(120), "120");
    assert_eq!(decimal(1000), "1000");
    assert_eq!(decimal(u64::MAX), "18446744073709551615");
}

#[test]
fn decimal_notation_appends() {
    let mut s = "n=".to_string();
    push_decimal(&mut s, 42);
    assert_eq!(s, "n=42");
}

#[test]
fn signed_decimal_notation() {
    assert_eq!(signed(0), "0");
    assert_eq!(signed(12), "12");
    assert_eq!(signed(-1), "-1");
    assert_eq!(signed(-120), "-120");
    assert_eq!(signed(i64::MAX), "9223372036854775807");
    assert_eq!(signed(i64::MIN), "-9223372036854775808");
}

#[test]
fn decimal_agrees_with_the_standard_formatting() {
    for n in [0u64, 1, 9, 10, 11, 99, 100, 101, 65535, 4294967296, 999999999999] {
        assert_eq!(decimal(n), format!("{}", n));
    }
    for n in [-99i64, -10, -9, 5, 1234567] {
        assert_eq!(signed(n), format!("{}", n));
    }
}
