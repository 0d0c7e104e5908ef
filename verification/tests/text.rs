use gcc_builder::decimal::{decimal, parse_u32, parse_u64, push_decimal};
use gcc_builder::scan::{is_whitespace, lines, split, split_whitespace, trim};
use gcc_builder::text::{
    chars_of, contains, ends_with, find, find_last, join, starts_with, str_contains, str_eq,
    string_of,
};

fn c(s: &str) -> Vec<char> {
    s.chars().collect()
}

fn strings(v: Vec<Vec<char>>) -> Vec<String> {
    v.into_iter().map(|p| p.into_iter().collect()).collect()
}

#[test]
fn chars_and_strings_round_trip() {
    assert_eq!(chars_of("a-ü"), vec!['a', '-', 'ü']);
    assert_eq!(string_of(&vec!['g', 'c', 'c']), "gcc");
    assert_eq!(string_of(&chars_of("")), "");
}

#[test]
fn prefix_suffix_and_substring() {
    assert!(starts_with(&c("--prefix=/x"), &c("--prefix=")));
    assert!(!starts_with(&c("-prefix"), &c("--prefix=")));
    assert!(starts_with(&c("abc"), &c("")));
    assert!(ends_with(&c("gcc-13"), &c("-13")));
    assert!(!ends_with(&c("13"), &c("-13")));
    assert!(contains(&c("virtual memory exhausted"), &c("memory exhausted")));
    assert!(!contains(&c("memory"), &c("memory exhausted")));
    assert!(str_contains("x86_64-linux-gnu", "64"));
    assert!(str_eq("fast", "fast"));
    assert!(!str_eq("fast", "fas"));
}

#[test]
fn find_gives_first_and_last_offsets() {
    assert_eq!(find(&c("a/bin/nvcc/bin/nvcc"), &c("/bin/nvcc")), Some(1));
    assert_eq!(find_last(&c("a/bin/nvcc/bin/nvcc"), &c("/bin/nvcc")), Some(10));
    assert_eq!(find(&c("abc"), &c("x")), None);
    assert_eq!(find(&c("abc"), &c("")), Some(0));
    assert_eq!(find_last(&c("abc"), &c("")), Some(3));
    assert_eq!(find(&c(""), &c("a")), None);
}

#[test]
fn split_keeps_empty_pieces() {
    assert_eq!(strings(split(&c("11,13,14"), ',')), vec!["11", "13", "14"]);
    assert_eq!(strings(split(&c(""), ',')), vec![""]);
    assert_eq!(strings(split(&c(",a,"), ',')), vec!["", "a", ""]);
    assert_eq!(strings(split(&c("11-14"), '-')), vec!["11", "14"]);
}

#[test]
fn lines_follow_the_standard_library() {
    for text in ["", "a", "a\n", "a\nb", "a\r\nb\r\n", "a\n\nb", "\n", "a\r", "a\r\n\r", "x\ny\n\n"] {
        let expected: Vec<String> = text.lines().map(|l| l.to_string()).collect();
        assert_eq!(strings(lines(&c(text))), expected, "text {:?}", text);
    }
}

#[test]
fn words_follow_the_standard_library() {
    for text in ["", "  ", "a", " a  b\tc\n", "cache hit (direct)     123", "x\u{a0}y", "a\u{3000}"] {
        let expected: Vec<String> = text.split_whitespace().map(|l| l.to_string()).collect();
        assert_eq!(strings(split_whitespace(&c(text))), expected, "text {:?}", text);
    }
}

#[test]
fn whitespace_is_the_unicode_property() {
    for n in 0u32..0x3100 {
        if let Some(ch) = char::from_u32(n) {
            assert_eq!(is_whitespace(ch), ch.is_whitespace(), "code point {:x}", n);
        }
    }
}

#[test]
fn trim_follows_the_standard_library() {
    for text in ["", "   ", " a ", "\t/usr/local/cuda/bin/nvcc\n", "a b", "\u{2003}x\u{2003}"] {
        let got: String = trim(&c(text)).into_iter().collect();
        assert_eq!(got, text.trim(), "text {:?}", text);
    }
}

#[test]
fn join_puts_the_separator_between() {
    assert_eq!(join(&vec![], ","), "");
    assert_eq!(join(&vec!["a".to_string()], ","), "a");
    assert_eq!(join(&vec!["a".to_string(), "b".to_string(), "".to_string()], ", "), "a, b, ");
}

#[test]
fn decimal_writes_numbers() {
    for n in [0u64, 7, 10, 13, 99, 100, 255, 4294967295, u64::MAX] {
        let got: String = decimal(n).into_iter().collect();
        assert_eq!(got, n.to_string());
    }
    let mut s = String::from("gcc-");
    push_decimal(&mut s, 13);
    assert_eq!(s, "gcc-13");
}

#[test]
fn parsing_follows_the_standard_library() {
    for text in [
        "", "0", "13", "+13", "-13", "+", "013", "4294967295", "4294967296", "1a", " 1", "1 ",
        "99999999999999999999", "18446744073709551615", "18446744073709551616", "++1", "1+",
    ] {
        assert_eq!(parse_u32(&c(text)), text.parse::<u32>().ok(), "u32 {:?}", text);
        assert_eq!(parse_u64(&c(text)), text.parse::<u64>().ok(), "u64 {:?}", text);
    }
}
