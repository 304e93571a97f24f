use task_manager::text::{
    chars_of, decimal_string, join_words, parse_id, same_text, split_words, trim_char,
};

fn strings(words: &[&str]) -> Vec<String> {
    words.iter().map(|w| w.to_string()).collect()
}

#[test]
fn chars_of_gives_characters_in_order() {
    assert_eq!(chars_of("a\u{e9}\u{3042}"), vec!['a', '\u{e9}', '\u{3042}']);
    assert_eq!(chars_of(""), Vec::<char>::new());
}

#[test]
fn same_text_compares_characters() {
    assert!(same_text("add", "add"));
    assert!(!same_text("add", "ad"));
    assert!(!same_text("add", "Add"));
    assert!(same_text("", ""));
}

#[test]
fn decimal_string_of_small_and_large_numbers() {
    assert_eq!(decimal_string(0), "0");
    assert_eq!(decimal_string(7), "7");
    assert_eq!(decimal_string(10), "10");
    assert_eq!(decimal_string(109), "109");
    assert_eq!(decimal_string(4294967295), "4294967295");
}

#[test]
fn decimal_string_agrees_with_the_standard_library() {
    for n in (0..5000u32).chain([65535, 65536, 999999999, 1000000000, 4294967294]) {
        assert_eq!(decimal_string(n), n.to_string());
    }
}

#[test]
fn parse_id_reads_digits() {
    assert_eq!(parse_id("1"), Some(1));
    assert_eq!(parse_id("0"), Some(0));
    assert_eq!(parse_id("42"), Some(42));
    assert_eq!(parse_id("007"), Some(7));
    assert_eq!(parse_id("4294967295"), Some(4294967295));
    assert_eq!(parse_id("0000000000004294967295"), Some(4294967295));
}

#[test]
fn parse_id_takes_one_leading_plus() {
    assert_eq!(parse_id("+5"), Some(5));
    assert_eq!(parse_id("+"), None);
    assert_eq!(parse_id("++5"), None);
    assert_eq!(parse_id("5+"), None);
}

#[test]
fn parse_id_refuses_what_is_no_number() {
    assert_eq!(parse_id(""), None);
    assert_eq!(parse_id("-1"), None);
    assert_eq!(parse_id("-0"), None);
    assert_eq!(parse_id("1a"), None);
    assert_eq!(parse_id("a1"), None);
    assert_eq!(parse_id(" 1"), None);
    assert_eq!(parse_id("1 "), None);
    assert_eq!(parse_id("1.0"), None);
    assert_eq!(parse_id("\u{663}"), None);
}

#[test]
fn parse_id_refuses_what_does_not_fit() {
    assert_eq!(parse_id("4294967296"), None);
    assert_eq!(parse_id("99999999999999999999999999"), None);
    assert_eq!(parse_id("42949672950"), None);
}

#[test]
fn parse_id_agrees_with_the_standard_library() {
    let samples = [
        "", "+", "-", "0", "+0", "-0", "12", "+12", "-12", "1 2", "0x10", "4294967295",
        "4294967296", "+4294967295", "18446744073709551616", "\u{661}\u{662}", "1_000", "1e3", "00",
    ];
    for s in samples {
        assert_eq!(parse_id(s), s.parse::<u32>().ok(), "on {:?}", s);
    }
}

#[test]
fn join_words_puts_one_space_between() {
    assert_eq!(join_words(&strings(&[])), "");
    assert_eq!(join_words(&strings(&["buy"])), "buy");
    assert_eq!(join_words(&strings(&["buy", "milk"])), "buy milk");
    assert_eq!(join_words(&strings(&["a", "", "b"])), "a  b");
    assert_eq!(join_words(&strings(&["", ""])), " ");
}

#[test]
fn trim_char_takes_runs_off_both_ends() {
    assert_eq!(trim_char("\"buy milk\"", '"'), "buy milk");
    assert_eq!(trim_char("\"\"a\"b\"\"\"", '"'), "a\"b");
    assert_eq!(trim_char("plain", '"'), "plain");
    assert_eq!(trim_char("\"open", '"'), "open");
    assert_eq!(trim_char("close\"", '"'), "close");
}

#[test]
fn trim_char_of_nothing_but_the_character_is_empty() {
    assert_eq!(trim_char("\"\"\"", '"'), "");
    assert_eq!(trim_char("\"", '"'), "");
    assert_eq!(trim_char("", '"'), "");
}

#[test]
fn trim_char_agrees_with_the_standard_library() {
    for s in ["", "x", "xx", "xax", "axa", "xxaxbxx", "\u{e9}x", "x\u{e9}x\u{3042}xx"] {
        assert_eq!(trim_char(s, 'x'), s.trim_matches('x'), "on {:?}", s);
    }
}

#[test]
fn split_words_separates_at_white_space() {
    assert_eq!(split_words("add buy milk"), strings(&["add", "buy", "milk"]));
    assert_eq!(split_words("  done \t 3\n"), strings(&["done", "3"]));
    assert_eq!(split_words("list"), strings(&["list"]));
}

#[test]
fn split_words_of_blank_text_is_empty() {
    assert_eq!(split_words(""), Vec::<String>::new());
    assert_eq!(split_words(" \t\r\n"), Vec::<String>::new());
}

#[test]
fn split_words_knows_white_space_beyond_ascii() {
    assert_eq!(split_words("a\u{3000}b\u{a0}c\u{2003}d"), strings(&["a", "b", "c", "d"]));
    assert_eq!(split_words("a\u{200b}b"), strings(&["a\u{200b}b"]));
    assert_eq!(split_words("\u{e9}t\u{e9} \u{3042}"), strings(&["\u{e9}t\u{e9}", "\u{3042}"]));
}

#[test]
fn split_words_agrees_with_the_standard_library() {
    for s in ["", " ", "a", " a", "a ", "a  b", "\ta\nb\r\nc ", "x\u{85}y\u{1680}z", "\u{2028}a\u{2029}"] {
        let expected: Vec<String> = s.split_whitespace().map(|w| w.to_string()).collect();
        assert_eq!(split_words(s), expected, "on {:?}", s);
    }
}

#[test]
fn shown_numbers_read_back() {
    for n in [0u32, 1, 9, 10, 99, 100, 65535, 1000000000, 4294967295] {
        assert_eq!(parse_id(&decimal_string(n)), Some(n));
    }
}
