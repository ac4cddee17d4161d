use tunaturk::text::{
    chars_of, find, find_field, is_word, parse_u32, split_on_spaces, tail, trimmed_end,
};

fn chars(text: &str) -> Vec<char> {
    text.chars().collect()
}

fn fields(text: &str) -> Vec<String> {
    split_on_spaces(&chars(text)).iter().map(|field| field.iter().collect()).collect()
}

#[test]
fn chars_of_gives_every_character() {
    assert_eq!(chars_of("go"), vec!['g', 'o']);
    assert_eq!(chars_of(""), Vec::<char>::new());
    assert_eq!(chars_of("a\u{e9}\u{20ac}z"), vec!['a', '\u{e9}', '\u{20ac}', 'z']);
}

#[test]
fn tail_skips_the_first_characters() {
    assert_eq!(tail(&chars("moves e2e4"), 6), chars("e2e4"));
    assert_eq!(tail(&chars("moves"), 5), chars(""));
    assert_eq!(tail(&chars("moves"), 0), chars("moves"));
}

#[test]
fn split_gives_the_fields_between_spaces() {
    assert_eq!(fields("wtime 3000 btime 2000"), vec!["wtime", "3000", "btime", "2000"]);
    assert_eq!(fields("single"), vec!["single"]);
}

#[test]
fn split_keeps_empty_fields() {
    assert_eq!(fields(""), vec![""]);
    assert_eq!(fields(" "), vec!["", ""]);
    assert_eq!(fields("a  b"), vec!["a", "", "b"]);
    assert_eq!(fields(" a"), vec!["", "a"]);
    assert_eq!(fields("a "), vec!["a", ""]);
}

#[test]
fn split_agrees_with_the_standard_library() {
    for text in ["", " ", "  ", "go depth 3", " wtime 1  btime 2 ", "a\tb c", "\u{e9} \u{20ac}"] {
        let expected: Vec<String> = text.split(' ').map(|field| field.to_string()).collect();
        assert_eq!(fields(text), expected, "{:?}", text);
    }
}

#[test]
fn find_gives_the_first_place() {
    assert_eq!(find(&chars("position startpos moves e2e4"), "moves"), Some(18));
    assert_eq!(find(&chars("moves moves"), "moves"), Some(0));
    assert_eq!(find(&chars("xfenfen"), "fen"), Some(1));
    assert_eq!(find(&chars("startpos"), "moves"), None);
    assert_eq!(find(&chars("mov"), "moves"), None);
    assert_eq!(find(&chars(""), "fen"), None);
    assert_eq!(find(&chars("abc"), ""), Some(0));
}

#[test]
fn find_counts_characters_not_bytes() {
    assert_eq!(find(&chars("\u{20ac}\u{20ac} fen"), "fen"), Some(3));
}

#[test]
fn is_word_compares_the_whole_field() {
    assert!(is_word(&chars("depth"), "depth"));
    assert!(!is_word(&chars("depths"), "depth"));
    assert!(!is_word(&chars("dept"), "depth"));
    assert!(!is_word(&chars("Depth"), "depth"));
    assert!(is_word(&chars(""), ""));
}

#[test]
fn find_field_gives_the_first_field_or_the_count() {
    let list = split_on_spaces(&chars("a depth 1 depth 2"));
    assert_eq!(find_field(&list, "depth"), 1);
    assert_eq!(find_field(&list, "a"), 0);
    assert_eq!(find_field(&list, "2"), 4);
    assert_eq!(find_field(&list, "nodes"), 5);
}

#[test]
fn numbers_are_read_in_decimal() {
    assert_eq!(parse_u32(&chars("0")), Some(0));
    assert_eq!(parse_u32(&chars("7")), Some(7));
    assert_eq!(parse_u32(&chars("3000")), Some(3000));
    assert_eq!(parse_u32(&chars("007")), Some(7));
    assert_eq!(parse_u32(&chars("+5")), Some(5));
    assert_eq!(parse_u32(&chars("4294967295")), Some(u32::MAX));
    assert_eq!(parse_u32(&chars("00000000004294967295")), Some(u32::MAX));
}

#[test]
fn what_is_no_number_is_refused() {
    for text in [
        "", "+", "-", "-1", "++1", "+-1", "1+", " 1", "1 ", "1a", "a1", "0x10", "1_000", "1.5",
        "4294967296", "99999999999999999999999999", "\u{663}", "\u{ff11}",
    ] {
        assert_eq!(parse_u32(&chars(text)), None, "{:?}", text);
    }
}

#[test]
fn numbers_agree_with_the_standard_library() {
    for text in [
        "", "+", "-", "0", "+0", "-0", "12", "+12", "012", "4294967295", "4294967296",
        "42949672950", "18446744073709551616", "1e3", " 7", "7 ", "+ 7", "\u{663}",
    ] {
        assert_eq!(parse_u32(&chars(text)), text.parse::<u32>().ok(), "{:?}", text);
    }
}

#[test]
fn trimmed_end_leaves_the_spaces_at_the_end_out() {
    let text = chars("fen 8/8 w   moves");
    assert_eq!(trimmed_end(&text, 4, 12), 9);
    assert_eq!(trimmed_end(&text, 4, 9), 9);
    assert_eq!(trimmed_end(&text, 9, 12), 9);
    assert_eq!(trimmed_end(&text, 0, 0), 0);
}
