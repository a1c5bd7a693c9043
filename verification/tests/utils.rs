use rusditor::utils::number_bit_count;
use rusditor::utils::search::{find, find_from, matches_at};
use rusditor::utils::text::{
    chars_of, copy_range, decimal_chars, find_char, parse_decimal, split_lines, string_of,
};
use rusditor::utils::Screen;

fn chars(s: &str) -> Vec<char> {
    s.chars().collect()
}

#[test]
fn digit_counts() {
    assert_eq!(number_bit_count(0), 1);
    assert_eq!(number_bit_count(1), 1);
    assert_eq!(number_bit_count(9), 1);
    assert_eq!(number_bit_count(10), 2);
    assert_eq!(number_bit_count(99), 2);
    assert_eq!(number_bit_count(100), 3);
    assert_eq!(number_bit_count(12345), 5);
    assert_eq!(number_bit_count(usize::MAX), usize::MAX.to_string().len());
}

#[test]
fn decimal_text_of_numbers() {
    assert_eq!(string_of(&decimal_chars(0)), "0");
    assert_eq!(string_of(&decimal_chars(7)), "7");
    assert_eq!(string_of(&decimal_chars(10)), "10");
    assert_eq!(string_of(&decimal_chars(4096)), "4096");
    assert_eq!(string_of(&decimal_chars(usize::MAX)), usize::MAX.to_string());
}

#[test]
fn decimal_text_is_as_long_as_the_digit_count() {
    for n in [0usize, 5, 10, 99, 100, 1234, 99999, 100000] {
        assert_eq!(decimal_chars(n).len(), number_bit_count(n));
    }
}

#[test]
fn parse_decimal_reads_numbers() {
    assert_eq!(parse_decimal(&chars("0")), Some(0));
    assert_eq!(parse_decimal(&chars("42")), Some(42));
    assert_eq!(parse_decimal(&chars("007")), Some(7));
    assert_eq!(parse_decimal(&chars(&usize::MAX.to_string())), Some(usize::MAX));
}

#[test]
fn parse_decimal_refuses_what_is_no_number() {
    assert_eq!(parse_decimal(&chars("")), None);
    assert_eq!(parse_decimal(&chars("12a")), None);
    assert_eq!(parse_decimal(&chars("-1")), None);
    assert_eq!(parse_decimal(&chars(" 1")), None);
    let too_large = format!("{}0", usize::MAX);
    assert_eq!(parse_decimal(&chars(&too_large)), None);
    let one_more = format!("{}", usize::MAX as u128 + 1);
    assert_eq!(parse_decimal(&chars(&one_more)), None);
}

#[test]
fn parse_reads_back_what_decimal_writes() {
    for n in [0usize, 1, 9, 10, 255, 65536, usize::MAX] {
        assert_eq!(parse_decimal(&decimal_chars(n)), Some(n));
    }
}

#[test]
fn strings_and_characters_convert_both_ways() {
    assert_eq!(chars_of("héllo"), vec!['h', 'é', 'l', 'l', 'o']);
    assert_eq!(string_of(&vec!['a', 'b', 'c']), "abc");
    assert_eq!(string_of(&Vec::new()), "");
    assert_eq!(string_of(&chars_of("round trip")), "round trip");
    assert_eq!(copy_range(&chars("abcdef"), 2, 4), vec!['c', 'd']);
    assert_eq!(copy_range(&chars("abcdef"), 3, 3), Vec::<char>::new());
}

#[test]
fn find_char_gives_first_index_or_length() {
    assert_eq!(find_char(&chars("a:b:c"), 0, ':'), 1);
    assert_eq!(find_char(&chars("a:b:c"), 2, ':'), 3);
    assert_eq!(find_char(&chars("a:b:c"), 4, ':'), 5);
    assert_eq!(find_char(&chars(""), 0, ':'), 0);
}

#[test]
fn split_lines_follows_line_feeds() {
    let as_strings = |text: &str| -> Vec<String> {
        split_lines(&chars(text)).iter().map(|line| string_of(line)).collect()
    };
    assert_eq!(as_strings(""), Vec::<String>::new());
    assert_eq!(as_strings("one"), vec!["one"]);
    assert_eq!(as_strings("one\ntwo"), vec!["one", "two"]);
    assert_eq!(as_strings("one\r\ntwo\r\n"), vec!["one", "two"]);
    assert_eq!(as_strings("one\n\nthree"), vec!["one", "", "three"]);
    assert_eq!(as_strings("\n"), vec![""]);
    assert_eq!(as_strings("a\rb\n"), vec!["a\rb"]);
    assert_eq!(as_strings("tail\r"), vec!["tail\r"]);
}

#[test]
fn matches_at_compares_in_place() {
    let text = chars("abcabc");
    assert!(matches_at(&text, &chars("abc"), 0));
    assert!(!matches_at(&text, &chars("abc"), 1));
    assert!(matches_at(&text, &chars("abc"), 3));
    assert!(!matches_at(&text, &chars("abc"), 4));
    assert!(matches_at(&text, &chars(""), 6));
    assert!(!matches_at(&text, &chars(""), 7));
}

#[test]
fn find_gives_the_first_place() {
    let text = chars("one two two");
    assert_eq!(find(&text, &chars("two")), Some(4));
    assert_eq!(find(&text, &chars("one")), Some(0));
    assert_eq!(find(&text, &chars("three")), None);
    assert_eq!(find(&text, &chars("")), Some(0));
    assert_eq!(find(&chars(""), &chars("")), Some(0));
    assert_eq!(find(&chars("ab"), &chars("abc")), None);
    assert_eq!(find_from(&text, &chars("two"), 5), Some(8));
    assert_eq!(find_from(&text, &chars("two"), 9), None);
    assert_eq!(find_from(&text, &chars("two"), 100), None);
}

#[test]
fn screen_moves_stop_at_the_edges() {
    let mut screen = Screen::new(10, 5);
    assert_eq!((screen.pos_row(), screen.pos_col()), (0, 0));
    screen.left(3);
    screen.up(2);
    assert_eq!((screen.pos_row(), screen.pos_col()), (0, 0));
    screen.right(4);
    screen.down(2);
    assert_eq!((screen.pos_row(), screen.pos_col()), (2, 4));
    screen.right(100);
    screen.down(100);
    assert_eq!((screen.pos_row(), screen.pos_col()), (4, 9));
    screen.left(2);
    screen.up(1);
    assert_eq!((screen.pos_row(), screen.pos_col()), (3, 7));
}

#[test]
fn screen_saves_and_restores_the_cursor() {
    let mut screen = Screen::new(10, 5);
    screen.move_to_row(3);
    screen.move_to_col(4);
    screen.save_pos();
    screen.move_to_left_top();
    assert_eq!((screen.pos_row(), screen.pos_col()), (0, 0));
    screen.restore_pos();
    assert_eq!((screen.pos_row(), screen.pos_col()), (3, 4));
    screen.resize(20, 8);
    assert_eq!((screen.width(), screen.height()), (20, 8));
    assert_eq!((screen.pos_row(), screen.pos_col()), (3, 4));
}
