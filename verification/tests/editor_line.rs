use rusditor::editor::document::EditorLine;
use rusditor::editor::Direction;
use rusditor::utils::Screen;

#[test]
fn editorline_find_all_test() {
    let screen = Screen::new(80, 24);
    let mut line = EditorLine::new(0, false);
    line.push_str("abc  abc  abc", &screen);

    assert_eq!(line.find_all("abc"), Some(vec![0, 5, 10]));
}

#[test]
fn find_all_skips_overlapping_matches() {
    let screen = Screen::new(80, 24);
    let mut line = EditorLine::new(2, false);
    line.push_str("aaaaa", &screen);
    assert_eq!(line.find_all("aa"), Some(vec![0, 2]));
    assert_eq!(line.find_all("aaa"), Some(vec![0]));
    assert_eq!(line.find_all("aaaaa"), Some(vec![0]));
    assert_eq!(line.find_all("aaaaaa"), None);
    assert_eq!(line.find_all("b"), None);
}

#[test]
fn find_all_in_an_empty_line_finds_nothing() {
    let line = EditorLine::new(2, false);
    assert_eq!(line.find_all("a"), None);
}

#[test]
fn a_new_line_is_empty() {
    let line = EditorLine::new(3, true);
    assert_eq!(line.len(), 0);
    assert_eq!(line.content(), "");
    assert!(line.is_active);
    assert_eq!(line.cached_index, 0);
    assert_eq!(line.cached_label_width, 3);
    assert_eq!(line.text_area.margin_left, 3);
    assert_eq!(line.text_area.margin_right, 1);
}

#[test]
fn a_line_knows_its_start_and_its_end() {
    let mut screen = Screen::new(20, 5);
    screen.move_to_row(1);
    let mut line = EditorLine::new(2, false);
    line.move_cursor_to_start(2, &mut screen);
    assert!(line.is_at_line_start(&screen));
    assert!(line.is_at_line_end(&screen));
    line.insert_char('a', &mut screen);
    line.insert_char('b', &mut screen);
    assert!(!line.is_at_line_start(&screen));
    assert!(line.is_at_line_end(&screen));
    assert_eq!(line.cursor_pos(&screen), 2);
    line.move_cursor_horizontal(Direction::Left, &mut screen);
    assert!(!line.is_at_line_start(&screen));
    assert!(!line.is_at_line_end(&screen));
    assert_eq!(line.delete_char(&mut screen), Some('a'));
    assert!(line.is_at_line_start(&screen));
    assert_eq!(line.delete_char(&mut screen), None);
    assert_eq!(line.content(), "b");
}

#[test]
fn a_line_draws_its_label_and_its_text() {
    let screen = Screen::new(12, 5);
    let mut line = EditorLine::new(2, false);
    line.push_str("hello", &screen);
    let drawn = line.render(7, 3, &screen);
    assert_eq!(drawn.label, "7  ");
    assert!(!drawn.is_active);
    assert_eq!(drawn.text.text, "hello   ");
    assert_eq!(line.cached_index, 7);
    assert_eq!(line.cached_label_width, 3);
    assert_eq!(line.text_area.margin_left, 3);
    let drawn = line.render(123, 4, &screen);
    assert_eq!(drawn.label, "123 ");
    assert_eq!(drawn.text.text, "hello  ");
}

#[test]
fn a_wider_label_scrolls_a_line_that_filled_the_window() {
    let screen = Screen::new(12, 5);
    let mut line = EditorLine::new(2, false);
    line.push_str("123456789", &screen);
    assert_eq!((line.text_area.overflow_left, line.text_area.overflow_right), (0, 0));
    let drawn = line.render(10, 3, &screen);
    assert_eq!(drawn.label, "10 ");
    assert_eq!(drawn.text.text, "23456789");
    assert_eq!((line.text_area.overflow_left, line.text_area.overflow_right), (1, 0));
    line.update_label_width(2, &screen);
    assert_eq!((line.text_area.overflow_left, line.text_area.overflow_right), (0, 0));
}

#[test]
fn the_active_mark_changes_with_active_and_disable() {
    let mut line = EditorLine::new(3, false);
    line.cached_index = 12;
    assert_eq!(line.active(), "12 ");
    assert!(line.is_active);
    assert_eq!(line.disable(), "12 ");
    assert!(!line.is_active);
    assert_eq!(line.render_label(), "12 ");
}

#[test]
fn a_line_jumps_over_words_and_moves_by_counts() {
    let mut screen = Screen::new(40, 5);
    screen.move_to_row(1);
    let mut line = EditorLine::new(2, false);
    line.push_str("let value = 1", &screen);
    line.move_cursor_to_end(2, &mut screen);
    assert_eq!(line.cursor_pos(&screen), 13);
    line.move_cursor_by(Direction::Left, 4, &mut screen);
    assert_eq!(line.cursor_pos(&screen), 9);
    assert!(line.jump_to_word_edge(Direction::Left, &mut screen));
    assert_eq!(line.cursor_pos(&screen), 4);
    line.move_cursor_by(Direction::Left, 100, &mut screen);
    assert_eq!(line.cursor_pos(&screen), 0);
    line.jump_to_word_edge(Direction::Right, &mut screen);
    assert_eq!(line.cursor_pos(&screen), 3);
    line.move_cursor_by(Direction::Right, 100, &mut screen);
    assert_eq!(line.cursor_pos(&screen), 13);
}

#[test]
fn a_line_is_cut_at_the_cursor() {
    let mut screen = Screen::new(40, 5);
    let mut line = EditorLine::new(2, false);
    line.push_chars(&"left|right".chars().collect(), &screen);
    line.move_cursor_to_start(2, &mut screen);
    line.move_cursor_by(Direction::Right, 5, &mut screen);
    assert_eq!(line.truncate(&screen), "right");
    assert_eq!(line.content(), "left|");
}
