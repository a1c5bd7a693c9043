use rusditor::editor::text_area::{count_run, TextArea};
use rusditor::editor::{Direction, KeyCode};
use rusditor::utils::Screen;

// a field behind a margin of 2 columns on a terminal 12 columns wide:
// 9 columns of text, one column free at the right edge
fn small_field() -> (TextArea, Screen) {
    let area = TextArea::new(2, 1);
    let mut screen = Screen::new(12, 5);
    screen.move_to_row(1);
    screen.move_to_col(2);
    (area, screen)
}

fn type_text(area: &mut TextArea, screen: &mut Screen, text: &str) {
    for ch in text.chars() {
        area.insert_char(ch, true, screen);
    }
}

fn balance_holds(area: &TextArea, screen: &Screen) -> bool {
    let width = area.visible_area_width(screen);
    let len = area.len();
    if len > width {
        area.overflow_left + area.overflow_right + width == len
    } else {
        area.overflow_left == 0 && area.overflow_right == 0
    }
}

#[test]
fn insert_moves_the_cursor_while_the_text_fits() {
    let (mut area, mut screen) = small_field();
    type_text(&mut area, &mut screen, "abc");
    assert_eq!(area.content(), "abc");
    assert_eq!(screen.col, 5);
    assert_eq!(area.cursor_pos(&screen), 3);
    assert_eq!((area.overflow_left, area.overflow_right), (0, 0));
}

#[test]
fn insert_scrolls_once_the_window_is_full() {
    let (mut area, mut screen) = small_field();
    type_text(&mut area, &mut screen, "123456789");
    assert_eq!(screen.col, 11);
    assert_eq!(area.overflow_left, 0);
    type_text(&mut area, &mut screen, "ab");
    assert_eq!(area.content(), "123456789ab");
    assert_eq!(screen.col, 11);
    assert_eq!((area.overflow_left, area.overflow_right), (2, 0));
    assert_eq!(area.cursor_pos(&screen), 11);
    assert_eq!(area.render(&screen).text, "3456789ab");
}

#[test]
fn balance_holds_after_every_insert_and_delete() {
    let (mut area, mut screen) = small_field();
    for (i, ch) in "the quick brown fox jumps".chars().enumerate() {
        area.insert_char(ch, false, &mut screen);
        assert!(balance_holds(&area, &screen), "after insert {}", i);
    }
    for _ in 0..4 {
        area.move_cursor_horizontal(Direction::Left, false, &mut screen);
    }
    for i in 0..30 {
        area.delete_char(false, &mut screen);
        assert!(balance_holds(&area, &screen), "after delete {}", i);
    }
    assert_eq!(area.content(), "umps");
    assert_eq!(area.cursor_pos(&screen), 0);
}

#[test]
fn insert_then_delete_restores_the_field() {
    for prefix in ["", "abc", "123456789", "123456789abcdef"] {
        let (mut area, mut screen) = small_field();
        type_text(&mut area, &mut screen, prefix);
        for _ in 0..2 {
            area.move_cursor_horizontal(Direction::Left, false, &mut screen);
        }
        let before = (
            area.content(),
            area.overflow_left,
            area.overflow_right,
            screen.col,
            area.cursor_pos(&screen),
        );
        assert!(area.insert_char('x', true, &mut screen));
        assert_eq!(area.len(), prefix.len() + 1);
        assert_eq!(area.delete_char(true, &mut screen), Some('x'));
        let after = (
            area.content(),
            area.overflow_left,
            area.overflow_right,
            screen.col,
            area.cursor_pos(&screen),
        );
        assert_eq!(before, after);
    }
}

#[test]
fn delete_at_the_start_does_nothing() {
    let (mut area, mut screen) = small_field();
    assert_eq!(area.delete_char(true, &mut screen), None);
    type_text(&mut area, &mut screen, "ab");
    area.move_cursor_to_start(false, &mut screen);
    assert_eq!(area.delete_char(true, &mut screen), None);
    assert_eq!(area.content(), "ab");
    assert_eq!(screen.col, 2);
}

#[test]
fn delete_in_the_middle_takes_the_character_left_of_the_cursor() {
    let (mut area, mut screen) = small_field();
    type_text(&mut area, &mut screen, "abcd");
    area.move_cursor_horizontal(Direction::Left, true, &mut screen);
    assert_eq!(area.delete_char(true, &mut screen), Some('c'));
    assert_eq!(area.content(), "abd");
    assert_eq!(area.cursor_pos(&screen), 2);
}

#[test]
fn delete_with_the_window_at_the_start_of_a_long_text() {
    let (mut area, mut screen) = small_field();
    type_text(&mut area, &mut screen, "0123456789ab");
    area.move_cursor_to_start(true, &mut screen);
    assert_eq!((area.overflow_left, area.overflow_right), (0, 3));
    for _ in 0..3 {
        area.move_cursor_horizontal(Direction::Right, true, &mut screen);
    }
    assert_eq!(area.delete_char(true, &mut screen), Some('2'));
    assert_eq!(area.content(), "013456789ab");
    assert_eq!((area.overflow_left, area.overflow_right), (0, 2));
    assert_eq!(area.cursor_pos(&screen), 2);
    assert!(balance_holds(&area, &screen));
}

#[test]
fn horizontal_moves_stop_at_the_ends() {
    let (mut area, mut screen) = small_field();
    type_text(&mut area, &mut screen, "ab");
    assert!(area.state_right(&screen).is_at_area_end);
    assert!(!area.move_cursor_horizontal(Direction::Right, true, &mut screen));
    assert_eq!(screen.col, 4);
    area.move_cursor_horizontal(Direction::Left, true, &mut screen);
    area.move_cursor_horizontal(Direction::Left, true, &mut screen);
    assert!(area.state_left(&screen).is_at_area_start);
    assert!(area.state_left(&screen).is_at_left_side);
    assert!(!area.move_cursor_horizontal(Direction::Left, true, &mut screen));
    assert_eq!(screen.col, 2);
}

#[test]
fn horizontal_moves_scroll_at_the_edges_of_the_window() {
    let (mut area, mut screen) = small_field();
    type_text(&mut area, &mut screen, "0123456789abc");
    assert_eq!((area.overflow_left, area.overflow_right), (4, 0));
    // within the window the cursor moves and nothing is drawn
    for _ in 0..9 {
        assert!(!area.move_cursor_horizontal(Direction::Left, true, &mut screen));
    }
    assert_eq!(screen.col, 2);
    assert!(area.is_at_left_side(&screen));
    // at the left edge the window moves and the field is drawn
    assert!(area.move_cursor_horizontal(Direction::Left, true, &mut screen));
    assert_eq!(screen.col, 2);
    assert_eq!((area.overflow_left, area.overflow_right), (3, 1));
    assert_eq!(area.render(&screen).text, "3456789ab");
    // without the wish to draw, the window moves silently
    assert!(!area.move_cursor_horizontal(Direction::Left, false, &mut screen));
    assert_eq!((area.overflow_left, area.overflow_right), (2, 2));
    // back at the right edge the window moves the other way
    for _ in 0..9 {
        area.move_cursor_horizontal(Direction::Right, true, &mut screen);
    }
    assert!(area.is_at_right_side(&screen));
    assert!(area.move_cursor_horizontal(Direction::Right, true, &mut screen));
    assert_eq!((area.overflow_left, area.overflow_right), (3, 1));
    assert_eq!(area.cursor_pos(&screen), 12);
}

#[test]
fn move_to_start_and_end_of_a_short_text() {
    let (mut area, mut screen) = small_field();
    type_text(&mut area, &mut screen, "abc");
    assert!(!area.move_cursor_to_start(true, &mut screen));
    assert_eq!(screen.col, 2);
    assert!(!area.move_cursor_to_end(true, &mut screen));
    assert_eq!(screen.col, 5);
    assert_eq!(area.cursor_pos(&screen), 3);
}

#[test]
fn move_to_start_and_end_of_a_long_text() {
    let (mut area, mut screen) = small_field();
    type_text(&mut area, &mut screen, "0123456789abc");
    assert!(area.move_cursor_to_start(true, &mut screen));
    assert_eq!(screen.col, 2);
    assert_eq!((area.overflow_left, area.overflow_right), (0, 4));
    assert_eq!(area.render(&screen).text, "012345678");
    assert_eq!(area.cursor_pos(&screen), 0);
    assert!(area.move_cursor_to_end(true, &mut screen));
    assert_eq!(screen.col, 11);
    assert_eq!((area.overflow_left, area.overflow_right), (4, 0));
    assert_eq!(area.render(&screen).text, "456789abc");
    assert_eq!(area.cursor_pos(&screen), 13);
    assert!(!area.move_cursor_to_end(false, &mut screen));
}

#[test]
fn move_to_end_with_a_wide_right_margin_stays_in_the_text() {
    let mut area = TextArea::new(6, 7);
    let mut screen = Screen::new(20, 5);
    screen.move_to_col(6);
    area.set_content("a long path name", &screen);
    area.move_cursor_to_end(false, &mut screen);
    assert_eq!(screen.col, 13);
    assert_eq!(area.cursor_pos(&screen), 16);
    assert_eq!((area.overflow_left, area.overflow_right), (9, 0));
    area.insert_char('!', true, &mut screen);
    assert_eq!(area.content(), "a long path name!");
}

#[test]
fn word_counts() {
    let text: Vec<char> = "ab c".chars().collect();
    assert_eq!(TextArea::continuous_word_count(&text, 0, Direction::Right), 2);
    assert_eq!(TextArea::continuous_word_count(&text, 2, Direction::Right), 0);
    assert_eq!(TextArea::continuous_word_count(&text, 3, Direction::Right), 1);
    assert_eq!(TextArea::continuous_word_count(&text, 4, Direction::Right), 0);
    assert_eq!(TextArea::continuous_word_count(&text, 4, Direction::Left), 1);
    assert_eq!(TextArea::continuous_word_count(&text, 3, Direction::Left), 0);
    assert_eq!(TextArea::continuous_word_count(&text, 2, Direction::Left), 2);
    assert_eq!(TextArea::continuous_word_count(&text, 0, Direction::Left), 0);
    let digits: Vec<char> = "12ab".chars().collect();
    assert_eq!(TextArea::continuous_word_count(&digits, 0, Direction::Right), 0);
    assert_eq!(TextArea::continuous_word_count(&digits, 4, Direction::Left), 2);
}

#[test]
fn jump_to_word_edge_goes_over_words_and_single_characters() {
    let (mut area, mut screen) = small_field();
    type_text(&mut area, &mut screen, "ab, cd");
    assert!(area.jump_to_word_edge(Direction::Left, true, &mut screen));
    assert_eq!(area.cursor_pos(&screen), 4);
    area.jump_to_word_edge(Direction::Left, true, &mut screen);
    assert_eq!(area.cursor_pos(&screen), 3);
    area.jump_to_word_edge(Direction::Left, true, &mut screen);
    assert_eq!(area.cursor_pos(&screen), 2);
    area.jump_to_word_edge(Direction::Left, true, &mut screen);
    assert_eq!(area.cursor_pos(&screen), 0);
    assert!(!area.jump_to_word_edge(Direction::Left, false, &mut screen));
    assert_eq!(area.cursor_pos(&screen), 0);
    area.jump_to_word_edge(Direction::Right, true, &mut screen);
    assert_eq!(area.cursor_pos(&screen), 2);
    area.jump_to_word_edge(Direction::Right, true, &mut screen);
    assert_eq!(area.cursor_pos(&screen), 3);
    area.jump_to_word_edge(Direction::Right, true, &mut screen);
    area.jump_to_word_edge(Direction::Right, true, &mut screen);
    assert_eq!(area.cursor_pos(&screen), 6);
    area.jump_to_word_edge(Direction::Right, true, &mut screen);
    assert_eq!(area.cursor_pos(&screen), 6);
}

#[test]
fn truncate_cuts_at_the_cursor() {
    let (mut area, mut screen) = small_field();
    type_text(&mut area, &mut screen, "hello world");
    for _ in 0..5 {
        area.move_cursor_horizontal(Direction::Left, true, &mut screen);
    }
    assert_eq!(area.truncate(&screen), "world");
    assert_eq!(area.content(), "hello ");
    assert!(balance_holds(&area, &screen));
}

#[test]
fn truncate_with_text_scrolled_out_on_the_right() {
    let (mut area, mut screen) = small_field();
    type_text(&mut area, &mut screen, "0123456789abcdefghij");
    area.move_cursor_to_start(true, &mut screen);
    for _ in 0..9 {
        area.move_cursor_horizontal(Direction::Right, true, &mut screen);
    }
    for _ in 0..3 {
        area.move_cursor_horizontal(Direction::Right, true, &mut screen);
    }
    assert_eq!(area.cursor_pos(&screen), 12);
    assert_eq!((area.overflow_left, area.overflow_right), (3, 8));
    assert_eq!(area.truncate(&screen), "cdefghij");
    assert_eq!(area.content(), "0123456789ab");
    assert_eq!((area.overflow_left, area.overflow_right), (0, 3));
    assert!(balance_holds(&area, &screen));
}

#[test]
fn bulk_changes_set_the_scroll_state_anew() {
    let (mut area, screen) = small_field();
    area.set_content("0123456789abc", &screen);
    assert_eq!((area.overflow_left, area.overflow_right), (4, 0));
    area.push_str("de", &screen);
    assert_eq!(area.content(), "0123456789abcde");
    assert_eq!((area.overflow_left, area.overflow_right), (6, 0));
    area.set_content("short", &screen);
    assert_eq!((area.overflow_left, area.overflow_right), (0, 0));
    area.push_chars(&vec!['e', 'r'], &screen);
    assert_eq!(area.content(), "shorter");
    area.clear();
    assert_eq!(area.len(), 0);
    assert_eq!(area.content(), "");
    assert_eq!((area.overflow_left, area.overflow_right), (0, 0));
}

#[test]
fn overflow_refresh_keeps_what_is_scrolled_out_on_the_right() {
    let (mut area, mut screen) = small_field();
    type_text(&mut area, &mut screen, "0123456789abc");
    area.move_cursor_horizontal(Direction::Left, true, &mut screen);
    for _ in 0..9 {
        area.move_cursor_horizontal(Direction::Left, true, &mut screen);
    }
    assert_eq!((area.overflow_left, area.overflow_right), (3, 1));
    area.push_str("xy", &screen);
    assert_eq!((area.overflow_left, area.overflow_right), (5, 1));
    area.set_content("0123456789", &screen);
    assert_eq!((area.overflow_left, area.overflow_right), (0, 1));
}

#[test]
fn render_pads_to_the_width_of_the_window() {
    let (mut area, mut screen) = small_field();
    let drawn = area.render(&screen);
    assert_eq!(drawn.text, "         ");
    assert!(!drawn.dimmed);
    type_text(&mut area, &mut screen, "abc");
    let drawn = area.render(&screen);
    assert_eq!(drawn.text, "abc      ");
    assert!(!drawn.dimmed);
    assert_eq!(screen.col, 5);
}

#[test]
fn render_shows_the_placeholder_while_the_text_is_empty() {
    let (mut area, mut screen) = small_field();
    area.set_placeholder("1:1");
    let drawn = area.render(&screen);
    assert_eq!(drawn.text, "1:1      ");
    assert!(drawn.dimmed);
    area.set_placeholder("a placeholder too long");
    let drawn = area.render(&screen);
    assert_eq!(drawn.text, "a placeho");
    assert!(drawn.dimmed);
    type_text(&mut area, &mut screen, "x");
    let drawn = area.render(&screen);
    assert_eq!(drawn.text, "x        ");
    assert!(!drawn.dimmed);
}

#[test]
fn editing_keys() {
    assert!(TextArea::is_editing_key(KeyCode::Backspace));
    assert!(TextArea::is_editing_key(KeyCode::Left));
    assert!(TextArea::is_editing_key(KeyCode::Right));
    assert!(TextArea::is_editing_key(KeyCode::Char('x')));
    assert!(!TextArea::is_editing_key(KeyCode::Enter));
    assert!(!TextArea::is_editing_key(KeyCode::Up));
    assert!(!TextArea::is_editing_key(KeyCode::Down));
    assert!(!TextArea::is_editing_key(KeyCode::Esc));
    assert!(!TextArea::is_editing_key(KeyCode::Other));
}

#[test]
fn a_field_takes_any_character() {
    let (mut area, mut screen) = small_field();
    type_text(&mut area, &mut screen, "añ→z");
    assert_eq!(area.len(), 4);
    assert_eq!(area.content(), "añ→z");
    assert_eq!(area.delete_char(true, &mut screen), Some('z'));
    assert_eq!(area.delete_char(true, &mut screen), Some('→'));
    assert_eq!(area.content(), "añ");
}

#[test]
fn a_wide_right_margin_keeps_the_cursor_in_the_window() {
    // 7 columns of text between a margin of 6 and a margin of 7
    let mut area = TextArea::new(6, 7);
    let mut screen = Screen::new(20, 5);
    screen.move_to_col(6);
    area.set_content("0123456789", &screen);
    area.move_cursor_to_start(true, &mut screen);
    assert_eq!((area.overflow_left, area.overflow_right), (0, 3));
    for _ in 0..7 {
        assert!(!area.move_cursor_horizontal(Direction::Right, true, &mut screen));
    }
    assert_eq!(screen.col, 13);
    assert!(area.is_at_right_side(&screen));
    assert!(!area.state_right(&screen).is_at_area_end);
    assert!(area.move_cursor_horizontal(Direction::Right, true, &mut screen));
    assert_eq!(screen.col, 13);
    assert_eq!((area.overflow_left, area.overflow_right), (1, 2));
    assert_eq!(area.cursor_pos(&screen), 8);
    for _ in 0..5 {
        area.move_cursor_horizontal(Direction::Right, true, &mut screen);
    }
    assert_eq!(screen.col, 13);
    assert_eq!(area.cursor_pos(&screen), 10);
    assert!(area.state_right(&screen).is_at_area_end);
    assert_eq!(area.render(&screen).text, "3456789");
}

#[test]
fn runs_of_set_flags_are_counted_in_both_directions() {
    let flags = vec![true, true, false, true];
    assert_eq!(count_run(&flags, 0, Direction::Right), 2);
    assert_eq!(count_run(&flags, 1, Direction::Right), 1);
    assert_eq!(count_run(&flags, 2, Direction::Right), 0);
    assert_eq!(count_run(&flags, 3, Direction::Right), 1);
    assert_eq!(count_run(&flags, 4, Direction::Right), 0);
    assert_eq!(count_run(&flags, 4, Direction::Left), 1);
    assert_eq!(count_run(&flags, 3, Direction::Left), 0);
    assert_eq!(count_run(&flags, 2, Direction::Left), 2);
    assert_eq!(count_run(&flags, 0, Direction::Left), 0);
    assert_eq!(count_run(&Vec::new(), 0, Direction::Left), 0);
}
