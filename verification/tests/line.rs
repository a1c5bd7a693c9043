use rusditor::editor::line::Line;
use rusditor::editor::Direction;
use rusditor::utils::Screen;

// a line behind a label of 2 columns on a terminal 12 columns wide
fn small_line() -> (Line, Screen) {
    let mut line = Line::new(1, 2);
    let mut screen = Screen::new(12, 5);
    screen.move_to_row(1);
    line.move_cursor_to_start(2, &mut screen);
    (line, screen)
}

fn type_text(line: &mut Line, screen: &mut Screen, text: &str) {
    for ch in text.chars() {
        line.insert_char(ch, screen);
    }
}

fn text_of(line: &Line) -> String {
    line.content.iter().collect()
}

#[test]
fn a_plain_line_takes_text_and_scrolls() {
    let (mut line, mut screen) = small_line();
    assert!(line.state_left(&screen).is_at_line_start);
    assert!(line.state_right(&screen).is_at_line_end);
    type_text(&mut line, &mut screen, "0123456789ab");
    assert_eq!(text_of(&line), "0123456789ab");
    assert_eq!(line.len(), 12);
    assert_eq!((line.overflow_left, line.overflow_right), (3, 0));
    assert_eq!(screen.col, 11);
    assert!(line.state_right(&screen).is_at_right_end);
    assert!(line.state_right(&screen).is_at_line_end);
    assert!(!line.state_left(&screen).is_at_left_end);
    assert_eq!(line.visible_area_width(&screen), 9);
}

#[test]
fn a_plain_line_moves_and_deletes() {
    let (mut line, mut screen) = small_line();
    type_text(&mut line, &mut screen, "0123456789ab");
    for _ in 0..9 {
        assert!(!line.move_cursor_horizontal(Direction::Left, &mut screen));
    }
    assert!(line.state_left(&screen).is_at_left_end);
    assert!(line.move_cursor_horizontal(Direction::Left, &mut screen));
    assert_eq!((line.overflow_left, line.overflow_right), (2, 1));
    line.delete_char(&mut screen);
    assert_eq!(text_of(&line), "023456789ab");
    assert_eq!((line.overflow_left, line.overflow_right), (1, 1));
    line.insert_char('1', &mut screen);
    assert_eq!(text_of(&line), "0123456789ab");
    assert!(!line.move_cursor_horizontal(Direction::Right, &mut screen));
    assert_eq!(screen.col, 3);
    line.move_cursor_to_end(2, &mut screen);
    line.delete_char(&mut screen);
    assert_eq!(text_of(&line), "0123456789a");
}

#[test]
fn a_plain_line_draws_label_and_window() {
    let (mut line, mut screen) = small_line();
    type_text(&mut line, &mut screen, "0123456789ab");
    let drawn = line.render(7, 2, &screen);
    assert_eq!(drawn.label, "7 ");
    assert_eq!(drawn.text, "3456789ab");
    assert!(line.move_cursor_to_start(3, &mut screen));
    assert_eq!(screen.col, 3);
    let drawn = line.render(12, 3, &screen);
    assert_eq!(drawn.label, "12 ");
    assert_eq!(drawn.text, "01234567");
    assert_eq!(line.index_cached, 12);
    assert_eq!(line.label_width_cached, 3);
}

#[test]
fn a_plain_line_is_cut_and_extended() {
    let (mut line, mut screen) = small_line();
    line.push_str("left right", &screen);
    line.move_cursor_to_start(2, &mut screen);
    for _ in 0..5 {
        line.move_cursor_horizontal(Direction::Right, &mut screen);
    }
    assert_eq!(line.truncate(&screen), "right");
    assert_eq!(text_of(&line), "left ");
    line.push_str("again", &screen);
    assert_eq!(text_of(&line), "left again");
    assert_eq!((line.overflow_left, line.overflow_right), (1, 0));
    line.overflow_refresh(&screen);
    assert_eq!((line.overflow_left, line.overflow_right), (1, 0));
}

#[test]
fn a_plain_line_does_nothing_at_its_ends() {
    let (mut line, mut screen) = small_line();
    assert_eq!(line.delete_char(&mut screen), None);
    assert!(!line.move_cursor_horizontal(Direction::Left, &mut screen));
    assert!(!line.move_cursor_horizontal(Direction::Right, &mut screen));
    assert_eq!((screen.row, screen.col), (1, 2));
    type_text(&mut line, &mut screen, "0123456789ab");
    let before = (text_of(&line), line.overflow_left, line.overflow_right, screen);
    assert!(!line.move_cursor_horizontal(Direction::Right, &mut screen));
    assert_eq!(before, (text_of(&line), line.overflow_left, line.overflow_right, screen));
    line.move_cursor_to_start(2, &mut screen);
    let before = (text_of(&line), line.overflow_left, line.overflow_right, screen);
    assert!(!line.move_cursor_horizontal(Direction::Left, &mut screen));
    assert_eq!(line.delete_char(&mut screen), None);
    assert_eq!(before, (text_of(&line), line.overflow_left, line.overflow_right, screen));
    assert_eq!((line.overflow_left, line.overflow_right), (0, 3));
    line.move_cursor_horizontal(Direction::Right, &mut screen);
    assert_eq!(line.delete_char(&mut screen), Some('0'));
    assert_eq!(text_of(&line), "123456789ab");
}
