use rusditor::editor::cursor_pos::EditorCursorPos;
use rusditor::editor::document::{Deletion, Editor};
use rusditor::editor::Direction;
use rusditor::utils::Screen;

// a terminal of 20 columns and 7 rows: 5 rows show lines
fn small_editor() -> (Editor, Screen) {
    let mut editor = Editor::new();
    let mut screen = Screen::new(20, 7);
    editor.init(&mut screen);
    (editor, screen)
}

fn editor_with(content: &str, width: usize, height: usize) -> (Editor, Screen) {
    let mut editor = Editor::new();
    let mut screen = Screen::new(width, height);
    assert!(editor.read_file("file.txt", content, &screen));
    editor.init(&mut screen);
    (editor, screen)
}

fn type_text(editor: &mut Editor, screen: &mut Screen, text: &str) {
    for ch in text.chars() {
        if ch == '\n' {
            editor.insert_line(screen);
        } else {
            editor.insert_char(ch, screen);
        }
    }
}

fn lines_of(editor: &Editor) -> Vec<String> {
    editor.lines.iter().map(|line| line.content()).collect()
}

fn place(editor: &Editor, screen: &Screen) -> (usize, usize) {
    let pos = editor.cursor_pos(screen);
    (pos.row, pos.col)
}

fn viewport_holds(editor: &Editor, screen: &Screen) -> bool {
    let height = editor.visible_area_height(screen);
    let count = editor.lines.len();
    let balanced = if count > height {
        editor.overflow_top + editor.overflow_bottom + height == count
    } else {
        editor.overflow_top == 0 && editor.overflow_bottom == 0
    };
    balanced
        && 1 <= screen.row
        && screen.row <= height
        && editor.current_row == editor.overflow_top + screen.row
        && editor.current_row <= count
}

#[test]
fn a_new_document_has_one_empty_line() {
    let (editor, screen) = small_editor();
    assert_eq!(lines_of(&editor), vec![""]);
    assert_eq!(place(&editor, &screen), (1, 1));
    assert_eq!((screen.row, screen.col), (1, 2));
    assert_eq!(editor.label_width(), 2);
    assert_eq!(editor.visible_area_height(&screen), 5);
    assert!(viewport_holds(&editor, &screen));
}

#[test]
fn typing_fills_the_current_line() {
    let (mut editor, mut screen) = small_editor();
    type_text(&mut editor, &mut screen, "hello");
    assert_eq!(lines_of(&editor), vec!["hello"]);
    assert_eq!(place(&editor, &screen), (1, 6));
    assert_eq!(editor.content(), "hello");
}

#[test]
fn enter_at_the_end_opens_an_empty_line() {
    let (mut editor, mut screen) = small_editor();
    type_text(&mut editor, &mut screen, "one\ntwo");
    assert_eq!(lines_of(&editor), vec!["one", "two"]);
    assert_eq!(place(&editor, &screen), (2, 4));
    assert_eq!(editor.content(), "one\r\ntwo");
    assert_eq!(screen.row, 2);
}

#[test]
fn enter_in_the_middle_breaks_the_line() {
    let (mut editor, mut screen) = small_editor();
    type_text(&mut editor, &mut screen, "hello world");
    for _ in 0..5 {
        editor.move_cursor_horizontal(Direction::Left, &mut screen);
    }
    editor.insert_line(&mut screen);
    assert_eq!(lines_of(&editor), vec!["hello ", "world"]);
    assert_eq!(place(&editor, &screen), (2, 1));
}

#[test]
fn a_line_break_and_a_delete_restore_the_line() {
    for column in [1usize, 4, 7, 12] {
        let (mut editor, mut screen) = small_editor();
        type_text(&mut editor, &mut screen, "first\nhello world\nlast");
        assert!(editor.jump_to_target_pos(EditorCursorPos { row: 2, col: column }, &mut screen).is_some());
        editor.insert_line(&mut screen);
        assert_eq!(editor.lines.len(), 4);
        assert_eq!(place(&editor, &screen), (3, 1));
        editor.delete(&mut screen);
        assert_eq!(lines_of(&editor), vec!["first", "hello world", "last"]);
        assert_eq!(place(&editor, &screen), (2, column));
        assert!(viewport_holds(&editor, &screen));
    }
}

#[test]
fn a_line_break_and_a_delete_restore_a_line_wider_than_the_window() {
    let text = "0123456789abcdefghijklmnopqrstuvwxyz";
    for column in [1usize, 10, 18, 30, 37] {
        let (mut editor, mut screen) = small_editor();
        type_text(&mut editor, &mut screen, text);
        assert!(editor.jump_to_target_pos(EditorCursorPos { row: 1, col: column }, &mut screen).is_some());
        editor.insert_line(&mut screen);
        editor.delete(&mut screen);
        assert_eq!(lines_of(&editor), vec![text]);
        assert_eq!(place(&editor, &screen), (1, column));
    }
}

#[test]
fn delete_at_the_start_of_the_document_does_nothing() {
    let (mut editor, mut screen) = small_editor();
    type_text(&mut editor, &mut screen, "ab");
    editor.move_cursor_horizontal(Direction::Left, &mut screen);
    editor.move_cursor_horizontal(Direction::Left, &mut screen);
    editor.delete(&mut screen);
    assert_eq!(lines_of(&editor), vec!["ab"]);
    assert_eq!(place(&editor, &screen), (1, 1));
    assert!(editor.delete_line(&mut screen).is_none());
    assert_eq!(lines_of(&editor), vec!["ab"]);
}

#[test]
fn delete_joins_lines_at_the_start_of_a_line() {
    let (mut editor, mut screen) = small_editor();
    type_text(&mut editor, &mut screen, "ab\ncd");
    editor.move_cursor_horizontal(Direction::Left, &mut screen);
    editor.move_cursor_horizontal(Direction::Left, &mut screen);
    assert_eq!(place(&editor, &screen), (2, 1));
    editor.delete(&mut screen);
    assert_eq!(lines_of(&editor), vec!["abcd"]);
    assert_eq!(place(&editor, &screen), (1, 3));
    editor.delete(&mut screen);
    assert_eq!(lines_of(&editor), vec!["acd"]);
    assert_eq!(place(&editor, &screen), (1, 2));
}

#[test]
fn horizontal_moves_cross_line_ends() {
    let (mut editor, mut screen) = small_editor();
    type_text(&mut editor, &mut screen, "ab\ncd");
    editor.move_cursor_horizontal(Direction::Right, &mut screen);
    assert_eq!(place(&editor, &screen), (2, 3));
    editor.move_cursor_horizontal(Direction::Left, &mut screen);
    editor.move_cursor_horizontal(Direction::Left, &mut screen);
    assert_eq!(place(&editor, &screen), (2, 1));
    editor.move_cursor_horizontal(Direction::Left, &mut screen);
    assert_eq!(place(&editor, &screen), (1, 3));
    editor.move_cursor_horizontal(Direction::Right, &mut screen);
    assert_eq!(place(&editor, &screen), (2, 1));
    editor.move_cursor_vertical(Direction::Up, &mut screen);
    editor.move_cursor_horizontal(Direction::Left, &mut screen);
    assert_eq!(place(&editor, &screen), (1, 1));
}

#[test]
fn vertical_moves_snap_to_the_end_of_a_shorter_line() {
    let (mut editor, mut screen) = small_editor();
    type_text(&mut editor, &mut screen, "a\nlonger line");
    assert_eq!(place(&editor, &screen), (2, 12));
    editor.move_cursor_vertical(Direction::Up, &mut screen);
    assert_eq!(place(&editor, &screen), (1, 2));
    editor.move_cursor_vertical(Direction::Up, &mut screen);
    assert_eq!(place(&editor, &screen), (1, 2));
    editor.move_cursor_vertical(Direction::Down, &mut screen);
    assert_eq!(place(&editor, &screen), (2, 2));
    editor.move_cursor_vertical(Direction::Down, &mut screen);
    assert_eq!(place(&editor, &screen), (2, 2));
}

#[test]
fn the_window_scrolls_when_the_document_grows_past_it() {
    let (mut editor, mut screen) = small_editor();
    type_text(&mut editor, &mut screen, "1\n2\n3\n4\n5");
    assert_eq!((editor.overflow_top, editor.overflow_bottom), (0, 0));
    assert_eq!(screen.row, 5);
    type_text(&mut editor, &mut screen, "\n6\n7");
    assert_eq!((editor.overflow_top, editor.overflow_bottom), (2, 0));
    assert_eq!(screen.row, 5);
    assert_eq!(place(&editor, &screen), (7, 2));
    assert!(viewport_holds(&editor, &screen));
}

#[test]
fn vertical_moves_scroll_at_the_edges_of_the_window() {
    let (mut editor, mut screen) = editor_with("1\n2\n3\n4\n5\n6\n7\n8", 20, 7);
    assert_eq!((editor.overflow_top, editor.overflow_bottom), (0, 3));
    for _ in 0..4 {
        editor.move_cursor_vertical(Direction::Down, &mut screen);
    }
    assert_eq!((editor.overflow_top, editor.overflow_bottom), (0, 3));
    assert_eq!(screen.row, 5);
    editor.move_cursor_vertical(Direction::Down, &mut screen);
    assert_eq!((editor.overflow_top, editor.overflow_bottom), (1, 2));
    assert_eq!(screen.row, 5);
    assert_eq!(place(&editor, &screen), (6, 1));
    for _ in 0..5 {
        editor.move_cursor_vertical(Direction::Down, &mut screen);
    }
    assert_eq!((editor.overflow_top, editor.overflow_bottom), (3, 0));
    assert_eq!(place(&editor, &screen), (8, 1));
    for _ in 0..4 {
        editor.move_cursor_vertical(Direction::Up, &mut screen);
    }
    assert_eq!(screen.row, 1);
    assert_eq!((editor.overflow_top, editor.overflow_bottom), (3, 0));
    editor.move_cursor_vertical(Direction::Up, &mut screen);
    assert_eq!((editor.overflow_top, editor.overflow_bottom), (2, 1));
    assert_eq!(place(&editor, &screen), (3, 1));
    assert!(viewport_holds(&editor, &screen));
}

#[test]
fn joining_lines_keeps_the_viewport_balanced() {
    let (mut editor, mut screen) = editor_with("1\n2\n3\n4\n5\n6\n7", 20, 7);
    assert_eq!((editor.overflow_top, editor.overflow_bottom), (0, 2));
    editor.move_cursor_vertical(Direction::Down, &mut screen);
    assert!(editor.delete_line(&mut screen).is_some());
    assert_eq!(lines_of(&editor), vec!["12", "3", "4", "5", "6", "7"]);
    assert_eq!((editor.overflow_top, editor.overflow_bottom), (0, 1));
    assert_eq!(place(&editor, &screen), (1, 2));
    assert!(viewport_holds(&editor, &screen));
    editor.move_cursor_vertical(Direction::Down, &mut screen);
    assert!(editor.delete_line(&mut screen).is_some());
    assert_eq!((editor.overflow_top, editor.overflow_bottom), (0, 0));
    assert!(viewport_holds(&editor, &screen));
    assert!(editor.jump_to_target_pos(EditorCursorPos { row: 5, col: 1 }, &mut screen).is_some());
    assert!(editor.delete_line(&mut screen).is_some());
    assert_eq!(lines_of(&editor), vec!["123", "4", "5", "67"]);
    assert_eq!(place(&editor, &screen), (4, 2));
    assert!(viewport_holds(&editor, &screen));
}

#[test]
fn joining_lines_scrolls_back_when_lines_are_scrolled_out_above() {
    let (mut editor, mut screen) = editor_with("1\n2\n3\n4\n5\n6\n7", 20, 7);
    assert!(editor.jump_to_target_pos(EditorCursorPos { row: 7, col: 1 }, &mut screen).is_some());
    assert_eq!((editor.overflow_top, editor.overflow_bottom), (2, 0));
    assert!(editor.delete_line(&mut screen).is_some());
    assert_eq!((editor.overflow_top, editor.overflow_bottom), (1, 0));
    assert_eq!(screen.row, 5);
    assert_eq!(place(&editor, &screen), (6, 2));
    assert!(viewport_holds(&editor, &screen));
}

#[test]
fn jump_goes_to_the_target() {
    let (mut editor, mut screen) = editor_with("one\ntwo\nthree\nfour\nfive\nsix\nseven", 20, 7);
    assert!(editor.jump_to_target_pos(EditorCursorPos { row: 7, col: 6 }, &mut screen).is_some());
    assert_eq!(place(&editor, &screen), (7, 6));
    assert!(editor.jump_to_target_pos(EditorCursorPos { row: 3, col: 2 }, &mut screen).is_some());
    assert_eq!(place(&editor, &screen), (3, 2));
    assert!(editor.jump_to_target_pos(EditorCursorPos { row: 3, col: 6 }, &mut screen).is_some());
    assert_eq!(place(&editor, &screen), (3, 6));
    assert!(editor.jump_to_target_pos(EditorCursorPos { row: 1, col: 1 }, &mut screen).is_some());
    assert_eq!(place(&editor, &screen), (1, 1));
    assert!(viewport_holds(&editor, &screen));
}

#[test]
fn jump_out_of_bounds_is_refused() {
    let (mut editor, mut screen) = editor_with("one\ntwo\nthree", 20, 7);
    assert!(editor.jump_to_target_pos(EditorCursorPos { row: 2, col: 2 }, &mut screen).is_some());
    let before = (
        lines_of(&editor),
        editor.current_row,
        editor.overflow_top,
        editor.overflow_bottom,
        screen,
    );
    for target in [(4, 1), (100, 1), (2, 5), (1, 100), (0, 1), (1, 0), (0, 0)] {
        let target = EditorCursorPos { row: target.0, col: target.1 };
        assert!(!editor.check_cursor_pos(target));
        assert!(editor.jump_to_target_pos(target, &mut screen).is_none());
        let after = (
            lines_of(&editor),
            editor.current_row,
            editor.overflow_top,
            editor.overflow_bottom,
            screen,
        );
        assert_eq!(before, after);
        assert_eq!(place(&editor, &screen), (2, 2));
    }
}

#[test]
fn check_cursor_pos_accepts_the_place_behind_the_last_character() {
    let (editor, _screen) = editor_with("one\n\nthree", 20, 7);
    assert!(editor.check_cursor_pos(EditorCursorPos { row: 1, col: 1 }));
    assert!(editor.check_cursor_pos(EditorCursorPos { row: 1, col: 4 }));
    assert!(!editor.check_cursor_pos(EditorCursorPos { row: 1, col: 5 }));
    assert!(editor.check_cursor_pos(EditorCursorPos { row: 2, col: 1 }));
    assert!(!editor.check_cursor_pos(EditorCursorPos { row: 2, col: 2 }));
    assert!(editor.check_cursor_pos(EditorCursorPos { row: 3, col: 6 }));
    assert!(!editor.check_cursor_pos(EditorCursorPos { row: 4, col: 1 }));
}

#[test]
fn label_width_follows_the_number_of_lines() {
    let (mut editor, mut screen) = small_editor();
    for count in 1..=9usize {
        assert_eq!(editor.lines.len(), count);
        assert_eq!(editor.label_width(), 2);
        assert_eq!(editor.label_width_with(count), 2);
        editor.insert_line(&mut screen);
    }
    assert_eq!(editor.lines.len(), 10);
    assert_eq!(editor.label_width(), 3);
    assert_eq!(editor.label_width_with(99), 3);
    assert_eq!(editor.label_width_with(100), 4);
    assert_eq!(editor.label_width_with(0), 2);
}

#[test]
fn the_tenth_line_widens_every_label() {
    let (mut editor, mut screen) = small_editor();
    type_text(&mut editor, &mut screen, "1\n2\n3\n4\n5\n6\n7\n8\n9");
    let page = editor.render_all(&screen);
    assert_eq!(page.label_width, 2);
    let labels: Vec<&str> = page.lines.iter().map(|line| line.label.as_str()).collect();
    assert_eq!(labels, vec!["5 ", "6 ", "7 ", "8 ", "9 "]);
    assert!(editor.lines.iter().all(|line| line.text_area.margin_left == 2));

    editor.insert_line(&mut screen);
    let page = editor.render_all(&screen);
    assert_eq!(page.label_width, 3);
    let labels: Vec<&str> = page.lines.iter().map(|line| line.label.as_str()).collect();
    assert_eq!(labels, vec!["6  ", "7  ", "8  ", "9  ", "10 "]);
    assert!(editor.lines.iter().all(|line| line.text_area.margin_left == 3));
    assert!(page.lines.iter().all(|line| line.text.text.chars().count() == 16));
    assert_eq!((screen.row, screen.col), (5, 3));
    assert_eq!(place(&editor, &screen), (10, 1));

    // joining the tenth line away narrows them again
    editor.delete(&mut screen);
    let page = editor.render_all(&screen);
    assert_eq!(page.label_width, 2);
    assert!(page.lines.iter().all(|line| line.label.chars().count() == 2));
    assert!(editor.lines.iter().all(|line| line.text_area.margin_left == 2));
    assert_eq!(place(&editor, &screen), (9, 2));
}

#[test]
fn render_all_draws_the_window_and_counts_the_empty_rows() {
    let (mut editor, mut screen) = small_editor();
    type_text(&mut editor, &mut screen, "alpha\nbeta");
    let page = editor.render_all(&screen);
    assert_eq!(page.lines.len(), 2);
    assert_eq!(page.blank_rows, 3);
    assert_eq!(page.lines[0].label, "1 ");
    assert_eq!(page.lines[0].text.text, "alpha            ");
    assert_eq!(page.lines[1].label, "2 ");
    assert_eq!(page.lines[1].text.text, "beta             ");
    assert_eq!(editor.lines[0].cached_index, 1);
    assert_eq!(editor.lines[1].cached_index, 2);
    assert_eq!(place(&editor, &screen), (2, 5));
}

#[test]
fn render_all_shows_the_lines_in_the_window() {
    let (mut editor, mut screen) = editor_with("a\nb\nc\nd\ne\nf\ng\nh", 20, 7);
    for _ in 0..6 {
        editor.move_cursor_vertical(Direction::Down, &mut screen);
    }
    let page = editor.render_all(&screen);
    assert_eq!(page.blank_rows, 0);
    let shown: Vec<String> =
        page.lines.iter().map(|line| format!("{}{}", line.label, line.text.text.trim_end())).collect();
    assert_eq!(shown, vec!["3 c", "4 d", "5 e", "6 f", "7 g"]);
}

#[test]
fn search_gives_the_first_match_of_each_line() {
    let (editor, _screen) = editor_with("abc abc\nnothing\n  abc\n", 20, 7);
    let found = editor.search("abc");
    assert_eq!(
        found,
        Some(vec![EditorCursorPos { row: 1, col: 1 }, EditorCursorPos { row: 3, col: 3 }])
    );
    assert_eq!(editor.search("xyz"), None);
    assert_eq!(editor.search("nothing"), Some(vec![EditorCursorPos { row: 2, col: 1 }]));
}

#[test]
fn search_for_nothing_matches_the_start_of_every_line() {
    let (editor, _screen) = editor_with("a\n\nc", 20, 7);
    assert_eq!(
        editor.search(""),
        Some(vec![
            EditorCursorPos { row: 1, col: 1 },
            EditorCursorPos { row: 2, col: 1 },
            EditorCursorPos { row: 3, col: 1 },
        ])
    );
}

#[test]
fn content_joins_the_lines() {
    let (editor, _screen) = editor_with("one\ntwo\r\n\nfour\n", 20, 7);
    assert_eq!(lines_of(&editor), vec!["one", "two", "", "four"]);
    assert_eq!(editor.content(), "one\r\ntwo\r\n\r\nfour");
    let (empty, _screen) = small_editor();
    assert_eq!(empty.content(), "");
}

#[test]
fn read_file_scrolls_out_what_the_window_cannot_hold() {
    let mut editor = Editor::new();
    let mut screen = Screen::new(20, 7);
    assert!(editor.read_file("notes.txt", "1\n2\n3\n4\n5\n6\n7\n8\n9\n10\n11\n12", &screen));
    assert_eq!(editor.lines.len(), 12);
    assert_eq!((editor.overflow_top, editor.overflow_bottom), (0, 7));
    assert_eq!(editor.label_width(), 3);
    assert!(editor.lines.iter().all(|line| line.text_area.margin_left == 3));
    assert_eq!(editor.components.file_saver.comp.text_area.content(), "notes.txt");
    let page = editor.init(&mut screen);
    assert_eq!(page.lines.len(), 5);
    assert_eq!(page.blank_rows, 0);
    assert_eq!(page.lines[0].label, "1  ");
    assert_eq!(place(&editor, &screen), (1, 1));
    assert_eq!((screen.row, screen.col), (1, 3));
    assert!(viewport_holds(&editor, &screen));
}

#[test]
fn read_file_refuses_a_text_whose_labels_leave_no_room() {
    let mut editor = Editor::new();
    let screen = Screen::new(3, 7);
    let ten_lines = "1\n2\n3\n4\n5\n6\n7\n8\n9\n10";
    assert!(!editor.read_file("a", ten_lines, &screen));
    assert_eq!(editor.lines.len(), 0);
    assert_eq!(editor.overflow_bottom, 0);
    assert!(editor.read_file("a", "1\n2", &screen));
    assert_eq!(editor.lines.len(), 2);
}

#[test]
fn an_empty_file_gives_a_document_of_one_empty_line() {
    let (editor, screen) = editor_with("", 20, 7);
    assert_eq!(lines_of(&editor), vec![""]);
    assert_eq!(place(&editor, &screen), (1, 1));
}

#[test]
fn long_lines_scroll_inside_the_document() {
    let (mut editor, mut screen) = small_editor();
    let text = "the quick brown fox jumps over";
    type_text(&mut editor, &mut screen, text);
    assert_eq!(screen.col, 19);
    assert_eq!(place(&editor, &screen), (1, 31));
    let line = &editor.lines[0];
    assert_eq!(line.text_area.overflow_left + 17, text.len());
    let page = editor.render_all(&screen);
    assert_eq!(page.lines[0].text.text, "wn fox jumps over");
    editor.insert_line(&mut screen);
    type_text(&mut editor, &mut screen, "x");
    editor.move_cursor_vertical(Direction::Up, &mut screen);
    assert_eq!(place(&editor, &screen), (1, 15));
}

#[test]
fn delete_tells_what_it_took_out() {
    let (mut editor, mut screen) = small_editor();
    assert!(matches!(editor.delete(&mut screen), Deletion::Nothing));
    type_text(&mut editor, &mut screen, "ab\nc");
    assert!(matches!(editor.delete(&mut screen), Deletion::Character('c')));
    match editor.delete(&mut screen) {
        Deletion::LineBreak(page) => {
            assert_eq!(page.lines.len(), 1);
            assert_eq!(page.blank_rows, 4);
            assert_eq!(page.lines[0].label, "1 ");
            assert_eq!(page.lines[0].text.text.trim_end(), "ab");
        }
        _ => panic!("the line break should have been deleted"),
    }
    assert!(matches!(editor.delete(&mut screen), Deletion::Character('b')));
    assert_eq!(lines_of(&editor), vec!["a"]);
}

#[test]
fn insert_line_and_jump_hand_back_the_page() {
    let (mut editor, mut screen) = small_editor();
    type_text(&mut editor, &mut screen, "one");
    let page = editor.insert_line(&mut screen);
    assert_eq!(page.lines.len(), 2);
    assert_eq!(page.blank_rows, 3);
    assert_eq!(page.lines[1].label, "2 ");
    assert_eq!(page.lines[1].text.text.trim_end(), "");
    let page = editor
        .jump_to_target_pos(EditorCursorPos { row: 1, col: 2 }, &mut screen)
        .expect("a place in the document");
    assert_eq!(page.lines[0].text.text.trim_end(), "one");
    assert_eq!(place(&editor, &screen), (1, 2));
}

#[test]
fn render_all_caches_number_and_label_width_of_the_lines_shown() {
    let (mut editor, mut screen) = editor_with("1\n2\n3\n4\n5\n6\n7\n8\n9", 20, 7);
    editor.render_all(&screen);
    for (i, line) in editor.lines.iter().enumerate() {
        if i < 5 {
            assert_eq!((line.cached_index, line.cached_label_width), (i + 1, 2));
        } else {
            assert_eq!((line.cached_index, line.cached_label_width), (0, 2));
        }
    }
    assert!(editor.jump_to_target_pos(EditorCursorPos { row: 9, col: 2 }, &mut screen).is_some());
    let before = (screen.row, screen.col, editor.overflow_top, editor.overflow_bottom);
    editor.insert_line(&mut screen);
    assert_eq!(editor.lines.len(), 10);
    assert_eq!((editor.overflow_top, editor.overflow_bottom), (5, 0));
    assert_eq!(before, (5, 3, 4, 0));
    for (i, line) in editor.lines.iter().enumerate() {
        assert_eq!(line.text_area.margin_left, 3);
        if i >= 5 {
            assert_eq!((line.cached_index, line.cached_label_width), (i + 1, 3));
        }
    }
    let contents: Vec<String> = editor.lines.iter().map(|line| line.content()).collect();
    assert_eq!(contents, vec!["1", "2", "3", "4", "5", "6", "7", "8", "9", ""]);
}

#[test]
fn vertical_keys_keep_the_column_or_snap_to_the_line_end() {
    let (mut editor, mut screen) = editor_with("long line\nab\nlonger line", 20, 7);
    assert!(editor.jump_to_target_pos(EditorCursorPos { row: 1, col: 7 }, &mut screen).is_some());
    assert_eq!(screen.col, 8);
    editor.move_cursor_vertical(Direction::Down, &mut screen);
    assert_eq!((screen.row, screen.col), (2, 4));
    editor.move_cursor_vertical(Direction::Down, &mut screen);
    assert_eq!((screen.row, screen.col), (3, 4));
    editor.move_cursor_vertical(Direction::Down, &mut screen);
    assert_eq!((screen.row, screen.col), (3, 4));
    editor.move_cursor_vertical(Direction::Up, &mut screen);
    editor.move_cursor_vertical(Direction::Up, &mut screen);
    assert_eq!((screen.row, screen.col), (1, 4));
}
