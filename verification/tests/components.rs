use rusditor::editor::components::{
    ComponentHistory, EditorComponentManager, FileOpener, FileSaver, Finder, Helper,
    LineComponentController, Positioner, ScreenComponentController,
};
use rusditor::editor::cursor_pos::EditorCursorPos;
use rusditor::editor::document::EditorState;
use rusditor::editor::history::History;
use rusditor::editor::{KeyCode, KeyEvent, KeyModifiers};
use rusditor::utils::Screen;

fn plain(code: KeyCode) -> KeyEvent {
    KeyEvent::new(code, KeyModifiers::Plain)
}

#[test]
fn component_history_steps_from_the_newest_to_the_oldest() {
    let mut history = ComponentHistory::new();
    assert_eq!(history.last(), None);
    assert_eq!(history.previous(), None);
    history.append("first".to_string());
    history.append("second".to_string());
    history.append("third".to_string());
    assert_eq!(history.last(), Some(&"third".to_string()));
    assert_eq!(history.next(), None);
    assert_eq!(history.previous(), Some(&"third".to_string()));
    assert_eq!(history.previous(), Some(&"second".to_string()));
    assert_eq!(history.previous(), Some(&"first".to_string()));
    assert_eq!(history.previous(), None);
    assert_eq!(history.next(), Some(&"second".to_string()));
    assert_eq!(history.next(), Some(&"third".to_string()));
    assert_eq!(history.next(), None);
    history.reset_index();
    assert_eq!(history.previous(), Some(&"third".to_string()));
}

#[test]
fn history_steps_round_and_round() {
    let mut history = History::new();
    assert_eq!(history.next(), None);
    history.append("a".to_string());
    history.append("b".to_string());
    assert_eq!(history.previous(), Some(&"b".to_string()));
    assert_eq!(history.previous(), Some(&"a".to_string()));
    assert_eq!(history.previous(), Some(&"b".to_string()));
    assert_eq!(history.next(), Some(&"a".to_string()));
    history.reset_index();
    assert_eq!(history.next(), Some(&"a".to_string()));
    assert_eq!(history.next(), Some(&"b".to_string()));
    assert_eq!(history.next(), Some(&"a".to_string()));
}

#[test]
fn a_prompt_opens_in_its_row_with_the_cursor_behind_its_text() {
    let mut top = LineComponentController::new("Path: ", "[Enter]", 1, true);
    let mut screen = Screen::new(30, 10);
    let drawn = top.open(&mut screen);
    assert_eq!(drawn.row, 1);
    assert_eq!((screen.row, screen.col), (1, 6));
    assert_eq!(drawn.button_col, 23);
    assert_eq!(drawn.text.text.len(), 17);

    let mut bottom = LineComponentController::new("Find: ", "[(Shift) Enter]", -1, true);
    bottom.text_area.content = "needle".chars().collect();
    let drawn = bottom.open(&mut screen);
    assert_eq!(drawn.row, 8);
    assert_eq!((screen.row, screen.col), (8, 12));
    assert_eq!(drawn.prompt, "Find: ");
    assert_eq!(drawn.button, "[(Shift) Enter]");
    assert_eq!(drawn.button_col, 15);
    assert_eq!(drawn.text.text, "needle   ");

    let mut higher = LineComponentController::new(">", "!", -3, true);
    assert_eq!(higher.open(&mut screen).row, 6);
}

#[test]
fn a_prompt_scrolls_a_text_that_is_wider_than_its_field() {
    let mut comp = LineComponentController::new("Path: ", "[Enter]", 1, true);
    comp.text_area.content = "/a/very/long/path/name.txt".chars().collect();
    let mut screen = Screen::new(23, 10);
    let drawn = comp.open(&mut screen);
    assert_eq!(drawn.text.text, "h/name.txt");
    assert_eq!(screen.col, 16);
    assert_eq!(comp.text_area.cursor_pos(&screen), 26);
    assert!(comp.edit(KeyCode::Char('!'), &mut screen));
    assert_eq!(comp.text_area.content(), "/a/very/long/path/name.txt!");
    assert_eq!(comp.render(&screen).text.text, "/name.txt!");
}

#[test]
fn edit_takes_editing_keys_only() {
    let mut comp = LineComponentController::new("Path: ", "[Enter]", 1, true);
    let mut screen = Screen::new(30, 10);
    comp.open(&mut screen);
    assert!(comp.edit(KeyCode::Char('a'), &mut screen));
    assert!(comp.edit(KeyCode::Char('b'), &mut screen));
    assert!(comp.edit(KeyCode::Left, &mut screen));
    assert!(comp.edit(KeyCode::Backspace, &mut screen));
    assert!(comp.edit(KeyCode::Right, &mut screen));
    assert!(!comp.edit(KeyCode::Enter, &mut screen));
    assert!(!comp.edit(KeyCode::Up, &mut screen));
    assert_eq!(comp.text_area.content(), "b");
    comp.editable = false;
    assert!(!comp.edit(KeyCode::Char('c'), &mut screen));
    assert_eq!(comp.text_area.content(), "b");
}

#[test]
fn a_screen_component_cuts_its_text_into_rows() {
    let comp = ScreenComponentController { content: "0123456789abcdefghijkl".to_string() };
    assert_eq!(comp.render(&Screen::new(10, 5)), vec!["0123456789", "abcdefghij", "kl"]);
    assert_eq!(comp.render(&Screen::new(11, 5)), vec!["0123456789a", "bcdefghijkl"]);
    assert_eq!(comp.render(&Screen::new(22, 5)), vec!["0123456789abcdefghijkl"]);
    assert_eq!(comp.render(&Screen::new(40, 5)), vec!["0123456789abcdefghijkl"]);
    let empty = ScreenComponentController { content: String::new() };
    assert_eq!(empty.render(&Screen::new(10, 5)), Vec::<String>::new());
}

#[test]
fn the_helper_shows_its_text() {
    let helper = Helper::new();
    assert_eq!(
        helper.open(&Screen::new(80, 24)),
        vec!["Ctrl + s | Open / Close file saving component"]
    );
    assert_eq!(helper.open(&Screen::new(20, 24)).len(), 3);
    helper.key_resolve(plain(KeyCode::Enter));
}

#[test]
fn the_file_saver_asks_to_save_on_enter() {
    let mut saver = FileSaver::new();
    let mut screen = Screen::new(40, 10);
    assert_eq!(saver.comp.text_area.content(), "temp.txt");
    saver.set_content("the text".to_string());
    saver.open(&mut screen);
    assert_eq!((screen.row, screen.col), (1, 14));
    assert!(saver.key_resolve(plain(KeyCode::Char('x')), &mut screen).is_none());
    assert!(saver.key_resolve(plain(KeyCode::Up), &mut screen).is_none());
    let request = saver.key_resolve(plain(KeyCode::Enter), &mut screen).expect("a request");
    assert_eq!(request.path, "temp.txtx");
    assert_eq!(request.content, "the text");
    saver.set_path("other.txt", &screen);
    let request = saver.save();
    assert_eq!(request.path, "other.txt");
    assert!(FileSaver::is_save_callback_key(plain(KeyCode::Enter)));
    assert!(!FileSaver::is_save_callback_key(KeyEvent::new(KeyCode::Enter, KeyModifiers::Shift)));
    assert!(!FileSaver::is_save_callback_key(plain(KeyCode::Esc)));
}

#[test]
fn the_file_opener_edits_its_path() {
    let mut opener = FileOpener::new();
    let mut screen = Screen::new(40, 10);
    opener.open(&mut screen);
    assert_eq!(opener.get_file_path(), "");
    assert!(opener.key_resolve(plain(KeyCode::Char('a')), &mut screen));
    assert!(opener.key_resolve(KeyEvent::new(KeyCode::Char('B'), KeyModifiers::Shift), &mut screen));
    assert!(!opener.key_resolve(KeyEvent::new(KeyCode::Char('c'), KeyModifiers::Control), &mut screen));
    assert!(!opener.key_resolve(KeyEvent::new(KeyCode::Char('d'), KeyModifiers::Other), &mut screen));
    assert!(!opener.key_resolve(plain(KeyCode::Enter), &mut screen));
    assert_eq!(opener.get_file_path(), "aB");
    opener.set_path("notes.md", &screen);
    assert_eq!(opener.get_file_path(), "notes.md");
    assert!(FileOpener::is_open_file_callback_key(plain(KeyCode::Enter)));
    assert!(!FileOpener::is_open_file_callback_key(plain(KeyCode::Char('\n'))));
}

#[test]
fn the_finder_keeps_matches_and_history() {
    let mut finder = Finder::new();
    let mut screen = Screen::new(40, 10);
    finder.open(&mut screen);
    assert!(finder.is_empty());
    assert_eq!(finder.next(), None);
    finder.set_matches(vec![
        EditorCursorPos { row: 1, col: 2 },
        EditorCursorPos { row: 3, col: 4 },
    ]);
    assert!(!finder.is_empty());
    assert_eq!(finder.previous(), Some(&EditorCursorPos { row: 3, col: 4 }));
    assert_eq!(finder.next(), Some(&EditorCursorPos { row: 1, col: 2 }));
    assert_eq!(finder.next(), Some(&EditorCursorPos { row: 3, col: 4 }));
    assert_eq!(finder.next(), Some(&EditorCursorPos { row: 1, col: 2 }));
    finder.clear();
    assert!(finder.is_empty());

    for ch in "one".chars() {
        finder.key_resolve(plain(KeyCode::Char(ch)), &mut screen);
    }
    finder.key_resolve(plain(KeyCode::Enter), &mut screen);
    finder.key_resolve(plain(KeyCode::Backspace), &mut screen);
    finder.key_resolve(KeyEvent::new(KeyCode::Enter, KeyModifiers::Shift), &mut screen);
    finder.key_resolve(KeyEvent::new(KeyCode::Char('z'), KeyModifiers::Control), &mut screen);
    assert_eq!(finder.content(), "on");
    finder.key_resolve(plain(KeyCode::Up), &mut screen);
    assert_eq!(finder.content(), "on");
    assert_eq!(screen.col, 8);
    finder.key_resolve(plain(KeyCode::Up), &mut screen);
    assert_eq!(finder.content(), "one");
    assert_eq!(screen.col, 9);
    finder.key_resolve(plain(KeyCode::Up), &mut screen);
    assert_eq!(finder.content(), "one");
    finder.key_resolve(plain(KeyCode::Down), &mut screen);
    assert_eq!(finder.content(), "on");
    finder.key_resolve(plain(KeyCode::Down), &mut screen);
    assert_eq!(finder.content(), "on");
    assert!(Finder::is_finding_key(plain(KeyCode::Enter)));
    assert!(!Finder::is_finding_key(KeyEvent::new(KeyCode::Enter, KeyModifiers::Shift)));
    assert!(Finder::is_reverse_finding_key(KeyEvent::new(KeyCode::Enter, KeyModifiers::Shift)));
    assert!(!Finder::is_reverse_finding_key(plain(KeyCode::Enter)));
}

#[test]
fn the_positioner_reads_its_target_on_enter() {
    let mut positioner = Positioner::new();
    let mut screen = Screen::new(40, 10);
    assert_eq!(positioner.get_target(), EditorCursorPos { row: 1, col: 1 });
    positioner.set_cursor_pos(EditorCursorPos { row: 12, col: 7 });
    assert_eq!(positioner.get_target(), EditorCursorPos { row: 12, col: 7 });
    let drawn = positioner.open(&mut screen);
    assert_eq!(drawn.row, 8);
    assert!(drawn.text.dimmed);
    assert_eq!(drawn.text.text.trim_end(), "12:7");
    for ch in "3:14".chars() {
        positioner.key_resolve(plain(KeyCode::Char(ch)), &mut screen);
    }
    assert_eq!(positioner.get_target(), EditorCursorPos { row: 12, col: 7 });
    positioner.key_resolve(plain(KeyCode::Enter), &mut screen);
    assert_eq!(positioner.get_target(), EditorCursorPos { row: 3, col: 14 });
    positioner.key_resolve(plain(KeyCode::Char('x')), &mut screen);
    positioner.key_resolve(plain(KeyCode::Enter), &mut screen);
    assert_eq!(positioner.get_target(), EditorCursorPos { row: 3, col: 14 });
    assert!(Positioner::is_positioning_key(plain(KeyCode::Enter)));
    assert!(!Positioner::is_positioning_key(plain(KeyCode::Right)));
}

#[test]
fn the_manager_hands_keys_to_the_component_of_the_state() {
    let mut manager = EditorComponentManager::new();
    assert!(!manager.use_line_component);
    assert!(!manager.use_screen_component);
    let mut screen = Screen::new(40, 10);
    manager.finder.open(&mut screen);
    assert!(manager.resolve(EditorState::Finding, plain(KeyCode::Char('q')), &mut screen).is_none());
    assert_eq!(manager.finder.content(), "q");
    assert_eq!(manager.file_saver.comp.text_area.content(), "temp.txt");
    manager.file_saver.open(&mut screen);
    let request = manager.resolve(EditorState::Saving, plain(KeyCode::Enter), &mut screen);
    assert_eq!(request.expect("a request").path, "temp.txt");
    manager.positioner.open(&mut screen);
    assert!(manager.resolve(EditorState::Positioning, plain(KeyCode::Char('1')), &mut screen).is_none());
    assert_eq!(manager.positioner.comp.text_area.content(), "1");
    manager.file_opener.open(&mut screen);
    assert!(manager.resolve(EditorState::Opening, plain(KeyCode::Char('f')), &mut screen).is_none());
    assert_eq!(manager.file_opener.get_file_path(), "f");
    let before = screen;
    assert!(manager.resolve(EditorState::ReadingHelpMsg, plain(KeyCode::Char('h')), &mut screen).is_none());
    assert!(manager.resolve(EditorState::Replacing, plain(KeyCode::Char('r')), &mut screen).is_none());
    assert_eq!(screen, before);
    assert_eq!(manager.finder.content(), "q");
}

#[test]
fn a_new_manager_holds_the_components_as_they_start() {
    let manager = EditorComponentManager::new();
    assert!(!manager.use_line_component);
    assert!(!manager.use_screen_component);
    assert_eq!(manager.file_saver.comp.prompt, "Path: ");
    assert_eq!(manager.file_saver.comp.button, "[Enter]");
    assert_eq!(manager.file_saver.comp.position, 1);
    assert_eq!(manager.file_saver.comp.text_area.content(), "temp.txt");
    assert_eq!(manager.file_saver.editor_content, "");
    assert_eq!(manager.file_opener.comp.prompt, "Path: ");
    assert_eq!(manager.file_opener.comp.button, "[Enter]");
    assert_eq!(manager.file_opener.comp.position, 1);
    assert!(manager.file_opener.comp.editable);
    assert_eq!(manager.file_opener.comp.text_area.len(), 0);
    assert_eq!(manager.positioner.comp.prompt, "Target: ");
    assert_eq!(manager.positioner.comp.button, "[Enter]");
    assert_eq!(manager.positioner.comp.position, -1);
    assert_eq!(manager.positioner.get_target(), EditorCursorPos { row: 1, col: 1 });
    assert_eq!(manager.positioner.comp.text_area.len(), 0);
    assert_eq!(
        manager.positioner.comp.text_area.placeholder.iter().collect::<String>(),
        "1:1"
    );
    assert_eq!(manager.finder.comp.prompt, "Find: ");
    assert_eq!(manager.finder.comp.button, "[(Shift) Enter]");
    assert_eq!(manager.finder.comp.position, -1);
    assert_eq!(manager.finder.comp.text_area.len(), 0);
    assert!(manager.finder.is_empty());
    assert_eq!(manager.finder.history.last(), None);
    assert_eq!(manager.helper.comp.content, "Ctrl + s | Open / Close file saving component");
    for area in [
        &manager.file_saver.comp.text_area,
        &manager.file_opener.comp.text_area,
        &manager.positioner.comp.text_area,
        &manager.finder.comp.text_area,
    ] {
        assert_eq!((area.overflow_left, area.overflow_right), (0, 0));
    }
    assert!(manager.has_room(&Screen::new(21, 2)));
    assert!(!manager.has_room(&Screen::new(20, 10)));
    assert!(!manager.has_room(&Screen::new(80, 1)));
}
