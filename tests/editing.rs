use modal_editor::{
    handle_command_mode, handle_insert_mode, handle_key, handle_normal_mode, is_control, Action,
    EditorState, KeyCode, KeyInput, Mode,
};

fn key(code: KeyCode) -> KeyInput {
    KeyInput { code, control: false, other_modifiers: false }
}

fn ctrl(c: char) -> KeyInput {
    KeyInput { code: KeyCode::Char(c), control: true, other_modifiers: false }
}

fn session(lines: &[&str]) -> EditorState {
    let text = lines.join("\n");
    EditorState::new("notes.txt".to_string(), Some(text), 24, 80)
}

fn lines_of(state: &EditorState) -> Vec<String> {
    state.content.iter().map(|l| l.iter().collect()).collect()
}

fn status(state: &EditorState) -> Option<String> {
    state.status_message.clone()
}

#[test]
fn new_session_starts_in_normal_mode_at_origin() {
    let state = session(&["one", "two"]);
    assert_eq!(lines_of(&state), vec!["one", "two"]);
    assert_eq!(state.cursor, (0, 0));
    assert_eq!(state.mode, Mode::Normal);
    assert!(!state.should_exit);
    assert_eq!(state.status_message, None);
    assert_eq!(state.screen_size, (24, 80));
    assert_eq!(state.file_path, "notes.txt");
}

#[test]
fn missing_file_gives_one_empty_line() {
    let state = EditorState::new("new.txt".to_string(), None, 24, 80);
    assert_eq!(lines_of(&state), vec![""]);
    let state = EditorState::new("empty.txt".to_string(), Some(String::new()), 24, 80);
    assert_eq!(lines_of(&state), vec![""]);
}

#[test]
fn enter_splits_line_at_end() {
    let mut state = session(&["abc"]);
    state.mode = Mode::Insert;
    state.cursor = (0, 3);
    assert_eq!(handle_key(&key(KeyCode::Enter), &mut state), Action::Idle);
    assert_eq!(lines_of(&state), vec!["abc", ""]);
    assert_eq!(state.cursor, (1, 0));
}

#[test]
fn enter_splits_line_in_middle_by_characters() {
    let mut state = session(&["aéz"]);
    state.mode = Mode::Insert;
    state.cursor = (0, 2);
    handle_insert_mode(&key(KeyCode::Enter), &mut state);
    assert_eq!(lines_of(&state), vec!["aé", "z"]);
    assert_eq!(state.cursor, (1, 0));
}

#[test]
fn move_right_stops_at_line_end() {
    let mut state = session(&["ab"]);
    handle_key(&key(KeyCode::Char('l')), &mut state);
    handle_key(&key(KeyCode::Char('l')), &mut state);
    assert_eq!(state.cursor, (0, 2));
    handle_key(&key(KeyCode::Char('l')), &mut state);
    assert_eq!(state.cursor, (0, 2));
    handle_key(&key(KeyCode::Right), &mut state);
    assert_eq!(state.cursor, (0, 2));
}

#[test]
fn move_left_stops_at_line_start() {
    let mut state = session(&["ab"]);
    state.cursor = (0, 1);
    handle_key(&key(KeyCode::Char('h')), &mut state);
    assert_eq!(state.cursor, (0, 0));
    handle_key(&key(KeyCode::Left), &mut state);
    assert_eq!(state.cursor, (0, 0));
}

#[test]
fn backspace_at_line_start_joins_lines() {
    let mut state = session(&["one", "two"]);
    state.mode = Mode::Insert;
    state.cursor = (1, 0);
    handle_key(&key(KeyCode::Backspace), &mut state);
    assert_eq!(lines_of(&state), vec!["onetwo"]);
    assert_eq!(state.cursor, (0, 3));
}

#[test]
fn backspace_at_buffer_start_does_nothing() {
    let mut state = session(&["one"]);
    state.mode = Mode::Insert;
    handle_key(&key(KeyCode::Backspace), &mut state);
    assert_eq!(lines_of(&state), vec!["one"]);
    assert_eq!(state.cursor, (0, 0));
}

#[test]
fn backspace_removes_character_before_cursor() {
    let mut state = session(&["abc"]);
    state.mode = Mode::Insert;
    state.cursor = (0, 2);
    handle_key(&key(KeyCode::Backspace), &mut state);
    assert_eq!(lines_of(&state), vec!["ac"]);
    assert_eq!(state.cursor, (0, 1));
}

#[test]
fn delete_removes_character_at_cursor() {
    let mut state = session(&["abc"]);
    state.mode = Mode::Insert;
    state.cursor = (0, 1);
    handle_key(&key(KeyCode::Delete), &mut state);
    assert_eq!(lines_of(&state), vec!["ac"]);
    assert_eq!(state.cursor, (0, 1));
    state.cursor = (0, 2);
    handle_key(&key(KeyCode::Delete), &mut state);
    assert_eq!(lines_of(&state), vec!["ac"]);
}

#[test]
fn typing_inserts_characters() {
    let mut state = session(&["ac"]);
    state.mode = Mode::Insert;
    state.cursor = (0, 1);
    handle_key(&key(KeyCode::Char('b')), &mut state);
    assert_eq!(lines_of(&state), vec!["abc"]);
    assert_eq!(state.cursor, (0, 2));
    handle_key(&key(KeyCode::Char('ß')), &mut state);
    assert_eq!(lines_of(&state), vec!["abßc"]);
    assert_eq!(state.cursor, (0, 3));
}

#[test]
fn modified_or_control_characters_are_not_inserted() {
    let mut state = session(&["ab"]);
    state.mode = Mode::Insert;
    handle_key(&ctrl('x'), &mut state);
    let shifted = KeyInput { code: KeyCode::Char('X'), control: false, other_modifiers: true };
    handle_key(&shifted, &mut state);
    handle_key(&key(KeyCode::Char('\u{7}')), &mut state);
    assert_eq!(lines_of(&state), vec!["ab"]);
    assert_eq!(state.cursor, (0, 0));
}

#[test]
fn insert_then_backspace_restores_line() {
    let mut state = session(&["hello"]);
    state.mode = Mode::Insert;
    state.cursor = (0, 2);
    handle_key(&key(KeyCode::Char('z')), &mut state);
    assert_eq!(lines_of(&state), vec!["hezllo"]);
    handle_key(&key(KeyCode::Backspace), &mut state);
    assert_eq!(lines_of(&state), vec!["hello"]);
    assert_eq!(state.cursor, (0, 2));
}

#[test]
fn escape_leaves_insert_mode() {
    let mut state = session(&["ab"]);
    handle_key(&key(KeyCode::Char('i')), &mut state);
    assert_eq!(state.mode, Mode::Insert);
    handle_key(&key(KeyCode::Esc), &mut state);
    assert_eq!(state.mode, Mode::Normal);
    assert_eq!(lines_of(&state), vec!["ab"]);
}

#[test]
fn vertical_moves_clamp_column() {
    let mut state = session(&["long line", "ab", "longer again"]);
    state.cursor = (0, 7);
    handle_key(&key(KeyCode::Char('j')), &mut state);
    assert_eq!(state.cursor, (1, 2));
    handle_key(&key(KeyCode::Down), &mut state);
    assert_eq!(state.cursor, (2, 2));
    handle_key(&key(KeyCode::Down), &mut state);
    assert_eq!(state.cursor, (2, 2));
    state.cursor = (2, 10);
    handle_key(&key(KeyCode::Char('k')), &mut state);
    assert_eq!(state.cursor, (1, 2));
    handle_key(&key(KeyCode::Up), &mut state);
    assert_eq!(state.cursor, (0, 2));
    handle_key(&key(KeyCode::Up), &mut state);
    assert_eq!(state.cursor, (0, 2));
}

#[test]
fn line_start_and_end() {
    let mut state = session(&["abcd"]);
    state.cursor = (0, 2);
    handle_key(&key(KeyCode::Char('$')), &mut state);
    assert_eq!(state.cursor, (0, 4));
    handle_key(&key(KeyCode::Char('0')), &mut state);
    assert_eq!(state.cursor, (0, 0));
}

#[test]
fn open_line_below_enters_insert_mode() {
    let mut state = session(&["a", "b"]);
    state.cursor = (0, 1);
    handle_key(&key(KeyCode::Char('o')), &mut state);
    assert_eq!(lines_of(&state), vec!["a", "", "b"]);
    assert_eq!(state.cursor, (1, 0));
    assert_eq!(state.mode, Mode::Insert);
}

#[test]
fn delete_line_keeps_cursor_in_bounds() {
    let mut state = session(&["first", "second", "x"]);
    state.cursor = (2, 1);
    handle_key(&ctrl('d'), &mut state);
    assert_eq!(lines_of(&state), vec!["first", "second"]);
    assert_eq!(state.cursor, (1, 1));
    state.cursor = (0, 5);
    handle_key(&ctrl('d'), &mut state);
    assert_eq!(lines_of(&state), vec!["second"]);
    assert_eq!(state.cursor, (0, 5));
    handle_key(&ctrl('d'), &mut state);
    assert_eq!(lines_of(&state), vec![""]);
    assert_eq!(state.cursor, (0, 0));
}

#[test]
fn plain_d_does_not_delete_line() {
    let mut state = session(&["keep"]);
    handle_key(&key(KeyCode::Char('d')), &mut state);
    assert_eq!(lines_of(&state), vec!["keep"]);
}

#[test]
fn ctrl_w_asks_for_save_and_ctrl_q_quits() {
    let mut state = session(&["x"]);
    assert_eq!(handle_normal_mode(&ctrl('w'), &mut state), Action::Save);
    assert!(!state.should_exit);
    assert_eq!(handle_normal_mode(&key(KeyCode::Char('w')), &mut state), Action::Idle);
    assert_eq!(handle_normal_mode(&ctrl('q'), &mut state), Action::Idle);
    assert!(state.should_exit);
}

#[test]
fn colon_wq_enter_saves_and_exits() {
    let mut state = session(&["data"]);
    assert_eq!(handle_key(&key(KeyCode::Char(':')), &mut state), Action::Idle);
    assert_eq!(state.mode, Mode::Command);
    handle_key(&key(KeyCode::Char('w')), &mut state);
    handle_key(&key(KeyCode::Char('q')), &mut state);
    assert_eq!(state.command_buffer, vec!['w', 'q']);
    assert_eq!(handle_key(&key(KeyCode::Enter), &mut state), Action::Save);
    assert!(state.should_exit);
    assert_eq!(state.mode, Mode::Normal);
    assert!(state.command_buffer.is_empty());
    assert_eq!(state.file_text(), "data");
    state.record_save(None);
    assert_eq!(status(&state), Some("File saved".to_string()));
}

#[test]
fn unknown_command_is_reported() {
    let mut state = session(&["data"]);
    state.mode = Mode::Command;
    state.command_buffer = vec!['z', 'z'];
    assert_eq!(handle_key(&key(KeyCode::Enter), &mut state), Action::Idle);
    assert_eq!(status(&state), Some("Unknown command: zz".to_string()));
    assert!(!state.should_exit);
    assert_eq!(state.mode, Mode::Normal);
    assert!(state.command_buffer.is_empty());
    assert_eq!(lines_of(&state), vec!["data"]);
}

#[test]
fn empty_and_prefix_commands_are_unknown() {
    let mut state = session(&["data"]);
    state.mode = Mode::Command;
    assert_eq!(handle_command_mode(&mut state), Action::Idle);
    assert_eq!(status(&state), Some("Unknown command: ".to_string()));
    state.mode = Mode::Command;
    state.command_buffer = vec!['w', 'q', 'q'];
    assert_eq!(handle_command_mode(&mut state), Action::Idle);
    assert_eq!(status(&state), Some("Unknown command: wqq".to_string()));
    assert!(!state.should_exit);
}

#[test]
fn command_w_saves_and_q_quits() {
    let mut state = session(&["data"]);
    state.mode = Mode::Command;
    state.command_buffer = vec!['w'];
    assert_eq!(handle_command_mode(&mut state), Action::Save);
    assert!(!state.should_exit);
    state.mode = Mode::Command;
    state.command_buffer = vec!['q'];
    assert_eq!(handle_command_mode(&mut state), Action::Idle);
    assert!(state.should_exit);
}

#[test]
fn command_line_editing() {
    let mut state = session(&["data"]);
    handle_key(&key(KeyCode::Char(':')), &mut state);
    handle_key(&key(KeyCode::Backspace), &mut state);
    assert!(state.command_buffer.is_empty());
    handle_key(&key(KeyCode::Char('a')), &mut state);
    handle_key(&key(KeyCode::Char('b')), &mut state);
    handle_key(&key(KeyCode::Backspace), &mut state);
    assert_eq!(state.command_buffer, vec!['a']);
    handle_key(&key(KeyCode::Esc), &mut state);
    assert_eq!(state.mode, Mode::Normal);
    assert!(state.command_buffer.is_empty());
}

#[test]
fn entering_command_mode_clears_command_line() {
    let mut state = session(&["data"]);
    state.command_buffer = vec!['x'];
    handle_key(&key(KeyCode::Char(':')), &mut state);
    assert!(state.command_buffer.is_empty());
}

#[test]
fn save_error_is_reported() {
    let mut state = session(&["data"]);
    state.record_save(Some("permission denied".to_string()));
    assert_eq!(status(&state), Some("Save error: permission denied".to_string()));
    assert!(!state.should_exit);
    assert_eq!(lines_of(&state), vec!["data"]);
}

#[test]
fn clamping_twice_equals_clamping_once() {
    let mut state = session(&["abc", "de"]);
    state.cursor = (7, 9);
    state.adjust_column();
    assert_eq!(state.cursor, (1, 2));
    state.adjust_column();
    assert_eq!(state.cursor, (1, 2));
}

#[test]
fn buffer_operations_directly() {
    let mut state = session(&["ab", "cd"]);
    state.insert_line_after(0);
    assert_eq!(lines_of(&state), vec!["ab", "", "cd"]);
    state.cursor = (2, 1);
    state.insert_line_after(0);
    assert_eq!(state.cursor, (3, 1));
    state.remove_line(1);
    assert_eq!(lines_of(&state), vec!["ab", "", "cd"]);
    assert_eq!(state.cursor, (2, 1));
    state.move_to_line_end();
    assert_eq!(state.cursor, (2, 2));
    state.move_to_line_start();
    assert_eq!(state.cursor, (2, 0));
    state.insert_char('x');
    state.delete_char_at();
    state.split_line_at_cursor();
    state.delete_char_before();
    assert_eq!(lines_of(&state), vec!["ab", "", "xd"]);
}

#[test]
fn control_characters() {
    assert!(is_control('\n'));
    assert!(is_control('\u{0}'));
    assert!(is_control('\u{7f}'));
    assert!(is_control('\u{9f}'));
    assert!(!is_control('a'));
    assert!(!is_control(' '));
    assert!(!is_control('\u{a0}'));
}
