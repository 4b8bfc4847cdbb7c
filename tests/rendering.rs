use modal_editor::{draw_content, render_frame, EditorState, Mode};

fn session(text: &str, rows: usize, cols: usize) -> EditorState {
    EditorState::new("f".to_string(), Some(text.to_string()), rows, cols)
}

#[test]
fn frame_of_one_line() {
    let state = session("ab", 3, 10);
    let expected = String::new()
        + "\x1b[2J\x1b[1;1H"
        + "\x1b[1;1H\x1b[34m   1 \x1b[0m\x1b[1;6Hab"
        + "\x1b[3;1H\x1b[44m\x1b[37m NORMAL | f | 1:1 \x1b[0m"
        + "\x1b[1;6H";
    assert_eq!(render_frame(&state), expected);
}

#[test]
fn status_bar_is_padded_to_width() {
    let mut state = session("ab", 2, 24);
    state.mode = Mode::Insert;
    state.cursor = (0, 2);
    let frame = render_frame(&state);
    assert!(frame.contains("\x1b[2;1H\x1b[44m\x1b[37m INSERT | f | 1:3      \x1b[0m"));
    assert!(frame.ends_with("\x1b[1;8H"));
}

#[test]
fn lines_beyond_viewport_are_not_drawn() {
    let state = session("a\nb\nc\nd", 3, 20);
    let mut out = String::new();
    draw_content(&state, &mut out);
    assert_eq!(
        out,
        "\x1b[1;1H\x1b[34m   1 \x1b[0m\x1b[1;6Ha\x1b[2;1H\x1b[34m   2 \x1b[0m\x1b[2;6Hb"
    );
}

#[test]
fn lines_are_cut_to_width() {
    let state = session("abcdefgh", 5, 8);
    let mut out = String::new();
    draw_content(&state, &mut out);
    assert_eq!(out, "\x1b[1;1H\x1b[34m   1 \x1b[0m\x1b[1;6Habc");
}

#[test]
fn narrow_viewport_draws_no_text() {
    let state = session("abcdefgh", 5, 3);
    let mut out = String::new();
    draw_content(&state, &mut out);
    assert_eq!(out, "\x1b[1;1H\x1b[34m   1 \x1b[0m\x1b[1;6H");
    let frame = render_frame(&state);
    assert!(frame.ends_with("\x1b[1;3H"));
}

#[test]
fn empty_viewport_draws_no_rows() {
    let state = session("abc", 0, 0);
    let mut out = String::new();
    draw_content(&state, &mut out);
    assert_eq!(out, "");
    let frame = render_frame(&state);
    assert!(frame.ends_with("\x1b[0;0H"));
}

#[test]
fn cursor_is_kept_inside_viewport() {
    let mut state = session("a\nb\nc\nd\ne\nline six is long", 4, 12);
    state.cursor = (5, 15);
    let frame = render_frame(&state);
    assert!(frame.contains(" NORMAL | f | 6:16 "));
    assert!(frame.ends_with("\x1b[4;12H"));
}

#[test]
fn wide_line_numbers_fill_gutter() {
    let text: Vec<String> = (1..=12).map(|i| i.to_string()).collect();
    let state = session(&text.join("\n"), 20, 40);
    let mut out = String::new();
    draw_content(&state, &mut out);
    assert!(out.contains("\x1b[12;1H\x1b[34m  12 \x1b[0m\x1b[12;6H12"));
}
