//! The editing session: the line buffer and its cursor, the input modes, the
//! command line, and the key handlers of each mode.

use crate::text::{join_lines, joined, push_chars, split_text, text_lines, views};
use vstd::prelude::*;

verus! {

/// The active input mode.
#[derive(PartialEq, Eq, Structural, Clone, Copy, Debug)]
pub enum Mode {
    Normal,
    Insert,
    Command,
}

/// The key of a key press.
#[derive(PartialEq, Eq, Structural, Clone, Copy, Debug)]
pub enum KeyCode {
    Char(char),
    Left,
    Right,
    Up,
    Down,
    Enter,
    Esc,
    Backspace,
    Delete,
    Other,
}

/// A key press: the key, whether Control was held, and whether any other
/// modifier (Shift, Alt, ...) was held.
#[derive(PartialEq, Eq, Structural, Clone, Copy, Debug)]
pub struct KeyInput {
    pub code: KeyCode,
    pub control: bool,
    pub other_modifiers: bool,
}

/// What the caller has to do after a key was handled.
#[derive(PartialEq, Eq, Structural, Clone, Copy, Debug)]
pub enum Action {
    /// Nothing beyond drawing the next frame.
    Idle,
    /// Write `EditorState::file_text` to the file path and report the outcome
    /// through `EditorState::record_save`.
    Save,
}

/// Unicode control characters (general category Cc).
pub open spec fn is_control_spec(c: char) -> bool {
    (c as u32) <= 0x1f || (0x7f <= (c as u32) && (c as u32) <= 0x9f)
}

/// Whether `c` is a control character.
pub fn is_control(c: char) -> (r: bool)
    ensures
        r == is_control_spec(c),
{
    let u = c as u32;
    u <= 0x1f || (0x7f <= u && u <= 0x9f)
}

/// The editing session.
pub struct EditorState {
    pub mode: Mode,
    /// (row, column), both counted from zero; the column counts characters.
    pub cursor: (usize, usize),
    pub content: Vec<Vec<char>>,
    pub file_path: String,
    pub status_message: Option<String>,
    /// (rows, columns) of the viewport.
    pub screen_size: (usize, usize),
    pub should_exit: bool,
    pub command_buffer: Vec<char>,
}

/// The mathematical value of a session.
pub struct EditorModel {
    pub mode: Mode,
    pub row: int,
    pub col: int,
    pub lines: Seq<Seq<char>>,
    pub file_path: Seq<char>,
    pub status: Option<Seq<char>>,
    pub screen: (int, int),
    pub exit: bool,
    pub command: Seq<char>,
}

/// The characters of a message, if there is one.
pub open spec fn opt_view(s: Option<String>) -> Option<Seq<char>> {
    match s {
        Some(t) => Some(t@),
        None => None,
    }
}

impl View for EditorState {
    type V = EditorModel;

    open spec fn view(&self) -> EditorModel {
        EditorModel {
            mode: self.mode,
            row: self.cursor.0 as int,
            col: self.cursor.1 as int,
            lines: views(self.content@),
            file_path: self.file_path@,
            status: opt_view(self.status_message),
            screen: (self.screen_size.0 as int, self.screen_size.1 as int),
            exit: self.should_exit,
            command: self.command_buffer@,
        }
    }
}

/// The buffer a session starts with from a file's text, if there is any:
/// its lines, or a single empty line where there are none.
pub open spec fn initial_lines(text: Option<Seq<char>>) -> Seq<Seq<char>> {
    let ls = match text {
        Some(t) => text_lines(t),
        None => seq![],
    };
    if ls.len() == 0 {
        seq![seq![]]
    } else {
        ls
    }
}

impl EditorModel {
    /// The buffer holds at least one line and the cursor lies on a line,
    /// at most one place past its last character.
    pub open spec fn wf(self) -> bool {
        &&& self.lines.len() > 0
        &&& 0 <= self.row < self.lines.len()
        &&& 0 <= self.col <= self.lines[self.row].len()
    }

    pub open spec fn line(self) -> Seq<char> {
        self.lines[self.row]
    }

    /// The cursor moved to the last line if it is below it, then to the end
    /// of its line if it is past it.
    pub open spec fn clamped(self) -> EditorModel {
        let row = if self.row >= self.lines.len() {
            self.lines.len() - 1
        } else {
            self.row
        };
        let len = self.lines[row].len() as int;
        EditorModel { row, col: if self.col > len { len } else { self.col }, ..self }
    }

    pub open spec fn line_start(self) -> EditorModel {
        EditorModel { col: 0, ..self }
    }

    pub open spec fn line_end(self) -> EditorModel {
        EditorModel { col: self.line().len() as int, ..self }
    }

    pub open spec fn with_char(self, c: char) -> EditorModel {
        EditorModel {
            lines: self.lines.update(self.row, self.line().insert(self.col, c)),
            col: self.col + 1,
            ..self
        }
    }

    pub open spec fn without_char_before(self) -> EditorModel {
        if self.col > 0 {
            EditorModel {
                lines: self.lines.update(self.row, self.line().remove(self.col - 1)),
                col: self.col - 1,
                ..self
            }
        } else if self.row > 0 {
            let prev = self.lines[self.row - 1];
            EditorModel {
                lines: self.lines.update(self.row - 1, prev + self.line()).remove(self.row),
                row: self.row - 1,
                col: prev.len() as int,
                ..self
            }
        } else {
            self
        }
    }

    pub open spec fn without_char_at(self) -> EditorModel {
        if self.col < self.line().len() {
            EditorModel { lines: self.lines.update(self.row, self.line().remove(self.col)), ..self }
        } else {
            self
        }
    }

    pub open spec fn split_at_cursor(self) -> EditorModel {
        EditorModel {
            lines: self.lines.update(self.row, self.line().take(self.col)).insert(
                self.row + 1,
                self.line().skip(self.col),
            ),
            row: self.row + 1,
            col: 0,
            ..self
        }
    }

    pub open spec fn with_line_after(self, row: int) -> EditorModel {
        EditorModel {
            lines: self.lines.insert(row + 1, seq![]),
            row: if self.row > row { self.row + 1 } else { self.row },
            ..self
        }
    }

    pub open spec fn without_line(self, row: int) -> EditorModel {
        let ls = self.lines.remove(row);
        EditorModel { lines: if ls.len() == 0 { seq![seq![]] } else { ls }, ..self }.clamped()
    }
    pub open spec fn moved_left(self) -> EditorModel {
        EditorModel { col: if self.col > 0 { self.col - 1 } else { 0 }, ..self }
    }

    pub open spec fn moved_right(self) -> EditorModel {
        if self.col < self.line().len() {
            EditorModel { col: self.col + 1, ..self }
        } else {
            self
        }
    }

    pub open spec fn moved_down(self) -> EditorModel {
        if self.row < self.lines.len() - 1 {
            EditorModel { row: self.row + 1, ..self }.clamped()
        } else {
            self
        }
    }

    pub open spec fn moved_up(self) -> EditorModel {
        EditorModel { row: if self.row > 0 { self.row - 1 } else { 0 }, ..self }.clamped()
    }

    /// A new empty line below the cursor's, with the cursor on it, in Insert mode.
    pub open spec fn opened_line(self) -> EditorModel {
        EditorModel { row: self.row + 1, col: 0, mode: Mode::Insert, ..self.with_line_after(self.row) }
    }

    /// A key in Normal mode.
    pub open spec fn normal_key(self, k: KeyInput) -> (EditorModel, Action) {
        let c = k.code;
        if c == KeyCode::Char('h') || c == KeyCode::Left {
            (self.moved_left(), Action::Idle)
        } else if c == KeyCode::Char('j') || c == KeyCode::Down {
            (self.moved_down(), Action::Idle)
        } else if c == KeyCode::Char('k') || c == KeyCode::Up {
            (self.moved_up(), Action::Idle)
        } else if c == KeyCode::Char('l') || c == KeyCode::Right {
            (self.moved_right(), Action::Idle)
        } else if c == KeyCode::Char('i') {
            (EditorModel { mode: Mode::Insert, ..self }, Action::Idle)
        } else if c == KeyCode::Char(':') {
            (EditorModel { mode: Mode::Command, command: seq![], ..self }, Action::Idle)
        } else if c == KeyCode::Char('0') {
            (self.line_start(), Action::Idle)
        } else if c == KeyCode::Char('$') {
            (self.line_end(), Action::Idle)
        } else if c == KeyCode::Char('w') && k.control {
            (self, Action::Save)
        } else if c == KeyCode::Char('q') && k.control {
            (EditorModel { exit: true, ..self }, Action::Idle)
        } else if c == KeyCode::Char('o') {
            (self.opened_line(), Action::Idle)
        } else if c == KeyCode::Char('d') && k.control {
            (self.without_line(self.row), Action::Idle)
        } else {
            (self, Action::Idle)
        }
    }

    /// A key in Insert mode.
    pub open spec fn insert_key(self, k: KeyInput) -> EditorModel {
        match k.code {
            KeyCode::Esc => EditorModel { mode: Mode::Normal, ..self },
            KeyCode::Backspace => self.without_char_before(),
            KeyCode::Delete => self.without_char_at(),
            KeyCode::Enter => self.split_at_cursor(),
            KeyCode::Char(ch) => {
                if !is_control_spec(ch) && !k.control && !k.other_modifiers {
                    self.with_char(ch)
                } else {
                    self
                }
            },
            _ => self,
        }
    }

    /// Running the command line: `w` saves, `q` quits, `wq` does both, and
    /// anything else is reported as unknown. The command line is then empty
    /// and the mode is Normal.
    pub open spec fn run_command(self) -> (EditorModel, Action) {
        let done = EditorModel { mode: Mode::Normal, command: seq![], ..self };
        if self.command == seq!['w'] {
            (done, Action::Save)
        } else if self.command == seq!['q'] {
            (EditorModel { exit: true, ..done }, Action::Idle)
        } else if self.command == seq!['w', 'q'] {
            (EditorModel { exit: true, ..done }, Action::Save)
        } else {
            (EditorModel { status: Some("Unknown command: "@ + self.command), ..done }, Action::Idle)
        }
    }

    /// A key in Command mode.
    pub open spec fn command_key(self, k: KeyInput) -> (EditorModel, Action) {
        match k.code {
            KeyCode::Enter => self.run_command(),
            KeyCode::Char(ch) => {
                if !is_control_spec(ch) {
                    (EditorModel { command: self.command.push(ch), ..self }, Action::Idle)
                } else {
                    (self, Action::Idle)
                }
            },
            KeyCode::Backspace => {
                if self.command.len() > 0 {
                    (EditorModel { command: self.command.drop_last(), ..self }, Action::Idle)
                } else {
                    (self, Action::Idle)
                }
            },
            KeyCode::Esc => (EditorModel { mode: Mode::Normal, command: seq![], ..self }, Action::Idle),
            _ => (self, Action::Idle),
        }
    }

    /// A key in the active mode.
    pub open spec fn key_step(self, k: KeyInput) -> (EditorModel, Action) {
        match self.mode {
            Mode::Normal => self.normal_key(k),
            Mode::Insert => (self.insert_key(k), Action::Idle),
            Mode::Command => self.command_key(k),
        }
    }

    /// The status after a save: success, or the error's description.
    pub open spec fn saved(self, error: Option<Seq<char>>) -> EditorModel {
        EditorModel {
            status: Some(
                match error {
                    None => "File saved"@,
                    Some(e) => "Save error: "@ + e,
                },
            ),
            ..self
        }
    }
}

impl EditorState {
    pub open spec fn wf(&self) -> bool {
        self@.wf()
    }

    /// A session on `file_path` whose file held `text` (`None`: there is no
    /// such file, or it could not be read), in Normal mode, with the cursor at
    /// the start and a viewport of `rows` by `cols`.
    pub fn new(file_path: String, text: Option<String>, rows: usize, cols: usize) -> (r: Self)
        ensures
            r@ == (EditorModel {
                mode: Mode::Normal,
                row: 0,
                col: 0,
                lines: initial_lines(opt_view(text)),
                file_path: file_path@,
                status: None,
                screen: (rows as int, cols as int),
                exit: false,
                command: seq![],
            }),
            r.wf(),
    {
        let mut content = match &text {
            Some(t) => split_text(t.as_str()),
            None => Vec::new(),
        };
        if content.len() == 0 {
            content.push(Vec::new());
            assert(views(content@) =~= seq![seq![]]);
        }
        EditorState {
            mode: Mode::Normal,
            cursor: (0, 0),
            content,
            file_path,
            status_message: None,
            screen_size: (rows, cols),
            should_exit: false,
            command_buffer: Vec::new(),
        }
    }

    /// Restores the cursor bounds after the buffer changed.
    pub fn adjust_column(&mut self)
        requires
            old(self).content@.len() > 0,
        ensures
            final(self)@ == old(self)@.clamped(),
            final(self).wf(),
    {
        if self.cursor.0 >= self.content.len() {
            self.cursor.0 = self.content.len() - 1;
        }
        let line_len = self.content[self.cursor.0].len();
        if self.cursor.1 > line_len {
            self.cursor.1 = line_len;
        }
    }

    pub fn move_to_line_start(&mut self)
        requires
            old(self).wf(),
        ensures
            final(self)@ == old(self)@.line_start(),
            final(self).wf(),
    {
        self.cursor.1 = 0;
    }

    pub fn move_to_line_end(&mut self)
        requires
            old(self).wf(),
        ensures
            final(self)@ == old(self)@.line_end(),
            final(self).wf(),
    {
        self.cursor.1 = self.content[self.cursor.0].len();
    }
    /// Inserts `c` before the cursor and moves the cursor past it.
    pub fn insert_char(&mut self, c: char)
        requires
            old(self).wf(),
        ensures
            final(self)@ == old(self)@.with_char(c),
            final(self).wf(),
    {
        let row = self.cursor.0;
        let col = self.cursor.1;
        let ghost m = self@;
        self.content[row].insert(col, c);
        let n = self.content[row].len();
        assert(col < n);
        self.cursor.1 = col + 1;
        assert(self@.lines =~= m.with_char(c).lines);
    }

    /// Backspace: removes the character before the cursor, or at the start
    /// of a line joins it onto the line above.
    pub fn delete_char_before(&mut self)
        requires
            old(self).wf(),
        ensures
            final(self)@ == old(self)@.without_char_before(),
            final(self).wf(),
    {
        let row = self.cursor.0;
        let col = self.cursor.1;
        let ghost m = self@;
        if col > 0 {
            self.content[row].remove(col - 1);
            self.cursor.1 = col - 1;
            assert(self@.lines =~= m.without_char_before().lines);
        } else if row > 0 {
            let mut current = self.content.remove(row);
            let prev_len = self.content[row - 1].len();
            self.content[row - 1].append(&mut current);
            self.cursor.0 = row - 1;
            self.cursor.1 = prev_len;
            assert(self@.lines =~= m.without_char_before().lines);
        }
    }

    /// Delete: removes the character under the cursor, if there is one.
    pub fn delete_char_at(&mut self)
        requires
            old(self).wf(),
        ensures
            final(self)@ == old(self)@.without_char_at(),
            final(self).wf(),
    {
        let row = self.cursor.0;
        let col = self.cursor.1;
        let ghost m = self@;
        if col < self.content[row].len() {
            self.content[row].remove(col);
            assert(self@.lines =~= m.without_char_at().lines);
        }
    }

    /// Splits the line at the cursor; the cursor moves to the start of the
    /// second part.
    pub fn split_line_at_cursor(&mut self)
        requires
            old(self).wf(),
        ensures
            final(self)@ == old(self)@.split_at_cursor(),
            final(self).wf(),
    {
        let row = self.cursor.0;
        let col = self.cursor.1;
        let ghost m = self@;
        let n = self.content.len();
        let right = self.content[row].split_off(col);
        self.content.insert(row + 1, right);

        self.cursor.0 = row + 1;
        self.cursor.1 = 0;
        assert(self@.lines =~= m.split_at_cursor().lines);
    }

    /// Inserts an empty line below line `row`; the cursor stays on its line.
    pub fn insert_line_after(&mut self, row: usize)
        requires
            old(self).wf(),
            row < old(self).content@.len(),
        ensures
            final(self)@ == old(self)@.with_line_after(row as int),
            final(self).wf(),
    {
        let ghost m = self@;
        let n = self.content.len();
        self.content.insert(row + 1, Vec::new());
        if self.cursor.0 > row {
            self.cursor.0 = self.cursor.0 + 1;
        }
        assert(self@.lines =~= m.with_line_after(row as int).lines);
    }

    /// Removes line `row`, leaving one empty line where it was the only one,
    /// and brings the cursor back within the buffer.
    pub fn remove_line(&mut self, row: usize)
        requires
            old(self).wf(),
            row < old(self).content@.len(),
        ensures
            final(self)@ == old(self)@.without_line(row as int),
            final(self).wf(),
    {
        let ghost m = self@;
        self.content.remove(row);
        if self.content.len() == 0 {
            self.content.push(Vec::new());
        }
        assert(self@.lines =~= (EditorModel {
            lines: if m.lines.remove(row as int).len() == 0 {
                seq![seq![]]
            } else {
                m.lines.remove(row as int)
            },
            ..m
        }).lines);
        self.adjust_column();
    }
    /// The text to write to the file: the lines joined by newlines.
    pub fn file_text(&self) -> (r: String)
        ensures
            r@ == joined(self@.lines),
    {
        join_lines(&self.content)
    }

    /// Records the outcome of writing `file_text` to the file: `None` on
    /// success, else a description of the error.
    pub fn record_save(&mut self, error: Option<String>)
        ensures
            final(self)@ == old(self)@.saved(opt_view(error)),
    {
        match error {
            None => {
                self.status_message = Some("File saved".to_owned());
            },
            Some(e) => {
                let mut msg = "Save error: ".to_owned();
                msg.append(e.as_str());
                self.status_message = Some(msg);
            },
        }
    }
}

/// Handles a key in Normal mode.
pub fn handle_normal_mode(event: &KeyInput, state: &mut EditorState) -> (r: Action)
    requires
        old(state).wf(),
    ensures
        (final(state)@, r) == old(state)@.normal_key(*event),
        final(state).wf(),
{
    let c = event.code;
    if c == KeyCode::Char('h') || c == KeyCode::Left {
        if state.cursor.1 > 0 {
            state.cursor.1 = state.cursor.1 - 1;
        }
    } else if c == KeyCode::Char('j') || c == KeyCode::Down {
        if state.cursor.0 < state.content.len() - 1 {
            state.cursor.0 = state.cursor.0 + 1;
            state.adjust_column();
        }
    } else if c == KeyCode::Char('k') || c == KeyCode::Up {
        if state.cursor.0 > 0 {
            state.cursor.0 = state.cursor.0 - 1;
        }
        state.adjust_column();
    } else if c == KeyCode::Char('l') || c == KeyCode::Right {
        let line_len = state.content[state.cursor.0].len();
        if state.cursor.1 < line_len {
            state.cursor.1 = state.cursor.1 + 1;
        }
    } else if c == KeyCode::Char('i') {
        state.mode = Mode::Insert;
    } else if c == KeyCode::Char(':') {
        state.mode = Mode::Command;
        state.command_buffer.clear();
    } else if c == KeyCode::Char('0') {
        state.move_to_line_start();
    } else if c == KeyCode::Char('$') {
        state.move_to_line_end();
    } else if c == KeyCode::Char('w') && event.control {
        return Action::Save;
    } else if c == KeyCode::Char('q') && event.control {
        state.should_exit = true;
    } else if c == KeyCode::Char('o') {
        let row = state.cursor.0;
        state.insert_line_after(row);
        let n = state.content.len();
        state.cursor.0 = row + 1;
        state.cursor.1 = 0;
        state.mode = Mode::Insert;
    } else if c == KeyCode::Char('d') && event.control {
        let row = state.cursor.0;
        state.remove_line(row);
    }
    Action::Idle
}

/// Handles a key in Insert mode.
pub fn handle_insert_mode(event: &KeyInput, state: &mut EditorState)
    requires
        old(state).wf(),
    ensures
        final(state)@ == old(state)@.insert_key(*event),
        final(state).wf(),
{
    match event.code {
        KeyCode::Esc => state.mode = Mode::Normal,
        KeyCode::Backspace => state.delete_char_before(),
        KeyCode::Delete => state.delete_char_at(),
        KeyCode::Enter => state.split_line_at_cursor(),
        KeyCode::Char(c) => {
            if !is_control(c) && !event.control && !event.other_modifiers {
                state.insert_char(c);
            }
        },
        _ => {},
    }
}

/// Runs the command line and empties it.
pub fn handle_command_mode(state: &mut EditorState) -> (r: Action)
    requires
        old(state).wf(),
    ensures
        (final(state)@, r) == old(state)@.run_command(),
        final(state).wf(),
{
    let ghost cmd = state.command_buffer@;
    let n = state.command_buffer.len();
    let action = if n == 1 && state.command_buffer[0] == 'w' {
        assert(cmd =~= seq!['w']);
        Action::Save
    } else if n == 1 && state.command_buffer[0] == 'q' {
        assert(cmd =~= seq!['q']);
        state.should_exit = true;
        Action::Idle
    } else if n == 2 && state.command_buffer[0] == 'w' && state.command_buffer[1] == 'q' {
        assert(cmd =~= seq!['w', 'q']);
        state.should_exit = true;
        Action::Save
    } else {
        let mut msg = "Unknown command: ".to_owned();
        push_chars(&mut msg, state.command_buffer.as_slice());
        state.status_message = Some(msg);
        Action::Idle
    };
    state.command_buffer.clear();
    state.mode = Mode::Normal;
    assert(state.command_buffer@ =~= seq![]);
    action
}

/// Handles a key in Command mode.
pub fn handle_command_key(event: &KeyInput, state: &mut EditorState) -> (r: Action)
    requires
        old(state).wf(),
    ensures
        (final(state)@, r) == old(state)@.command_key(*event),
        final(state).wf(),
{
    match event.code {
        KeyCode::Enter => {
            return handle_command_mode(state);
        },
        KeyCode::Char(c) => {
            if !is_control(c) {
                state.command_buffer.push(c);
            }
        },
        KeyCode::Backspace => {
            if state.command_buffer.len() > 0 {
                state.command_buffer.pop();
            }
        },
        KeyCode::Esc => {
            state.mode = Mode::Normal;
            state.command_buffer.clear();
        },
        _ => {},
    }
    Action::Idle
}

/// Handles a key press in the active mode.
pub fn handle_key(event: &KeyInput, state: &mut EditorState) -> (r: Action)
    requires
        old(state).wf(),
    ensures
        (final(state)@, r) == old(state)@.key_step(*event),
        final(state).wf(),
{
    match state.mode {
        Mode::Normal => handle_normal_mode(event, state),
        Mode::Insert => {
            handle_insert_mode(event, state);
            Action::Idle
        },
        Mode::Command => handle_command_key(event, state),
    }
}

} // verus!
