//! The projection of a session onto the terminal: line-number gutter and
//! text, a status bar on the last row, and the cursor position, as one string
//! of ANSI escape sequences.

use crate::editor::{EditorModel, EditorState, Mode};
use crate::text::{push_char, push_chars};
use vstd::prelude::*;

verus! {

/// The digit for `d`, below ten.
pub open spec fn digit(d: int) -> char {
    seq!['0', '1', '2', '3', '4', '5', '6', '7', '8', '9'][d]
}

/// The decimal digits of `n`, without leading zeros.
pub open spec fn decimal(n: nat) -> Seq<char>
    decreases n,
{
    if n < 10 {
        seq![digit(n as int)]
    } else {
        decimal(n / 10).push(digit((n % 10) as int))
    }
}

pub open spec fn spaces(k: int) -> Seq<char> {
    Seq::new(if k > 0 { k as nat } else { 0 }, |_i: int| ' ')
}

/// `s` right-aligned in a field of `width` characters.
pub open spec fn pad_left(s: Seq<char>, width: int) -> Seq<char> {
    spaces(width - s.len()) + s
}

/// `s` left-aligned in a field of `width` characters.
pub open spec fn pad_right(s: Seq<char>, width: int) -> Seq<char> {
    s + spaces(width - s.len())
}

pub open spec fn min(a: int, b: int) -> int {
    if a < b {
        a
    } else {
        b
    }
}

/// `a - b`, or zero where that is negative.
pub open spec fn minus(a: int, b: int) -> int {
    if a > b {
        a - b
    } else {
        0
    }
}

/// Columns of text left beside the gutter.
pub open spec fn text_width(cols: int) -> int {
    minus(cols, 5)
}

/// Buffer lines that are drawn: one row is kept for the status bar.
pub open spec fn shown_lines(m: EditorModel) -> int {
    min(minus(m.screen.0, 1), m.lines.len() as int)
}

/// Screen row `num` (from one): its line number in the gutter, then the
/// line cut to `width` characters.
pub open spec fn row_text(num: nat, line: Seq<char>, width: int) -> Seq<char> {
    "\x1b["@ + decimal(num) + ";1H\x1b[34m"@ + pad_left(decimal(num), 4) + " \x1b[0m"@ + "\x1b["@
        + decimal(num) + ";6H"@ + line.take(min(line.len() as int, width))
}

/// The first `k` rows of text.
pub open spec fn content_rows(lines: Seq<Seq<char>>, k: int, width: int) -> Seq<char>
    decreases k,
{
    if k <= 0 {
        seq![]
    } else {
        content_rows(lines, k - 1, width) + row_text(k as nat, lines[k - 1], width)
    }
}

pub open spec fn mode_name(mode: Mode) -> Seq<char> {
    match mode {
        Mode::Normal => "NORMAL"@,
        Mode::Insert => "INSERT"@,
        Mode::Command => "COMMAND"@,
    }
}

/// Mode, file path and the cursor's (row, column) counted from one.
pub open spec fn status_text(m: EditorModel) -> Seq<char> {
    " "@ + mode_name(m.mode) + " | "@ + m.file_path + " | "@ + decimal((m.row + 1) as nat) + ":"@
        + decimal((m.col + 1) as nat) + " "@
}

/// The status bar on the last row, in white on blue, padded to the width.
pub open spec fn status_bar(m: EditorModel) -> Seq<char> {
    "\x1b["@ + decimal(m.screen.0 as nat) + ";1H\x1b[44m\x1b[37m"@ + pad_right(
        status_text(m),
        minus(m.screen.1, 1),
    ) + "\x1b[0m"@
}

/// The terminal cursor: the buffer cursor shifted past the gutter, kept
/// within the viewport.
pub open spec fn cursor_move(m: EditorModel) -> Seq<char> {
    "\x1b["@ + decimal(min(m.row + 1, m.screen.0) as nat) + ";"@ + decimal(
        min(m.col + 6, m.screen.1) as nat,
    ) + "H"@
}

/// A whole frame: clear, text rows, status bar, cursor.
pub open spec fn frame(m: EditorModel) -> Seq<char> {
    "\x1b[2J"@ + "\x1b[1;1H"@ + content_rows(m.lines, shown_lines(m), text_width(m.screen.1))
        + status_bar(m) + cursor_move(m)
}

fn digit_char(d: u128) -> (c: char)
    requires
        d < 10,
    ensures
        c == digit(d as int),
{
    match d {
        0 => '0',
        1 => '1',
        2 => '2',
        3 => '3',
        4 => '4',
        5 => '5',
        6 => '6',
        7 => '7',
        8 => '8',
        _ => '9',
    }
}

fn push_decimal(out: &mut String, n: u128)
    ensures
        final(out)@ == old(out)@ + decimal(n as nat),
    decreases n,
{
    if n >= 10 {
        push_decimal(out, n / 10);
    }
    push_char(out, digit_char(n % 10));
    assert(out@ =~= old(out)@ + decimal(n as nat));
}

fn push_spaces(out: &mut String, k: usize)
    ensures
        final(out)@ == old(out)@ + spaces(k as int),
{
    let mut i: usize = 0;
    while i < k
        invariant
            i <= k,
            out@ == old(out)@ + spaces(i as int),
        decreases k - i,
    {
        push_char(out, ' ');
        i += 1;
        assert(out@ =~= old(out)@ + spaces(i as int));
    }
}

/// Appends the first `n` characters of `cs`.
fn push_prefix(out: &mut String, cs: &Vec<char>, n: usize)
    requires
        n <= cs@.len(),
    ensures
        final(out)@ == old(out)@ + cs@.take(n as int),
{
    let mut i: usize = 0;
    while i < n
        invariant
            i <= n <= cs@.len(),
            out@ == old(out)@ + cs@.take(i as int),
        decreases n - i,
    {
        push_char(out, cs[i]);
        i += 1;
        assert(out@ =~= old(out)@ + cs@.take(i as int));
    }
}

/// Appends `row_text(num, line, width)`.
fn push_row(frame: &mut String, num: u128, line: &Vec<char>, width: usize)
    ensures
        final(frame)@ == old(frame)@ + row_text(num as nat, line@, width as int),
{
    let ghost s0 = frame@;
    frame.append("\x1b[");
    push_decimal(frame, num);
    frame.append(";1H\x1b[34m");
    let ghost p1 = "\x1b["@ + decimal(num as nat) + ";1H\x1b[34m"@;
    assert(frame@ =~= s0 + p1);
    let mut label = String::new();
    push_decimal(&mut label, num);
    let len = label.as_str().unicode_len();
    let ghost s1 = frame@;
    if len < 4 {
        push_spaces(frame, 4 - len);
    }
    frame.append(label.as_str());
    assert(frame@ =~= s1 + pad_left(decimal(num as nat), 4));
    let ghost p2 = p1 + pad_left(decimal(num as nat), 4);
    assert(frame@ =~= s0 + p2);
    frame.append(" \x1b[0m");
    frame.append("\x1b[");
    let ghost p3 = p2 + " \x1b[0m"@ + "\x1b["@;
    assert(frame@ =~= s0 + p3);
    push_decimal(frame, num);
    frame.append(";6H");
    let ghost p4 = p3 + decimal(num as nat) + ";6H"@;
    assert(frame@ =~= s0 + p4);
    let take = if line.len() < width {
        line.len()
    } else {
        width
    };
    push_prefix(frame, line, take);
    assert(frame@ =~= s0 + (p4 + line@.take(take as int)));
}

/// Appends the text rows of the viewport: for each buffer line that fits
/// above the status bar, its number and as much of it as fits beside the
/// gutter.
pub fn draw_content(state: &EditorState, frame: &mut String)
    ensures
        final(frame)@ == old(frame)@ + content_rows(
            state@.lines,
            shown_lines(state@),
            text_width(state@.screen.1),
        ),
{
    let rows = state.screen_size.0;
    let visible = if rows > 0 {
        rows - 1
    } else {
        0
    };
    let n = if visible < state.content.len() {
        visible
    } else {
        state.content.len()
    };
    let width = if state.screen_size.1 > 5 {
        state.screen_size.1 - 5
    } else {
        0
    };
    let ghost lines = state@.lines;
    let mut i: usize = 0;
    assert(frame@ =~= old(frame)@ + content_rows(lines, 0, width as int));
    while i < n
        invariant
            i <= n <= state.content@.len(),
            lines == state@.lines,
            n == shown_lines(state@),
            width == text_width(state@.screen.1),
            frame@ == old(frame)@ + content_rows(lines, i as int, width as int),
        decreases n - i,
    {
        let ghost before = content_rows(lines, i as int, width as int);
        push_row(frame, (i as u128) + 1, &state.content[i], width);
        assert(state.content[i as int]@ == lines[i as int]);
        assert(content_rows(lines, i + 1, width as int) == before + row_text(
            (i + 1) as nat,
            lines[i as int],
            width as int,
        ));
        i += 1;
        assert(frame@ =~= old(frame)@ + content_rows(lines, i as int, width as int));
    }
}

/// Appends `status_bar(state@)`.
fn push_status_bar(out: &mut String, state: &EditorState)
    ensures
        final(out)@ == old(out)@ + status_bar(state@),
{
    let ghost s0 = out@;
    let rows = state.screen_size.0;
    let cols = state.screen_size.1;
    out.append("\x1b[");
    push_decimal(out, rows as u128);
    out.append(";1H\x1b[44m\x1b[37m");
    let ghost p1 = "\x1b["@ + decimal(rows as nat) + ";1H\x1b[44m\x1b[37m"@;
    assert(out@ =~= s0 + p1);
    let mut text = " ".to_owned();
    match state.mode {
        Mode::Normal => text.append("NORMAL"),
        Mode::Insert => text.append("INSERT"),
        Mode::Command => text.append("COMMAND"),
    }
    text.append(" | ");
    text.append(state.file_path.as_str());
    text.append(" | ");
    let ghost t1 = " "@ + mode_name(state.mode) + " | "@ + state.file_path@ + " | "@;
    assert(text@ =~= t1);
    push_decimal(&mut text, (state.cursor.0 as u128) + 1);
    text.append(":");
    push_decimal(&mut text, (state.cursor.1 as u128) + 1);
    text.append(" ");
    assert(text@ =~= status_text(state@));
    let width = if cols > 0 {
        cols - 1
    } else {
        0
    };
    let len = text.as_str().unicode_len();
    let ghost s1 = out@;
    out.append(text.as_str());
    if len < width {
        push_spaces(out, width - len);
    }
    assert(out@ =~= s1 + pad_right(status_text(state@), width as int));
    out.append("\x1b[0m");
    assert(out@ =~= s0 + status_bar(state@));
}

/// Appends `cursor_move(state@)`.
fn push_cursor(out: &mut String, state: &EditorState)
    ensures
        final(out)@ == old(out)@ + cursor_move(state@),
{
    let ghost s0 = out@;
    let rows = state.screen_size.0 as u128;
    let cols = state.screen_size.1 as u128;
    let row = (state.cursor.0 as u128) + 1;
    let col = (state.cursor.1 as u128) + 6;
    out.append("\x1b[");
    push_decimal(
        out,
        if row < rows {
            row
        } else {
            rows
        },
    );
    out.append(";");
    let ghost p1 = "\x1b["@ + decimal(min(state@.row + 1, state@.screen.0) as nat) + ";"@;
    assert(out@ =~= s0 + p1);
    push_decimal(
        out,
        if col < cols {
            col
        } else {
            cols
        },
    );
    out.append("H");
    assert(out@ =~= s0 + cursor_move(state@));
}

/// A whole frame for the session's viewport: the screen cleared, the text
/// rows, the status bar, and the cursor placed.
pub fn render_frame(state: &EditorState) -> (r: String)
    ensures
        r@ == frame(state@),
{
    let mut out = "\x1b[2J".to_owned();
    out.append("\x1b[1;1H");
    draw_content(state, &mut out);
    push_status_bar(&mut out, state);
    push_cursor(&mut out, state);
    out
}

} // verus!
