//! The editor behind a text input. The editing itself is the work of
//! tui-textarea; this module says what the input relies on.

use crate::primitives::strings::views_of;
use crate::runtime::keys::{KeyCode, KeyEvent};
use tui_textarea::{CursorMove, Input, Key, TextArea};
use vstd::prelude::*;
use vstd::string::*;

verus! {

/// `TextArea` of tui-textarea, held as it is: an editor over lines of text
/// with a cursor.
#[verifier::external_body]
pub struct Editor {
    area: TextArea<'static>,
}

/// The lines that the editor holds.
pub uninterp spec fn area_lines(area: Editor) -> Seq<Seq<char>>;

/// Line and column, in characters, of the editor's cursor.
pub uninterp spec fn area_cursor(area: Editor) -> (usize, usize);

/// Where the editor's selection started, while it selects.
pub uninterp spec fn area_selection(area: Editor) -> Option<(usize, usize)>;

/// The text that the editor shows while it is empty.
pub uninterp spec fn area_hint(area: Editor) -> Seq<char>;

/// A cursor stands in the lines: in one of them, no further than its end.
pub open spec fn cursor_within(lines: Seq<Seq<char>>, cursor: (usize, usize)) -> bool {
    cursor.0 < lines.len() && cursor.1 <= lines[cursor.0 as int].len()
}

/// The cursor stands in a line that the editor holds, no further than the
/// end of that line.
pub open spec fn cursor_in_lines(area: Editor) -> bool {
    cursor_within(area_lines(area), area_cursor(area))
}

/// Lines and cursor after one character is typed at the cursor: what
/// `TextArea::insert_char` leaves.
pub uninterp spec fn char_inserted(
    lines: Seq<Seq<char>>,
    cursor: (usize, usize),
    selection: Option<(usize, usize)>,
    c: char,
) -> (Seq<Seq<char>>, (usize, usize));

/// Lines and cursor after a text is typed at the cursor: what
/// `TextArea::insert_str` leaves.
pub uninterp spec fn str_inserted(
    lines: Seq<Seq<char>>,
    cursor: (usize, usize),
    selection: Option<(usize, usize)>,
    s: Seq<char>,
) -> (Seq<Seq<char>>, (usize, usize));

/// Lines and cursor after the character before the cursor is deleted:
/// what `TextArea::delete_char` leaves.
pub uninterp spec fn char_deleted(
    lines: Seq<Seq<char>>,
    cursor: (usize, usize),
    selection: Option<(usize, usize)>,
) -> (Seq<Seq<char>>, (usize, usize));

/// Lines and cursor after the character behind the cursor is deleted:
/// what `TextArea::delete_next_char` leaves.
pub uninterp spec fn next_char_deleted(
    lines: Seq<Seq<char>>,
    cursor: (usize, usize),
    selection: Option<(usize, usize)>,
) -> (Seq<Seq<char>>, (usize, usize));

/// Lines and cursor after the line is deleted from its start to the
/// cursor: what `TextArea::delete_line_by_head` leaves.
pub uninterp spec fn line_head_deleted(
    lines: Seq<Seq<char>>,
    cursor: (usize, usize),
    selection: Option<(usize, usize)>,
) -> (Seq<Seq<char>>, (usize, usize));

/// Lines and cursor after the word behind the cursor is deleted: what
/// `TextArea::delete_next_word` leaves.
pub uninterp spec fn next_word_deleted(
    lines: Seq<Seq<char>>,
    cursor: (usize, usize),
    selection: Option<(usize, usize)>,
) -> (Seq<Seq<char>>, (usize, usize));

/// Lines and cursor after the word before the cursor is deleted: what
/// `TextArea::delete_word` leaves.
pub uninterp spec fn word_deleted(
    lines: Seq<Seq<char>>,
    cursor: (usize, usize),
    selection: Option<(usize, usize)>,
) -> (Seq<Seq<char>>, (usize, usize));

/// The cursor after a move by a word, forward or back: what
/// `TextArea::move_cursor` leaves for the two word motions.
pub uninterp spec fn word_moved(lines: Seq<Seq<char>>, cursor: (usize, usize), forward: bool) -> (
    usize,
    usize,
);

/// Where the cursor goes.
#[derive(Debug, Clone, Copy, PartialEq, Eq, Structural)]
pub enum Motion {
    Forward,
    Back,
    Up,
    Down,
    /// To the start of the line.
    Head,
    /// To the end of the line.
    End,
    /// To the last line.
    Bottom,
    WordForward,
    WordBack,
    /// To a line and column, each brought into the text.
    Jump(u16, u16),
}

/// A key as the editor takes it.
#[derive(Debug, Clone, Copy, PartialEq, Eq, Structural)]
pub enum AreaKey {
    Char(char),
    F(u8),
    Backspace,
    Enter,
    Left,
    Right,
    Up,
    Down,
    Tab,
    Delete,
    Home,
    End,
    PageUp,
    PageDown,
    Esc,
    Null,
}

impl Clone for Editor {
    /// `Clone` of `TextArea`: the copy holds the same lines and cursor.
    #[verifier::external_body]
    fn clone(&self) -> (copy: Self)
        ensures
            area_lines(copy) == area_lines(*self),
            area_cursor(copy) == area_cursor(*self),
            area_selection(copy) == area_selection(*self),
            area_hint(copy) == area_hint(*self),
    {
        Editor { area: self.area.clone() }
    }
}

/// `TextArea::new`: an editor over the given lines, or over one empty line
/// where none is given, with the cursor at the start, nothing selected and
/// no text to show while it is empty.
#[verifier::external_body]
pub(crate) fn area_new(lines: Vec<String>) -> (area: Editor)
    ensures
        area_lines(area) == if lines@.len() == 0 {
            seq![Seq::<char>::empty()]
        } else {
            views_of(lines@)
        },
        area_cursor(area) == (0usize, 0usize),
        area_selection(area) is None,
        area_hint(area) == Seq::<char>::empty(),
{
    Editor { area: TextArea::new(lines) }
}

/// `TextArea::lines`: the lines held; there is always at least one.
#[verifier::external_body]
pub(crate) fn area_text<'b>(area: &'b Editor) -> (lines: &'b [String])
    ensures
        views_of(lines@) == area_lines(*area),
        lines@.len() >= 1,
{
    area.area.lines()
}

/// `TextArea::cursor`: line and column of the cursor.
#[verifier::external_body]
pub(crate) fn area_at(area: &Editor) -> (cursor: (usize, usize))
    ensures
        cursor == area_cursor(*area),
{
    area.area.cursor()
}

/// Where a jump to `(row, col)` ends: the line no further than the last,
/// the column no further than that line's end.
pub open spec fn jump_target(lines: Seq<Seq<char>>, row: u16, col: u16) -> (int, int) {
    let r = if row < lines.len() {
        row as int
    } else {
        lines.len() - 1
    };
    let c = if col < lines[r].len() {
        col as int
    } else {
        lines[r].len() as int
    };
    (r, c)
}

/// The smaller of two numbers.
pub open spec fn lesser(a: int, b: int) -> int {
    if a <= b {
        a
    } else {
        b
    }
}

/// Where a move takes the cursor. A move that has nowhere to go leaves
/// the cursor where it is. Up and down keep the column as far as the line
/// reaches; so does the move to the last line.
pub open spec fn motion_target(lines: Seq<Seq<char>>, cursor: (usize, usize), motion: Motion) -> (
    int,
    int,
) {
    let row = cursor.0 as int;
    let col = cursor.1 as int;
    match motion {
        Motion::Forward => if col < lines[row].len() {
            (row, col + 1)
        } else if row + 1 < lines.len() {
            (row + 1, 0)
        } else {
            (row, col)
        },
        Motion::Back => if col > 0 {
            (row, col - 1)
        } else if row > 0 {
            (row - 1, lines[row - 1].len() as int)
        } else {
            (row, col)
        },
        Motion::Up => if row > 0 {
            (row - 1, lesser(col, lines[row - 1].len() as int))
        } else {
            (row, col)
        },
        Motion::Down => if row + 1 < lines.len() {
            (row + 1, lesser(col, lines[row + 1].len() as int))
        } else {
            (row, col)
        },
        Motion::Head => (row, 0),
        Motion::End => (row, lines[row].len() as int),
        Motion::Bottom => (lines.len() - 1, lesser(col, lines.last().len() as int)),
        Motion::WordForward => (
            word_moved(lines, cursor, true).0 as int,
            word_moved(lines, cursor, true).1 as int,
        ),
        Motion::WordBack => (
            word_moved(lines, cursor, false).0 as int,
            word_moved(lines, cursor, false).1 as int,
        ),
        Motion::Jump(r, c) => jump_target(lines, r, c),
    }
}

/// `TextArea::move_cursor`: moves the cursor to where the kind of move
/// says, and leaves lines, selection and placeholder alone. The cursor
/// stays in the lines.
#[verifier::external_body]
pub(crate) fn area_move(area: &mut Editor, motion: Motion)
    requires
        cursor_in_lines(*old(area)),
    ensures
        area_lines(*final(area)) == area_lines(*old(area)),
        area_selection(*final(area)) == area_selection(*old(area)),
        area_hint(*final(area)) == area_hint(*old(area)),
        cursor_in_lines(*final(area)),
        (area_cursor(*final(area)).0 as int, area_cursor(*final(area)).1 as int) == motion_target(
            area_lines(*old(area)),
            area_cursor(*old(area)),
            motion,
        ),
        motion == Motion::WordForward ==> area_cursor(*final(area)) == word_moved(
            area_lines(*old(area)),
            area_cursor(*old(area)),
            true,
        ),
        motion == Motion::WordBack ==> area_cursor(*final(area)) == word_moved(
            area_lines(*old(area)),
            area_cursor(*old(area)),
            false,
        ),
{
    area.area.move_cursor(match motion {
        Motion::Forward => CursorMove::Forward,
        Motion::Back => CursorMove::Back,
        Motion::Up => CursorMove::Up,
        Motion::Down => CursorMove::Down,
        Motion::Head => CursorMove::Head,
        Motion::End => CursorMove::End,
        Motion::Bottom => CursorMove::Bottom,
        Motion::WordForward => CursorMove::WordForward,
        Motion::WordBack => CursorMove::WordBack,
        Motion::Jump(row, col) => CursorMove::Jump(row, col),
    })
}

/// Lines and cursor after `c`, which is no line break, is typed at the
/// cursor while nothing is selected: the character stands in the line
/// before the cursor, and the cursor behind it.
pub open spec fn typed(lines: Seq<Seq<char>>, cursor: (usize, usize), c: char) -> (
    Seq<Seq<char>>,
    (int, int),
) {
    let row = cursor.0 as int;
    let col = cursor.1 as int;
    (lines.update(row, lines[row].insert(col, c)), (row, col + 1))
}

/// Lines and cursor after the character before the cursor is deleted
/// while nothing is selected. At the start of a line, the line is joined
/// to the one before it; at the start of the text nothing happens.
pub open spec fn backspaced(lines: Seq<Seq<char>>, cursor: (usize, usize)) -> (
    Seq<Seq<char>>,
    (int, int),
) {
    let row = cursor.0 as int;
    let col = cursor.1 as int;
    if col > 0 {
        (lines.update(row, lines[row].remove(col - 1)), (row, col - 1))
    } else if row > 0 {
        (
            lines.remove(row).update(row - 1, lines[row - 1] + lines[row]),
            (row - 1, lines[row - 1].len() as int),
        )
    } else {
        (lines, (row, col))
    }
}

/// Lines and cursor as integers.
pub open spec fn as_place(r: (Seq<Seq<char>>, (usize, usize))) -> (Seq<Seq<char>>, (int, int)) {
    (r.0, (r.1.0 as int, r.1.1 as int))
}

/// `TextArea::insert_char`: types a character at the cursor, in the place
/// of what is selected. Afterwards nothing is selected.
#[verifier::external_body]
pub(crate) fn area_insert_char(area: &mut Editor, c: char)
    requires
        cursor_in_lines(*old(area)),
    ensures
        (area_lines(*final(area)), area_cursor(*final(area))) == char_inserted(
            area_lines(*old(area)),
            area_cursor(*old(area)),
            area_selection(*old(area)),
            c,
        ),
        area_selection(*old(area)) is None && c != '\n' && c != '\r' ==> as_place(
            (area_lines(*final(area)), area_cursor(*final(area))),
        ) == typed(area_lines(*old(area)), area_cursor(*old(area)), c),
        area_selection(*final(area)) is None,
        area_hint(*final(area)) == area_hint(*old(area)),
        cursor_in_lines(*final(area)),
{
    area.area.insert_char(c)
}

/// `TextArea::insert_str`: types a text at the cursor, in the place of
/// what is selected. Afterwards nothing is selected.
#[verifier::external_body]
pub(crate) fn area_insert_str(area: &mut Editor, s: &str)
    requires
        cursor_in_lines(*old(area)),
    ensures
        (area_lines(*final(area)), area_cursor(*final(area))) == str_inserted(
            area_lines(*old(area)),
            area_cursor(*old(area)),
            area_selection(*old(area)),
            s@,
        ),
        area_selection(*final(area)) is None,
        area_hint(*final(area)) == area_hint(*old(area)),
        cursor_in_lines(*final(area)),
{
    area.area.insert_str(s);
}

/// `TextArea::delete_char`: deletes what is selected, or else the
/// character before the cursor. Afterwards nothing is selected.
#[verifier::external_body]
pub(crate) fn area_delete_char(area: &mut Editor)
    requires
        cursor_in_lines(*old(area)),
    ensures
        (area_lines(*final(area)), area_cursor(*final(area))) == char_deleted(
            area_lines(*old(area)),
            area_cursor(*old(area)),
            area_selection(*old(area)),
        ),
        area_selection(*old(area)) is None ==> as_place(
            (area_lines(*final(area)), area_cursor(*final(area))),
        ) == backspaced(area_lines(*old(area)), area_cursor(*old(area))),
        area_selection(*final(area)) is None,
        area_hint(*final(area)) == area_hint(*old(area)),
        cursor_in_lines(*final(area)),
{
    area.area.delete_char();
}

/// `TextArea::delete_next_char`: deletes what is selected, or else the
/// character behind the cursor. Afterwards nothing is selected.
#[verifier::external_body]
pub(crate) fn area_delete_next_char(area: &mut Editor)
    requires
        cursor_in_lines(*old(area)),
    ensures
        (area_lines(*final(area)), area_cursor(*final(area))) == next_char_deleted(
            area_lines(*old(area)),
            area_cursor(*old(area)),
            area_selection(*old(area)),
        ),
        area_selection(*final(area)) is None,
        area_hint(*final(area)) == area_hint(*old(area)),
        cursor_in_lines(*final(area)),
{
    area.area.delete_next_char();
}

/// `TextArea::delete_line_by_head`: deletes what is selected, or else the
/// line from its start to the cursor. Afterwards nothing is selected.
#[verifier::external_body]
pub(crate) fn area_delete_line_by_head(area: &mut Editor)
    requires
        cursor_in_lines(*old(area)),
    ensures
        (area_lines(*final(area)), area_cursor(*final(area))) == line_head_deleted(
            area_lines(*old(area)),
            area_cursor(*old(area)),
            area_selection(*old(area)),
        ),
        area_selection(*final(area)) is None,
        area_hint(*final(area)) == area_hint(*old(area)),
        cursor_in_lines(*final(area)),
{
    area.area.delete_line_by_head();
}

/// `TextArea::delete_next_word`: deletes what is selected, or else the
/// word behind the cursor. Afterwards nothing is selected.
#[verifier::external_body]
pub(crate) fn area_delete_next_word(area: &mut Editor)
    requires
        cursor_in_lines(*old(area)),
    ensures
        (area_lines(*final(area)), area_cursor(*final(area))) == next_word_deleted(
            area_lines(*old(area)),
            area_cursor(*old(area)),
            area_selection(*old(area)),
        ),
        area_selection(*final(area)) is None,
        area_hint(*final(area)) == area_hint(*old(area)),
        cursor_in_lines(*final(area)),
{
    area.area.delete_next_word();
}

/// `TextArea::delete_word`: deletes what is selected, or else the word
/// before the cursor. Afterwards nothing is selected.
#[verifier::external_body]
pub(crate) fn area_delete_word(area: &mut Editor)
    requires
        cursor_in_lines(*old(area)),
    ensures
        (area_lines(*final(area)), area_cursor(*final(area))) == word_deleted(
            area_lines(*old(area)),
            area_cursor(*old(area)),
            area_selection(*old(area)),
        ),
        area_selection(*final(area)) is None,
        area_hint(*final(area)) == area_hint(*old(area)),
        cursor_in_lines(*final(area)),
{
    area.area.delete_word();
}

/// `TextArea::input`: hands a key with its modifiers to the editor, which
/// edits or moves by its own key bindings. A character key without
/// control and alt types the character, as `TextArea::insert_char` does.
/// Whatever the key, the cursor stays in the lines and the placeholder
/// stays.
#[verifier::external_body]
pub(crate) fn area_input(area: &mut Editor, key: AreaKey, ctrl: bool, alt: bool, shift: bool)
    requires
        cursor_in_lines(*old(area)),
    ensures
        cursor_in_lines(*final(area)),
        area_hint(*final(area)) == area_hint(*old(area)),
        (key matches AreaKey::Char(c) && !ctrl && !alt) ==> (
            area_lines(*final(area)),
            area_cursor(*final(area)),
        ) == char_inserted(
            area_lines(*old(area)),
            area_cursor(*old(area)),
            area_selection(*old(area)),
            key->Char_0,
        ) && area_selection(*final(area)) is None,
        (key matches AreaKey::Char(c) && !ctrl && !alt && area_selection(*old(area)) is None && c
            != '\n' && c != '\r') ==> as_place(
            (area_lines(*final(area)), area_cursor(*final(area))),
        ) == typed(area_lines(*old(area)), area_cursor(*old(area)), key->Char_0),
{
    let key = match key {
        AreaKey::Char(c) => Key::Char(c), AreaKey::F(n) => Key::F(n),
        AreaKey::Backspace => Key::Backspace, AreaKey::Enter => Key::Enter,
        AreaKey::Left => Key::Left, AreaKey::Right => Key::Right,
        AreaKey::Up => Key::Up, AreaKey::Down => Key::Down,
        AreaKey::Tab => Key::Tab, AreaKey::Delete => Key::Delete,
        AreaKey::Home => Key::Home, AreaKey::End => Key::End,
        AreaKey::PageUp => Key::PageUp, AreaKey::PageDown => Key::PageDown,
        AreaKey::Esc => Key::Esc, AreaKey::Null => Key::Null,
    };
    area.area.input(Input { key, ctrl, alt, shift });
}

/// `TextArea::set_placeholder_text`: sets the text shown while the editor
/// is empty; lines, cursor and selection stay.
#[verifier::external_body]
pub(crate) fn area_placeholder(area: &mut Editor, text: String)
    ensures
        area_hint(*final(area)) == text@,
        area_lines(*final(area)) == area_lines(*old(area)),
        area_cursor(*final(area)) == area_cursor(*old(area)),
        area_selection(*final(area)) == area_selection(*old(area)),
{
    area.area.set_placeholder_text(text)
}

/// The key that the editor takes for a key press: tab for back-tab too,
/// the null key for every key that the editor has no name for.
pub open spec fn area_key_of(code: KeyCode) -> AreaKey {
    match code {
        KeyCode::Backspace => AreaKey::Backspace,
        KeyCode::Enter => AreaKey::Enter,
        KeyCode::Left => AreaKey::Left,
        KeyCode::Right => AreaKey::Right,
        KeyCode::Up => AreaKey::Up,
        KeyCode::Down => AreaKey::Down,
        KeyCode::Tab => AreaKey::Tab,
        KeyCode::BackTab => AreaKey::Tab,
        KeyCode::Delete => AreaKey::Delete,
        KeyCode::Home => AreaKey::Home,
        KeyCode::End => AreaKey::End,
        KeyCode::PageUp => AreaKey::PageUp,
        KeyCode::PageDown => AreaKey::PageDown,
        KeyCode::Esc => AreaKey::Esc,
        KeyCode::Char(c) => AreaKey::Char(c),
        KeyCode::F(n) => AreaKey::F(n),
        _ => AreaKey::Null,
    }
}

/// Maps a key press to the editor's key and modifiers: control,
/// alt and shift, in this order.
pub fn ta_input_from_key_event(key: KeyEvent) -> (input: (AreaKey, bool, bool, bool))
    ensures
        input == (
            area_key_of(key.code),
            key.modifiers.control,
            key.modifiers.alt,
            key.modifiers.shift,
        ),
{
    let mapped = match key.code {
        KeyCode::Backspace => AreaKey::Backspace,
        KeyCode::Enter => AreaKey::Enter,
        KeyCode::Left => AreaKey::Left,
        KeyCode::Right => AreaKey::Right,
        KeyCode::Up => AreaKey::Up,
        KeyCode::Down => AreaKey::Down,
        KeyCode::Tab => AreaKey::Tab,
        KeyCode::BackTab => AreaKey::Tab,
        KeyCode::Delete => AreaKey::Delete,
        KeyCode::Home => AreaKey::Home,
        KeyCode::End => AreaKey::End,
        KeyCode::PageUp => AreaKey::PageUp,
        KeyCode::PageDown => AreaKey::PageDown,
        KeyCode::Esc => AreaKey::Esc,
        KeyCode::Char(c) => AreaKey::Char(c),
        KeyCode::F(n) => AreaKey::F(n),
        _ => AreaKey::Null,
    };
    (mapped, key.modifiers.control, key.modifiers.alt, key.modifiers.shift)
}

} // verus!
