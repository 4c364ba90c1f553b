//! A text input: an editor, the text that it holds, and the cursor as a
//! byte offset into that text.

use crate::components::text_area::{
    area_at, area_cursor, area_delete_char, area_delete_line_by_head, area_delete_next_char,
    area_delete_next_word, area_delete_word, area_hint, area_input, area_insert_char,
    area_insert_str, area_lines, area_move, area_new, area_placeholder, area_selection, area_text,
    as_place, backspaced, char_deleted, char_inserted, cursor_in_lines, cursor_within,
    jump_target, line_head_deleted, motion_target, next_char_deleted, next_word_deleted,
    str_inserted, ta_input_from_key_event, typed, word_deleted, word_moved, Editor, Motion,
};
use crate::layout::text::{
    byte_offset_to_cursor, cursor_offset, cursor_to_byte_offset, locate, saturate, spans,
    wrapped_row_ranges, wrapped_rows,
};
use crate::layout::visual::{
    cap16, cap_u16, cursor_visual_position, vertical_target_of, visual_line_end,
    visual_line_end_of, visual_position_of, visual_vertical_target,
};
use crate::components::help_bar::same_text;
use crate::primitives::chars::chars_of;
use crate::primitives::strings::{
    join_lines, joined, lemma_join_split, split_lines, split_lines_of, views_of,
};
use crate::runtime::keys::{KeyCode, KeyEvent, KeyModifiers};
use vstd::prelude::*;
use vstd::string::*;

verus! {

/// A text input with a prompt prefix and an optional placeholder.
#[derive(Clone)]
pub struct TextInput {
    inner: Editor,
    text_cache: String,
    prefix: String,
    placeholder: Option<String>,
}

/// An edit of the text at the cursor.
enum Edit<'a> {
    InsertChar(char),
    InsertStr(&'a str),
    DeleteBackward,
    DeleteForward,
    DeleteToLineStart,
    DeleteWordForward,
    DeleteWordBackward,
    Key(KeyEvent),
}

/// Lines and cursor after an edit; none for a key that is left to the
/// editor.
spec fn after_edit(
    edit: Edit<'_>,
    lines: Seq<Seq<char>>,
    cursor: (usize, usize),
    selection: Option<(usize, usize)>,
) -> Option<(Seq<Seq<char>>, (usize, usize))> {
    match edit {
        Edit::InsertChar(c) => Some(char_inserted(lines, cursor, selection, c)),
        Edit::InsertStr(s) => Some(str_inserted(lines, cursor, selection, s@)),
        Edit::DeleteBackward => Some(char_deleted(lines, cursor, selection)),
        Edit::DeleteForward => Some(next_char_deleted(lines, cursor, selection)),
        Edit::DeleteToLineStart => Some(line_head_deleted(lines, cursor, selection)),
        Edit::DeleteWordForward => Some(next_word_deleted(lines, cursor, selection)),
        Edit::DeleteWordBackward => Some(word_deleted(lines, cursor, selection)),
        Edit::Key(key) => if types_char(key) {
            Some(char_inserted(lines, cursor, selection, key.code->Char_0))
        } else {
            None
        },
    }
}

/// What the editor shows while it is empty, for a placeholder: the
/// placeholder, or nothing where there is none.
pub open spec fn hint_of(placeholder: Option<Seq<char>>) -> Seq<char> {
    match placeholder {
        Some(text) => text,
        None => Seq::empty(),
    }
}

/// The key is a character key without control and alt: it types its
/// character.
pub open spec fn types_char(key: KeyEvent) -> bool {
    key.code is Char && !key.modifiers.control && !key.modifiers.alt
}

/// The key is the backspace key without modifiers.
pub open spec fn is_plain_backspace(key: KeyEvent) -> bool {
    key.code == KeyCode::Backspace && key.modifiers == KeyModifiers::spec_none()
}

/// The key is the character `c` with control and no other modifier.
pub open spec fn is_control(key: KeyEvent, c: char) -> bool {
    key.code == KeyCode::Char(c) && key.modifiers == (KeyModifiers {
        control: true,
        ..KeyModifiers::spec_none()
    })
}

/// Lines and cursor after a key, where the input itself says what the
/// key does: backspace alone deletes the character before the cursor;
/// control with `u` deletes the line up to the cursor, with `w` the word
/// before it, with `d` the character behind it; a character key without
/// control and alt types the character. None for every other key: it is
/// left to the editor's own key bindings.
pub open spec fn after_key(
    lines: Seq<Seq<char>>,
    cursor: (usize, usize),
    selection: Option<(usize, usize)>,
    key: KeyEvent,
) -> Option<(Seq<Seq<char>>, (usize, usize))> {
    if is_plain_backspace(key) {
        Some(char_deleted(lines, cursor, selection))
    } else if is_control(key, 'u') {
        Some(line_head_deleted(lines, cursor, selection))
    } else if is_control(key, 'w') {
        Some(word_deleted(lines, cursor, selection))
    } else if is_control(key, 'd') {
        Some(next_char_deleted(lines, cursor, selection))
    } else if types_char(key) {
        Some(char_inserted(lines, cursor, selection, key.code->Char_0))
    } else {
        None
    }
}

/// The text of an optional string.
pub open spec fn option_text(s: Option<String>) -> Option<Seq<char>> {
    match s {
        Some(t) => Some(t@),
        None => None,
    }
}

impl TextInput {
    /// The text held.
    pub closed spec fn spec_text(&self) -> Seq<char> {
        self.text_cache@
    }

    /// The lines that the editor holds.
    pub closed spec fn spec_lines(&self) -> Seq<Seq<char>> {
        area_lines(self.inner)
    }

    /// Line and column of the editor's cursor.
    pub closed spec fn spec_cursor(&self) -> (usize, usize) {
        area_cursor(self.inner)
    }

    /// The prompt prefix.
    pub closed spec fn spec_prefix(&self) -> Seq<char> {
        self.prefix@
    }

    /// The placeholder, where one is set.
    pub closed spec fn spec_placeholder(&self) -> Option<Seq<char>> {
        option_text(self.placeholder)
    }

    /// The lines that the editor holds, and its cursor.
    pub open spec fn spec_place(&self) -> (Seq<Seq<char>>, (usize, usize)) {
        (self.spec_lines(), self.spec_cursor())
    }

    /// Where the editor's selection started, while it selects.
    pub closed spec fn spec_selection(&self) -> Option<(usize, usize)> {
        area_selection(self.inner)
    }

    /// The text that the editor shows while it is empty.
    pub closed spec fn spec_hint(&self) -> Seq<char> {
        area_hint(self.inner)
    }

    /// The text is the editor's lines joined by newlines, there is at
    /// least one line, and the cursor stands in one.
    closed spec fn text_in_step(&self) -> bool {
        &&& self.text_cache@ == joined(area_lines(self.inner))
        &&& area_lines(self.inner).len() >= 1
        &&& cursor_in_lines(self.inner)
    }

    /// The input is in order: the text is the editor's lines joined by
    /// newlines, there is at least one line, the cursor stands in one, and
    /// the editor shows the placeholder while it is empty.
    pub closed spec fn wf(&self) -> bool {
        &&& self.text_in_step()
        &&& area_hint(self.inner) == hint_of(option_text(self.placeholder))
    }

    /// In an input that is in order, the text is the lines joined by
    /// newlines, the cursor stands in the lines, and the editor shows the
    /// placeholder while it is empty.
    pub proof fn lemma_in_order(&self)
        requires
            self.wf(),
        ensures
            self.spec_text() == joined(self.spec_lines()),
            self.spec_lines().len() >= 1,
            cursor_within(self.spec_lines(), self.spec_cursor()),
            self.spec_hint() == hint_of(self.spec_placeholder()),
    {
    }

    /// The cursor as a byte offset into the text.
    pub open spec fn spec_offset(&self) -> usize {
        saturate(
            cursor_offset(self.spec_lines(), self.spec_cursor().0 as int, self.spec_cursor().1 as int),
        )
    }

    /// An empty input.
    pub fn new() -> (input: Self)
        ensures
            input.wf(),
            input.spec_text() == Seq::<char>::empty(),
            input.spec_lines() == seq![Seq::<char>::empty()],
            input.spec_cursor() == (0usize, 0usize),
            input.spec_placeholder() is None,
            input.spec_selection() is None,
    {
        let input = Self::with_text(String::new());
        proof {
            let none = Seq::<char>::empty();
            assert(none.subrange(0, 0) =~= none);
            assert(split_lines_of(none) =~= seq![none]);
        }
        input
    }

    /// An input that holds `text`, the cursor at its end.
    pub fn with_text(text: String) -> (input: Self)
        ensures
            input.wf(),
            input.spec_text() == text@,
            input.spec_lines() == split_lines_of(text@),
            input.spec_cursor().0 == input.spec_lines().len() - 1,
            input.spec_cursor().1 == input.spec_lines().last().len(),
            input.spec_placeholder() is None,
            input.spec_selection() is None,
    {
        let mut prefix = String::new();
        prefix.push('\u{276f}');
        let mut input = Self {
            inner: editor_at_end(text.as_str()),
            text_cache: text,
            prefix,
            placeholder: None,
        };
        input.sync_placeholder();
        input
    }

    /// The text held.
    pub fn text(&self) -> (text: &str)
        ensures
            text@ == self.spec_text(),
    {
        self.text_cache.as_str()
    }

    /// Whether the text is empty.
    pub fn is_empty(&self) -> (empty: bool)
        ensures
            empty == (self.spec_text().len() == 0),
    {
        chars_of(self.text_cache.as_str()).len() == 0
    }

    /// The cursor as a byte offset into the text.
    pub fn cursor(&self) -> (offset: usize)
        ensures
            offset == self.spec_offset(),
    {
        cursor_to_byte_offset(area_text(&self.inner), area_at(&self.inner))
    }

    /// Hands a key to the input and returns the new text where the key
    /// changed it.
    pub fn handle_search_key(&mut self, key: KeyEvent) -> (changed: Option<String>)
        requires
            old(self).wf(),
        ensures
            final(self).wf(),
            final(self).spec_prefix() == old(self).spec_prefix(),
            final(self).spec_placeholder() == old(self).spec_placeholder(),
            after_key(
                old(self).spec_lines(),
                old(self).spec_cursor(),
                old(self).spec_selection(),
                key,
            ) matches Some(place) ==> final(self).spec_place() == place && final(self).spec_selection() is None,
            is_plain_backspace(key) && old(self).spec_selection() is None ==> as_place(
                final(self).spec_place(),
            ) == backspaced(old(self).spec_lines(), old(self).spec_cursor()),
            types_char(key) && old(self).spec_selection() is None && key.code != KeyCode::Char(
                '\n',
            ) && key.code != KeyCode::Char('\r') ==> as_place(final(self).spec_place()) == typed(
                old(self).spec_lines(),
                old(self).spec_cursor(),
                key.code->Char_0,
            ),
            changed is Some == (final(self).spec_text() != old(self).spec_text() && handles(
                key,
                old(self).spec_offset() > 0,
                true,
            )),
            changed matches Some(text) ==> text@ == final(self).spec_text(),
    {
        let before = self.text_cache.clone();
        if self.handle_key(key) && !same_str(self.text_cache.as_str(), before.as_str()) {
            Some(self.text_cache.clone())
        } else {
            None
        }
    }

    /// Replaces the text and puts the cursor at its end.
    pub fn set_text(&mut self, text: String)
        ensures
            final(self).wf(),
            final(self).spec_text() == text@,
            final(self).spec_lines() == split_lines_of(text@),
            final(self).spec_cursor().0 == final(self).spec_lines().len() - 1,
            final(self).spec_cursor().1 == final(self).spec_lines().last().len(),
            final(self).spec_selection() is None,
            final(self).spec_prefix() == old(self).spec_prefix(),
            final(self).spec_placeholder() == old(self).spec_placeholder(),
    {
        self.inner = editor_at_end(text.as_str());
        self.text_cache = text;
        self.sync_placeholder();
    }

    /// Empties the input.
    pub fn clear(&mut self)
        ensures
            final(self).wf(),
            final(self).spec_text() == Seq::<char>::empty(),
            final(self).spec_prefix() == old(self).spec_prefix(),
            final(self).spec_placeholder() == old(self).spec_placeholder(),
    {
        self.set_text(String::new());
    }

    /// Types a character at the cursor, in the place of what is selected.
    /// Where nothing is selected and the character is no line break, it
    /// stands in the line before the cursor afterwards, and the cursor
    /// behind it.
    pub fn insert_char(&mut self, ch: char)
        requires
            old(self).wf(),
        ensures
            final(self).wf(),
            final(self).spec_prefix() == old(self).spec_prefix(),
            final(self).spec_placeholder() == old(self).spec_placeholder(),
            final(self).spec_place() == char_inserted(
                old(self).spec_lines(),
                old(self).spec_cursor(),
                old(self).spec_selection(),
                ch,
            ),
            old(self).spec_selection() is None && ch != '\n' && ch != '\r' ==> as_place(
                final(self).spec_place(),
            ) == typed(old(self).spec_lines(), old(self).spec_cursor(), ch),
            final(self).spec_selection() is None,
    {
        self.apply_edit(Edit::InsertChar(ch));
    }

    /// Types a text at the cursor.
    pub fn insert_str(&mut self, s: &str)
        requires
            old(self).wf(),
        ensures
            final(self).wf(),
            final(self).spec_prefix() == old(self).spec_prefix(),
            final(self).spec_placeholder() == old(self).spec_placeholder(),
            final(self).spec_place() == str_inserted(
                old(self).spec_lines(),
                old(self).spec_cursor(),
                old(self).spec_selection(),
                s@,
            ),
            final(self).spec_selection() is None,
    {
        self.apply_edit(Edit::InsertStr(s));
    }

    /// Deletes what is selected, or else the character before the cursor;
    /// at the start of a line, the line is joined to the one before it.
    pub fn delete_backward(&mut self)
        requires
            old(self).wf(),
        ensures
            final(self).wf(),
            final(self).spec_prefix() == old(self).spec_prefix(),
            final(self).spec_placeholder() == old(self).spec_placeholder(),
            final(self).spec_place() == char_deleted(
                old(self).spec_lines(),
                old(self).spec_cursor(),
                old(self).spec_selection(),
            ),
            old(self).spec_selection() is None ==> as_place(final(self).spec_place())
                == backspaced(old(self).spec_lines(), old(self).spec_cursor()),
            final(self).spec_selection() is None,
    {
        self.apply_edit(Edit::DeleteBackward);
    }

    /// Deletes the character after the cursor.
    pub fn delete_forward(&mut self)
        requires
            old(self).wf(),
        ensures
            final(self).wf(),
            final(self).spec_prefix() == old(self).spec_prefix(),
            final(self).spec_placeholder() == old(self).spec_placeholder(),
            final(self).spec_place() == next_char_deleted(
                old(self).spec_lines(),
                old(self).spec_cursor(),
                old(self).spec_selection(),
            ),
            final(self).spec_selection() is None,
    {
        self.apply_edit(Edit::DeleteForward);
    }

    /// Deletes from the start of the line to the cursor.
    pub fn delete_to_line_start(&mut self)
        requires
            old(self).wf(),
        ensures
            final(self).wf(),
            final(self).spec_prefix() == old(self).spec_prefix(),
            final(self).spec_placeholder() == old(self).spec_placeholder(),
            final(self).spec_place() == line_head_deleted(
                old(self).spec_lines(),
                old(self).spec_cursor(),
                old(self).spec_selection(),
            ),
            final(self).spec_selection() is None,
    {
        self.apply_edit(Edit::DeleteToLineStart);
    }

    /// Deletes the word after the cursor.
    pub fn delete_word_forward(&mut self)
        requires
            old(self).wf(),
        ensures
            final(self).wf(),
            final(self).spec_prefix() == old(self).spec_prefix(),
            final(self).spec_placeholder() == old(self).spec_placeholder(),
            final(self).spec_place() == next_word_deleted(
                old(self).spec_lines(),
                old(self).spec_cursor(),
                old(self).spec_selection(),
            ),
            final(self).spec_selection() is None,
    {
        self.apply_edit(Edit::DeleteWordForward);
    }

    /// Deletes the word before the cursor.
    pub fn delete_word_backward(&mut self)
        requires
            old(self).wf(),
        ensures
            final(self).wf(),
            final(self).spec_prefix() == old(self).spec_prefix(),
            final(self).spec_placeholder() == old(self).spec_placeholder(),
            final(self).spec_place() == word_deleted(
                old(self).spec_lines(),
                old(self).spec_cursor(),
                old(self).spec_selection(),
            ),
            final(self).spec_selection() is None,
    {
        self.apply_edit(Edit::DeleteWordBackward);
    }

    /// Moves the cursor; the text stays.
    fn move_cursor(&mut self, motion: Motion)
        requires
            old(self).wf(),
        ensures
            final(self).wf(),
            final(self).spec_text() == old(self).spec_text(),
            final(self).spec_lines() == old(self).spec_lines(),
            final(self).spec_selection() == old(self).spec_selection(),
            final(self).spec_prefix() == old(self).spec_prefix(),
            final(self).spec_placeholder() == old(self).spec_placeholder(),
            (final(self).spec_cursor().0 as int, final(self).spec_cursor().1 as int)
                == motion_target(old(self).spec_lines(), old(self).spec_cursor(), motion),
            motion == Motion::WordForward ==> final(self).spec_cursor() == word_moved(
                old(self).spec_lines(),
                old(self).spec_cursor(),
                true,
            ),
            motion == Motion::WordBack ==> final(self).spec_cursor() == word_moved(
                old(self).spec_lines(),
                old(self).spec_cursor(),
                false,
            ),
            motion == Motion::Head ==> final(self).spec_cursor() == (
                old(self).spec_cursor().0,
                0usize,
            ),
            motion == Motion::End ==> final(self).spec_cursor().0 == old(self).spec_cursor().0
                && final(self).spec_cursor().1 == old(self).spec_lines()[old(self).spec_cursor().0 as int].len(),
            motion == Motion::Bottom ==> final(self).spec_cursor().0 == old(self).spec_lines().len() - 1,
            motion matches Motion::Jump(row, col) ==> (
                final(self).spec_cursor().0 as int,
                final(self).spec_cursor().1 as int,
            ) == jump_target(old(self).spec_lines(), row, col),
    {
        area_move(&mut self.inner, motion);
    }

    /// Moves the cursor to the start of its line.
    pub fn cursor_start(&mut self)
        requires
            old(self).wf(),
        ensures
            final(self).wf(),
            final(self).spec_text() == old(self).spec_text(),
            final(self).spec_lines() == old(self).spec_lines(),
            final(self).spec_cursor() == (old(self).spec_cursor().0, 0usize),
    {
        self.move_cursor(Motion::Head);
    }

    /// Moves the cursor to the end of the text.
    pub fn cursor_end(&mut self)
        requires
            old(self).wf(),
        ensures
            final(self).wf(),
            final(self).spec_text() == old(self).spec_text(),
            final(self).spec_lines() == old(self).spec_lines(),
            final(self).spec_cursor().0 == old(self).spec_lines().len() - 1,
            final(self).spec_cursor().1 == old(self).spec_lines().last().len(),
    {
        self.move_cursor(Motion::Bottom);
        self.move_cursor(Motion::End);
    }

    /// Moves the cursor to the end of the visual row that it is in; to the
    /// end of the text where the width is zero or the text is empty.
    pub fn cursor_visual_line_end(&mut self, content_width: u16)
        requires
            old(self).wf(),
        ensures
            final(self).wf(),
            final(self).spec_text() == old(self).spec_text(),
            final(self).spec_lines() == old(self).spec_lines(),
            content_width != 0 && old(self).spec_text().len() != 0 ==> (
                final(self).spec_cursor().0 as int,
                final(self).spec_cursor().1 as int,
            ) == jump_target(
                old(self).spec_lines(),
                cap16(
                    locate(
                        old(self).spec_lines(),
                        visual_line_end_of(
                            old(self).spec_text(),
                            old(self).spec_offset() as int,
                            content_width,
                        ),
                        0,
                    ).0,
                ),
                cap16(
                    locate(
                        old(self).spec_lines(),
                        visual_line_end_of(
                            old(self).spec_text(),
                            old(self).spec_offset() as int,
                            content_width,
                        ),
                        0,
                    ).1,
                ),
            ),
    {
        if content_width == 0 || self.is_empty() {
            self.cursor_end();
            return ;
        }
        let end = visual_line_end(self.text_cache.as_str(), self.cursor(), content_width);
        self.set_cursor_byte_offset(end);
    }

    /// Moves the cursor one character back, to the end of the line before
    /// from the start of a line; it stays at the start of the text.
    pub fn cursor_left(&mut self)
        requires
            old(self).wf(),
        ensures
            final(self).wf(),
            final(self).spec_text() == old(self).spec_text(),
            final(self).spec_lines() == old(self).spec_lines(),
            final(self).spec_selection() == old(self).spec_selection(),
            (final(self).spec_cursor().0 as int, final(self).spec_cursor().1 as int)
                == motion_target(old(self).spec_lines(), old(self).spec_cursor(), Motion::Back),
    {
        self.move_cursor(Motion::Back);
    }

    /// Moves the cursor one character forward, to the start of the next
    /// line from the end of a line; it stays at the end of the text.
    pub fn cursor_right(&mut self)
        requires
            old(self).wf(),
        ensures
            final(self).wf(),
            final(self).spec_text() == old(self).spec_text(),
            final(self).spec_lines() == old(self).spec_lines(),
            final(self).spec_selection() == old(self).spec_selection(),
            (final(self).spec_cursor().0 as int, final(self).spec_cursor().1 as int)
                == motion_target(old(self).spec_lines(), old(self).spec_cursor(), Motion::Forward),
    {
        self.move_cursor(Motion::Forward);
    }

    /// Moves the cursor one word back.
    pub fn cursor_word_left(&mut self)
        requires
            old(self).wf(),
        ensures
            final(self).wf(),
            final(self).spec_text() == old(self).spec_text(),
            final(self).spec_lines() == old(self).spec_lines(),
            final(self).spec_selection() == old(self).spec_selection(),
            final(self).spec_cursor() == word_moved(
                old(self).spec_lines(),
                old(self).spec_cursor(),
                false,
            ),
    {
        self.move_cursor(Motion::WordBack);
    }

    /// Moves the cursor one word forward.
    pub fn cursor_word_right(&mut self)
        requires
            old(self).wf(),
        ensures
            final(self).wf(),
            final(self).spec_text() == old(self).spec_text(),
            final(self).spec_lines() == old(self).spec_lines(),
            final(self).spec_selection() == old(self).spec_selection(),
            final(self).spec_cursor() == word_moved(
                old(self).spec_lines(),
                old(self).spec_cursor(),
                true,
            ),
    {
        self.move_cursor(Motion::WordForward);
    }

    /// Moves the cursor one line up or down, keeping its column as far as
    /// that line reaches, and says whether it moved. It stays where there
    /// is no such line.
    pub fn cursor_move_vertical(&mut self, up: bool) -> (moved: bool)
        requires
            old(self).wf(),
        ensures
            final(self).wf(),
            final(self).spec_text() == old(self).spec_text(),
            final(self).spec_lines() == old(self).spec_lines(),
            final(self).spec_selection() == old(self).spec_selection(),
            (final(self).spec_cursor().0 as int, final(self).spec_cursor().1 as int)
                == motion_target(
                old(self).spec_lines(),
                old(self).spec_cursor(),
                if up {
                    Motion::Up
                } else {
                    Motion::Down
                },
            ),
            moved == (final(self).spec_offset() != old(self).spec_offset()),
    {
        let before = self.cursor();
        if up {
            self.move_cursor(Motion::Up);
        } else {
            self.move_cursor(Motion::Down);
        }
        before != self.cursor()
    }

    /// Moves the cursor one line up and says whether it moved.
    pub fn cursor_up_line(&mut self) -> (moved: bool)
        requires
            old(self).wf(),
        ensures
            final(self).wf(),
            final(self).spec_text() == old(self).spec_text(),
            final(self).spec_lines() == old(self).spec_lines(),
            final(self).spec_selection() == old(self).spec_selection(),
            (final(self).spec_cursor().0 as int, final(self).spec_cursor().1 as int)
                == motion_target(old(self).spec_lines(), old(self).spec_cursor(), Motion::Up),
            moved == (final(self).spec_offset() != old(self).spec_offset()),
    {
        self.cursor_move_vertical(true)
    }

    /// Moves the cursor one line down and says whether it moved.
    pub fn cursor_down_line(&mut self) -> (moved: bool)
        requires
            old(self).wf(),
        ensures
            final(self).wf(),
            final(self).spec_text() == old(self).spec_text(),
            final(self).spec_lines() == old(self).spec_lines(),
            final(self).spec_selection() == old(self).spec_selection(),
            (final(self).spec_cursor().0 as int, final(self).spec_cursor().1 as int)
                == motion_target(old(self).spec_lines(), old(self).spec_cursor(), Motion::Down),
            moved == (final(self).spec_offset() != old(self).spec_offset()),
    {
        self.cursor_move_vertical(false)
    }

    /// Moves the cursor one visual row up or down, keeping its column as
    /// far as the target row allows, and says whether there was a row to
    /// move to.
    pub fn cursor_move_visual_vertical(&mut self, up: bool, content_width: u16) -> (moved: bool)
        requires
            old(self).wf(),
        ensures
            final(self).wf(),
            final(self).spec_text() == old(self).spec_text(),
            final(self).spec_lines() == old(self).spec_lines(),
            moved == vertical_target_of(
                old(self).spec_text(),
                old(self).spec_offset() as int,
                up,
                content_width,
            ) is Some,
            !moved ==> final(self).spec_cursor() == old(self).spec_cursor(),
            moved ==> (final(self).spec_cursor().0 as int, final(self).spec_cursor().1 as int)
                == jump_target(
                old(self).spec_lines(),
                cap16(
                    locate(
                        old(self).spec_lines(),
                        vertical_target_of(
                            old(self).spec_text(),
                            old(self).spec_offset() as int,
                            up,
                            content_width,
                        )->0,
                        0,
                    ).0,
                ),
                cap16(
                    locate(
                        old(self).spec_lines(),
                        vertical_target_of(
                            old(self).spec_text(),
                            old(self).spec_offset() as int,
                            up,
                            content_width,
                        )->0,
                        0,
                    ).1,
                ),
            ),
    {
        match visual_vertical_target(self.text_cache.as_str(), self.cursor(), up, content_width) {
            Some(target) => {
                self.set_cursor_byte_offset(target);
                true
            },
            None => false,
        }
    }

    /// The prompt prefix.
    pub fn prefix(&self) -> (prefix: &str)
        ensures
            prefix@ == self.spec_prefix(),
    {
        self.prefix.as_str()
    }

    /// Sets the prompt prefix.
    pub fn set_prefix(&mut self, prefix: String)
        ensures
            final(self).spec_prefix() == prefix@,
            final(self).spec_text() == old(self).spec_text(),
            final(self).spec_lines() == old(self).spec_lines(),
            final(self).spec_cursor() == old(self).spec_cursor(),
            final(self).spec_selection() == old(self).spec_selection(),
            final(self).spec_placeholder() == old(self).spec_placeholder(),
            final(self).wf() == old(self).wf(),
    {
        self.prefix = prefix;
    }

    /// The placeholder, where one is set.
    pub fn placeholder(&self) -> (placeholder: Option<&str>)
        ensures
            placeholder is Some == self.spec_placeholder() is Some,
            placeholder matches Some(p) ==> Some(p@) == self.spec_placeholder(),
    {
        match &self.placeholder {
            Some(p) => Some(p.as_str()),
            None => None,
        }
    }

    /// Sets the placeholder; an empty text removes it.
    pub fn set_placeholder(&mut self, text: String)
        ensures
            final(self).spec_placeholder() == if text@.len() == 0 {
                None
            } else {
                Some(text@)
            },
            final(self).spec_text() == old(self).spec_text(),
            final(self).spec_lines() == old(self).spec_lines(),
            final(self).spec_cursor() == old(self).spec_cursor(),
            final(self).spec_selection() == old(self).spec_selection(),
            final(self).spec_prefix() == old(self).spec_prefix(),
            final(self).spec_hint() == hint_of(final(self).spec_placeholder()),
            old(self).wf() ==> final(self).wf(),
    {
        let empty = chars_of(text.as_str()).len() == 0;
        self.placeholder = if empty {
            None
        } else {
            Some(text)
        };
        self.sync_placeholder();
    }

    /// The prefix followed by the text.
    pub fn display_text(&self) -> (shown: String)
        ensures
            shown@ == self.spec_prefix() + self.spec_text(),
    {
        let mut shown = self.prefix.clone();
        shown.append(self.text_cache.as_str());
        shown
    }

    /// Row and column, in cells, at which the cursor is shown when the
    /// text is wrapped to `content_width`.
    pub fn cursor_visual_position(&self, content_width: u16) -> (pos: (u16, u16))
        ensures
            pos.0 == cap16(
                visual_position_of(self.spec_text(), self.spec_offset() as int, content_width).0,
            ),
            pos.1 == cap16(
                visual_position_of(self.spec_text(), self.spec_offset() as int, content_width).1,
            ),
    {
        cursor_visual_position(self.text_cache.as_str(), self.cursor(), content_width)
    }

    /// The visual rows of the text for a content width, as byte ranges.
    pub fn wrapped_rows(&self, content_width: u16) -> (rows: Vec<(usize, usize)>)
        ensures
            spans(rows@) == wrapped_rows(self.spec_text(), content_width),
            rows@.len() >= 1,
    {
        wrapped_row_ranges(self.text_cache.as_str(), content_width)
    }

    /// Hands a key to the input and says whether the key did something:
    /// backspace, where the cursor was not at the start; control with `u`,
    /// `w` or `d`, always; any other key, where it changed the text.
    pub fn handle_key(&mut self, key: KeyEvent) -> (handled: bool)
        requires
            old(self).wf(),
        ensures
            final(self).wf(),
            final(self).spec_prefix() == old(self).spec_prefix(),
            final(self).spec_placeholder() == old(self).spec_placeholder(),
            after_key(
                old(self).spec_lines(),
                old(self).spec_cursor(),
                old(self).spec_selection(),
                key,
            ) matches Some(place) ==> final(self).spec_place() == place && final(self).spec_selection() is None,
            is_plain_backspace(key) && old(self).spec_selection() is None ==> as_place(
                final(self).spec_place(),
            ) == backspaced(old(self).spec_lines(), old(self).spec_cursor()),
            types_char(key) && old(self).spec_selection() is None && key.code != KeyCode::Char(
                '\n',
            ) && key.code != KeyCode::Char('\r') ==> as_place(final(self).spec_place()) == typed(
                old(self).spec_lines(),
                old(self).spec_cursor(),
                key.code->Char_0,
            ),
            handled == handles(
                key,
                old(self).spec_offset() > 0,
                final(self).spec_text() != old(self).spec_text(),
            ),
    {
        let plain = key.modifiers.is_empty();
        let control_only = key.modifiers.control && !key.modifiers.shift && !key.modifiers.alt
            && !key.modifiers.super_key && !key.modifiers.hyper && !key.modifiers.meta;
        match key.code {
            KeyCode::Backspace => {
                if plain {
                    let had_content = self.cursor() > 0;
                    self.apply_edit(Edit::DeleteBackward);
                    return had_content;
                }
            },
            KeyCode::Char(c) => {
                if control_only && c == 'u' {
                    self.apply_edit(Edit::DeleteToLineStart);
                    return true;
                }
                if control_only && c == 'w' {
                    self.apply_edit(Edit::DeleteWordBackward);
                    return true;
                }
                if control_only && c == 'd' {
                    self.apply_edit(Edit::DeleteForward);
                    return true;
                }
            },
            _ => {},
        }
        self.apply_edit(Edit::Key(key))
    }

    /// Number of visual rows of the text for a content width.
    pub fn visual_rows(&self, content_width: u16) -> (count: usize)
        ensures
            count == wrapped_rows(self.spec_text(), content_width).len(),
            count >= 1,
    {
        let rows = wrapped_row_ranges(self.text_cache.as_str(), content_width);
        proof {
            assert(spans(rows@).len() == rows@.len());
        }
        rows.len()
    }

    /// Puts the cursor at the line and column of a byte offset into the
    /// text (each no more than a `u16` holds).
    pub fn set_cursor_byte_offset(&mut self, offset: usize)
        requires
            old(self).wf(),
        ensures
            final(self).wf(),
            final(self).spec_text() == old(self).spec_text(),
            final(self).spec_lines() == old(self).spec_lines(),
            (final(self).spec_cursor().0 as int, final(self).spec_cursor().1 as int)
                == jump_target(
                old(self).spec_lines(),
                cap16(locate(old(self).spec_lines(), offset as int, 0).0),
                cap16(locate(old(self).spec_lines(), offset as int, 0).1),
            ),
    {
        let place = byte_offset_to_cursor(area_text(&self.inner), offset);
        self.move_cursor(Motion::Jump(cap_u16(place.0), cap_u16(place.1)));
    }

    /// Makes the edit, then reads the text back from the editor. Says
    /// whether the text changed.
    fn apply_edit(&mut self, edit: Edit<'_>) -> (changed: bool)
        requires
            old(self).wf(),
        ensures
            final(self).wf(),
            final(self).spec_prefix() == old(self).spec_prefix(),
            final(self).spec_placeholder() == old(self).spec_placeholder(),
            after_edit(
                edit,
                old(self).spec_lines(),
                old(self).spec_cursor(),
                old(self).spec_selection(),
            ) matches Some(place) ==> final(self).spec_place() == place && final(self).spec_selection() is None,
            old(self).spec_selection() is None ==> match edit {
                Edit::InsertChar(c) => c != '\n' && c != '\r' ==> as_place(
                    final(self).spec_place(),
                ) == typed(old(self).spec_lines(), old(self).spec_cursor(), c),
                Edit::DeleteBackward => as_place(final(self).spec_place()) == backspaced(
                    old(self).spec_lines(),
                    old(self).spec_cursor(),
                ),
                Edit::Key(key) => types_char(key) && key.code != KeyCode::Char('\n') && key.code
                    != KeyCode::Char('\r') ==> as_place(final(self).spec_place()) == typed(
                    old(self).spec_lines(),
                    old(self).spec_cursor(),
                    key.code->Char_0,
                ),
                _ => true,
            },
            changed == (final(self).spec_text() != old(self).spec_text()),
    {
        let old_text = self.text_cache.clone();
        match edit {
            Edit::InsertChar(c) => area_insert_char(&mut self.inner, c),
            Edit::InsertStr(s) => area_insert_str(&mut self.inner, s),
            Edit::DeleteBackward => area_delete_char(&mut self.inner),
            Edit::DeleteForward => area_delete_next_char(&mut self.inner),
            Edit::DeleteToLineStart => area_delete_line_by_head(&mut self.inner),
            Edit::DeleteWordForward => area_delete_next_word(&mut self.inner),
            Edit::DeleteWordBackward => area_delete_word(&mut self.inner),
            Edit::Key(key) => {
                let input = ta_input_from_key_event(key);
                area_input(&mut self.inner, input.0, input.1, input.2, input.3)
            },
        }
        self.settle();
        self.sync_placeholder();
        !same_str(self.text_cache.as_str(), old_text.as_str())
    }

    /// Reads the text back from the editor.
    fn settle(&mut self)
        requires
            cursor_in_lines(old(self).inner),
        ensures
            final(self).text_in_step(),
            final(self).spec_prefix() == old(self).spec_prefix(),
            final(self).spec_placeholder() == old(self).spec_placeholder(),
            final(self).spec_lines() == old(self).spec_lines(),
            final(self).spec_cursor() == old(self).spec_cursor(),
            final(self).spec_selection() == old(self).spec_selection(),
            final(self).spec_hint() == old(self).spec_hint(),
    {
        self.text_cache = join_lines(area_text(&self.inner));
    }

    /// Hands the placeholder to the editor, which shows it while it is
    /// empty: the placeholder's text, or nothing where there is none.
    fn sync_placeholder(&mut self)
        ensures
            final(self).spec_hint() == hint_of(old(self).spec_placeholder()),
            final(self).spec_text() == old(self).spec_text(),
            final(self).spec_lines() == old(self).spec_lines(),
            final(self).spec_cursor() == old(self).spec_cursor(),
            final(self).spec_selection() == old(self).spec_selection(),
            final(self).spec_prefix() == old(self).spec_prefix(),
            final(self).spec_placeholder() == old(self).spec_placeholder(),
            old(self).text_in_step() ==> final(self).wf(),
    {
        let text = match &self.placeholder {
            Some(p) => p.clone(),
            None => String::new(),
        };
        area_placeholder(&mut self.inner, text);
    }
}

impl Default for TextInput {
    fn default() -> (input: Self)
        ensures
            input.wf(),
            input.spec_text() == Seq::<char>::empty(),
    {
        Self::new()
    }
}

/// Whether a key did something in the input: backspace without modifiers,
/// where there was something before the cursor; `u`, `w` or `d` with
/// control alone, always; any other key, where the text changed.
pub open spec fn handles(key: KeyEvent, had_content: bool, changed: bool) -> bool {
    let control_only = key.modifiers == (KeyModifiers {
        control: true,
        ..KeyModifiers::spec_none()
    });
    if key.code == KeyCode::Backspace && key.modifiers == KeyModifiers::spec_none() {
        had_content
    } else if control_only && (key.code == KeyCode::Char('u') || key.code == KeyCode::Char('w')
        || key.code == KeyCode::Char('d')) {
        true
    } else {
        changed
    }
}

/// Whether two texts are the same.
fn same_str(a: &str, b: &str) -> (same: bool)
    ensures
        same == (a@ == b@),
{
    let left = chars_of(a);
    let right = chars_of(b);
    same_text(&left, &right)
}

/// An editor over the lines of `text`, the cursor at the end.
fn editor_at_end(text: &str) -> (editor: Editor)
    ensures
        area_lines(editor) == split_lines_of(text@),
        joined(area_lines(editor)) == text@,
        area_lines(editor).len() >= 1,
        cursor_in_lines(editor),
        area_cursor(editor).0 == area_lines(editor).len() - 1,
        area_cursor(editor).1 == area_lines(editor).last().len(),
        area_selection(editor) is None,
{
    proof {
        lemma_join_split(text@);
    }
    let mut editor = area_new(split_lines(text));
    area_move(&mut editor, Motion::Bottom);
    area_move(&mut editor, Motion::End);
    editor
}

} // verus!
