//! The state of a picker, the messages that change it, and the keys and
//! mouse events that the messages come from.

use crate::components::dialog_shell::{
    compute_centered, dialog_area, padded, DialogBounds, Padding,
};
use crate::components::list::{
    anchored_offset, clamp_index, index_at, index_view, item_at, next_index, prev_index,
    window_rows, ListState,
};
use crate::components::text_input::{after_key, handles, TextInput};
use crate::layout::fuzzy::{
    field_scores, fuzzy_indices_any_field, fuzzy_indices_tokenized_surface, indices_of, ranked,
    scored_items, surface_scores, trimmed,
};
use crate::primitives::chars::chars_of;
use crate::primitives::geom::{inner_1px_of, Rect};
use crate::runtime::keys::{KeyCode, KeyEvent};
use vstd::prelude::*;
use vstd::string::*;

verus! {

/// How a picker filters its items. Either way it holds the texts that
/// the items are matched by, one entry for each item, in the items' order.
pub enum FilterMode {
    /// Several fields for each item; an item is shown where any of them
    /// matches the query.
    AnyField { fields: Vec<Vec<String>> },
    /// One surface text for each item; an item is shown where every word
    /// of the query matches it.
    TokenizedSurface { surface: Vec<String> },
}

/// Picker options controlling behavior.
pub struct PickerOptions {
    pub filter: FilterMode,
}

impl PickerOptions {
    /// Options with this filter.
    #[must_use]
    pub fn no_section(filter: FilterMode) -> (opts: Self)
        ensures
            opts.filter == filter,
    {
        Self { filter }
    }
}

/// The items shown for a query, by their indices and in the order in
/// which they are shown: every item for a query of white space alone, else
/// the items that match, the best score first, and among equal scores the
/// earlier item first.
pub open spec fn filtered_of(filter: FilterMode, query: Seq<char>) -> Seq<usize> {
    match filter {
        FilterMode::AnyField { fields } => if trimmed(query).len() == 0 {
            Seq::new(fields@.len(), |i: int| i as usize)
        } else {
            indices_of(
                ranked(
                    scored_items(field_scores(fields@, query), fields@.len() as int),
                    scored_items(field_scores(fields@, query), fields@.len() as int).len() as int,
                ),
            )
        },
        FilterMode::TokenizedSurface { surface } => if trimmed(query).len() == 0 {
            Seq::new(surface@.len(), |i: int| i as usize)
        } else {
            indices_of(
                ranked(
                    scored_items(surface_scores(surface@, query), surface@.len() as int),
                    scored_items(surface_scores(surface@, query), surface@.len() as int).len() as int,
                ),
            )
        },
    }
}

/// Generic picker state shared by concrete pickers.
pub struct PickerState<T> {
    pub is_open: bool,
    pub is_loading: bool,
    pub items: Vec<T>,
    pub search_input: TextInput,
    pub filtered_indices: Vec<usize>,
    pub list: ListState,
}

/// A button of the mouse.
#[derive(Debug, Clone, Copy, PartialEq, Eq, Structural)]
pub enum MouseButton {
    Left,
    Right,
    Middle,
}

/// What the mouse did.
#[derive(Debug, Clone, Copy, PartialEq, Eq, Structural)]
pub enum MouseEventKind {
    Down(MouseButton),
    Up(MouseButton),
    Drag(MouseButton),
    Moved,
    ScrollDown,
    ScrollUp,
    ScrollLeft,
    ScrollRight,
}

/// A mouse event: what happened, and at which cell.
#[derive(Debug, Clone, Copy, PartialEq, Eq, Structural)]
pub struct MouseEvent {
    pub kind: MouseEventKind,
    pub column: u16,
    pub row: u16,
}

/// Generic picker messages.
#[derive(Debug, Clone)]
pub enum PickerMsg<Custom> {
    UpdateSearch(String),
    ClearSearch,
    SelectNext,
    SelectPrevious,
    SelectIndex(usize),
    PageUp(usize),
    PageDown(usize),
    JumpTop,
    JumpBottom,
    ScrollUp,
    ScrollDown,
    Confirm,
    Close,
    Custom(Custom),
}

/// Optional hooks to extend key handling. Hooks that are not written
/// answer nothing.
pub trait PickerHooks<T, Custom> {
    /// Asked before the picker's own keys; a message ends the handling.
    fn before_key(&self, state: &PickerState<T>, key: KeyEvent) -> (msg: Option<
        PickerMsg<Custom>,
    >)
        default_ensures
            msg is None,
    {
        None
    }

    /// Asked where neither the picker's own keys nor the search took the
    /// key.
    fn after_key(&self, state: &PickerState<T>, key: KeyEvent) -> (msg: Option<
        PickerMsg<Custom>,
    >)
        default_ensures
            msg is None,
    {
        None
    }
}

/// The unit value stands for no hooks at all.
impl<T, Custom> PickerHooks<T, Custom> for () {
}

/// The indices of the items that match the query, in the order in which
/// they are shown.
pub fn filter_indices(filter: &FilterMode, query: &str) -> (indices: Vec<usize>)
    ensures
        indices@ == filtered_of(*filter, query@),
{
    match filter {
        FilterMode::AnyField { fields } => fuzzy_indices_any_field(fields, query),
        FilterMode::TokenizedSurface { surface } => fuzzy_indices_tokenized_surface(surface, query),
    }
}

impl<T> PickerState<T> {
    /// The state is in order: its search input is.
    pub open spec fn wf(&self) -> bool {
        self.search_input.wf()
    }

    /// A closed picker without items.
    pub fn new() -> (state: Self)
        ensures
            state.wf(),
            !state.is_open,
            !state.is_loading,
            state.items@.len() == 0,
            state.filtered_indices@.len() == 0,
            state.list.selected == 0,
            state.list.viewport_offset == 0,
            state.search_input.spec_text() == Seq::<char>::empty(),
    {
        Self {
            is_open: false,
            is_loading: false,
            items: Vec::new(),
            search_input: TextInput::new(),
            filtered_indices: Vec::new(),
            list: ListState::new(),
        }
    }

    /// Opens the picker over `items`, with an empty search and the first
    /// item selected.
    pub fn open(&mut self, items: Vec<T>, opts: &PickerOptions)
        ensures
            final(self).wf(),
            final(self).is_open,
            !final(self).is_loading,
            final(self).items@ == items@,
            final(self).search_input.spec_text() == Seq::<char>::empty(),
            final(self).filtered_indices@ == filtered_of(opts.filter, Seq::<char>::empty()),
            final(self).list.selected == 0,
            final(self).list.viewport_offset == old(self).list.viewport_offset,
    {
        self.is_open = true;
        self.is_loading = false;
        self.items = items;
        self.search_input.clear();
        self.filtered_indices.clear();
        self.list.selected = 0;
        self.update_filter(opts);
    }

    /// Opens the picker while its items are still loading.
    pub fn open_loading(&mut self)
        ensures
            final(self).is_open,
            final(self).is_loading,
            final(self).items@.len() == 0,
            final(self).filtered_indices@.len() == 0,
            final(self).list.selected == 0,
            final(self).list.viewport_offset == old(self).list.viewport_offset,
            final(self).search_input == old(self).search_input,
    {
        self.is_open = true;
        self.is_loading = true;
        self.items.clear();
        self.filtered_indices.clear();
        self.list.selected = 0;
    }

    /// Closes the picker and empties its search.
    pub fn close(&mut self)
        ensures
            final(self).wf(),
            !final(self).is_open,
            !final(self).is_loading,
            final(self).items@ == old(self).items@,
            final(self).filtered_indices@.len() == 0,
            final(self).list == old(self).list,
            final(self).search_input.spec_text() == Seq::<char>::empty(),
    {
        self.is_open = false;
        self.is_loading = false;
        self.search_input.clear();
        self.filtered_indices.clear();
    }

    /// Filters the items by the search text and keeps the selection
    /// within the items shown.
    pub fn update_filter(&mut self, opts: &PickerOptions)
        ensures
            final(self).is_open == old(self).is_open,
            final(self).is_loading == old(self).is_loading,
            final(self).items@ == old(self).items@,
            final(self).search_input == old(self).search_input,
            final(self).filtered_indices@ == filtered_of(
                opts.filter,
                old(self).search_input.spec_text(),
            ),
            final(self).list.viewport_offset == old(self).list.viewport_offset,
            final(self).list.selected == clamp_index(
                old(self).list.selected as int,
                final(self).filtered_indices@.len() as int,
            ),
    {
        self.filtered_indices = filter_indices(&opts.filter, self.search_input.text());
        let len = self.filtered_indices.len();
        self.list.clamp_selection(len);
    }

    /// Number of items shown.
    #[must_use]
    pub fn selectable_len(&self) -> (len: usize)
        ensures
            len == self.filtered_indices@.len(),
    {
        self.filtered_indices.len()
    }

    /// The item, by its index among all items, that is shown at a row.
    #[must_use]
    pub fn to_item_index(&self, visible_idx: usize) -> (idx: Option<usize>)
        ensures
            idx == if visible_idx < self.filtered_indices@.len() {
                Some(self.filtered_indices@[visible_idx as int])
            } else {
                None
            },
    {
        if visible_idx < self.filtered_indices.len() {
            Some(self.filtered_indices[visible_idx])
        } else {
            None
        }
    }
}

impl<T> Default for PickerState<T> {
    fn default() -> (state: Self)
        ensures
            state.wf(),
            !state.is_open,
            state.items@.len() == 0,
    {
        Self::new()
    }
}

/// The selection after a message that moves it in a list of `len` items
/// shown; the messages that do not move it leave it where it is.
pub open spec fn selection_after<Custom>(msg: PickerMsg<Custom>, selected: int, len: int) -> int {
    match msg {
        PickerMsg::SelectNext => if len > 0 {
            next_index(selected, len)
        } else {
            selected
        },
        PickerMsg::SelectPrevious => if len > 0 {
            prev_index(selected, len)
        } else {
            selected
        },
        PickerMsg::SelectIndex(i) => if len > 0 {
            clamp_index(i as int, len)
        } else {
            selected
        },
        PickerMsg::PageUp(rows) => if len > 0 {
            clamp_index(selected - window_rows(rows as int), len)
        } else {
            selected
        },
        PickerMsg::PageDown(rows) => if len > 0 {
            clamp_index(selected + window_rows(rows as int), len)
        } else {
            selected
        },
        PickerMsg::JumpTop => 0,
        PickerMsg::JumpBottom => if len > 0 {
            len - 1
        } else {
            selected
        },
        PickerMsg::ScrollUp => if len > 0 {
            clamp_index(selected - 3, len)
        } else {
            selected
        },
        PickerMsg::ScrollDown => if len > 0 {
            clamp_index(selected + 3, len)
        } else {
            selected
        },
        _ => selected,
    }
}

/// The message changes the search: the state is filtered anew and its
/// list starts over.
pub open spec fn changes_search<Custom>(msg: PickerMsg<Custom>) -> bool {
    msg is UpdateSearch || msg is ClearSearch
}

/// Applies a picker message to the state.
pub fn picker_update_state<T, Custom>(
    state: &mut PickerState<T>,
    msg: PickerMsg<Custom>,
    opts: &PickerOptions,
)
    ensures
        final(state).wf() || (!changes_search(msg) && !(msg is Close) && !old(state).wf()),
        final(state).items@ == old(state).items@,
        final(state).is_loading == (old(state).is_loading && !(msg is Close)),
        final(state).is_open == (old(state).is_open && !(msg is Close)),
        msg matches PickerMsg::UpdateSearch(query) ==> final(state).search_input.spec_text()
            == query@,
        msg is ClearSearch ==> final(state).search_input.spec_text() == Seq::<char>::empty(),
        changes_search(msg) ==> final(state).filtered_indices@ == filtered_of(
            opts.filter,
            final(state).search_input.spec_text(),
        ),
        changes_search(msg) ==> final(state).list.selected == 0
            && final(state).list.viewport_offset == 0,
        !changes_search(msg) ==>
            final(state).list.viewport_offset == old(state).list.viewport_offset
                && final(state).list.selected == selection_after(
            msg,
            old(state).list.selected as int,
            old(state).filtered_indices@.len() as int,
        ),
        !changes_search(msg) && !(msg is Close) ==>
            final(state).filtered_indices@ == old(state).filtered_indices@
                && final(state).search_input == old(state).search_input,
        msg is Close ==> final(state).filtered_indices@.len() == 0
            && final(state).search_input.spec_text() == Seq::<char>::empty(),
{
    let len = state.filtered_indices.len();
    match msg {
        PickerMsg::UpdateSearch(query) => {
            state.search_input.set_text(query);
            state.update_filter(opts);
            state.list.selected = 0;
            state.list.viewport_offset = 0;
        },
        PickerMsg::ClearSearch => {
            state.search_input.clear();
            state.update_filter(opts);
            state.list.selected = 0;
            state.list.viewport_offset = 0;
        },
        PickerMsg::SelectNext => {
            if len > 0 {
                state.list.select_next(len);
            }
        },
        PickerMsg::SelectPrevious => {
            if len > 0 {
                state.list.select_prev(len);
            }
        },
        PickerMsg::SelectIndex(i) => {
            if len > 0 {
                state.list.set_selected(i, len);
            }
        },
        PickerMsg::PageUp(visible_h) => {
            if len > 0 {
                state.list.page_up(visible_h, len);
            }
        },
        PickerMsg::PageDown(visible_h) => {
            if len > 0 {
                state.list.page_down(visible_h, len);
            }
        },
        PickerMsg::JumpTop => {
            state.list.jump_top();
        },
        PickerMsg::JumpBottom => {
            state.list.jump_bottom(len);
        },
        PickerMsg::ScrollUp => {
            if len > 0 {
                state.list.scroll_lines(-3, len);
            }
        },
        PickerMsg::ScrollDown => {
            if len > 0 {
                state.list.scroll_lines(3, len);
            }
        },
        PickerMsg::Confirm => {},
        PickerMsg::Close => {
            state.close();
        },
        PickerMsg::Custom(_) => {},
    }
}

/// The message of a key that the picker itself takes: escape closes, enter
/// confirms, the arrows and the page keys move the selection, home and end
/// jump. The page keys move by the visible height, or by ten rows where
/// it is not known. No other key is the picker's own.
pub open spec fn own_key_of<Custom>(key: KeyEvent, visible_height: Option<usize>) -> Option<
    PickerMsg<Custom>,
> {
    let rows: usize = match visible_height {
        Some(h) => h,
        None => 10,
    };
    match key.code {
        KeyCode::Esc => Some(PickerMsg::Close),
        KeyCode::Enter => Some(PickerMsg::Confirm),
        KeyCode::Up => Some(PickerMsg::SelectPrevious),
        KeyCode::Down => Some(PickerMsg::SelectNext),
        KeyCode::PageUp => Some(PickerMsg::PageUp(rows)),
        KeyCode::PageDown => Some(PickerMsg::PageDown(rows)),
        KeyCode::Home => Some(PickerMsg::JumpTop),
        KeyCode::End => Some(PickerMsg::JumpBottom),
        _ => None,
    }
}

/// The message of a key that the picker itself takes.
pub fn own_key_msg<Custom>(key: KeyEvent, visible_height: Option<usize>) -> (msg: Option<
    PickerMsg<Custom>,
>)
    ensures
        msg == own_key_of::<Custom>(key, visible_height),
{
    let rows: usize = match visible_height {
        Some(h) => h,
        None => 10,
    };
    match key.code {
        KeyCode::Esc => Some(PickerMsg::Close),
        KeyCode::Enter => Some(PickerMsg::Confirm),
        KeyCode::Up => Some(PickerMsg::SelectPrevious),
        KeyCode::Down => Some(PickerMsg::SelectNext),
        KeyCode::PageUp => Some(PickerMsg::PageUp(rows)),
        KeyCode::PageDown => Some(PickerMsg::PageDown(rows)),
        KeyCode::Home => Some(PickerMsg::JumpTop),
        KeyCode::End => Some(PickerMsg::JumpBottom),
        _ => None,
    }
}

/// Maps a key event to a picker message, for a picker without
/// hooks. A closed picker takes no key. The picker's own keys come first
/// and leave the state as it is; any other key goes to the search input,
/// and gives a message where it changed the search text.
pub fn plain_key_msg<T, Custom>(
    state: &mut PickerState<T>,
    key: KeyEvent,
    visible_height: Option<usize>,
) -> (msg: Option<PickerMsg<Custom>>)
    requires
        old(state).wf(),
    ensures
        final(state).wf(),
        final(state).is_open == old(state).is_open,
        final(state).is_loading == old(state).is_loading,
        final(state).items@ == old(state).items@,
        final(state).filtered_indices@ == old(state).filtered_indices@,
        final(state).list == old(state).list,
        !old(state).is_open ==> msg is None && *final(state) == *old(state),
        old(state).is_open && own_key_of::<Custom>(key, visible_height) is Some ==> msg
            == own_key_of::<Custom>(key, visible_height) && *final(state) == *old(state),
        old(state).is_open && own_key_of::<Custom>(key, visible_height) is None ==> {
            &&& msg is Some == (final(state).search_input.spec_text() != old(state).search_input.spec_text() && handles(
                key,
                old(state).search_input.spec_offset() > 0,
                true,
            ))
            &&& msg is Some ==> if final(state).search_input.spec_text().len() == 0 {
                msg == Some(PickerMsg::<Custom>::ClearSearch)
            } else {
                msg matches Some(PickerMsg::UpdateSearch(query))
                    && query@ == final(state).search_input.spec_text()
            }
        },
{
    if !state.is_open {
        return None;
    }
    if let Some(msg) = own_key_msg(key, visible_height) {
        return Some(msg);
    }
    match state.search_input.handle_search_key(key) {
        Some(after) => Some(search_msg(after)),
        None => None,
    }
}

/// The message for a search text that a key changed: the search is
/// cleared where the text is empty now, updated otherwise.
pub fn search_msg<Custom>(after: String) -> (msg: PickerMsg<Custom>)
    ensures
        msg == if after@.len() == 0 {
            PickerMsg::<Custom>::ClearSearch
        } else {
            PickerMsg::<Custom>::UpdateSearch(after)
        },
{
    if chars_of(after.as_str()).len() == 0 {
        PickerMsg::ClearSearch
    } else {
        PickerMsg::UpdateSearch(after)
    }
}

/// Maps a key event to a picker message. A closed picker takes no
/// key. The hooks are asked first, then the picker's own keys, then the
/// search input, then the hooks again. So one of the picker's own keys
/// always gives a message and leaves the state alone, and a key that
/// changes the search text gives the message of the new text.
pub fn key_to_picker_msg<T, H: PickerHooks<T, Custom>, Custom>(
    state: &mut PickerState<T>,
    key: KeyEvent,
    visible_height: Option<usize>,
    hooks: &H,
) -> (msg: Option<PickerMsg<Custom>>)
    requires
        old(state).wf(),
    ensures
        final(state).wf(),
        !old(state).is_open ==> msg is None && *final(state) == *old(state),
        final(state).is_open == old(state).is_open,
        final(state).is_loading == old(state).is_loading,
        final(state).items@ == old(state).items@,
        final(state).filtered_indices@ == old(state).filtered_indices@,
        final(state).list == old(state).list,
        old(state).is_open && own_key_of::<Custom>(key, visible_height) is Some ==> msg is Some
            && *final(state) == *old(state),
        old(state).is_open && own_key_of::<Custom>(key, visible_height) is None && final(state).search_input.spec_text() != old(state).search_input.spec_text() && handles(
            key,
            old(state).search_input.spec_offset() > 0,
            true,
        ) ==> if final(state).search_input.spec_text().len() == 0 {
            msg == Some(PickerMsg::<Custom>::ClearSearch)
        } else {
            msg matches Some(PickerMsg::UpdateSearch(query)) && query@ == final(state).search_input.spec_text()
        },
        final(state).search_input == old(state).search_input || (after_key(
            old(state).search_input.spec_lines(),
            old(state).search_input.spec_cursor(),
            old(state).search_input.spec_selection(),
            key,
        ) matches Some(place) ==> final(state).search_input.spec_place() == place),
{
    if !state.is_open {
        return None;
    }
    if let Some(msg) = hooks.before_key(state, key) {
        return Some(msg);
    }
    if let Some(msg) = own_key_msg(key, visible_height) {
        return Some(msg);
    }
    if let Some(after) = state.search_input.handle_search_key(key) {
        return Some(search_msg(after));
    }
    hooks.after_key(state, key)
}

/// Maps mouse coordinates to an item of a bordered list, selects it and
/// brings the window over it.
pub fn mouse_select_update_offset(
    list: &mut ListState,
    list_area: Rect,
    total: usize,
    visible_height: usize,
    col: u16,
    row: u16,
) -> (selected: Option<usize>)
    ensures
        index_view(selected) == item_at(
            inner_1px_of(list_area),
            old(list).selected as int,
            old(list).viewport_offset as int,
            total as int,
            col as int,
            row as int,
        ),
        selected is None ==> *final(list) == *old(list),
        selected matches Some(idx) ==> final(list).selected == idx
            && final(list).viewport_offset == anchored_offset(
            idx as int,
            visible_height as int,
            old(list).viewport_offset as int,
        ),
{
    match index_at(list_area, list.selected, list.viewport_offset, total, col, row) {
        Some(idx) => {
            list.selected = idx;
            list.update_offset(visible_height);
            Some(list.selected)
        },
        None => None,
    }
}

/// What a mouse event asks of a picker whose list is drawn in
/// `list_area`: the wheel scrolls, a move selects the item under the
/// pointer, a press of the left button selects it and brings the window
/// over it, its release confirms.
pub fn mouse_msg_in<T, Custom>(state: &mut PickerState<T>, mouse: MouseEvent, list_area: Rect) -> (msg:
    Option<PickerMsg<Custom>>)
    ensures
        final(state).is_open == old(state).is_open,
        final(state).is_loading == old(state).is_loading,
        final(state).items@ == old(state).items@,
        final(state).filtered_indices@ == old(state).filtered_indices@,
        final(state).search_input == old(state).search_input,
        !old(state).is_open || old(state).filtered_indices@.len() == 0 ==> msg is None
            && final(state).list == old(state).list,
        old(state).is_open && old(state).filtered_indices@.len() > 0 ==> match mouse.kind {
            MouseEventKind::ScrollUp => msg == Some(PickerMsg::<Custom>::ScrollUp)
                && final(state).list == old(state).list,
            MouseEventKind::ScrollDown => msg == Some(PickerMsg::<Custom>::ScrollDown)
                && final(state).list == old(state).list,
            MouseEventKind::Moved => final(state).list == old(state).list && msg == (match item_at(
                inner_1px_of(list_area),
                old(state).list.selected as int,
                old(state).list.viewport_offset as int,
                old(state).filtered_indices@.len() as int,
                mouse.column as int,
                mouse.row as int,
            ) {
                Some(i) => Some(PickerMsg::<Custom>::SelectIndex(i as usize)),
                None => None,
            }),
            MouseEventKind::Up(MouseButton::Left) => final(state).list == old(state).list && msg
                is Some == item_at(
                inner_1px_of(list_area),
                old(state).list.selected as int,
                old(state).list.viewport_offset as int,
                old(state).filtered_indices@.len() as int,
                mouse.column as int,
                mouse.row as int,
            ) is Some && (msg is Some ==> msg == Some(PickerMsg::<Custom>::Confirm)),
            MouseEventKind::Down(MouseButton::Left) => msg == (match item_at(
                inner_1px_of(list_area),
                old(state).list.selected as int,
                old(state).list.viewport_offset as int,
                old(state).filtered_indices@.len() as int,
                mouse.column as int,
                mouse.row as int,
            ) {
                Some(i) => Some(PickerMsg::<Custom>::SelectIndex(i as usize)),
                None => None,
            }),
            _ => msg is None && final(state).list == old(state).list,
        },
{
    if !state.is_open {
        return None;
    }
    let total = state.filtered_indices.len();
    if total == 0 {
        return None;
    }
    match mouse.kind {
        MouseEventKind::ScrollUp => Some(PickerMsg::ScrollUp),
        MouseEventKind::ScrollDown => Some(PickerMsg::ScrollDown),
        MouseEventKind::Moved => {
            match index_at(
                list_area,
                state.list.selected,
                state.list.viewport_offset,
                total,
                mouse.column,
                mouse.row,
            ) {
                Some(i) => Some(PickerMsg::SelectIndex(i)),
                None => None,
            }
        },
        MouseEventKind::Down(button) => {
            match button {
                MouseButton::Left => {
                    let visible = list_area.height.saturating_sub(2) as usize;
                    match mouse_select_update_offset(
                        &mut state.list,
                        list_area,
                        total,
                        visible,
                        mouse.column,
                        mouse.row,
                    ) {
                        Some(i) => Some(PickerMsg::SelectIndex(i)),
                        None => None,
                    }
                },
                _ => None,
            }
        },
        MouseEventKind::Up(button) => {
            match button {
                MouseButton::Left => {
                    match index_at(
                        list_area,
                        state.list.selected,
                        state.list.viewport_offset,
                        total,
                        mouse.column,
                        mouse.row,
                    ) {
                        Some(_) => Some(PickerMsg::Confirm),
                        None => None,
                    }
                },
                _ => None,
            }
        },
        _ => None,
    }
}

/// The inside of a picker's dialog in `area`: the dialog without its
/// padding. The list of the picker is a band of its rows.
pub open spec fn dialog_inside(
    area: Rect,
    bounds: DialogBounds,
    wanted_width: u16,
    wanted_height: u16,
    inline: bool,
) -> Rect {
    padded(
        dialog_area(
            area,
            if inline {
                area.width
            } else {
                wanted_width
            },
            wanted_height,
            0,
            if inline {
                area.width
            } else {
                bounds.max_width
            },
            0,
            bounds.max_height,
        ),
        bounds.padding,
    )
}

/// The column lies beside the list that is drawn in a band of `inside`:
/// left or right of the columns inside the list's border.
pub open spec fn beside_list(inside: Rect, column: u16) -> bool {
    !(inner_1px_of(inside).x <= column < inner_1px_of(inside).x + inner_1px_of(inside).width)
}

/// Maps a mouse event to a picker message, for a picker drawn as
/// a centred dialog in `area`: its list is the body of the dialog. The
/// wheel scrolls wherever the pointer is; a pointer beside the columns of
/// the list gives nothing; no other button than the left does anything.
pub fn mouse_to_picker_msg<T, Custom>(
    state: &mut PickerState<T>,
    mouse: MouseEvent,
    area: Rect,
    bounds: DialogBounds,
    wanted_width: u16,
    wanted_height: u16,
    inline: bool,
) -> (msg: Option<PickerMsg<Custom>>)
    ensures
        final(state).is_open == old(state).is_open,
        final(state).is_loading == old(state).is_loading,
        final(state).items@ == old(state).items@,
        final(state).filtered_indices@ == old(state).filtered_indices@,
        final(state).search_input == old(state).search_input,
        !old(state).is_open || old(state).filtered_indices@.len() == 0 ==> msg is None
            && final(state).list == old(state).list,
        old(state).is_open && old(state).filtered_indices@.len() > 0 ==> match mouse.kind {
            MouseEventKind::ScrollUp => msg == Some(PickerMsg::<Custom>::ScrollUp) && final(state).list == old(state).list,
            MouseEventKind::ScrollDown => msg == Some(PickerMsg::<Custom>::ScrollDown) && final(state).list == old(state).list,
            MouseEventKind::Moved => beside_list(
                dialog_inside(area, bounds, wanted_width, wanted_height, inline),
                mouse.column,
            ) ==> msg is None,
            MouseEventKind::Down(MouseButton::Left) => beside_list(
                dialog_inside(area, bounds, wanted_width, wanted_height, inline),
                mouse.column,
            ) ==> msg is None,
            MouseEventKind::Up(MouseButton::Left) => beside_list(
                dialog_inside(area, bounds, wanted_width, wanted_height, inline),
                mouse.column,
            ) ==> msg is None,
            _ => msg is None && final(state).list == old(state).list,
        },
{
    if !state.is_open {
        return None;
    }
    let layout = compute_centered(area, bounds, wanted_width, wanted_height, inline);
    mouse_msg_in(state, mouse, layout.body)
}

/// Standard dialog bounds for pickers: sixty columns by twenty rows at
/// most, three rows of header, one of footer, one cell of padding.
pub fn dialog_opts_hooks() -> (bounds: DialogBounds)
    ensures
        bounds == (DialogBounds {
            max_width: 60,
            max_height: 20,
            header_rows: 3,
            footer_rows: 1,
            padding: Padding { left: 1, right: 1, top: 1, bottom: 1 },
        }),
{
    DialogBounds {
        max_width: 60,
        max_height: 20,
        header_rows: 3,
        footer_rows: 1,
        padding: Padding { left: 1, right: 1, top: 1, bottom: 1 },
    }
}

} // verus!
