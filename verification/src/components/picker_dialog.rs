//! Pickers drawn as dialogs with a single tab.

use crate::components::dialog_shell::DialogBounds;
use crate::components::text_input::{after_key, handles};
use crate::layout::picker_kit::{
    beside_list, dialog_inside, key_to_picker_msg, mouse_to_picker_msg, own_key_of,
    plain_key_msg, MouseButton, MouseEventKind, PickerHooks, PickerMsg, PickerOptions,
    PickerState,
};
use crate::primitives::geom::Rect;
use crate::layout::picker_kit::MouseEvent;
use crate::primitives::strings::{decimal, push_decimal};
use crate::runtime::keys::KeyEvent;
use crate::theme::{CellStyle, Theme, ThemeElement};
use vstd::prelude::*;
use vstd::string::*;

verus! {

/// The header of a picker with one tab.
pub struct SingleTabHeader<'a> {
    pub inactive_label: &'a str,
    pub counted_label: &'a str,
    pub title: &'a str,
}

/// Style of a tab: the selection colour in bold for the active tab, the
/// tertiary colour otherwise.
pub fn default_tab_style(theme: &Theme, is_active: bool) -> (style: CellStyle)
    ensures
        style == if is_active {
            CellStyle { bold: true, ..theme.spec_style(ThemeElement::Selection) }
        } else {
            theme.spec_style(ThemeElement::Tertiary)
        },
{
    if is_active {
        theme.style(ThemeElement::Selection).bold()
    } else {
        theme.style(ThemeElement::Tertiary)
    }
}

/// The label of a tab that counts its items: ` label (n) ` where there are
/// items, ` label ` with the inactive label where there are none.
pub open spec fn counted_label_of(total: nat, counted_label: Seq<char>, inactive_label: Seq<char>)
    -> Seq<char> {
    if total > 0 {
        seq![' '] + counted_label + seq![' ', '('] + decimal(total) + seq![')', ' ']
    } else {
        seq![' '] + inactive_label + seq![' ']
    }
}

/// The label of a tab that counts its items.
pub fn counted_tab_label(total: usize, counted_label: &str, inactive_label: &str) -> (label: String)
    ensures
        label@ == counted_label_of(total as nat, counted_label@, inactive_label@),
{
    let mut label = String::new();
    label.push(' ');
    if total > 0 {
        label.append(counted_label);
        label.push(' ');
        label.push('(');
        push_decimal(&mut label, total);
        label.push(')');
        label.push(' ');
        proof {
            assert(label@ =~= counted_label_of(total as nat, counted_label@, inactive_label@));
        }
    } else {
        label.append(inactive_label);
        label.push(' ');
        proof {
            assert(label@ =~= counted_label_of(total as nat, counted_label@, inactive_label@));
        }
    }
    label
}

/// Maps a key event to a picker message, for a picker without
/// hooks whose visible height is not known: the page keys move by ten
/// rows.
pub fn picker_key_msg<T, Custom>(state: &mut PickerState<T>, key: KeyEvent, opts: &PickerOptions) -> (msg:
    Option<PickerMsg<Custom>>)
    requires
        old(state).wf(),
    ensures
        final(state).wf(),
        final(state).is_open == old(state).is_open,
        final(state).is_loading == old(state).is_loading,
        final(state).items@ == old(state).items@,
        final(state).filtered_indices@ == old(state).filtered_indices@,
        final(state).list == old(state).list,
        !old(state).is_open ==> msg is None && *final(state) == *old(state),
        old(state).is_open && own_key_of::<Custom>(key, None) is Some ==> msg == own_key_of::<
            Custom,
        >(key, None) && *final(state) == *old(state),
        old(state).is_open && own_key_of::<Custom>(key, None) is None ==> {
            &&& msg is Some == (final(state).search_input.spec_text() != old(state).search_input.spec_text() && handles(
                key,
                old(state).search_input.spec_offset() > 0,
                true,
            ))
            &&& msg is Some ==> if final(state).search_input.spec_text().len() == 0 {
                msg == Some(PickerMsg::<Custom>::ClearSearch)
            } else {
                msg matches Some(PickerMsg::UpdateSearch(query))
                    && query@ == final(state).search_input.spec_text()
            }
        },
{
    plain_key_msg(state, key, None)
}

/// Maps a key event to a picker message, the hooks asked before
/// the picker's own keys and after the search input. What the hooks
/// answer is theirs to say; the picker's items, selection and filter stay
/// as they are. One of the picker's own keys always gives a message and
/// leaves the state alone, and a key that changes the search text gives
/// the message of the new text.
pub fn picker_key_msg_with<T, H: PickerHooks<T, Custom>, Custom>(
    state: &mut PickerState<T>,
    key: KeyEvent,
    visible_height: Option<usize>,
    opts: &PickerOptions,
    hooks: &H,
) -> (msg: Option<PickerMsg<Custom>>)
    requires
        old(state).wf(),
    ensures
        final(state).wf(),
        !old(state).is_open ==> msg is None && *final(state) == *old(state),
        final(state).is_open == old(state).is_open,
        final(state).is_loading == old(state).is_loading,
        final(state).items@ == old(state).items@,
        final(state).filtered_indices@ == old(state).filtered_indices@,
        final(state).list == old(state).list,
        old(state).is_open && own_key_of::<Custom>(key, visible_height) is Some ==> msg is Some
            && *final(state) == *old(state),
        old(state).is_open && own_key_of::<Custom>(key, visible_height) is None && final(state).search_input.spec_text() != old(state).search_input.spec_text() && handles(
            key,
            old(state).search_input.spec_offset() > 0,
            true,
        ) ==> if final(state).search_input.spec_text().len() == 0 {
            msg == Some(PickerMsg::<Custom>::ClearSearch)
        } else {
            msg matches Some(PickerMsg::UpdateSearch(query)) && query@ == final(state).search_input.spec_text()
        },
        final(state).search_input == old(state).search_input || (after_key(
            old(state).search_input.spec_lines(),
            old(state).search_input.spec_cursor(),
            old(state).search_input.spec_selection(),
            key,
        ) matches Some(place) ==> final(state).search_input.spec_place() == place),
{
    key_to_picker_msg(state, key, visible_height, hooks)
}

/// Maps a mouse event to a picker message, for a picker drawn as
/// a centred dialog in `area`. A picker that is closed or shows no item
/// takes no mouse event. The wheel scrolls wherever the pointer is; a
/// pointer beside the columns of the list gives nothing; no other button
/// than the left does anything.
pub fn picker_mouse_msg<T, Custom>(
    state: &mut PickerState<T>,
    mouse: MouseEvent,
    area: Rect,
    bounds: DialogBounds,
    wanted_width: u16,
    wanted_height: u16,
    inline: bool,
) -> (msg: Option<PickerMsg<Custom>>)
    ensures
        final(state).is_open == old(state).is_open,
        final(state).is_loading == old(state).is_loading,
        final(state).items@ == old(state).items@,
        final(state).filtered_indices@ == old(state).filtered_indices@,
        final(state).search_input == old(state).search_input,
        !old(state).is_open || old(state).filtered_indices@.len() == 0 ==> msg is None
            && final(state).list == old(state).list,
        old(state).is_open && old(state).filtered_indices@.len() > 0 ==> match mouse.kind {
            MouseEventKind::ScrollUp => msg == Some(PickerMsg::<Custom>::ScrollUp) && final(state).list == old(state).list,
            MouseEventKind::ScrollDown => msg == Some(PickerMsg::<Custom>::ScrollDown) && final(state).list == old(state).list,
            MouseEventKind::Moved => beside_list(
                dialog_inside(area, bounds, wanted_width, wanted_height, inline),
                mouse.column,
            ) ==> msg is None,
            MouseEventKind::Down(MouseButton::Left) => beside_list(
                dialog_inside(area, bounds, wanted_width, wanted_height, inline),
                mouse.column,
            ) ==> msg is None,
            MouseEventKind::Up(MouseButton::Left) => beside_list(
                dialog_inside(area, bounds, wanted_width, wanted_height, inline),
                mouse.column,
            ) ==> msg is None,
            _ => msg is None && final(state).list == old(state).list,
        },
{
    mouse_to_picker_msg(state, mouse, area, bounds, wanted_width, wanted_height, inline)
}

} // verus!
