//! Dialogs with tabs: moving between tabs, moving in a tab's list, and the
//! labels of the tab bar.

use crate::components::dialog_shell::{split_rows, DialogBounds, Padding, RowConstraint};
use crate::components::list::{anchored_offset, next_index, prev_index, ListState};
use crate::layout::section_stack::{line_view, StyledLine, StyledSpan};
use crate::primitives::geom::Rect;
use crate::theme::{CellStyle, Theme, ThemeElement};
use crate::layout::visual::{cap16, cap_u16};
use crate::primitives::chars::{str_columns, table_str_width};
use crate::primitives::strings::{push_repeated, repeated};
use crate::runtime::keys::{KeyCode, KeyEvent};
use vstd::prelude::*;
use vstd::std_specs::cmp::PartialEqSpec;
use vstd::string::*;

verus! {

/// The bounds of a tabbed dialog: sixty columns by twenty rows at most,
/// three rows of header, two of footer, one cell of padding.
pub fn default_tabbed_dialog_opts() -> (bounds: DialogBounds)
    ensures
        bounds == (DialogBounds {
            max_width: 60,
            max_height: 20,
            header_rows: 3,
            footer_rows: 2,
            padding: Padding { left: 1, right: 1, top: 1, bottom: 1 },
        }),
{
    DialogBounds {
        max_width: 60,
        max_height: 20,
        header_rows: 3,
        footer_rows: 2,
        padding: Padding { left: 1, right: 1, top: 1, bottom: 1 },
    }
}

/// Rows that a tab's list is taken to show while keys move its selection.
pub const LIST_VIEWPORT_HEIGHT_ESTIMATE: usize = 10;

/// Index of the first tab from `k` on that equals `current`; zero where
/// there is none.
pub open spec fn tab_position<T: PartialEq>(order: Seq<T>, current: T, k: int) -> int
    decreases order.len() - k,
{
    if k >= order.len() {
        0
    } else if order[k].eq_spec(&current) {
        k
    } else {
        tab_position(order, current, k + 1)
    }
}

fn position_of<T: Copy + Eq>(order: &[T], current: T) -> (idx: usize)
    requires
        order@.len() > 0,
    ensures
        T::obeys_eq_spec() ==> idx == tab_position(order@, current, 0),
        idx < order@.len(),
{
    let mut k: usize = 0;
    while k < order.len()
        invariant
            k <= order.len(),
            order@.len() > 0,
            T::obeys_eq_spec() ==> tab_position(order@, current, 0) == tab_position(
                order@,
                current,
                k as int,
            ),
        decreases order.len() - k,
    {
        if order[k] == current {
            return k;
        }
        k = k + 1;
    }
    0
}

/// The tab after `current` in `order`, the first after the last. A tab
/// that is not in `order` counts as the first.
pub fn next_tab<T: Copy + Eq>(order: &[T], current: T) -> (tab: T)
    requires
        order@.len() > 0,
    ensures
        T::obeys_eq_spec() ==> tab == order@[next_index(
            tab_position(order@, current, 0),
            order@.len() as int,
        )],
{
    let idx = position_of(order, current);
    let len = order.len();
    let next: usize = if idx == len - 1 {
        0
    } else {
        idx + 1
    };
    proof {
        if idx + 1 < order.len() {
            vstd::arithmetic::div_mod::lemma_small_mod((idx + 1) as nat, order@.len());
        } else {
            vstd::arithmetic::div_mod::lemma_mod_self_0(order@.len() as int);
        }
    }
    order[next]
}

/// The tab before `current` in `order`, the last before the first. A tab
/// that is not in `order` counts as the first.
pub fn prev_tab<T: Copy + Eq>(order: &[T], current: T) -> (tab: T)
    requires
        order@.len() > 0,
    ensures
        T::obeys_eq_spec() ==> tab == order@[prev_index(
            tab_position(order@, current, 0),
            order@.len() as int,
        )],
{
    let idx = position_of(order, current);
    let prev: usize = if idx == 0 {
        order.len() - 1
    } else {
        idx - 1
    };
    order[prev]
}

/// What a key does to the tabs: nothing, a step forward, or a step back.
#[derive(Debug, Clone, Copy, PartialEq, Eq, Structural)]
pub enum TabMove {
    Stay,
    Forward,
    Back,
}

/// The step that a key asks for: back-tab goes back; tab, or the tab
/// character, goes forward, and back with shift.
pub open spec fn tab_move_of(key: KeyEvent) -> TabMove {
    match key.code {
        KeyCode::BackTab => TabMove::Back,
        KeyCode::Tab => if key.modifiers.shift {
            TabMove::Back
        } else {
            TabMove::Forward
        },
        KeyCode::Char(c) => if c != '\t' {
            TabMove::Stay
        } else if key.modifiers.shift {
            TabMove::Back
        } else {
            TabMove::Forward
        },
        _ => TabMove::Stay,
    }
}

/// The step between tabs that a key asks for.
pub fn tab_move(key: &KeyEvent) -> (step: TabMove)
    ensures
        step == tab_move_of(*key),
{
    match key.code {
        KeyCode::BackTab => TabMove::Back,
        KeyCode::Tab => if key.modifiers.shift {
            TabMove::Back
        } else {
            TabMove::Forward
        },
        KeyCode::Char(c) => if c != '\t' {
            TabMove::Stay
        } else if key.modifiers.shift {
            TabMove::Back
        } else {
            TabMove::Forward
        },
        _ => TabMove::Stay,
    }
}

/// Moves `current` to the next or previous tab where the key asks for it,
/// and says whether the key was a tab key.
pub fn apply_tab_navigation<T: Copy + Eq>(order: &[T], current: &mut T, key: &KeyEvent) -> (moved:
    bool)
    requires
        tab_move_of(*key) != TabMove::Stay ==> order@.len() > 0,
    ensures
        moved == (tab_move_of(*key) != TabMove::Stay),
        tab_move_of(*key) == TabMove::Stay ==> *final(current) == *old(current),
        T::obeys_eq_spec() && tab_move_of(*key) == TabMove::Forward ==> *final(current)
            == order@[next_index(tab_position(order@, *old(current), 0), order@.len() as int)],
        T::obeys_eq_spec() && tab_move_of(*key) == TabMove::Back ==> *final(current)
            == order@[prev_index(tab_position(order@, *old(current), 0), order@.len() as int)],
{
    match tab_move(key) {
        TabMove::Stay => false,
        TabMove::Forward => {
            *current = next_tab(order, *current);
            true
        },
        TabMove::Back => {
            *current = prev_tab(order, *current);
            true
        },
    }
}

/// Moves the selection of a list up or down on the arrow keys, brings the
/// window over it, and says whether the key was an arrow key.
pub fn handle_list_navigation(
    key: &KeyEvent,
    list: &mut ListState,
    len: usize,
    viewport_estimate: usize,
) -> (moved: bool)
    ensures
        moved == (key.code == KeyCode::Up || key.code == KeyCode::Down),
        !moved ==> *final(list) == *old(list),
        key.code == KeyCode::Up ==> final(list).selected == prev_index(
            old(list).selected as int,
            len as int,
        ),
        key.code == KeyCode::Down ==> final(list).selected == next_index(
            old(list).selected as int,
            len as int,
        ),
        moved ==> final(list).viewport_offset == anchored_offset(
            final(list).selected as int,
            viewport_estimate as int,
            old(list).viewport_offset as int,
        ),
{
    match key.code {
        KeyCode::Up => {
            list.select_prev(len);
            list.update_offset(viewport_estimate);
            true
        },
        KeyCode::Down => {
            list.select_next(len);
            list.update_offset(viewport_estimate);
            true
        },
        _ => false,
    }
}

/// Whether the key confirms: enter, or the space bar.
pub fn is_confirm_key(key: &KeyEvent) -> (confirms: bool)
    ensures
        confirms == (key.code == KeyCode::Enter || key.code == KeyCode::Char(' ')),
{
    match key.code {
        KeyCode::Enter => true,
        KeyCode::Char(c) => c == ' ',
        _ => false,
    }
}

/// What a tabbed dialog does with a key, before any handler of the tab is
/// asked.
#[derive(Debug, Clone, Copy, PartialEq, Eq, Structural)]
pub enum TabbedKey {
    /// The key moved between tabs or in the list: it is used up.
    Consumed,
    /// The key goes to the tab's handlers, with the selected row of its
    /// list (none for an empty list, or a tab without a list), and whether
    /// it confirms.
    Offer { selected: Option<usize>, confirms: bool },
}

/// Takes a key for a tab with a list: tabs first, then the list; what is
/// left is offered to the tab with the selected row.
pub fn route_list_key<Tab: Copy + Eq>(
    key: KeyEvent,
    order: &[Tab],
    active: &mut Tab,
    list: &mut ListState,
    len: usize,
) -> (step: TabbedKey)
    requires
        tab_move_of(key) != TabMove::Stay ==> order@.len() > 0,
    ensures
        tab_move_of(key) != TabMove::Stay ==> step == TabbedKey::Consumed && *final(list) == *old(
            list,
        ),
        Tab::obeys_eq_spec() && tab_move_of(key) == TabMove::Forward ==> *final(active)
            == order@[next_index(tab_position(order@, *old(active), 0), order@.len() as int)],
        Tab::obeys_eq_spec() && tab_move_of(key) == TabMove::Back ==> *final(active)
            == order@[prev_index(tab_position(order@, *old(active), 0), order@.len() as int)],
        tab_move_of(key) == TabMove::Stay ==> *final(active) == *old(active),
        tab_move_of(key) == TabMove::Stay && key.code == KeyCode::Up ==> final(list).selected
            == prev_index(old(list).selected as int, len as int),
        tab_move_of(key) == TabMove::Stay && key.code == KeyCode::Down ==> final(list).selected
            == next_index(old(list).selected as int, len as int),
        tab_move_of(key) == TabMove::Stay && (key.code == KeyCode::Up || key.code
            == KeyCode::Down) ==> final(list).viewport_offset == anchored_offset(
            final(list).selected as int,
            10,
            old(list).viewport_offset as int,
        ),
        tab_move_of(key) == TabMove::Stay && (key.code == KeyCode::Up || key.code
            == KeyCode::Down) ==> step == TabbedKey::Consumed,
        tab_move_of(key) == TabMove::Stay && key.code != KeyCode::Up && key.code != KeyCode::Down
            ==> *final(list) == *old(list) && step == (TabbedKey::Offer {
            selected: if len == 0 {
                None
            } else if old(list).selected < len {
                Some(old(list).selected)
            } else {
                Some((len - 1) as usize)
            },
            confirms: key.code == KeyCode::Enter || key.code == KeyCode::Char(' '),
        }),
{
    if apply_tab_navigation(order, active, &key) {
        return TabbedKey::Consumed;
    }
    if handle_list_navigation(&key, list, len, LIST_VIEWPORT_HEIGHT_ESTIMATE) {
        return TabbedKey::Consumed;
    }
    let selected = if len == 0 {
        None
    } else if list.selected < len {
        Some(list.selected)
    } else {
        Some(len - 1)
    };
    TabbedKey::Offer { selected, confirms: is_confirm_key(&key) }
}

/// Takes a key for a tab without a list: tabs first; what is left is
/// offered to the tab.
pub fn route_plain_key<Tab: Copy + Eq>(key: KeyEvent, order: &[Tab], active: &mut Tab) -> (step:
    TabbedKey)
    requires
        tab_move_of(key) != TabMove::Stay ==> order@.len() > 0,
    ensures
        tab_move_of(key) != TabMove::Stay ==> step == TabbedKey::Consumed,
        Tab::obeys_eq_spec() && tab_move_of(key) == TabMove::Forward ==> *final(active)
            == order@[next_index(tab_position(order@, *old(active), 0), order@.len() as int)],
        Tab::obeys_eq_spec() && tab_move_of(key) == TabMove::Back ==> *final(active)
            == order@[prev_index(tab_position(order@, *old(active), 0), order@.len() as int)],
        tab_move_of(key) == TabMove::Stay ==> *final(active) == *old(active) && step == (
        TabbedKey::Offer {
            selected: None,
            confirms: key.code == KeyCode::Enter || key.code == KeyCode::Char(' '),
        }),
{
    if apply_tab_navigation(order, active, &key) {
        return TabbedKey::Consumed;
    }
    TabbedKey::Offer { selected: None, confirms: is_confirm_key(&key) }
}

/// Columns that the first `k` labels take in a row, one blank between
/// neighbours (no more than a `u16` holds, at every step).
pub open spec fn labels_width(labels: Seq<Seq<char>>, k: int) -> int
    decreases k,
{
    if k <= 0 {
        0
    } else {
        let with_label = cap16(
            labels_width(labels, k - 1) + cap16(str_columns(labels[k - 1]) as int),
        );
        if k < labels.len() {
            cap16(with_label + 1) as int
        } else {
            with_label as int
        }
    }
}

/// The labels as sequences of characters.
pub open spec fn label_views(labels: Seq<String>) -> Seq<Seq<char>> {
    Seq::new(labels.len(), |i: int| labels[i]@)
}

/// Columns that the labels of a tab bar take, one blank between
/// neighbours.
pub fn tab_bar_width(labels: &Vec<String>) -> (used: u16)
    ensures
        used == labels_width(label_views(labels@), labels@.len() as int),
{
    let mut used: u16 = 0;
    let mut k: usize = 0;
    while k < labels.len()
        invariant
            k <= labels.len(),
            used == labels_width(label_views(labels@), k as int),
        decreases labels.len() - k,
    {
        proof {
            assert(label_views(labels@)[k as int] == labels@[k as int]@);
        }
        used = used.saturating_add(cap_u16(table_str_width(labels[k].as_str())));
        if k + 1 < labels.len() {
            used = used.saturating_add(1);
        }
        k = k + 1;
    }
    used
}

/// Blanks that fill the tab bar behind its last label: what `width`
/// columns have left over the labels.
pub fn tab_bar_padding(labels: &Vec<String>, width: u16) -> (blanks: u16)
    ensures
        blanks == if labels_width(label_views(labels@), labels@.len() as int) < width {
            width - labels_width(label_views(labels@), labels@.len() as int)
        } else {
            0
        },
{
    let used = tab_bar_width(labels);
    if used < width {
        width - used
    } else {
        0
    }
}

/// Fills the tab bar to `width` columns by blanks behind the last label.
pub fn pad_tab_labels(labels: &mut Vec<String>, width: u16)
    ensures
        final(labels)@.len() == old(labels)@.len(),
        forall|i: int|
            0 <= i < old(labels)@.len() - 1 ==> (#[trigger] final(labels)@[i])@ == old(
                labels,
            )@[i]@,
        old(labels)@.len() > 0 ==> final(labels)@.last()@ == old(labels)@.last()@ + repeated(
            ' ',
            (if labels_width(label_views(old(labels)@), old(labels)@.len() as int) < width {
                width - labels_width(label_views(old(labels)@), old(labels)@.len() as int)
            } else {
                0
            }) as nat,
        ),
{
    let blanks = tab_bar_padding(labels, width);
    if labels.len() == 0 {
        return ;
    }
    let last = labels.len() - 1;
    let mut text = labels[last].clone();
    push_repeated(&mut text, ' ', blanks as usize);
    labels.set(last, text);
}

/// A line of a hint: the label in the tertiary colour, then the value in
/// the colour of `value_style`.
pub fn hint_line(theme: &Theme, label: &str, value: String, value_style: ThemeElement) -> (line:
    StyledLine)
    ensures
        line_view(line) == seq![
            (label@, theme.spec_style(ThemeElement::Tertiary)),
            (value@, theme.spec_style(value_style)),
        ],
{
    let mut text = String::new();
    text.append(label);
    proof {
        assert(text@ =~= label@);
    }
    let mut spans: Vec<StyledSpan> = Vec::new();
    spans.push(StyledSpan { text, style: theme.style(ThemeElement::Tertiary) });
    spans.push(StyledSpan { text: value, style: theme.style(value_style) });
    let line = StyledLine { spans };
    proof {
        assert(line_view(line) =~= seq![
            (label@, theme.spec_style(ThemeElement::Tertiary)),
            (value@, theme.spec_style(value_style)),
        ]);
    }
    line
}

/// The runs of a tab bar: each label in its style, one plain blank
/// between neighbours.
pub open spec fn tab_runs(labels: Seq<Seq<char>>, styles: Seq<CellStyle>) -> Seq<
    (Seq<char>, CellStyle),
> {
    Seq::new(
        if labels.len() == 0 {
            0
        } else {
            (2 * labels.len() - 1) as nat
        },
        |i: int|
            if i % 2 == 0 {
                (labels[i / 2], styles[i / 2])
            } else {
                (seq![' '], CellStyle::spec_plain())
            },
    )
}

/// The labels with the last filled by blanks to `width` columns.
pub open spec fn padded_labels(labels: Seq<Seq<char>>, width: u16) -> Seq<Seq<char>> {
    if labels.len() == 0 {
        labels
    } else {
        labels.update(
            labels.len() - 1,
            labels.last() + repeated(
                ' ',
                (if labels_width(labels, labels.len() as int) < width {
                    width - labels_width(labels, labels.len() as int)
                } else {
                    0
                }) as nat,
            ),
        )
    }
}

/// The line of a tab bar `width` columns wide: the labels, each in its
/// style, one blank between neighbours, and the last label filled by
/// blanks to the width.
pub fn tab_bar_line_from_order(labels: Vec<String>, styles: &Vec<CellStyle>, width: u16) -> (line:
    StyledLine)
    requires
        styles@.len() == labels@.len(),
    ensures
        line_view(line) == tab_runs(padded_labels(label_views(labels@), width), styles@),
{
    let mut labels = labels;
    let ghost given = label_views(labels@);
    pad_tab_labels(&mut labels, width);
    proof {
        assert(label_views(labels@) =~= padded_labels(given, width)) by {
            assert forall|i: int| 0 <= i < labels@.len() implies #[trigger] label_views(
                labels@,
            )[i] == padded_labels(given, width)[i] by {
                if i < labels@.len() - 1 {
                    assert(labels@[i]@ == given[i]);
                } else {
                    assert(labels@.last()@ == labels@[i]@);
                    assert(given.last() == given[i]);
                }
            }
        }
    }
    let ghost wanted = tab_runs(label_views(labels@), styles@);
    let count = labels.len();
    let mut spans: Vec<StyledSpan> = Vec::new();
    let mut k: usize = 0;
    while k < count
        invariant
            k <= count,
            count == labels@.len(),
            styles@.len() == count,
            spans@.len() == (if k == 0 {
                0
            } else {
                2 * k - 1
            }),
            forall|i: int|
                0 <= i < spans@.len() ==> (#[trigger] spans@[i].text@, spans@[i].style)
                    == if i % 2 == 0 {
                    (labels@[i / 2]@, styles@[i / 2])
                } else {
                    (seq![' '], CellStyle::spec_plain())
                },
        decreases count - k,
    {
        if k > 0 {
            let mut blank = String::new();
            blank.push(' ');
            proof {
                assert(blank@ =~= seq![' ']);
            }
            spans.push(StyledSpan { text: blank, style: CellStyle::plain() });
        }
        spans.push(StyledSpan { text: labels[k].clone(), style: styles[k] });
        k = k + 1;
    }
    let line = StyledLine { spans };
    proof {
        assert(line_view(line) =~= wanted) by {
            assert forall|i: int| 0 <= i < line.spans@.len() implies #[trigger] line_view(
                line,
            )[i] == wanted[i] by {
                assert((line.spans@[i].text@, line.spans@[i].style) == if i % 2 == 0 {
                    (labels@[i / 2]@, styles@[i / 2])
                } else {
                    (seq![' '], CellStyle::spec_plain())
                });
            }
        }
    }
    line
}

/// The three rows of a tabbed dialog's header: the tab bar, a blank row
/// and the title. Each has the header's column and width.
pub fn tabbed_header_rows(header: Rect) -> (bands: [Rect; 3])
    ensures
        forall|i: int|
            0 <= i < 3 ==> (#[trigger] bands@[i]).x == header.x && bands@[i].width
                == header.width,
{
    let mut wanted: Vec<RowConstraint> = Vec::new();
    wanted.push(RowConstraint::Length(1));
    wanted.push(RowConstraint::Length(1));
    wanted.push(RowConstraint::Length(1));
    let rows = split_rows(header, &wanted);
    [rows[0], rows[1], rows[2]]
}

/// Rows of the hints below a list: those asked for, else one for each
/// line of the hints (no more than a `u16` holds).
pub fn resolved_hint_rows(hint_rows: Option<u16>, hint_lines: usize) -> (rows: u16)
    ensures
        rows == match hint_rows {
            Some(r) => r,
            None => cap16(hint_lines as int),
        },
{
    match hint_rows {
        Some(r) => r,
        None => cap_u16(hint_lines),
    }
}

/// The areas of a list with hints below it: the whole area for the list
/// where there are no hints; else a band for the list and one of
/// `hint_rows` rows asked for the hints, both with the area's column and
/// width.
pub fn list_with_hints_areas(area: Rect, hint_rows: u16) -> (areas: (Rect, Option<Rect>))
    ensures
        hint_rows == 0 ==> areas == (area, None::<Rect>),
        hint_rows > 0 ==> areas.1 is Some && areas.0.x == area.x && areas.0.width == area.width
            && areas.1->0.x == area.x && areas.1->0.width == area.width,
{
    if hint_rows == 0 {
        return (area, None);
    }
    let mut wanted: Vec<RowConstraint> = Vec::new();
    wanted.push(RowConstraint::Min(1));
    wanted.push(RowConstraint::Length(hint_rows));
    let rows = split_rows(area, &wanted);
    (rows[0], Some(rows[1]))
}

} // verus!
