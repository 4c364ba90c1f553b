//! What a wizard shows around its steps: the active tab, the title with
//! the step indicator, and the texts of the footer.

use crate::components::dialog_shell::{DialogBounds, Padding};
use crate::layout::fuzzy::{lowercase, lowercase_of};
use crate::primitives::chars::{str_columns, table_str_width};
use crate::primitives::scrollbar::minus;
use crate::primitives::strings::{decimal, push_decimal, push_repeated, repeated};
use crate::wizard::model::ViewMode;
use vstd::prelude::*;
use vstd::string::*;

verus! {

/// The bounds of a wizard's dialog: sixty columns by twenty rows at most,
/// three rows of header, one of footer, one cell of padding.
pub fn dialog_opts_hooks() -> (bounds: DialogBounds)
    ensures
        bounds == (DialogBounds {
            max_width: 60,
            max_height: 20,
            header_rows: 3,
            footer_rows: 1,
            padding: Padding { left: 1, right: 1, top: 1, bottom: 1 },
        }),
{
    DialogBounds {
        max_width: 60,
        max_height: 20,
        header_rows: 3,
        footer_rows: 1,
        padding: Padding { left: 1, right: 1, top: 1, bottom: 1 },
    }
}

/// The tab that is active: that of the list while the list is shown, that
/// of the wizard otherwise; no further than the last of `tab_count` tabs.
pub fn active_tab(
    view_mode: ViewMode,
    list_active_tab: usize,
    wizard_active_tab: usize,
    tab_count: usize,
) -> (tab: usize)
    ensures
        tab == {
            let wanted = if view_mode == ViewMode::List {
                list_active_tab
            } else {
                wizard_active_tab
            };
            if tab_count == 0 {
                0
            } else if wanted < tab_count {
                wanted as int
            } else {
                tab_count - 1
            }
        },
{
    let wanted = match view_mode {
        ViewMode::List => list_active_tab,
        ViewMode::Wizard => wizard_active_tab,
        ViewMode::Confirmation => wizard_active_tab,
    };
    if tab_count == 0 {
        0
    } else if wanted < tab_count {
        wanted
    } else {
        tab_count - 1
    }
}

/// The title of a row `width` columns wide: the text at the left, the
/// indicator at the right, and between them the blanks that fill the row,
/// one at least.
pub open spec fn title_with_indicator_of(width: u16, base_text: Seq<char>, indicator: Seq<char>)
    -> Seq<char> {
    let gap = minus(width as int, str_columns(base_text) + str_columns(indicator));
    base_text + repeated(
        ' ',
        if gap < 1 {
            1
        } else {
            gap as nat
        },
    ) + indicator
}

/// The title of a row: the text, the indicator flush right where the row
/// is wide enough, one blank behind the text otherwise.
pub fn format_title_with_indicator(width: u16, base_text: &str, indicator: &str) -> (title: String)
    ensures
        title@ == title_with_indicator_of(width, base_text@, indicator@),
{
    let base_len = table_str_width(base_text);
    let indicator_len = table_str_width(indicator);
    let total_width = width as usize;
    let gap: usize = if indicator_len > total_width || base_len > total_width - indicator_len {
        0
    } else {
        total_width - indicator_len - base_len
    };
    let blanks: usize = if gap < 1 {
        1
    } else {
        gap
    };
    let mut title = String::new();
    title.append(base_text);
    push_repeated(&mut title, ' ', blanks);
    title.append(indicator);
    proof {
        assert(title@ =~= title_with_indicator_of(width, base_text@, indicator@));
    }
    title
}

/// The indicator of step `step_num` of `step_count`: `[n/m]`.
pub open spec fn step_indicator_of(step_num: nat, step_count: nat) -> Seq<char> {
    seq!['['] + decimal(step_num) + seq!['/'] + decimal(step_count) + seq![']']
}

/// The indicator of a step among the steps.
pub fn step_indicator(step_num: usize, step_count: usize) -> (text: String)
    ensures
        text@ == step_indicator_of(step_num as nat, step_count as nat),
{
    let mut text = String::new();
    text.push('[');
    push_decimal(&mut text, step_num);
    text.push('/');
    push_decimal(&mut text, step_count);
    text.push(']');
    proof {
        assert(text@ =~= step_indicator_of(step_num as nat, step_count as nat));
    }
    text
}

/// The title of a wizard at a step: the wizard's title, a dash, the
/// step's title, and the step indicator at the right.
pub fn wizard_title(
    width: u16,
    base_title: &str,
    step_title: &str,
    step_num: usize,
    step_count: usize,
) -> (title: String)
    ensures
        title@ == title_with_indicator_of(
            width,
            base_title@ + seq![' ', '-', ' '] + step_title@,
            step_indicator_of(step_num as nat, step_count as nat),
        ),
{
    let mut base = String::new();
    base.append(base_title);
    base.push(' ');
    base.push('-');
    base.push(' ');
    base.append(step_title);
    proof {
        assert(base@ =~= base_title@ + seq![' ', '-', ' '] + step_title@);
    }
    let indicator = step_indicator(step_num, step_count);
    format_title_with_indicator(width, base.as_str(), indicator.as_str())
}

/// The keys of the footer at step `step_num` of `step_count`, where the
/// step names none of its own: the first step cannot go back, the last
/// saves.
pub fn default_nav_text(step_num: usize, step_count: usize) -> (text: &'static str)
    ensures
        text@ == if step_num == 1 {
            "enter next  esc cancel"@
        } else if step_num == step_count {
            "enter save  esc cancel  \u{2190} back"@
        } else {
            "enter next  esc cancel  \u{2190} back"@
        },
{
    if step_num == 1 {
        "enter next  esc cancel"
    } else if step_num == step_count {
        "enter save  esc cancel  \u{2190} back"
    } else {
        "enter next  esc cancel  \u{2190} back"
    }
}

/// The keys of the footer: the step's own hint where it has one, the
/// default for its place otherwise.
pub fn nav_text<'a>(hint: Option<&'a str>, step_num: usize, step_count: usize) -> (text: &'a str)
    ensures
        text@ == match hint {
            Some(h) => h@,
            None => if step_num == 1 {
                "enter next  esc cancel"@
            } else if step_num == step_count {
                "enter save  esc cancel  \u{2190} back"@
            } else {
                "enter next  esc cancel  \u{2190} back"@
            },
        },
{
    match hint {
        Some(h) => h,
        None => default_nav_text(step_num, step_count),
    }
}

/// The help below the list: how to close and create where there are no
/// items (and how to change tabs, where there is more than one), else
/// the keys of the list.
pub fn list_help_text(no_items: bool, tab_count: usize) -> (text: String)
    ensures
        text@ == if !no_items {
            "enter edit  esc close  \u{2191}\u{2193} navigate  n new"@
        } else if tab_count > 1 {
            "esc close"@ + "  tab next"@ + "  n new item"@
        } else {
            "esc close"@ + "  n new item"@
        },
{
    if !no_items {
        return "enter edit  esc close  \u{2191}\u{2193} navigate  n new".to_owned();
    }
    let mut text = "esc close".to_owned();
    if tab_count > 1 {
        text.append("  tab next");
    }
    text.append("  n new item");
    text
}

/// The message of a list without items: `No {label} configured`, the
/// label in lower case.
pub fn empty_list_message(empty_label: &str) -> (text: String)
    ensures
        text@ == "No "@ + lowercase_of(empty_label@) + " configured"@,
{
    let label = lowercase(empty_label);
    let mut text = "No ".to_owned();
    text.append(label.as_str());
    text.append(" configured");
    text
}

/// The question before an item is deleted.
pub fn confirm_delete_message(item_name: &str) -> (text: String)
    ensures
        text@ == "Delete '"@ + item_name@ + "'?\n\nThis action cannot be undone."@,
{
    let mut text = "Delete '".to_owned();
    text.append(item_name);
    text.append("'?\n\nThis action cannot be undone.");
    text
}

} // verus!
