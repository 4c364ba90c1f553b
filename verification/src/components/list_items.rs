//! The styles of the items of a list.

use crate::layout::section_stack::{line_view, StyledLine, StyledSpan};
use crate::theme::{list_item_style, spec_list_item_style, CellStyle, Color, Theme, ThemeElement};
use vstd::prelude::*;
use vstd::string::*;

verus! {

/// The colours that an item takes when it is switched on or off.
#[derive(Debug, Clone, Copy, PartialEq, Eq, Structural)]
pub enum ToggleTone {
    /// Success when on, error when off.
    SuccessError,
    /// Success when on, the foreground when off.
    SuccessSurface,
}

/// The colour that shows whether an item is switched on.
pub open spec fn status_color_of(theme: &Theme, enabled: bool, tone: ToggleTone) -> Color {
    if enabled {
        theme.success
    } else {
        match tone {
            ToggleTone::SuccessError => theme.error,
            ToggleTone::SuccessSurface => theme.foreground,
        }
    }
}

/// The styles of an item that can be switched on and off: that of the
/// item, and that of its label. The item is drawn on the surface, in the
/// selection colour when selected and the foreground otherwise; the label
/// is bold, in the selection colour when selected and in the colour of its
/// state otherwise.
pub fn toggle_item_styles(enabled: bool, selected: bool, theme: &Theme, tone: ToggleTone) -> (styles: (
    CellStyle,
    CellStyle,
))
    ensures
        styles.0 == (CellStyle {
            fg: Some(
                if selected {
                    theme.selection
                } else {
                    theme.foreground
                },
            ),
            bg: Some(theme.background_surface),
            ..CellStyle::spec_plain()
        }),
        styles.1 == (CellStyle {
            fg: Some(
                if selected {
                    theme.selection
                } else {
                    status_color_of(theme, enabled, tone)
                },
            ),
            bg: Some(theme.background_surface),
            bold: true,
            ..CellStyle::spec_plain()
        }),
{
    let status = if enabled {
        theme.success
    } else {
        match tone {
            ToggleTone::SuccessError => theme.error,
            ToggleTone::SuccessSurface => theme.foreground,
        }
    };
    let base_fg = if selected {
        theme.selection
    } else {
        theme.foreground
    };
    let base = CellStyle::plain().bg(theme.background_surface).fg(base_fg);
    let label = theme.style(ThemeElement::Primary).bold().bg(theme.background_surface);
    let label = if selected {
        label.fg(theme.selection)
    } else {
        label.fg(status)
    };
    (base, label)
}

/// The style of a plain item: primary, or the selection colour in bold
/// when selected.
pub fn plain_item_style(selected: bool, theme: &Theme) -> (style: CellStyle)
    ensures
        style == if selected {
            CellStyle { bold: true, ..theme.spec_style(ThemeElement::Selection) }
        } else {
            theme.spec_style(ThemeElement::Primary)
        },
{
    if selected {
        theme.style(ThemeElement::Selection).bold()
    } else {
        theme.style(ThemeElement::Primary)
    }
}

/// The styles of an item with a value: that of the item, of its label and
/// of its value.
pub fn value_item_styles(selected: bool, theme: &Theme, value_style: ThemeElement) -> (styles: (
    CellStyle,
    CellStyle,
    CellStyle,
))
    ensures
        styles.0 == spec_list_item_style(theme, ThemeElement::Base, selected, false),
        styles.1 == (CellStyle { bold: true, ..theme.spec_style(ThemeElement::Primary) }),
        styles.2 == theme.spec_style(value_style),
{
    (
        list_item_style(theme, ThemeElement::Base, selected, false),
        theme.style(ThemeElement::Primary).bold(),
        theme.style(value_style),
    )
}

/// The style of a dropdown's item: on the surface, in the selection colour
/// and bold when selected, in the foreground otherwise.
pub fn dropdown_item_base_style(theme: &Theme, is_selected: bool) -> (style: CellStyle)
    ensures
        style == (CellStyle {
            fg: Some(
                if is_selected {
                    theme.selection
                } else {
                    theme.foreground
                },
            ),
            bg: Some(theme.background_surface),
            bold: is_selected,
            ..CellStyle::spec_plain()
        }),
{
    let fg = if is_selected {
        theme.selection
    } else {
        theme.foreground
    };
    let style = CellStyle::plain().bg(theme.background_surface).fg(fg);
    if is_selected {
        style.bold()
    } else {
        style
    }
}

/// The style of a picker's item: the default style, in the selection
/// colour and bold when selected.
pub fn picker_item_base_style(is_selected: bool, default_style: CellStyle, theme: &Theme) -> (style:
    CellStyle)
    ensures
        style == if is_selected {
            CellStyle { fg: Some(theme.selection), bold: true, ..default_style }
        } else {
            default_style
        },
{
    if !is_selected {
        return default_style;
    }
    default_style.fg(theme.selection).bold()
}

/// An item of a list as it is drawn: its line, and the style of its row.
#[derive(Debug)]
pub struct StyledItem {
    pub line: StyledLine,
    pub style: CellStyle,
}

/// Two blanks.
pub open spec fn indent() -> Seq<char> {
    seq![' ', ' ']
}

fn blanks(n: usize) -> (text: String)
    ensures
        text@ == Seq::new(n as nat, |i: int| ' '),
{
    let mut text = String::new();
    crate::primitives::strings::push_repeated(&mut text, ' ', n);
    proof {
        assert(text@ =~= Seq::new(n as nat, |i: int| ' '));
    }
    text
}

/// An item that can be switched on and off: two blanks in the style of
/// the item, then the label in its own style.
pub fn toggle_item(label: String, enabled: bool, selected: bool, theme: &Theme, tone: ToggleTone) -> (item:
    StyledItem)
    ensures
        item.style == (CellStyle {
            fg: Some(
                if selected {
                    theme.selection
                } else {
                    theme.foreground
                },
            ),
            bg: Some(theme.background_surface),
            ..CellStyle::spec_plain()
        }),
        line_view(item.line) == seq![
            (indent(), item.style),
            (
                label@,
                CellStyle {
                    fg: Some(
                        if selected {
                            theme.selection
                        } else {
                            status_color_of(theme, enabled, tone)
                        },
                    ),
                    bg: Some(theme.background_surface),
                    bold: true,
                    ..CellStyle::spec_plain()
                },
            ),
        ],
{
    let styles = toggle_item_styles(enabled, selected, theme, tone);
    let mut spans: Vec<StyledSpan> = Vec::new();
    let lead = blanks(2);
    proof {
        assert(lead@ =~= indent());
    }
    spans.push(StyledSpan { text: lead, style: styles.0 });
    spans.push(StyledSpan { text: label, style: styles.1 });
    let line = StyledLine { spans };
    proof {
        assert(line_view(line) =~= seq![(indent(), styles.0), (label@, styles.1)]);
    }
    StyledItem { line, style: styles.0 }
}

/// A plain item: two blanks and the label, all in the item's style.
pub fn plain_item(label: String, selected: bool, theme: &Theme) -> (item: StyledItem)
    ensures
        item.style == if selected {
            CellStyle { bold: true, ..theme.spec_style(ThemeElement::Selection) }
        } else {
            theme.spec_style(ThemeElement::Primary)
        },
        line_view(item.line) == seq![(indent(), item.style), (label@, item.style)],
{
    let style = plain_item_style(selected, theme);
    let mut spans: Vec<StyledSpan> = Vec::new();
    let lead = blanks(2);
    proof {
        assert(lead@ =~= indent());
    }
    spans.push(StyledSpan { text: lead, style });
    spans.push(StyledSpan { text: label, style });
    let line = StyledLine { spans };
    proof {
        assert(line_view(line) =~= seq![(indent(), style), (label@, style)]);
    }
    StyledItem { line, style }
}

/// An item with a value: two blanks, the label in bold primary, a blank,
/// and the value in the colour of `value_style`.
pub fn value_item(
    label: String,
    value: String,
    selected: bool,
    theme: &Theme,
    value_style: ThemeElement,
) -> (item: StyledItem)
    ensures
        item.style == spec_list_item_style(theme, ThemeElement::Base, selected, false),
        line_view(item.line) == seq![
            (indent(), CellStyle::spec_plain()),
            (label@, CellStyle { bold: true, ..theme.spec_style(ThemeElement::Primary) }),
            (seq![' '], CellStyle::spec_plain()),
            (value@, theme.spec_style(value_style)),
        ],
{
    let styles = value_item_styles(selected, theme, value_style);
    let mut spans: Vec<StyledSpan> = Vec::new();
    let lead = blanks(2);
    let gap = blanks(1);
    proof {
        assert(lead@ =~= indent());
        assert(gap@ =~= seq![' ']);
    }
    spans.push(StyledSpan { text: lead, style: CellStyle::plain() });
    spans.push(StyledSpan { text: label, style: styles.1 });
    spans.push(StyledSpan { text: gap, style: CellStyle::plain() });
    spans.push(StyledSpan { text: value, style: styles.2 });
    let line = StyledLine { spans };
    proof {
        assert(line_view(line) =~= seq![
            (indent(), CellStyle::spec_plain()),
            (label@, styles.1),
            (seq![' '], CellStyle::spec_plain()),
            (value@, styles.2),
        ]);
    }
    StyledItem { line, style: styles.0 }
}

/// Convenience to build an item with stateful style.
#[must_use]
pub fn make_list_item(text: String, theme: &Theme, selected: bool, hovered: bool) -> (item:
    StyledItem)
    ensures
        item.style == spec_list_item_style(theme, ThemeElement::Base, selected, hovered),
        line_view(item.line) == seq![(text@, CellStyle::spec_plain())],
{
    make_list_item_with_element(text, theme, ThemeElement::Base, selected, hovered)
}

/// Build an item using a specific theme element for its base style,
/// honoring selected and hovered.
#[must_use]
pub fn make_list_item_with_element(
    text: String,
    theme: &Theme,
    element: ThemeElement,
    selected: bool,
    hovered: bool,
) -> (item: StyledItem)
    ensures
        item.style == spec_list_item_style(theme, element, selected, hovered),
        line_view(item.line) == seq![(text@, CellStyle::spec_plain())],
{
    let style = list_item_style(theme, element, selected, hovered);
    let mut spans: Vec<StyledSpan> = Vec::new();
    spans.push(StyledSpan { text, style: CellStyle::plain() });
    let line = StyledLine { spans };
    proof {
        assert(line_view(line) =~= seq![(text@, CellStyle::spec_plain())]);
    }
    StyledItem { line, style }
}

} // verus!
