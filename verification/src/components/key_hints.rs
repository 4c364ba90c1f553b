//! Key hints: the row of bindings under the main area, its width, and the
//! areas that its parts are drawn in.

use crate::components::help_bar::{cow_text, same_text, HelpEntry};
use crate::layout::text::saturate;
use crate::layout::visual::{cap16, cap_u16};
use crate::primitives::chars::{chars_of, is_space};
use crate::primitives::geom::Rect;
use crate::primitives::scrollbar::{minus, plus16};
use std::borrow::Cow;
use vstd::prelude::*;
use vstd::string::*;

verus! {

/// Index of the first blank of `s` at or after `k`; the length of `s` where
/// there is none.
pub open spec fn first_blank(s: Seq<char>, k: int) -> int
    decreases s.len() - k,
{
    if k >= s.len() {
        s.len() as int
    } else if s[k] == ' ' {
        k
    } else {
        first_blank(s, k + 1)
    }
}

/// Index of the first character of `s` at or after `k` that is not white
/// space; the length of `s` where there is none.
pub open spec fn skip_spaces(s: Seq<char>, k: int) -> int
    decreases s.len() - k,
{
    if k >= s.len() {
        s.len() as int
    } else if !is_space(s[k]) {
        k
    } else {
        skip_spaces(s, k + 1)
    }
}

/// Index behind the last character of `s` before `k` that is not white
/// space, no less than `from`.
pub open spec fn trim_end(s: Seq<char>, from: int, k: int) -> int
    decreases k - from,
{
    if k <= from {
        from
    } else if !is_space(s[k - 1]) {
        k
    } else {
        trim_end(s, from, k - 1)
    }
}

/// Number of characters of `s` without the white space at its two ends.
pub open spec fn trimmed_len(s: Seq<char>) -> int {
    trim_end(s, skip_spaces(s, 0), s.len() as int) - skip_spaces(s, 0)
}

/// Key and description of a hint: what stands before its first blank, and
/// what follows that blank, without leading white space. A hint without a
/// blank is all key.
pub open spec fn hint_parts(hint: Seq<char>) -> (Seq<char>, Seq<char>) {
    let blank = first_blank(hint, 0);
    if blank < hint.len() {
        (hint.take(blank), hint.skip(skip_spaces(hint, blank + 1)))
    } else {
        (hint, Seq::empty())
    }
}

/// Width of an entry in characters: key and description, with one blank
/// between them where both are there.
pub open spec fn entry_width(entry: (Seq<char>, Seq<char>)) -> nat {
    if entry.1.len() == 0 {
        entry.0.len()
    } else if entry.0.len() == 0 {
        entry.1.len()
    } else {
        entry.0.len() + 1 + entry.1.len()
    }
}

/// Width of the first `k` hints laid out in a row, with two blanks behind
/// every hint but the last of all.
pub open spec fn hints_width(hints: Seq<Seq<char>>, k: int) -> nat
    decreases k,
{
    if k <= 0 {
        0
    } else {
        hints_width(hints, k - 1) + entry_width(hint_parts(hints[k - 1])) + if k < hints.len() {
            2nat
        } else {
            0nat
        }
    }
}

fn find_blank(chars: &Vec<char>, from: usize) -> (at: usize)
    requires
        from <= chars.len(),
    ensures
        at == first_blank(chars@, from as int),
        from <= at <= chars.len(),
{
    let mut k: usize = from;
    while k < chars.len() && chars[k] != ' '
        invariant
            from <= k <= chars.len(),
            first_blank(chars@, from as int) == first_blank(chars@, k as int),
        decreases chars.len() - k,
    {
        k = k + 1;
    }
    k
}

/// Index of the first character at or after `from` that is not white
/// space.
pub fn skip_white(chars: &Vec<char>, from: usize) -> (at: usize)
    requires
        from <= chars.len(),
    ensures
        at == skip_spaces(chars@, from as int),
        from <= at <= chars.len(),
{
    let mut k: usize = from;
    while k < chars.len() && chars[k].is_whitespace()
        invariant
            from <= k <= chars.len(),
            skip_spaces(chars@, from as int) == skip_spaces(chars@, k as int),
        decreases chars.len() - k,
    {
        k = k + 1;
    }
    k
}

/// Index behind the last character before the end that is not white space,
/// no less than `from`.
pub fn trim_back(chars: &Vec<char>, from: usize) -> (at: usize)
    requires
        from <= chars.len(),
    ensures
        at == trim_end(chars@, from as int, chars@.len() as int),
        from <= at <= chars.len(),
{
    let mut k: usize = chars.len();
    while k > from && chars[k - 1].is_whitespace()
        invariant
            from <= k <= chars.len(),
            trim_end(chars@, from as int, chars@.len() as int) == trim_end(
                chars@,
                from as int,
                k as int,
            ),
        decreases k,
    {
        k = k - 1;
    }
    k
}

/// Splits a hint into its key binding and its description.
pub fn hint_to_entry(hint: &str) -> (entry: HelpEntry<'_>)
    ensures
        entry.texts() == hint_parts(hint@),
{
    let chars = chars_of(hint);
    let blank = find_blank(&chars, 0);
    if blank < chars.len() {
        let start = skip_white(&chars, blank + 1);
        let key = hint.substring_char(0, blank);
        let rest = hint.substring_char(start, chars.len());
        proof {
            assert(hint@.subrange(0, blank as int) =~= hint@.take(blank as int));
            assert(hint@.subrange(start as int, hint@.len() as int) =~= hint@.skip(start as int));
        }
        HelpEntry { key: Cow::Borrowed(key), description: Cow::Borrowed(rest) }
    } else {
        let empty = hint.substring_char(0, 0);
        proof {
            assert(hint@.subrange(0, 0) =~= Seq::<char>::empty());
        }
        HelpEntry { key: Cow::Borrowed(hint), description: Cow::Borrowed(empty) }
    }
}

/// Width of an entry in characters (saturating).
pub fn entry_text_width(entry: &HelpEntry<'_>) -> (width: usize)
    ensures
        width == saturate(entry_width(entry.texts())),
{
    let key = chars_of(cow_text(&entry.key)).len();
    let desc = chars_of(cow_text(&entry.description)).len();
    let mut width = key;
    if desc != 0 {
        if key != 0 {
            width = width.saturating_add(1);
        }
        width = width.saturating_add(desc);
    }
    width
}

/// The hints as sequences of characters.
pub open spec fn hint_views(hints: Seq<String>) -> Seq<Seq<char>> {
    Seq::new(hints.len(), |i: int| hints[i]@)
}

/// Width in characters of the first `count` hints laid out in a row, two
/// blanks between neighbours (saturating).
pub fn hints_text_width(hints: &[String]) -> (width: usize)
    ensures
        width == saturate(hints_width(hint_views(hints@), hints@.len() as int)),
{
    let mut width: usize = 0;
    let mut idx: usize = 0;
    while idx < hints.len()
        invariant
            idx <= hints.len(),
            width == saturate(hints_width(hint_views(hints@), idx as int)),
        decreases hints.len() - idx,
    {
        let entry = hint_to_entry(hints[idx].as_str());
        proof {
            assert(hint_views(hints@)[idx as int] == hints@[idx as int]@);
        }
        width = width.saturating_add(entry_text_width(&entry));
        if idx + 1 < hints.len() {
            width = width.saturating_add(2);
        }
        idx = idx + 1;
    }
    width
}

/// Where the parts of the key hints are drawn.
#[derive(Debug, Clone, Copy, PartialEq, Eq, Structural)]
pub struct HintLayout {
    /// How many hints, from the first, stand on the left.
    pub main_hints: usize,
    /// Area of the hints on the left; nothing is drawn where it has no
    /// width.
    pub left: Rect,
    /// Area of the info text, right-aligned, where there is room for it.
    pub info: Option<Rect>,
    /// Area of the help hint at the right edge, where the last hint is the
    /// help hint and there is room for it.
    pub right: Option<Rect>,
}

/// The hint that is set apart at the right edge.
pub open spec fn help_hint() -> Seq<char> {
    "? for help"@
}

/// The layout of `hints` in `area`, beside an info text of `info_chars`
/// characters (none where there is no info text).
///
/// A help hint in the last place gets the last fifteen columns. The info
/// text gets what the remaining hints leave free of the columns before
/// that, at their right end; the hints get the rest.
pub open spec fn hint_layout(hints: Seq<Seq<char>>, info_chars: int, area: Rect) -> HintLayout {
    let set_apart = hints.len() > 0 && hints.last() == help_hint();
    let main = if set_apart {
        hints.len() - 1
    } else {
        hints.len() as int
    };
    let right_width = if !set_apart {
        0
    } else if area.width < 15 {
        area.width as int
    } else {
        15
    };
    let middle_width = area.width - right_width;
    let wanted = cap16(saturate(hints_width(hints.take(main), main)) as int) as int;
    let room = minus(middle_width, wanted);
    let info_width = if cap16(info_chars) <= room {
        cap16(info_chars) as int
    } else {
        room
    };
    let splits = info_chars > 0 && info_width > 0 && middle_width > 0;
    HintLayout {
        main_hints: main as usize,
        left: Rect {
            width: if splits {
                (middle_width - info_width) as u16
            } else {
                middle_width as u16
            },
            ..area
        },
        info: if splits {
            Some(
                Rect {
                    x: plus16(area.x as int, middle_width - info_width) as u16,
                    width: info_width as u16,
                    ..area
                },
            )
        } else {
            None
        },
        right: if right_width > 0 {
            Some(
                Rect {
                    x: plus16(area.x as int, middle_width) as u16,
                    width: right_width as u16,
                    ..area
                },
            )
        } else {
            None
        },
    }
}

/// Number of characters of the info text without the white space at its
/// ends; zero where there is none.
pub open spec fn info_chars_of(right_info: Option<&str>) -> int {
    match right_info {
        Some(info) => trimmed_len(info@),
        None => 0,
    }
}

/// Lays the key hints out in `area`: the hints on the left, an optional
/// info text to their right, and the help hint, where it is the last hint,
/// at the right edge. Nothing is laid out in an area without rows.
pub fn layout_hints(hints: &[String], right_info: Option<&str>, area: Rect) -> (layout: Option<
    HintLayout,
>)
    ensures
        layout == if area.height == 0 {
            None
        } else {
            Some(hint_layout(hint_views(hints@), info_chars_of(right_info), area))
        },
{
    if area.height == 0 {
        return None;
    }
    let ghost views = hint_views(hints@);
    let mut set_apart = false;
    if hints.len() > 0 {
        let last = chars_of(hints[hints.len() - 1].as_str());
        let help = chars_of("? for help");
        set_apart = same_text(&last, &help);
        proof {
            assert(views.last() == hints@[hints@.len() - 1]@);
        }
    }
    let main: usize = if set_apart {
        hints.len() - 1
    } else {
        hints.len()
    };
    let info_chars: usize = match right_info {
        Some(info) => {
            let chars = chars_of(info);
            let from = skip_white(&chars, 0);
            trim_back(&chars, from) - from
        },
        None => 0,
    };
    let right_width: u16 = if !set_apart {
        0
    } else if area.width < 15 {
        area.width
    } else {
        15
    };
    let middle_width: u16 = area.width - right_width;
    let wanted = cap_u16(main_width(hints, main));
    let room = middle_width.saturating_sub(wanted);
    let info_full = cap_u16(info_chars);
    let info_width = if info_full <= room {
        info_full
    } else {
        room
    };
    let splits = info_chars > 0 && info_width > 0 && middle_width > 0;
    let left = Rect {
        width: if splits {
            middle_width - info_width
        } else {
            middle_width
        },
        ..area
    };
    let info = if splits {
        Some(
            Rect {
                x: area.x.saturating_add(middle_width - info_width),
                width: info_width,
                ..area
            },
        )
    } else {
        None
    };
    let right = if right_width > 0 {
        Some(Rect { x: area.x.saturating_add(middle_width), width: right_width, ..area })
    } else {
        None
    };
    Some(HintLayout { main_hints: main, left, info, right })
}

/// Width of the first `count` hints, laid out as a row of their own.
fn main_width(hints: &[String], count: usize) -> (width: usize)
    requires
        count <= hints.len(),
    ensures
        width == saturate(hints_width(hint_views(hints@).take(count as int), count as int)),
{
    let ghost row = hint_views(hints@).take(count as int);
    let mut width: usize = 0;
    let mut idx: usize = 0;
    while idx < count
        invariant
            idx <= count <= hints.len(),
            row == hint_views(hints@).take(count as int),
            width == saturate(hints_width(row, idx as int)),
        decreases count - idx,
    {
        let entry = hint_to_entry(hints[idx].as_str());
        proof {
            assert(row[idx as int] == hints@[idx as int]@);
        }
        width = width.saturating_add(entry_text_width(&entry));
        if idx + 1 < count {
            width = width.saturating_add(2);
        }
        idx = idx + 1;
    }
    width
}

} // verus!
