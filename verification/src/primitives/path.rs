//! Finding the absolute paths under a base directory in a text, so that
//! they can be shown as mentions.

use crate::primitives::chars::{chars_of, is_space};
use crate::primitives::strings::string_of;
use crate::theme::{CellStyle, Color};
use vstd::prelude::*;
use vstd::string::*;

verus! {

/// How paths are shown.
#[derive(Debug)]
pub struct PathDisplayConfig {
    pub prefix: String,
    pub show_relative: bool,
    pub bold: bool,
    pub color: Option<Color>,
    pub base_dir: Option<String>,
}

impl Default for PathDisplayConfig {
    fn default() -> (config: Self)
        ensures
            config.prefix@ == seq!['@'],
            config.show_relative,
            !config.bold,
            config.color is None,
            config.base_dir is None,
    {
        let mut prefix = String::new();
        prefix.push('@');
        proof {
            assert(prefix@ =~= seq!['@']);
        }
        Self { prefix, show_relative: true, bold: false, color: None, base_dir: None }
    }
}

/// A piece of a text: plain text, or a path under the base directory.
#[derive(Debug)]
pub enum PathPiece {
    Text(String),
    Path(String),
}

/// What a piece holds, and whether it is a path.
pub open spec fn piece_view(piece: PathPiece) -> (bool, Seq<char>) {
    match piece {
        PathPiece::Text(s) => (false, s@),
        PathPiece::Path(s) => (true, s@),
    }
}

/// What the pieces hold.
pub open spec fn piece_views(pieces: Seq<PathPiece>) -> Seq<(bool, Seq<char>)> {
    Seq::new(pieces.len(), |i: int| piece_view(pieces[i]))
}

/// A path ends before `c`: white space, a quote, or one of `, ; ) ] }`.
pub open spec fn is_path_boundary(c: char) -> bool {
    is_space(c) || c == '"' || c == '\'' || c == ',' || c == ';' || c == ')' || c == ']' || c
        == '}'
}

/// `pat` stands in `text` at index `at`.
pub open spec fn occurs_at(text: Seq<char>, pat: Seq<char>, at: int) -> bool {
    0 <= at && at + pat.len() <= text.len() && text.subrange(at, at + pat.len()) == pat
}

/// Index of the first place at or after `k` where `pat` stands in `text`;
/// the length of `text` where there is none.
pub open spec fn first_occurrence(text: Seq<char>, pat: Seq<char>, k: int) -> int
    decreases text.len() + 1 - k,
{
    if k < 0 || k + pat.len() > text.len() {
        text.len() as int
    } else if occurs_at(text, pat, k) {
        k
    } else {
        first_occurrence(text, pat, k + 1)
    }
}

/// Index of the first boundary character at or after `k`; the length of
/// `text` where there is none.
pub open spec fn path_end(text: Seq<char>, k: int) -> int
    decreases text.len() - k,
{
    if k < 0 || k >= text.len() {
        text.len() as int
    } else if is_path_boundary(text[k]) {
        k
    } else {
        path_end(text, k + 1)
    }
}

/// The next path under `base` in `text` from `k` on, as `(end of the text
/// before it, start of the path, end of the path)`: the path starts where
/// `base` first stands and runs to the next boundary character; an `@`
/// right before it belongs to neither the text before nor the path.
pub open spec fn next_abs_segment(text: Seq<char>, base: Seq<char>, k: int) -> Option<
    (int, int, int),
> {
    let pos = first_occurrence(text, base, k);
    if pos >= text.len() || !occurs_at(text, base, pos) {
        None
    } else {
        Some(
            (
                if pos > k && text[pos - 1] == '@' {
                    pos - 1
                } else {
                    pos
                },
                pos,
                path_end(text, pos),
            ),
        )
    }
}

/// The base can be searched for: it is not empty and does not start with
/// a boundary character, so that every path found has a character.
pub open spec fn usable_base(base: Seq<char>) -> bool {
    base.len() > 0 && !is_path_boundary(base[0])
}

/// The pieces of `text` from `k` on: the texts between the paths under
/// `base`, and the paths.
pub open spec fn pieces_from(text: Seq<char>, base: Seq<char>, k: int) -> Seq<(bool, Seq<char>)>
    decreases text.len() - k,
{
    if k < 0 || k >= text.len() {
        Seq::empty()
    } else {
        match next_abs_segment(text, base, k) {
            None => seq![(false, text.subrange(k, text.len() as int))],
            Some((before_end, pos, end)) => {
                let before = if before_end > k {
                    seq![(false, text.subrange(k, before_end))]
                } else {
                    Seq::empty()
                };
                if k < end <= text.len() && pos <= end {
                    before + seq![(true, text.subrange(pos, end))] + pieces_from(text, base, end)
                } else {
                    before
                }
            },
        }
    }
}

/// The pieces of `text`: as `pieces_from` cuts it for a base that can be
/// searched for; the whole text, where it is not empty, for any other.
pub open spec fn path_pieces_of(text: Seq<char>, base: Seq<char>) -> Seq<(bool, Seq<char>)> {
    if usable_base(base) {
        pieces_from(text, base, 0)
    } else if text.len() > 0 {
        seq![(false, text)]
    } else {
        Seq::empty()
    }
}

/// Whether the character ends a path.
pub fn ends_path(c: char) -> (b: bool)
    ensures
        b == is_path_boundary(c),
{
    c.is_whitespace() || c == '"' || c == '\'' || c == ',' || c == ';' || c == ')' || c == ']'
        || c == '}'
}

fn stands_at(text: &Vec<char>, pat: &Vec<char>, at: usize) -> (b: bool)
    requires
        at + pat.len() <= text.len(),
    ensures
        b == occurs_at(text@, pat@, at as int),
{
    let mut j: usize = 0;
    while j < pat.len()
        invariant
            j <= pat.len(),
            at + pat.len() <= text.len(),
            forall|i: int| 0 <= i < j ==> text@[at + i] == pat@[i],
        decreases pat.len() - j,
    {
        if text[at + j] != pat[j] {
            proof {
                assert(text@.subrange(at as int, at + pat.len())[j as int] == text@[at + j]);
            }
            return false;
        }
        j = j + 1;
    }
    proof {
        assert(text@.subrange(at as int, at + pat.len()) =~= pat@);
    }
    true
}

/// Index of the first place at or after `from` where `pat` stands in
/// `text`; the length of `text` where there is none.
pub fn find_from(text: &Vec<char>, pat: &Vec<char>, from: usize) -> (at: usize)
    ensures
        at == first_occurrence(text@, pat@, from as int),
        at <= text.len(),
        at < text.len() ==> from <= at,
{
    if pat.len() > text.len() || from > text.len() - pat.len() {
        return text.len();
    }
    let last = text.len() - pat.len();
    let mut k: usize = from;
    while k < last
        invariant
            from <= k <= last,
            last == text.len() - pat.len(),
            first_occurrence(text@, pat@, from as int) == first_occurrence(text@, pat@, k as int),
        decreases last - k,
    {
        if stands_at(text, pat, k) {
            return k;
        }
        k = k + 1;
    }
    if stands_at(text, pat, last) {
        return last;
    }
    proof {
        assert(first_occurrence(text@, pat@, last + 1) == text@.len());
    }
    text.len()
}

fn find_path_end(text: &Vec<char>, from: usize) -> (at: usize)
    requires
        from <= text.len(),
    ensures
        at == path_end(text@, from as int),
        from <= at <= text.len(),
{
    let mut k: usize = from;
    while k < text.len() && !ends_path(text[k])
        invariant
            from <= k <= text.len(),
            path_end(text@, from as int) == path_end(text@, k as int),
        decreases text.len() - k,
    {
        k = k + 1;
    }
    k
}

/// The next path under `base` in `text` from `from` on: the end of the
/// text before it, its start and its end.
pub fn find_next_abs_segment(text: &Vec<char>, base: &Vec<char>, from: usize) -> (found: Option<
    (usize, usize, usize),
>)
    requires
        from <= text.len(),
    ensures
        match found {
            None => next_abs_segment(text@, base@, from as int) is None,
            Some((a, b, c)) => next_abs_segment(text@, base@, from as int) == Some(
                (a as int, b as int, c as int),
            ) && from <= a <= b <= c <= text.len(),
        },
{
    let pos = find_from(text, base, from);
    if pos >= text.len() || !(base.len() <= text.len() - pos && stands_at(text, base, pos)) {
        return None;
    }
    let before_end = if pos > from && text[pos - 1] == '@' {
        pos - 1
    } else {
        pos
    };
    Some((before_end, pos, find_path_end(text, pos)))
}

/// A path is found only past the place searched from, where the base can
/// be searched for.
pub proof fn lemma_segment_progress(text: Seq<char>, base: Seq<char>, k: int)
    requires
        usable_base(base),
        0 <= k <= text.len(),
    ensures
        next_abs_segment(text, base, k) matches Some((a, b, c)) ==> k <= b < c <= text.len(),
{
    lemma_first_occurrence(text, base, k);
    let pos = first_occurrence(text, base, k);
    if pos < text.len() && occurs_at(text, base, pos) {
        assert(text.subrange(pos, pos + base.len())[0] == base[0]);
        lemma_path_end(text, pos + 1);
    }
}

/// The first occurrence is at or after the place searched from.
pub proof fn lemma_first_occurrence(text: Seq<char>, pat: Seq<char>, k: int)
    requires
        0 <= k,
    ensures
        first_occurrence(text, pat, k) == text.len() || k <= first_occurrence(text, pat, k)
            < text.len(),
    decreases text.len() + 1 - k,
{
    if k + pat.len() <= text.len() && !occurs_at(text, pat, k) {
        lemma_first_occurrence(text, pat, k + 1);
    }
}

/// Where something is found, the pattern stands there.
pub proof fn lemma_first_found(text: Seq<char>, pat: Seq<char>, k: int)
    requires
        0 <= k,
        pat.len() > 0,
    ensures
        first_occurrence(text, pat, k) < text.len() ==> occurs_at(
            text,
            pat,
            first_occurrence(text, pat, k),
        ),
    decreases text.len() + 1 - k,
{
    if k + pat.len() <= text.len() && !occurs_at(text, pat, k) {
        lemma_first_found(text, pat, k + 1);
    }
}

/// A path ends at or after the place searched from.
pub proof fn lemma_path_end(text: Seq<char>, k: int)
    requires
        0 <= k <= text.len(),
    ensures
        k <= path_end(text, k) <= text.len(),
    decreases text.len() - k,
{
    if k < text.len() && !is_path_boundary(text[k]) {
        lemma_path_end(text, k + 1);
    }
}

/// Cuts `text` into plain text and the paths under `base`. A base that is
/// empty or starts with a boundary character finds nothing: the text is
/// one piece.
pub fn path_pieces(text: &str, base: &str) -> (pieces: Vec<PathPiece>)
    ensures
        piece_views(pieces@) == path_pieces_of(text@, base@),
{
    let chars = chars_of(text);
    let pat = chars_of(base);
    let mut pieces: Vec<PathPiece> = Vec::new();
    if pat.len() == 0 || ends_path(pat[0]) {
        if chars.len() > 0 {
            pieces.push(PathPiece::Text(string_of(&chars, 0, chars.len())));
            proof {
                assert(chars@.subrange(0, chars@.len() as int) =~= chars@);
                assert(piece_views(pieces@) =~= seq![(false, text@)]);
            }
        } else {
            proof {
                assert(piece_views(pieces@) =~= Seq::<(bool, Seq<char>)>::empty());
            }
        }
        return pieces;
    }
    let ghost whole = pieces_from(chars@, pat@, 0);
    let mut k: usize = 0;
    let mut open = true;
    proof {
        assert(piece_views(pieces@) + whole =~= whole);
    }
    while open && k < chars.len()
        invariant
            k <= chars.len(),
            usable_base(pat@),
            open ==> piece_views(pieces@) + pieces_from(chars@, pat@, k as int) == whole,
            !open ==> piece_views(pieces@) == whole,
        decreases
                (if open {
                    chars.len() - k + 1
                } else {
                    0
                }),
    {
        let ghost before_views = piece_views(pieces@);
        proof {
            lemma_segment_progress(chars@, pat@, k as int);
        }
        match find_next_abs_segment(&chars, &pat, k) {
            None => {
                pieces.push(PathPiece::Text(string_of(&chars, k, chars.len())));
                proof {
                    assert(piece_views(pieces@) =~= before_views + seq![
                        (false, chars@.subrange(k as int, chars@.len() as int)),
                    ]);
                }
                open = false;
            },
            Some((before_end, pos, end)) => {
                if before_end > k {
                    pieces.push(PathPiece::Text(string_of(&chars, k, before_end)));
                }
                pieces.push(PathPiece::Path(string_of(&chars, pos, end)));
                proof {
                    let before = if before_end > k {
                        seq![(false, chars@.subrange(k as int, before_end as int))]
                    } else {
                        Seq::<(bool, Seq<char>)>::empty()
                    };
                    assert(piece_views(pieces@) =~= before_views + (before + seq![
                        (true, chars@.subrange(pos as int, end as int)),
                    ]));
                    assert(piece_views(pieces@) + pieces_from(chars@, pat@, end as int)
                        =~= before_views + pieces_from(chars@, pat@, k as int));
                }
                k = end;
            },
        }
    }
    proof {
        if open {
            assert(piece_views(pieces@) + Seq::<(bool, Seq<char>)>::empty() =~= piece_views(
                pieces@,
            ));
        }
    }
    pieces
}

/// A path as it is shown: the prefix, then the path.
pub fn format_path(config: &PathDisplayConfig, display_path: &str) -> (shown: String)
    ensures
        shown@ == config.prefix@ + display_path@,
{
    let mut shown = String::new();
    shown.append(config.prefix.as_str());
    shown.append(display_path);
    proof {
        assert(shown@ =~= config.prefix@ + display_path@);
    }
    shown
}

/// The style of a path in a text of style `base_style`: bold where the
/// configuration asks for it, and in its colour where it names one.
pub fn path_style(config: &PathDisplayConfig, base_style: CellStyle) -> (style: CellStyle)
    ensures
        style == (CellStyle {
            bold: base_style.bold || config.bold,
            fg: match config.color {
                Some(c) => Some(c),
                None => base_style.fg,
            },
            ..base_style
        }),
{
    let style = if config.bold {
        base_style.bold()
    } else {
        base_style
    };
    match config.color {
        Some(c) => style.fg(c),
        None => style,
    }
}

} // verus!
