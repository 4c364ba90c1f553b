//! The help bar: key bindings with their descriptions, laid out as a row
//! of styled pieces.

use crate::components::dialog_shell::{block_area, block_inner_of, Padding};
use crate::components::key_hints::first_blank;
use crate::primitives::chars::chars_of;
use crate::primitives::geom::Rect;
use crate::primitives::path::{find_from, first_occurrence, lemma_first_found};
use crate::primitives::strings::string_of;
use std::borrow::Cow;
use vstd::prelude::*;
use vstd::std_specs::convert::IntoSpec;
use vstd::string::*;

verus! {

/// Structured representation of a help bar entry (key binding and
/// description).
#[derive(Debug)]
pub struct HelpEntry<'a> {
    pub key: Cow<'a, str>,
    pub description: Cow<'a, str>,
}

impl<'a> HelpEntry<'a> {
    /// The entry with this key and description.
    #[must_use]
    pub fn new<K, D>(key: K, description: D) -> (entry: Self) where
        K: Into<Cow<'a, str>>,
        D: Into<Cow<'a, str>>,

        ensures
            K::obeys_into_spec() ==> entry.key == key.into_spec(),
            D::obeys_into_spec() ==> entry.description == description.into_spec(),
    {
        Self { key: key.into(), description: description.into() }
    }

    /// The entry as a pair of texts.
    pub open spec fn texts(&self) -> (Seq<char>, Seq<char>) {
        (self.key@, self.description@)
    }
}

/// A copy of a text that is borrowed or owned.
pub fn clone_text<'a>(text: &Cow<'a, str>) -> (copy: Cow<'a, str>)
    ensures
        copy@ == text@,
{
    match text {
        Cow::Borrowed(borrowed) => Cow::Borrowed(*borrowed),
        Cow::Owned(owned) => Cow::Owned(owned.clone()),
    }
}

impl<'a> Clone for HelpEntry<'a> {
    fn clone(&self) -> (copy: Self)
        ensures
            copy.texts() == self.texts(),
    {
        HelpEntry { key: clone_text(&self.key), description: clone_text(&self.description) }
    }
}

/// How a piece of the help bar is drawn.
#[derive(Debug, Clone, Copy, PartialEq, Eq, Structural)]
pub enum HelpRole {
    /// A key binding.
    Key,
    /// A key binding that stands out: one in brackets, or the one plain key
    /// that the caller names.
    KeyEmphasis,
    /// A description, or the space around one.
    Description,
}

/// One piece of the help bar.
#[derive(Debug, Clone)]
pub struct HelpSpan {
    pub text: String,
    pub role: HelpRole,
}

/// The pieces as pairs of text and role.
pub open spec fn span_views(spans: Seq<HelpSpan>) -> Seq<(Seq<char>, HelpRole)> {
    Seq::new(spans.len(), |i: int| (spans[i].text@, spans[i].role))
}

/// The entries as pairs of texts.
pub open spec fn entry_views(entries: Seq<HelpEntry<'_>>) -> Seq<(Seq<char>, Seq<char>)> {
    Seq::new(entries.len(), |i: int| entries[i].texts())
}

/// Role of a key: it stands out where it starts with `[` or is the plain
/// key to match.
pub open spec fn key_role(key: Seq<char>, plain_match: Option<Seq<char>>) -> HelpRole {
    if (key.len() > 0 && key[0] == '[') || plain_match == Some(key) {
        HelpRole::KeyEmphasis
    } else {
        HelpRole::Key
    }
}

/// The pieces of one entry: the key, where it has one; then the
/// description, where it has one, behind a single space if there is a key.
pub open spec fn entry_pieces(entry: (Seq<char>, Seq<char>), plain_match: Option<Seq<char>>)
    -> Seq<(Seq<char>, HelpRole)> {
    let key_part = if entry.0.len() > 0 {
        seq![(entry.0, key_role(entry.0, plain_match))]
    } else {
        Seq::empty()
    };
    let gap = if entry.0.len() > 0 && entry.1.len() > 0 {
        seq![(seq![' '], HelpRole::Description)]
    } else {
        Seq::empty()
    };
    let text_part = if entry.1.len() > 0 {
        seq![(entry.1, HelpRole::Description)]
    } else {
        Seq::empty()
    };
    key_part + gap + text_part
}

/// The pieces of the first `k` entries, with the separator, where it is
/// not empty, behind each entry but the last of all.
pub open spec fn bar_pieces(
    entries: Seq<(Seq<char>, Seq<char>)>,
    separator: Seq<char>,
    plain_match: Option<Seq<char>>,
    k: int,
) -> Seq<(Seq<char>, HelpRole)>
    decreases k,
{
    if k <= 0 {
        Seq::empty()
    } else {
        let tail = if k < entries.len() && separator.len() > 0 {
            seq![(separator, HelpRole::Description)]
        } else {
            Seq::empty()
        };
        bar_pieces(entries, separator, plain_match, k - 1) + entry_pieces(
            entries[k - 1],
            plain_match,
        ) + tail
    }
}

/// Whether two texts are the same.
pub fn same_text(a: &Vec<char>, b: &Vec<char>) -> (same: bool)
    ensures
        same == (a@ == b@),
{
    if a.len() != b.len() {
        return false;
    }
    let mut k: usize = 0;
    while k < a.len()
        invariant
            k <= a.len(),
            a.len() == b.len(),
            forall|i: int| 0 <= i < k ==> a@[i] == b@[i],
        decreases a.len() - k,
    {
        if a[k] != b[k] {
            proof {
                assert(a@[k as int] != b@[k as int]);
            }
            return false;
        }
        k = k + 1;
    }
    proof {
        assert(a@ =~= b@);
    }
    true
}

/// The text of an optional string.
pub open spec fn text_view(s: Option<&str>) -> Option<Seq<char>> {
    match s {
        Some(t) => Some(t@),
        None => None,
    }
}

/// Lays the entries out as the pieces of a help bar: each key in its role,
/// each description behind it, and `separator` between entries.
pub fn help_spans(
    entries: &Vec<HelpEntry<'_>>,
    separator: &str,
    plain_key_style_override_match: Option<&str>,
) -> (spans: Vec<HelpSpan>)
    ensures
        span_views(spans@) == bar_pieces(
            entry_views(entries@),
            separator@,
            text_view(plain_key_style_override_match),
            entries@.len() as int,
        ),
{
    let ghost views = entry_views(entries@);
    let ghost wanted = text_view(plain_key_style_override_match);
    let sep = chars_of(separator);
    let mut spans: Vec<HelpSpan> = Vec::new();
    let mut k: usize = 0;
    proof {
        assert(span_views(spans@) =~= bar_pieces(views, separator@, wanted, 0));
    }
    while k < entries.len()
        invariant
            k <= entries.len(),
            views == entry_views(entries@),
            wanted == text_view(plain_key_style_override_match),
            sep@ == separator@,
            span_views(spans@) == bar_pieces(views, separator@, wanted, k as int),
        decreases entries.len() - k,
    {
        let ghost before = span_views(spans@);
        let key = chars_of(cow_text(&entries[k].key));
        let description = chars_of(cow_text(&entries[k].description));
        proof {
            assert(views[k as int] == (key@, description@));
        }
        if key.len() > 0 {
            let matches = match plain_key_style_override_match {
                Some(plain) => {
                    let wanted_key = chars_of(plain);
                    same_text(&key, &wanted_key)
                },
                None => false,
            };
            let role = if key[0] == '[' || matches {
                HelpRole::KeyEmphasis
            } else {
                HelpRole::Key
            };
            let ghost earlier = span_views(spans@);
            spans.push(HelpSpan { text: string_of(&key, 0, key.len()), role });
            proof {
                assert(key@.subrange(0, key@.len() as int) =~= key@);
                assert(span_views(spans@) =~= earlier.push((key@, role)));
            }
        }
        if description.len() > 0 {
            if key.len() > 0 {
                let ghost earlier = span_views(spans@);
                let mut gap = String::new();
                gap.push(' ');
                spans.push(HelpSpan { text: gap, role: HelpRole::Description });
                proof {
                    assert(gap@ =~= seq![' ']);
                    assert(span_views(spans@) =~= earlier.push((seq![' '], HelpRole::Description)));
                }
            }
            let ghost earlier = span_views(spans@);
            spans.push(
                HelpSpan {
                    text: string_of(&description, 0, description.len()),
                    role: HelpRole::Description,
                },
            );
            proof {
                assert(description@.subrange(0, description@.len() as int) =~= description@);
                assert(span_views(spans@) =~= earlier.push((description@, HelpRole::Description)));
            }
        }
        proof {
            assert(span_views(spans@) =~= before + entry_pieces(views[k as int], wanted));
        }
        if k + 1 < entries.len() && sep.len() > 0 {
            let ghost earlier = span_views(spans@);
            spans.push(HelpSpan { text: string_of(&sep, 0, sep.len()), role: HelpRole::Description });
            proof {
                assert(sep@.subrange(0, sep@.len() as int) =~= sep@);
                assert(span_views(spans@) =~= earlier.push((separator@, HelpRole::Description)));
            }
        }
        proof {
            assert(span_views(spans@) =~= bar_pieces(views, separator@, wanted, k + 1));
        }
        k = k + 1;
    }
    spans
}

/// The text of a string that is borrowed or owned.
pub fn cow_text<'b>(text: &'b Cow<'_, str>) -> (s: &'b str)
    ensures
        s@ == text@,
{
    match text {
        Cow::Borrowed(borrowed) => borrowed,
        Cow::Owned(owned) => owned.as_str(),
    }
}

/// Two blanks: what stands between the entries of a help text.
pub open spec fn two_blanks() -> Seq<char> {
    seq![' ', ' ']
}

/// A piece of a help text as a list: nothing for an empty piece.
pub open spec fn kept_piece(piece: Seq<char>) -> Seq<Seq<char>> {
    if piece.len() == 0 {
        Seq::empty()
    } else {
        seq![piece]
    }
}

/// The pieces of `text` from `k` on that stand between pairs of blanks,
/// the pairs taken from the left; empty pieces are left out.
pub open spec fn help_pairs_from(text: Seq<char>, k: int) -> Seq<Seq<char>>
    decreases text.len() - k,
{
    if k < 0 || k > text.len() {
        Seq::empty()
    } else {
        let at = first_occurrence(text, two_blanks(), k);
        if k <= at && at + 2 <= text.len() {
            kept_piece(text.subrange(k, at)) + help_pairs_from(text, at + 2)
        } else {
            kept_piece(text.subrange(k, text.len() as int))
        }
    }
}

/// A piece of a help text as an entry: the key before its first blank,
/// the description behind it; a piece without a blank is a key alone.
pub open spec fn pair_entry(pair: Seq<char>) -> (Seq<char>, Seq<char>) {
    let at = first_blank(pair, 0);
    if at < pair.len() {
        (pair.take(at), pair.skip(at + 1))
    } else {
        (pair, Seq::empty())
    }
}

/// The entries of a help text: none for a text without two blanks in a
/// row, which is plain text; else one for each piece between pairs of
/// blanks.
pub open spec fn help_entries_of(text: Seq<char>) -> Option<Seq<(Seq<char>, Seq<char>)>> {
    if first_occurrence(text, two_blanks(), 0) < text.len() {
        Some(
            Seq::new(
                help_pairs_from(text, 0).len(),
                |i: int| pair_entry(help_pairs_from(text, 0)[i]),
            ),
        )
    } else {
        None
    }
}

/// The entry of the piece `text[from..to]`.
fn entry_of<'a>(text: &'a str, chars: &Vec<char>, from: usize, to: usize) -> (entry: HelpEntry<'a>)
    requires
        chars@ == text@,
        from <= to <= chars.len(),
    ensures
        entry.texts() == pair_entry(text@.subrange(from as int, to as int)),
{
    let ghost pair = text@.subrange(from as int, to as int);
    let mut at: usize = from;
    while at < to && chars[at] != ' '
        invariant
            from <= at <= to <= chars.len(),
            chars@ == text@,
            pair == text@.subrange(from as int, to as int),
            first_blank(pair, 0) == first_blank(pair, at - from),
        decreases to - at,
    {
        proof {
            assert(pair[at - from] == chars@[at as int]);
        }
        at = at + 1;
    }
    proof {
        if at < to {
            assert(pair[at - from] == chars@[at as int]);
        }
    }
    if at < to {
        let key = text.substring_char(from, at);
        let description = text.substring_char(at + 1, to);
        proof {
            assert(text@.subrange(from as int, at as int) =~= pair.take(at - from));
            assert(text@.subrange(at + 1, to as int) =~= pair.skip(at - from + 1));
        }
        HelpEntry { key: Cow::Borrowed(key), description: Cow::Borrowed(description) }
    } else {
        let key = text.substring_char(from, to);
        let description = text.substring_char(to, to);
        proof {
            assert(text@.subrange(to as int, to as int) =~= Seq::<char>::empty());
        }
        HelpEntry { key: Cow::Borrowed(key), description: Cow::Borrowed(description) }
    }
}

/// Reads a help text of the form `key description  key description`:
/// the entries between pairs of blanks. A text without two blanks in a
/// row is plain text and gives `None`.
pub fn parse_help_text(text: &str) -> (entries: Option<Vec<HelpEntry<'_>>>)
    ensures
        match entries {
            Some(list) => Some(entry_views(list@)) == help_entries_of(text@),
            None => help_entries_of(text@) is None,
        },
{
    let chars = chars_of(text);
    let mut sep: Vec<char> = Vec::new();
    sep.push(' ');
    sep.push(' ');
    proof {
        assert(sep@ =~= two_blanks());
    }
    if find_from(&chars, &sep, 0) >= chars.len() {
        return None;
    }
    let ghost pairs = help_pairs_from(text@, 0);
    let mut list: Vec<HelpEntry<'_>> = Vec::new();
    let mut k: usize = 0;
    let mut open = true;
    while open
        invariant
            k <= chars.len(),
            chars@ == text@,
            sep@ == two_blanks(),
            pairs == help_pairs_from(text@, 0),
            open ==> list@.len() <= pairs.len() && pairs.skip(list@.len() as int)
                == help_pairs_from(text@, k as int),
            !open ==> list@.len() == pairs.len(),
            forall|i: int|
                0 <= i < list@.len() ==> (#[trigger] list@[i]).texts() == pair_entry(pairs[i]),
        decreases
                (if open {
                    chars.len() - k + 1
                } else {
                    0
                }),
    {
        let at = find_from(&chars, &sep, k);
        let ghost done = list@.len() as int;
        let ghost rest = help_pairs_from(text@, k as int);
        proof {
            lemma_first_found(text@, two_blanks(), k as int);
            assert(pairs.skip(done).len() == pairs.len() - done);
        }
        let to = if at < chars.len() {
            at
        } else {
            chars.len()
        };
        let ghost piece = text@.subrange(k as int, to as int);
        proof {
            if at < chars.len() {
                assert(rest == kept_piece(piece) + help_pairs_from(text@, at + 2));
            } else {
                assert(rest == kept_piece(piece));
            }
        }
        if to > k {
            proof {
                assert(kept_piece(piece) == seq![piece]);
                assert(rest[0] == piece);
                assert(pairs.skip(done)[0] == pairs[done]);
            }
            list.push(entry_of(text, &chars, k, to));
            proof {
                assert(pairs.skip(done + 1) =~= rest.skip(1));
                if at < chars.len() {
                    assert(rest.skip(1) =~= help_pairs_from(text@, at + 2));
                } else {
                    assert(rest.len() == 1);
                }
            }
        } else {
            proof {
                assert(kept_piece(piece) =~= Seq::<Seq<char>>::empty());
                if at < chars.len() {
                    assert(rest =~= help_pairs_from(text@, at + 2));
                } else {
                    assert(rest.len() == 0);
                }
            }
        }
        if at < chars.len() {
            k = at + 2;
        } else {
            open = false;
        }
    }
    proof {
        assert(entry_views(list@) =~= Seq::new(pairs.len(), |i: int| pair_entry(pairs[i])));
    }
    Some(list)
}

/// The area that a plain help text is drawn in: the area itself, or,
/// where the text is aligned left, the area without its first column.
pub fn plain_help_area(area: Rect, left_aligned: bool) -> (inner: Rect)
    ensures
        inner == if left_aligned {
            block_inner_of(area, false, Padding { left: 1, right: 0, top: 0, bottom: 0 })
        } else {
            area
        },
{
    if left_aligned {
        block_area(area, false, Padding::new(1, 0, 0, 0))
    } else {
        area
    }
}

} // verus!
