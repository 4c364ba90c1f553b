//! Building strings from characters, and the few text operations that the
//! components share.

use crate::primitives::chars::chars_of;
use vstd::prelude::*;
use vstd::string::*;

verus! {

/// `String::push` of std appends the character to the string.
pub assume_specification[ String::push ](s: &mut String, c: char)
    ensures
        final(s)@ == old(s)@.push(c),
;

/// The string made of `chars[from..to]`.
pub fn string_of(chars: &Vec<char>, from: usize, to: usize) -> (s: String)
    requires
        from <= to <= chars.len(),
    ensures
        s@ == chars@.subrange(from as int, to as int),
{
    let mut s = String::new();
    let mut k: usize = from;
    while k < to
        invariant
            from <= k <= to <= chars.len(),
            s@ == chars@.subrange(from as int, k as int),
        decreases to - k,
    {
        s.push(chars[k]);
        proof {
            assert(chars@.subrange(from as int, k + 1) =~= chars@.subrange(
                from as int,
                k as int,
            ).push(chars@[k as int]));
        }
        k = k + 1;
    }
    s
}

/// `c`, `n` times.
pub open spec fn repeated(c: char, n: nat) -> Seq<char> {
    Seq::new(n, |i: int| c)
}

/// Appends `c` to `s`, `n` times.
pub fn push_repeated(s: &mut String, c: char, n: usize)
    ensures
        final(s)@ == old(s)@ + repeated(c, n as nat),
{
    let mut k: usize = 0;
    proof {
        assert(s@ =~= old(s)@ + repeated(c, 0));
    }
    while k < n
        invariant
            k <= n,
            s@ == old(s)@ + repeated(c, k as nat),
        decreases n - k,
    {
        s.push(c);
        proof {
            assert(s@ =~= old(s)@ + repeated(c, (k + 1) as nat));
        }
        k = k + 1;
    }
}

/// The decimal digit for `d`.
pub open spec fn digit(d: nat) -> char {
    if d == 0 {
        '0'
    } else if d == 1 {
        '1'
    } else if d == 2 {
        '2'
    } else if d == 3 {
        '3'
    } else if d == 4 {
        '4'
    } else if d == 5 {
        '5'
    } else if d == 6 {
        '6'
    } else if d == 7 {
        '7'
    } else if d == 8 {
        '8'
    } else {
        '9'
    }
}

/// `n` written in decimal, without leading zeros.
pub open spec fn decimal(n: nat) -> Seq<char>
    decreases n,
{
    if n < 10 {
        seq![digit(n)]
    } else {
        decimal(n / 10).push(digit(n % 10))
    }
}

fn digit_char(d: usize) -> (c: char)
    requires
        d < 10,
    ensures
        c == digit(d as nat),
{
    if d == 0 {
        '0'
    } else if d == 1 {
        '1'
    } else if d == 2 {
        '2'
    } else if d == 3 {
        '3'
    } else if d == 4 {
        '4'
    } else if d == 5 {
        '5'
    } else if d == 6 {
        '6'
    } else if d == 7 {
        '7'
    } else if d == 8 {
        '8'
    } else {
        '9'
    }
}

/// Appends `n` in decimal to `s`.
pub fn push_decimal(s: &mut String, n: usize)
    ensures
        final(s)@ == old(s)@ + decimal(n as nat),
    decreases n,
{
    if n < 10 {
        s.push(digit_char(n));
        proof {
            assert(s@ =~= old(s)@ + decimal(n as nat));
        }
    } else {
        push_decimal(s, n / 10);
        s.push(digit_char(n % 10));
        proof {
            assert(s@ =~= old(s)@ + decimal(n as nat));
        }
    }
}

/// The lines joined by single newlines.
pub open spec fn joined(lines: Seq<Seq<char>>) -> Seq<char>
    decreases lines.len(),
{
    if lines.len() == 0 {
        Seq::empty()
    } else if lines.len() == 1 {
        lines[0]
    } else {
        joined(lines.drop_last()).push('\n') + lines.last()
    }
}

/// The pieces of `text` between its newlines, the one before index `k`
/// still open: `(closed lines, start of the open line)`.
pub open spec fn split_upto(text: Seq<char>, k: int) -> (Seq<Seq<char>>, int)
    decreases k,
{
    if k <= 0 {
        (Seq::empty(), 0)
    } else {
        let before = split_upto(text, k - 1);
        if text[k - 1] == '\n' {
            (before.0.push(text.subrange(before.1, k - 1)), k)
        } else {
            before
        }
    }
}

/// The lines of `text`: the pieces between its newlines. A text without a
/// newline is one line, the empty text one empty line.
pub open spec fn split_lines_of(text: Seq<char>) -> Seq<Seq<char>> {
    let all = split_upto(text, text.len() as int);
    all.0.push(text.subrange(all.1, text.len() as int))
}

/// Where the open line starts, and what the closed lines join to.
pub proof fn lemma_split_upto(text: Seq<char>, k: int)
    requires
        0 <= k <= text.len(),
    ensures
        0 <= split_upto(text, k).1 <= k,
        joined(split_upto(text, k).0.push(text.subrange(split_upto(text, k).1, k))) == text.take(
            k,
        ),
        forall|i: int|
            0 <= i < split_upto(text, k).0.len() ==>
                !(#[trigger] split_upto(text, k).0[i]).contains(
                '\n',
            ),
        forall|i: int| split_upto(text, k).1 <= i < k ==> text[i] != '\n',
    decreases k,
{
    if k > 0 {
        lemma_split_upto(text, k - 1);
        let before = split_upto(text, k - 1);
        let now = split_upto(text, k);
        let open_before = text.subrange(before.1, k - 1);
        let lines_before = before.0.push(open_before);
        if text[k - 1] == '\n' {
            let lines_now = now.0.push(text.subrange(k, k));
            assert(now.0 == lines_before);
            assert(text.subrange(k, k) =~= Seq::<char>::empty());
            assert(lines_now.drop_last() =~= lines_before);
            assert(joined(lines_now) =~= joined(lines_before).push('\n') + Seq::<char>::empty());
            assert(text.take(k) =~= text.take(k - 1).push('\n'));
            assert forall|i: int| 0 <= i < now.0.len() implies !(#[trigger] now.0[i]).contains(
                '\n',
            ) by {
                if i == before.0.len() {
                    assert(now.0[i] == open_before);
                } else {
                    assert(now.0[i] == before.0[i]);
                }
            }
        } else {
            let open_now = text.subrange(before.1, k);
            let lines_now = before.0.push(open_now);
            assert(open_now =~= open_before.push(text[k - 1]));
            assert(text.take(k) =~= text.take(k - 1).push(text[k - 1]));
            if before.0.len() == 0 {
                assert(lines_now[0] == open_now);
                assert(lines_before[0] == open_before);
                assert(joined(lines_now) == open_now);
                assert(joined(lines_before) == open_before);
            } else {
                assert(lines_now.drop_last() =~= before.0);
                assert(lines_before.drop_last() =~= before.0);
                assert(joined(lines_now) =~= joined(before.0).push('\n') + open_now);
                assert(joined(lines_before) =~= joined(before.0).push('\n') + open_before);
                assert(joined(lines_now) =~= joined(lines_before).push(text[k - 1]));
            }
        }
    } else {
        assert(text.subrange(0, 0) =~= Seq::<char>::empty());
        assert(text.take(0) =~= Seq::<char>::empty());
        let lines = Seq::<Seq<char>>::empty().push(text.subrange(0, 0));
        assert(lines[0] == text.subrange(0, 0));
        assert(joined(lines) == lines[0]);
    }
}

/// **Split and join.** The lines of a text, joined by newlines, are the
/// text again; there is at least one line, and no line holds a newline.
pub proof fn lemma_join_split(text: Seq<char>)
    ensures
        joined(split_lines_of(text)) == text,
        split_lines_of(text).len() >= 1,
        forall|i: int|
            0 <= i < split_lines_of(text).len() ==> !(#[trigger] split_lines_of(text)[i]).contains(
                '\n',
            ),
{
    lemma_split_upto(text, text.len() as int);
    assert(text.take(text.len() as int) =~= text);
    let all = split_upto(text, text.len() as int);
    let last = text.subrange(all.1, text.len() as int);
    assert forall|i: int| 0 <= i < split_lines_of(text).len() implies !(
    #[trigger] split_lines_of(text)[i]).contains('\n') by {
        if i == all.0.len() {
            assert(split_lines_of(text)[i] == last);
            if last.contains('\n') {
                let j = choose|j: int| 0 <= j < last.len() && last[j] == '\n';
                assert(text[all.1 + j] == '\n');
            }
        } else {
            assert(split_lines_of(text)[i] == all.0[i]);
        }
    }
}

/// The lines as sequences of characters.
pub open spec fn views_of(lines: Seq<String>) -> Seq<Seq<char>> {
    Seq::new(lines.len(), |i: int| lines[i]@)
}

/// Joins the lines of a buffer by single newlines.
pub fn join_lines(lines: &[String]) -> (text: String)
    ensures
        text@ == joined(views_of(lines@)),
{
    let mut text = String::new();
    let mut idx: usize = 0;
    proof {
        assert(views_of(lines@).take(0) =~= Seq::<Seq<char>>::empty());
    }
    while idx < lines.len()
        invariant
            idx <= lines.len(),
            text@ == joined(views_of(lines@).take(idx as int)),
        decreases lines.len() - idx,
    {
        proof {
            let now = views_of(lines@).take(idx + 1);
            assert(now.drop_last() =~= views_of(lines@).take(idx as int));
            assert(now.last() == lines@[idx as int]@);
            if idx == 0 {
                assert(now[0] == lines@[0]@);
            }
        }
        if idx > 0 {
            text.push('\n');
        }
        text.append(lines[idx].as_str());
        idx = idx + 1;
    }
    proof {
        assert(views_of(lines@).take(lines@.len() as int) =~= views_of(lines@));
    }
    text
}

/// Splits a text into its lines at the newlines.
pub fn split_lines(text: &str) -> (lines: Vec<String>)
    ensures
        views_of(lines@) == split_lines_of(text@),
        lines@.len() >= 1,
{
    let chars = chars_of(text);
    let mut lines: Vec<String> = Vec::new();
    let mut start: usize = 0;
    let mut k: usize = 0;
    while k < chars.len()
        invariant
            start <= k <= chars.len(),
            views_of(lines@) == split_upto(chars@, k as int).0,
            start == split_upto(chars@, k as int).1,
        decreases chars.len() - k,
    {
        if chars[k] == '\n' {
            let ghost before = lines@;
            lines.push(string_of(&chars, start, k));
            proof {
                assert(views_of(lines@) =~= views_of(before).push(
                    chars@.subrange(start as int, k as int),
                ));
            }
            start = k + 1;
        }
        k = k + 1;
    }
    let ghost before = lines@;
    lines.push(string_of(&chars, start, k));
    proof {
        assert(views_of(lines@) =~= views_of(before).push(
            chars@.subrange(start as int, k as int),
        ));
    }
    lines
}

/// `text` cut to `max_chars` characters: the text itself where it fits;
/// else dots alone where there is room for three characters or fewer; else
/// the first `max_chars - 3` characters and three dots.
pub open spec fn ellipsized(text: Seq<char>, max_chars: nat) -> Seq<char> {
    if max_chars == 0 {
        Seq::empty()
    } else if text.len() <= max_chars {
        text
    } else if max_chars <= 3 {
        repeated('.', max_chars)
    } else {
        text.take(max_chars - 3) + repeated('.', 3)
    }
}

/// Cuts `text` to at most `max_chars` characters, ending in `...` where
/// something was cut off.
pub fn truncate_with_ellipsis(text: &str, max_chars: usize) -> (out: String)
    ensures
        out@ == ellipsized(text@, max_chars as nat),
        out@.len() <= max_chars,
{
    if max_chars == 0 {
        return String::new();
    }
    let chars = chars_of(text);
    if chars.len() <= max_chars {
        proof {
            assert(chars@.subrange(0, chars@.len() as int) =~= chars@);
        }
        return string_of(&chars, 0, chars.len());
    }
    if max_chars <= 3 {
        let mut out = String::new();
        push_repeated(&mut out, '.', max_chars);
        proof {
            assert(out@ =~= repeated('.', max_chars as nat));
        }
        return out;
    }
    let keep = max_chars - 3;
    let mut out = string_of(&chars, 0, keep);
    push_repeated(&mut out, '.', 3);
    proof {
        assert(chars@.subrange(0, keep as int) =~= chars@.take(keep as int));
    }
    out
}

/// Number of characters of `s`.
pub fn text_width(s: &str) -> (n: usize)
    ensures
        n == s@.len(),
{
    chars_of(s).len()
}

} // verus!
