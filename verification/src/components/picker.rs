//! A message shown in the middle of an area, for pickers that load or
//! have nothing to show.

use crate::primitives::strings::views_of;
use vstd::prelude::*;
use vstd::string::*;

verus! {

/// The lines of a message centred in `total_height` rows: an empty line
/// for each row of the upper half, then the message.
pub open spec fn centered_lines(text: Seq<char>, total_height: u16) -> Seq<Seq<char>> {
    Seq::new((total_height / 2) as nat, |i: int| Seq::<char>::empty()).push(text)
}

/// The lines that show `text` in the middle of `total_height` rows.
pub fn vertically_centered_text(text: &str, total_height: u16) -> (lines: Vec<String>)
    ensures
        views_of(lines@) == centered_lines(text@, total_height),
{
    let above = total_height / 2;
    let mut lines: Vec<String> = Vec::new();
    let mut k: u16 = 0;
    while k < above
        invariant
            k <= above,
            lines@.len() == k,
            forall|i: int| 0 <= i < k ==> (#[trigger] lines@[i])@ == Seq::<char>::empty(),
        decreases above - k,
    {
        lines.push(String::new());
        k = k + 1;
    }
    let mut last = String::new();
    last.append(text);
    proof {
        assert(last@ =~= text@);
    }
    lines.push(last);
    proof {
        assert(views_of(lines@) =~= centered_lines(text@, total_height));
    }
    lines
}

} // verus!
