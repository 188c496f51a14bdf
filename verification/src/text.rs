//! The mathematics of lines: what a terminator is, what one read takes from a
//! text, and what stripping leaves of it.

use vstd::prelude::*;

verus! {

/// The character that ends a line.
pub const TERMINATOR: char = '\n';

/// Whether the last character of `raw` is the terminator.
pub open spec fn ends_with_terminator(raw: Seq<char>) -> bool {
    raw.len() > 0 && raw.last() == TERMINATOR
}

/// `raw` without its last character if that is the terminator, else `raw` itself.
pub open spec fn strip(raw: Seq<char>) -> Seq<char> {
    if ends_with_terminator(raw) {
        raw.drop_last()
    } else {
        raw
    }
}

/// Whether no character of `text` is the terminator.
pub open spec fn terminator_free(text: Seq<char>) -> bool {
    forall|i: int| 0 <= i < text.len() ==> text[i] != TERMINATOR
}

/// Whether `raw` can be what a single line read appends: the terminator
/// stands nowhere in it but, at most, in the last place.
pub open spec fn is_chunk(raw: Seq<char>) -> bool {
    forall|i: int| 0 <= i < raw.len() - 1 ==> raw[i] != TERMINATOR
}

/// What a pull yields after a read that succeeded and left `raw` in the
/// cleared buffer: nothing when the read appended nothing, else `raw`
/// stripped of one trailing terminator.
pub open spec fn yielded(raw: Seq<char>) -> Option<Seq<char>> {
    if raw.len() == 0 {
        None
    } else {
        Some(strip(raw))
    }
}

/// A pull takes off one terminator and no more. A line that is nothing but
/// a terminator is yielded as an empty line, not as the end; a chunk that
/// does not end in a terminator is yielded whole; and of a chunk that ends
/// in one, all that stood before it is yielded, a terminator too.
pub proof fn law_one_terminator_is_stripped(raw: Seq<char>)
    ensures
        yielded(seq![TERMINATOR]) == Some(Seq::<char>::empty()),
        raw.len() > 0 && !ends_with_terminator(raw) ==> yielded(raw) == Some(raw),
        yielded(raw.push(TERMINATOR)) == Some(raw),
{
    assert(seq![TERMINATOR].drop_last() =~= Seq::<char>::empty());
    assert(raw.push(TERMINATOR).drop_last() =~= raw);
}

} // verus!
