//! A stream that holds a fixed, finite text, and what a reader pulls from it.
//!
//! Nothing here runs: this is the yardstick for the reader. A read takes the
//! first chunk of what is left, a pull yields that chunk stripped, and the
//! laws below say what the pulls add up to.

use crate::text::{ends_with_terminator, is_chunk, terminator_free, yielded, TERMINATOR};
use vstd::prelude::*;

verus! {

/// How many characters one line read takes from a stream that holds `text`:
/// all up to and including the first terminator, or all there are.
pub open spec fn chunk_len(text: Seq<char>) -> nat
    decreases text.len(),
{
    if text.len() == 0 {
        0
    } else if text[0] == TERMINATOR {
        1
    } else {
        1 + chunk_len(text.drop_first())
    }
}

/// What one line read appends to the buffer from a stream that holds `text`.
pub open spec fn chunk_of(text: Seq<char>) -> Seq<char> {
    text.take(chunk_len(text) as int)
}

/// What the stream holds after that read.
pub open spec fn rest_of(text: Seq<char>) -> Seq<char> {
    text.skip(chunk_len(text) as int)
}

/// The lines that are pulled from a stream that holds `text`, in order, up
/// to the pull that finds it at its end.
pub open spec fn lines_of(text: Seq<char>) -> Seq<Seq<char>>
    decreases text.len(),
    via lines_of_decreases
{
    match yielded(chunk_of(text)) {
        None => Seq::empty(),
        Some(line) => seq![line] + lines_of(rest_of(text)),
    }
}

#[via_fn]
proof fn lines_of_decreases(text: Seq<char>) {
    lemma_chunk_len(text);
}

/// The first chunk is a prefix of the text, is empty only if the text is,
/// holds no terminator before its last place, and ends in one unless it is
/// the whole text.
pub proof fn lemma_chunk_len(text: Seq<char>)
    ensures
        chunk_len(text) <= text.len(),
        text.len() > 0 ==> chunk_len(text) >= 1,
        is_chunk(chunk_of(text)),
        chunk_len(text) < text.len() ==> ends_with_terminator(chunk_of(text)),
        chunk_of(text) + rest_of(text) == text,
    decreases text.len(),
{
    if text.len() > 0 && text[0] != TERMINATOR {
        let tail = text.drop_first();
        lemma_chunk_len(tail);
        assert forall|i: int| 0 <= i < chunk_of(text).len() - 1 implies chunk_of(text)[i]
            != TERMINATOR by {
            if i > 0 {
                assert(chunk_of(text)[i] == chunk_of(tail)[i - 1]);
            }
        }
    }
}

/// The lines written out one after the other, each followed by a terminator.
pub open spec fn join(lines: Seq<Seq<char>>) -> Seq<char>
    decreases lines.len(),
{
    if lines.len() == 0 {
        Seq::empty()
    } else {
        lines[0].push(TERMINATOR) + join(lines.drop_first())
    }
}

/// `text` with a terminator added at its end if it has characters and does
/// not end in one.
pub open spec fn terminated(text: Seq<char>) -> Seq<char> {
    if text.len() == 0 || ends_with_terminator(text) {
        text
    } else {
        text.push(TERMINATOR)
    }
}

/// Whether no line of `lines` holds a terminator.
pub open spec fn all_terminator_free(lines: Seq<Seq<char>>) -> bool {
    forall|k: int| 0 <= k < lines.len() ==> terminator_free(#[trigger] lines[k])
}

/// What the stream holds after `n` pulls.
pub open spec fn after_pulls(text: Seq<char>, n: nat) -> Seq<char>
    decreases n,
{
    if n == 0 {
        text
    } else {
        after_pulls(rest_of(text), (n - 1) as nat)
    }
}

/// What the pull after `n` earlier ones yields from a stream that held `text`
/// at first.
pub open spec fn pull_at(text: Seq<char>, n: nat) -> Option<Seq<char>> {
    yielded(chunk_of(after_pulls(text, n)))
}

/// The lines pulled from a text hold no terminator and, each followed by one,
/// spell the text: nothing is lost, nothing is added but a terminator after a
/// last line that had none.
pub proof fn law_lines_spell_text(text: Seq<char>)
    ensures
        all_terminator_free(lines_of(text)),
        join(lines_of(text)) == terminated(text),
    decreases text.len(),
{
    lemma_chunk_len(text);
    if text.len() > 0 {
        let rest = rest_of(text);
        let lines = lines_of(text);
        law_lines_spell_text(rest);
        assert(lines.drop_first() =~= lines_of(rest));
        assert forall|k: int| 0 <= k < lines.len() implies terminator_free(
            #[trigger] lines[k],
        ) by {}
    }
}

/// Two sequences of lines without terminators that spell the same text are
/// the same sequence.
pub proof fn lemma_join_is_injective(a: Seq<Seq<char>>, b: Seq<Seq<char>>)
    requires
        all_terminator_free(a),
        all_terminator_free(b),
        join(a) == join(b),
    ensures
        a == b,
    decreases a.len(),
{
    if a.len() == 0 {
        if b.len() > 0 {
            assert(join(b).len() >= b[0].push(TERMINATOR).len());
        }
    } else {
        let x = a[0];
        let y = b[0];
        let whole = join(a);
        assert(whole == y.push(TERMINATOR) + join(b.drop_first()));
        if x.len() < y.len() {
            assert(whole[x.len() as int] == y[x.len() as int]);
        }
        if y.len() < x.len() {
            assert(whole[y.len() as int] == x[y.len() as int]);
        }
        assert forall|i: int| 0 <= i < x.len() implies x[i] == y[i] by {
            assert(whole[i] == y[i]);
        }
        assert(x =~= y);
        assert(join(a.drop_first()) =~= whole.skip(x.len() as int + 1));
        assert(join(b.drop_first()) =~= whole.skip(y.len() as int + 1));
        assert forall|k: int| 0 <= k < a.drop_first().len() implies terminator_free(
            #[trigger] a.drop_first()[k],
        ) by {}
        assert forall|k: int| 0 <= k < b.drop_first().len() implies terminator_free(
            #[trigger] b.drop_first()[k],
        ) by {}
        lemma_join_is_injective(a.drop_first(), b.drop_first());
        assert(b =~= seq![y] + b.drop_first());
    }
}

/// The reader agrees, line for line, with every reader that hands out the
/// lines of the same text whole and without their terminators: with one that
/// fills a fresh buffer for each line as with any other.
pub proof fn law_same_lines_as_any_faithful_reader(text: Seq<char>, other: Seq<Seq<char>>)
    requires
        all_terminator_free(other),
        join(other) == terminated(text),
    ensures
        other == lines_of(text),
{
    law_lines_spell_text(text);
    lemma_join_is_injective(other, lines_of(text));
}

/// The first pulls yield the lines of the text in order, and every pull after
/// them finds the stream at its end: once a pull has yielded nothing, none
/// yields a line again.
pub proof fn law_pulls_yield_lines_then_nothing(text: Seq<char>, n: nat)
    ensures
        n < lines_of(text).len() ==> pull_at(text, n) == Some(lines_of(text)[n as int]),
        n >= lines_of(text).len() ==> pull_at(text, n) is None,
        pull_at(text, n) is None ==> after_pulls(text, n + 1) == after_pulls(text, n),
    decreases n,
{
    lemma_chunk_len(text);
    lemma_chunk_len(after_pulls(text, n));
    lemma_after_one_more(text, n);
    if n > 0 {
        law_pulls_yield_lines_then_nothing(rest_of(text), (n - 1) as nat);
    }
}

/// One more pull takes one more chunk from what the earlier pulls left.
pub proof fn lemma_after_one_more(text: Seq<char>, n: nat)
    ensures
        after_pulls(text, n + 1) == rest_of(after_pulls(text, n)),
    decreases n,
{
    if n > 0 {
        lemma_after_one_more(rest_of(text), (n - 1) as nat);
    } else {
        assert(after_pulls(rest_of(text), 0) == rest_of(text));
    }
}

} // verus!
