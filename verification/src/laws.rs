//! The laws the validator obeys, stated and proved once for all inputs.

use vstd::prelude::*;

use crate::batch::spec_find_matches;
use crate::boundary::spec_leading_ok;
use crate::boundary::spec_trailing_ok;
use crate::extract::spec_extract;
use crate::extract::spec_find_match;
use crate::extract::spec_whole_word;

verus! {

/// The span of the whole of a non-empty text always matches, and the matched
/// text is the text itself. (The empty text is the one exception: its full
/// span has length zero, which is rejected outright.)
pub proof fn lemma_full_span_matches(text: Seq<char>)
    requires
        text.len() > 0,
    ensures
        spec_extract(0, text.len() as int, text) == Some(text),
        spec_find_match(0, text.len() as int, text) == text,
{
    assert(spec_whole_word(0, text.len() as int, text));
    assert(text.subrange(0, text.len() as int) =~= text);
}

/// A span that runs past the text, or has length zero, is always rejected.
pub proof fn lemma_ill_formed_rejected(start_pos: int, length: int, text: Seq<char>)
    requires
        start_pos + length > text.len() || length == 0,
    ensures
        spec_extract(start_pos, length, text) is None,
        spec_find_match(start_pos, length, text) == Seq::<char>::empty(),
{
}

/// An interior span flanked on both sides by delimiter characters matches,
/// and the matched text is exactly the spanned substring.
pub proof fn lemma_interior_flanked_matches(start_pos: int, length: int, text: Seq<char>)
    requires
        0 < start_pos,
        length > 0,
        start_pos + length < text.len(),
        spec_leading_ok(start_pos, text),
        spec_trailing_ok(start_pos + length, text),
    ensures
        spec_extract(start_pos, length, text) == Some(
            text.subrange(start_pos, start_pos + length),
        ),
{
}

/// An interior span with a non-delimiter character on at least one flank is
/// always rejected.
pub proof fn lemma_interior_fragment_rejected(start_pos: int, length: int, text: Seq<char>)
    requires
        0 < start_pos,
        length > 0,
        start_pos + length < text.len(),
        !spec_leading_ok(start_pos, text) || !spec_trailing_ok(start_pos + length, text),
    ensures
        spec_extract(start_pos, length, text) is None,
        spec_find_match(start_pos, length, text) == Seq::<char>::empty(),
{
}

/// Batch results follow input order: the outcome of a batch split into two
/// parts is the outcome of the first part followed by the outcome of the
/// second, so each span's verdict keeps its place whatever the order of
/// evaluation.
pub proof fn lemma_batch_preserves_order(
    first: Seq<(usize, usize)>,
    second: Seq<(usize, usize)>,
    text: Seq<char>,
)
    ensures
        spec_find_matches(first + second, text) == spec_find_matches(first, text)
            + spec_find_matches(second, text),
    decreases second.len(),
{
    if second.len() == 0 {
        assert(first + second =~= first);
        assert(spec_find_matches(first, text) + spec_find_matches(second, text)
            =~= spec_find_matches(first, text));
    } else {
        lemma_batch_preserves_order(first, second.drop_last(), text);
        assert((first + second).drop_last() =~= first + second.drop_last());
        assert((first + second).last() == second.last());
        let head = second.last();
        if spec_whole_word(head.0 as int, head.1 as int, text) {
            assert(spec_find_matches(first, text) + spec_find_matches(second, text)
                =~= (spec_find_matches(first, text) + spec_find_matches(second.drop_last(), text))
                    .push(spec_find_match(head.0 as int, head.1 as int, text)));
        }
    }
}

} // verus!
