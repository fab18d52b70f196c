//! Batch validation: every candidate span in input order.

use vstd::prelude::*;

use crate::extract::find_match;
use crate::extract::spec_find_match;
use crate::extract::spec_whole_word;

verus! {

/// The batch outcome under the filtered policy: the whole-word substrings of
/// the candidate spans, in input order, with rejected spans dropped.
pub open spec fn spec_find_matches(pairs: Seq<(usize, usize)>, text: Seq<char>) -> Seq<Seq<char>>
    decreases pairs.len(),
{
    if pairs.len() == 0 {
        Seq::empty()
    } else {
        let head = pairs.last();
        let rest = spec_find_matches(pairs.drop_last(), text);
        if spec_whole_word(head.0 as int, head.1 as int, text) {
            rest.push(spec_find_match(head.0 as int, head.1 as int, text))
        } else {
            rest
        }
    }
}

/// Validate each candidate span in order, keeping only the matched
/// substrings (the filtered policy: rejected spans leave no placeholder).
pub fn find_matches(pairs: &Vec<(usize, usize)>, text: &String) -> (r: Vec<String>)
    ensures
        r.deep_view() == spec_find_matches(pairs@, text@),
{
    let mut result: Vec<String> = Vec::new();
    let mut i: usize = 0;
    while i < pairs.len()
        invariant
            i <= pairs@.len(),
            result.deep_view() == spec_find_matches(pairs@.take(i as int), text@),
        decreases pairs@.len() - i,
    {
        let (start, length) = pairs[i];
        let matched = find_match(start, length, text);
        proof {
            assert(pairs@.take(i + 1).drop_last() =~= pairs@.take(i as int));
            assert(pairs@.take(i + 1).last() == pairs@[i as int]);
        }
        if !matched.as_str().is_empty() {
            let ghost old_dv = result.deep_view();
            result.push(matched);
            proof {
                assert(result.deep_view() =~= old_dv.push(matched@));
            }
        }
        i = i + 1;
    }
    proof {
        assert(pairs@.take(pairs@.len() as int) =~= pairs@);
    }
    result
}

} // verus!
