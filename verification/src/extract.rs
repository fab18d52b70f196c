//! Span extraction: range validation, boundary checks, and the matched text.

use vstd::prelude::*;
use vstd::string::StrSliceExecFns;

use crate::boundary::is_leading_char_valid;
use crate::boundary::is_trailing_char_valid;
use crate::boundary::spec_leading_ok;
use crate::boundary::spec_trailing_ok;

verus! {

/// A candidate span `[start_pos, start_pos + length)` is well-formed for a
/// text: it is non-empty and stays within the text's character count.
pub open spec fn spec_in_range(start_pos: int, length: int, text: Seq<char>) -> bool {
    length > 0 && start_pos + length <= text.len()
}

/// A candidate span is a whole-word occurrence: it is in range and each of
/// its flanks is either the text's own start / end or a delimiter character.
pub open spec fn spec_whole_word(start_pos: int, length: int, text: Seq<char>) -> bool {
    &&& spec_in_range(start_pos, length, text)
    &&& (start_pos == 0 || spec_leading_ok(start_pos, text))
    &&& (start_pos + length == text.len() || spec_trailing_ok(start_pos + length, text))
}

/// The verdict of extraction: `Some` with the matched characters for a
/// whole-word span, `None` for any rejected span.
pub open spec fn spec_extract(start_pos: int, length: int, text: Seq<char>) -> Option<Seq<char>> {
    if spec_whole_word(start_pos, length, text) {
        Some(text.subrange(start_pos, start_pos + length))
    } else {
        None
    }
}

/// The matched text as a bare character sequence: the whole-word substring,
/// or empty where the span is rejected.
pub open spec fn spec_find_match(start_pos: int, length: int, text: Seq<char>) -> Seq<char> {
    match spec_extract(start_pos, length, text) {
        Some(s) => s,
        None => Seq::empty(),
    }
}

/// The outcome of validating one candidate span: the matched substring, or a
/// rejection carrying no further detail.
#[derive(Debug, PartialEq, Eq)]
pub enum MatchOutcome {
    Matched(String),
    Rejected,
}

impl View for MatchOutcome {
    type V = Option<Seq<char>>;

    open spec fn view(&self) -> Option<Seq<char>> {
        match self {
            MatchOutcome::Matched(s) => Some(s@),
            MatchOutcome::Rejected => None,
        }
    }
}

/// Relies on `substring::Substring::substring` for `str`: with
/// `start_index <= end_index` and `end_index` at most the character count,
/// it returns the slice of characters in `[start_index, end_index)`.
#[verifier::external_body]
fn substring_chars(text: &String, start_index: usize, end_index: usize) -> (r: String)
    requires
        start_index <= end_index <= text@.len(),
    ensures
        r@ == text@.subrange(start_index as int, end_index as int),
{
    substring::Substring::substring(text.as_str(), start_index, end_index).to_string()
}

/// The text of a validated span: the characters in `[start_pos, end_pos)`.
pub fn get_match(start_pos: usize, end_pos: usize, text: &String) -> (r: String)
    requires
        start_pos <= end_pos <= text@.len(),
    ensures
        r@ == text@.subrange(start_pos as int, end_pos as int),
{
    substring_chars(text, start_pos, end_pos)
}

/// Validate one candidate span against the text.
///
/// Rejects a span that is empty or runs past the text; accepts the span of
/// the whole text outright; otherwise accepts exactly when every flank that
/// is not the text's own start or end is a delimiter character.
pub fn extract(start_pos: usize, match_length: usize, text: &String) -> (r: MatchOutcome)
    ensures
        r@ == spec_extract(start_pos as int, match_length as int, text@),
{
    let string_length = text.as_str().unicode_len();

    if match_length == 0 || start_pos > string_length || match_length > string_length - start_pos {
        return MatchOutcome::Rejected;
    }

    let end_pos = start_pos + match_length;

    if start_pos == 0 && end_pos == string_length {
        MatchOutcome::Matched(get_match(start_pos, end_pos, text))
    } else if start_pos == 0 {
        if is_trailing_char_valid(end_pos, text) {
            MatchOutcome::Matched(get_match(start_pos, end_pos, text))
        } else {
            MatchOutcome::Rejected
        }
    } else if end_pos == string_length {
        if is_leading_char_valid(start_pos, text) {
            MatchOutcome::Matched(get_match(start_pos, end_pos, text))
        } else {
            MatchOutcome::Rejected
        }
    } else {
        if is_leading_char_valid(start_pos, text) && is_trailing_char_valid(end_pos, text) {
            MatchOutcome::Matched(get_match(start_pos, end_pos, text))
        } else {
            MatchOutcome::Rejected
        }
    }
}

/// Validate one candidate span, handing back the matched text itself:
/// the whole-word substring, or the empty string for a rejected span.
pub fn find_match(start_pos: usize, match_length: usize, text: &String) -> (r: String)
    ensures
        r@ == spec_find_match(start_pos as int, match_length as int, text@),
{
    match extract(start_pos, match_length, text) {
        MatchOutcome::Matched(s) => s,
        MatchOutcome::Rejected => String::new(),
    }
}

} // verus!
