//! Boundary checks: is the character next to a span edge a delimiter?

use vstd::prelude::*;
use vstd::string::StrSliceExecFns;

use crate::delimiter::is_delimiter;
use crate::delimiter::spec_is_delimiter;

verus! {

/// A span starting at `start_pos > 0` has a valid leading boundary when the
/// character just before it is a delimiter.
pub open spec fn spec_leading_ok(start_pos: int, text: Seq<char>) -> bool
    recommends
        0 < start_pos <= text.len(),
{
    spec_is_delimiter(text[start_pos - 1])
}

/// A span ending at `end_pos < text.len()` has a valid trailing boundary when
/// the character right after it is a delimiter.
pub open spec fn spec_trailing_ok(end_pos: int, text: Seq<char>) -> bool
    recommends
        0 <= end_pos < text.len(),
{
    spec_is_delimiter(text[end_pos])
}

/// Leading check: the character at `start_pos - 1` is a delimiter.
/// Only meaningful away from the start of the text, so callers must
/// keep `start_pos` positive and within the text.
pub fn is_leading_char_valid(start_pos: usize, text: &String) -> (r: bool)
    requires
        0 < start_pos <= text@.len(),
    ensures
        r == spec_leading_ok(start_pos as int, text@),
{
    let leading_char = text.as_str().get_char(start_pos - 1);
    is_delimiter(leading_char)
}

/// Trailing check: the character at `end_pos` is a delimiter.
/// Only meaningful away from the end of the text, so callers must
/// keep `end_pos` below the text's character count.
pub fn is_trailing_char_valid(end_pos: usize, text: &String) -> (r: bool)
    requires
        end_pos < text@.len(),
    ensures
        r == spec_trailing_ok(end_pos as int, text@),
{
    let trailing_char = text.as_str().get_char(end_pos);
    is_delimiter(trailing_char)
}

} // verus!
