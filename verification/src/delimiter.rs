//! The fixed set of characters treated as word boundaries.

use vstd::prelude::*;

verus! {

/// A character marks a word edge exactly when it is one of these
/// space, punctuation and symbol characters. The set is fixed: no
/// component ever extends or shrinks it.
pub open spec fn spec_is_delimiter(c: char) -> bool {
    ||| c == ' '
    ||| c == '.'
    ||| c == ','
    ||| c == '!'
    ||| c == '?'
    ||| c == '#'
    ||| c == '$'
    ||| c == '%'
    ||| c == '^'
    ||| c == '&'
    ||| c == '@'
    ||| c == '('
    ||| c == ')'
    ||| c == '>'
    ||| c == '<'
    ||| c == '/'
    ||| c == '\\'
    ||| c == '|'
    ||| c == '['
    ||| c == ']'
    ||| c == '{'
    ||| c == '}'
    ||| c == '~'
    ||| c == '*'
    ||| c == '-'
    ||| c == '_'
    ||| c == '+'
    ||| c == '='
    ||| c == ':'
    ||| c == ';'
    ||| c == '"'
    ||| c == '\''
    ||| c == '`'
}

/// Membership test against the fixed delimiter set.
pub fn is_delimiter(c: char) -> (r: bool)
    ensures
        r == spec_is_delimiter(c),
{
    c == ' ' || c == '.' || c == ',' || c == '!' || c == '?' || c == '#' || c == '$' || c == '%'
        || c == '^' || c == '&' || c == '@' || c == '(' || c == ')' || c == '>' || c == '<'
        || c == '/' || c == '\\' || c == '|' || c == '[' || c == ']' || c == '{' || c == '}'
        || c == '~' || c == '*' || c == '-' || c == '_' || c == '+' || c == '=' || c == ':'
        || c == ';' || c == '"' || c == '\'' || c == '`'
}

} // verus!
