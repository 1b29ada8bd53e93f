//! The characters that identifiers are made of.
use vstd::prelude::*;

verus! {

/// An ASCII letter or `_`: a character that may begin an identifier.
pub open spec fn id_start(ch: char) -> bool {
    ch == '_' || ('a' <= ch && ch <= 'z') || ('A' <= ch && ch <= 'Z')
}

/// An ASCII digit or `_`: a character that may follow the first one of an
/// identifier, besides those of [`id_start`].
pub open spec fn id_continue(ch: char) -> bool {
    ch == '_' || ('0' <= ch && ch <= '9')
}

/// Whether `ch` may begin an identifier.
pub fn is_id_start(ch: char) -> (r: bool)
    ensures
        r == id_start(ch),
{
    ch == '_' || ('a' <= ch && ch <= 'z') || ('A' <= ch && ch <= 'Z')
}

/// Whether `ch` may follow the first character of an identifier, besides
/// the characters that may begin one.
pub fn is_id_continue(ch: char) -> (r: bool)
    ensures
        r == id_continue(ch),
{
    ch == '_' || ('0' <= ch && ch <= '9')
}

} // verus!
