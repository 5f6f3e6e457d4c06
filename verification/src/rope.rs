//! Trusted boundary around `ropey::Rope`, the persistent character sequence
//! that backs the buffer. Each wrapper makes exactly one call into ropey and
//! states over `rope_text` what that call does to the rope's contents.

use vstd::prelude::*;

verus! {

#[verifier::external_type_specification]
#[verifier::external_body]
pub struct ExRope(ropey::Rope);

/// The sequence of characters that a rope holds, in document order.
pub uninterp spec fn rope_text(r: ropey::Rope) -> Seq<char>;

/// Relies on `ropey::Rope::new`: creates an empty rope.
#[verifier::external_body]
pub(crate) fn rope_new() -> (r: ropey::Rope)
    ensures
        rope_text(r) == Seq::<char>::empty(),
{
    ropey::Rope::new()
}

/// Relies on `ropey::Rope::from_str`: builds a rope holding exactly the
/// characters of `text`.
#[verifier::external_body]
pub(crate) fn rope_from_str(text: &str) -> (r: ropey::Rope)
    ensures
        rope_text(r) == text@,
{
    ropey::Rope::from_str(text)
}

/// Relies on `ropey::Rope::len_chars`: the total number of characters.
#[verifier::external_body]
pub(crate) fn rope_len_chars(r: &ropey::Rope) -> (n: usize)
    ensures
        n == rope_text(*r).len(),
{
    r.len_chars()
}

/// Relies on `ropey::Rope::char`: the character at `index`; ropey panics
/// exactly when `index >= len_chars()`, which the precondition rules out.
#[verifier::external_body]
pub(crate) fn rope_char(r: &ropey::Rope, index: usize) -> (c: char)
    requires
        index < rope_text(*r).len(),
    ensures
        c == rope_text(*r)[index as int],
{
    r.char(index)
}

/// Relies on `ropey::Rope::insert_char`: inserts `ch` before position
/// `index`; ropey panics exactly when `index > len_chars()`, which the
/// precondition rules out.
#[verifier::external_body]
pub(crate) fn rope_insert_char(r: &mut ropey::Rope, index: usize, ch: char)
    requires
        index <= rope_text(*old(r)).len(),
    ensures
        rope_text(*final(r)) == rope_text(*old(r)).insert(index as int, ch),
{
    r.insert_char(index, ch)
}

/// Relies on `ropey::Rope::remove`: removes the characters of `start..end`;
/// ropey panics exactly when `start > end` or `end > len_chars()`, which the
/// preconditions rule out.
#[verifier::external_body]
pub(crate) fn rope_remove(r: &mut ropey::Rope, start: usize, end: usize)
    requires
        start <= end,
        end <= rope_text(*old(r)).len(),
    ensures
        rope_text(*final(r)) == rope_text(*old(r)).subrange(0, start as int) + rope_text(
            *old(r),
        ).subrange(end as int, rope_text(*old(r)).len() as int),
{
    r.remove(start..end)
}

/// Relies on ropey's `impl From<&Rope> for String`: copies the rope's
/// characters into an owned `String`.
#[verifier::external_body]
pub(crate) fn rope_to_string(r: &ropey::Rope) -> (s: String)
    ensures
        s@ == rope_text(*r),
{
    String::from(r)
}

} // verus!
