//! Trusted bindings to ropey's `Rope`, the character storage of the text
//! buffer.
//!
//! The contents of a rope are modelled by the uninterpreted sequence
//! `rope_chars`; each wrapper states over that sequence what ropey's
//! documentation promises of the call it makes.

use vstd::prelude::*;
use ropey::Rope;

verus! {

#[verifier::external_type_specification]
#[verifier::external_body]
pub struct ExRope(Rope);

/// The sequence of characters a rope holds.
pub uninterp spec fn rope_chars(r: Rope) -> Seq<char>;

/// Relies on ropey's `Rope::new`: creates an empty rope.
#[verifier::external_body]
pub(crate) fn rope_new() -> (r: Rope)
    ensures
        rope_chars(r) == Seq::<char>::empty(),
{
    Rope::new()
}

/// Relies on ropey's `Rope::len_chars`: the total number of chars of the
/// rope.
#[verifier::external_body]
pub(crate) fn rope_len_chars(r: &Rope) -> (n: usize)
    ensures
        n == rope_chars(*r).len(),
{
    r.len_chars()
}

/// Relies on ropey's `Rope::insert`: inserts `text` at char index
/// `char_idx`; out-of-bounds indices panic there, so they are excluded
/// here.
#[verifier::external_body]
pub(crate) fn rope_insert(r: &mut Rope, char_idx: usize, text: &str)
    requires
        char_idx <= rope_chars(*old(r)).len(),
    ensures
        rope_chars(*final(r)) == rope_chars(*old(r)).subrange(0, char_idx as int) + text@
            + rope_chars(*old(r)).subrange(
            char_idx as int,
            rope_chars(*old(r)).len() as int,
        ),
{
    r.insert(char_idx, text)
}

/// Relies on ropey's `Rope::insert_char`: inserts the single char `ch` at
/// char index `char_idx`; out-of-bounds indices panic there, so they are
/// excluded here.
#[verifier::external_body]
pub(crate) fn rope_insert_char(r: &mut Rope, char_idx: usize, ch: char)
    requires
        char_idx <= rope_chars(*old(r)).len(),
    ensures
        rope_chars(*final(r)) == rope_chars(*old(r)).subrange(0, char_idx as int) + seq![ch]
            + rope_chars(*old(r)).subrange(
            char_idx as int,
            rope_chars(*old(r)).len() as int,
        ),
{
    r.insert_char(char_idx, ch)
}

/// Relies on ropey's `Rope::remove`: removes the chars in `start..end`;
/// a start past the end or an end past the rope panics there, so both are
/// excluded here.
#[verifier::external_body]
pub(crate) fn rope_remove(r: &mut Rope, start: usize, end: usize)
    requires
        start <= end,
        end <= rope_chars(*old(r)).len(),
    ensures
        rope_chars(*final(r)) == rope_chars(*old(r)).subrange(0, start as int) + rope_chars(
            *old(r),
        ).subrange(end as int, rope_chars(*old(r)).len() as int),
{
    r.remove(start..end)
}

/// Relies on ropey's `From<&Rope> for String`: the whole text of the rope
/// as one contiguous string.
#[verifier::external_body]
pub(crate) fn rope_to_string(r: &Rope) -> (s: String)
    ensures
        s@ == rope_chars(*r),
{
    String::from(r)
}

} // verus!
