//! The line store: one editable, character-indexed text line, kept in a
//! `ropey::Rope`. Everything the engine knows about a rope is phrased over
//! `rope_chars`, the sequence of characters it holds.

use vstd::prelude::*;

verus! {

#[verifier::external_type_specification]
#[verifier::external_body]
pub struct ExRope(ropey::Rope);

/// The characters a rope holds, in order.
pub uninterp spec fn rope_chars(r: ropey::Rope) -> Seq<char>;

/// Relies on `ropey::Rope::new`: creates an empty rope.
#[verifier::external_body]
pub(crate) fn rope_new() -> (r: ropey::Rope)
    ensures
        rope_chars(r) == Seq::<char>::empty(),
{
    ropey::Rope::new()
}

/// Relies on `ropey::Rope::from_str`: the rope holds the characters of `text`.
#[verifier::external_body]
pub(crate) fn rope_from_str(text: &str) -> (r: ropey::Rope)
    ensures
        rope_chars(r) == text@,
{
    ropey::Rope::from_str(text)
}

/// Relies on `ropey::Rope::len_chars`: the total number of characters.
#[verifier::external_body]
pub(crate) fn rope_len_chars(r: &ropey::Rope) -> (n: usize)
    ensures
        n == rope_chars(*r).len(),
{
    r.len_chars()
}

/// Relies on `ropey::Rope::insert_char`: inserts one character at a character
/// index, which must not exceed the length.
#[verifier::external_body]
pub(crate) fn rope_insert_char(r: &mut ropey::Rope, char_idx: usize, ch: char)
    requires
        char_idx <= rope_chars(*old(r)).len(),
    ensures
        rope_chars(*final(r)) == rope_chars(*old(r)).insert(char_idx as int, ch),
{
    r.insert_char(char_idx, ch);
}

/// Relies on `ropey::Rope::remove`: removes the characters of an in-bounds
/// range, here the single character at `char_idx`.
#[verifier::external_body]
pub(crate) fn rope_remove_char(r: &mut ropey::Rope, char_idx: usize)
    requires
        char_idx < rope_chars(*old(r)).len(),
    ensures
        rope_chars(*final(r)) == rope_chars(*old(r)).remove(char_idx as int),
{
    r.remove(char_idx..char_idx + 1);
}

/// Relies on `ropey::Rope::split_off`: cuts at an in-bounds character index
/// and returns the right part.
#[verifier::external_body]
pub(crate) fn rope_split_off(r: &mut ropey::Rope, char_idx: usize) -> (tail: ropey::Rope)
    requires
        char_idx <= rope_chars(*old(r)).len(),
    ensures
        rope_chars(*final(r)) == rope_chars(*old(r)).subrange(0, char_idx as int),
        rope_chars(tail) == rope_chars(*old(r)).subrange(
            char_idx as int,
            rope_chars(*old(r)).len() as int,
        ),
{
    r.split_off(char_idx)
}

/// Relies on `ropey::Rope::append`: concatenates `other` onto the end.
#[verifier::external_body]
pub(crate) fn rope_append(r: &mut ropey::Rope, other: ropey::Rope)
    ensures
        rope_chars(*final(r)) == rope_chars(*old(r)) + rope_chars(other),
{
    r.append(other);
}

/// Relies on `ropey::Rope::chars`: iterates the characters in order.
#[verifier::external_body]
pub(crate) fn rope_chars_vec(r: &ropey::Rope) -> (v: Vec<char>)
    ensures
        v@ == rope_chars(*r),
{
    r.chars().collect()
}

/// Relies on `ropey::Rope::slice`: the characters of the half-open in-bounds
/// range `start..end`.
#[verifier::external_body]
pub(crate) fn rope_slice_string(r: &ropey::Rope, start: usize, end: usize) -> (s: String)
    requires
        start <= end <= rope_chars(*r).len(),
    ensures
        s@ == rope_chars(*r).subrange(start as int, end as int),
{
    r.slice(start..end).chars().collect()
}

} // verus!
