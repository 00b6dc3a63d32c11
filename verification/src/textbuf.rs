//! The document text buffer.
//!
//! A document's raw text lives in a rope, which supports cheap retrieval
//! of an arbitrary line.  The rope is an outside structure; what it
//! holds is modeled as the sequence of its lines, each line carrying its
//! terminator, exactly as the rope itself splits the text.

use vstd::prelude::*;

verus! {

#[verifier::external_type_specification]
#[verifier::external_body]
pub struct ExRope(ropey::Rope);

/// The lines a rope holds, in order, each with its line break if one
/// follows it.
pub uninterp spec fn rope_lines(r: ropey::Rope) -> Seq<Seq<char>>;

/// The line decomposition that building a rope from a text yields.  The
/// result depends on the text alone.
pub uninterp spec fn rope_split(s: Seq<char>) -> Seq<Seq<char>>;

/// Relies on `ropey::Rope::from_str`: the rope holds the given text,
/// split into lines; a rope always holds at least one line, which may be
/// empty.
#[verifier::external_body]
pub fn rope_from_str(text: &str) -> (r: ropey::Rope)
    ensures
        rope_lines(r) == rope_split(text@),
        rope_lines(r).len() >= 1,
{
    ropey::Rope::from_str(text)
}

/// Relies on `ropey::Rope::len_lines`: the number of lines the rope
/// holds.
#[verifier::external_body]
pub fn rope_len_lines(r: &ropey::Rope) -> (n: usize)
    ensures
        n == rope_lines(*r).len(),
{
    r.len_lines()
}

/// Relies on `ropey::Rope::get_line`: the line at the index, or nothing
/// when the index is out of bounds.
#[verifier::external_body]
pub fn rope_line(r: &ropey::Rope, i: usize) -> (line: Option<String>)
    ensures
        match line {
            Some(s) => i < rope_lines(*r).len() && s@ == rope_lines(*r)[i as int],
            None => i >= rope_lines(*r).len(),
        },
{
    r.get_line(i).map(|slice| slice.to_string())
}

} // verus!
