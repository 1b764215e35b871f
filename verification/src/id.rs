//! Identifiers of pastes, drawn at random by the `nanoid` crate.

use vstd::prelude::*;

verus! {

/// The number of characters in a paste identifier.
pub const ID_LENGTH: usize = 6;

/// Whether `c` belongs to nanoid's URL-safe alphabet: ASCII letters, digits,
/// `_` and `-`.
pub open spec fn is_safe_char(c: char) -> bool {
    ||| ('a' <= c && c <= 'z')
    ||| ('A' <= c && c <= 'Z')
    ||| ('0' <= c && c <= '9')
    ||| c == '_'
    ||| c == '-'
}

/// Whether `s` has the shape of a paste identifier: `ID_LENGTH` characters of
/// the URL-safe alphabet.
pub open spec fn is_paste_id(s: Seq<char>) -> bool {
    &&& s.len() == ID_LENGTH
    &&& forall|i: int| 0 <= i < s.len() ==> is_safe_char(#[trigger] s[i])
}

/// Calls `nanoid::format` with the random source `nanoid::rngs::default` and
/// the alphabet `nanoid::alphabet::SAFE`. Its source pushes alphabet characters
/// (all ASCII, so one byte each) until the text is `size` bytes long; which
/// characters come out is left to chance and is not stated. The random source
/// panics only when the operating system cannot supply randomness.
#[verifier::external_body]
fn nanoid_safe(size: usize) -> (id: String)
    requires
        size > 0,
    ensures
        id@.len() == size,
        forall|i: int| 0 <= i < id@.len() ==> is_safe_char(#[trigger] id@[i]),
{
    nanoid::format(nanoid::rngs::default, &nanoid::alphabet::SAFE, size)
}

/// Draws a fresh random paste identifier.
pub fn random_id() -> (id: String)
    ensures
        is_paste_id(id@),
{
    nanoid_safe(ID_LENGTH)
}

} // verus!
