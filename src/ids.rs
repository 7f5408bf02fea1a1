use vstd::prelude::*;

verus! {

/// A character of the URL-safe alphabet that identifiers are drawn from.
pub open spec fn is_url_safe(c: char) -> bool {
    ('a' <= c && c <= 'z') || ('A' <= c && c <= 'Z') || ('0' <= c && c <= '9') || c == '_' || c
        == '-'
}

/// Length of every generated identifier.
pub const ID_LEN: usize = 10;

/// The shape of a generated identifier: ten URL-safe characters.
pub open spec fn is_generated_id(s: Seq<char>) -> bool {
    s.len() == ID_LEN && forall|i: int| 0 <= i < s.len() ==> is_url_safe(#[trigger] s[i])
}

/// A fresh random identifier.
///
/// Relies on nanoid::format with nanoid::alphabet::SAFE (the 64 characters
/// `_`, `-`, digits and ASCII letters) and the default random source: it
/// pushes alphabet characters until the string holds the requested number.
#[verifier::external_body]
pub fn new_id() -> (r: String)
    ensures
        is_generated_id(r@),
{
    nanoid::format(nanoid::rngs::default, &nanoid::alphabet::SAFE, ID_LEN)
}

} // verus!
