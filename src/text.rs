use vstd::prelude::*;
use vstd::string::*;

verus! {

/// Whether a character is white space in Unicode's sense.
pub uninterp spec fn is_space(c: char) -> bool;

/// Relies on char::is_whitespace, which answers by the Unicode White_Space
/// property of the character alone.
#[verifier::external_body]
fn char_is_space(c: char) -> (r: bool)
    ensures
        r == is_space(c),
{
    c.is_whitespace()
}

/// A string is blank when it is empty or holds white space only.
pub open spec fn blank(s: Seq<char>) -> bool {
    forall|i: int| 0 <= i < s.len() ==> is_space(#[trigger] s[i])
}

/// Whether nothing is left of the string once white space is trimmed away.
pub fn is_blank(s: &String) -> (r: bool)
    ensures
        r == blank(s@),
{
    let t = s.as_str();
    let n = t.unicode_len();
    let mut i: usize = 0;
    while i < n
        invariant
            n == t@.len(),
            t@ == s@,
            i <= n,
            forall|j: int| 0 <= j < i ==> is_space(#[trigger] s@[j]),
        decreases n - i,
    {
        if !char_is_space(t.get_char(i)) {
            return false;
        }
        i = i + 1;
    }
    true
}

/// `base`, a slash, then `tail`.
pub open spec fn joined(base: Seq<char>, tail: Seq<char>) -> Seq<char> {
    base + seq!['/'] + tail
}

pub fn join_path(base: &String, tail: &String) -> (r: String)
    ensures
        r@ == joined(base@, tail@),
{
    let mut r = base.clone();
    r.append("/");
    proof {
        reveal_strlit("/");
    }
    r.append(tail.as_str());
    r
}

} // verus!
