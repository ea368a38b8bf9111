use vstd::prelude::*;

verus! {

/// Appends `c` to `s` by `String::push`; the contract states its effect on the characters of
/// `s`, which is taken on trust.
#[verifier::external_body]
pub(crate) fn push_char(s: &mut String, c: char)
    ensures
        final(s)@ == old(s)@.push(c),
{
    s.push(c);
}

/// A new `String` holding the characters of `s`.
pub fn string_of(s: &str) -> (r: String)
    ensures
        r@ == s@,
{
    s.to_owned()
}

/// `s` holds exactly the characters of `t`.
pub fn same_text(s: &String, t: &str) -> (r: bool)
    ensures
        r == (s@ == t@),
{
    let t = string_of(t);
    *s == t
}

} // verus!
