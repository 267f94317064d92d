//! Account identities as the host chain spells them.
use vstd::prelude::*;

verus! {

/// `-`, `_` or `.`: the characters that join the parts of an account identity.
pub open spec fn is_separator(c: char) -> bool {
    c == '-' || c == '_' || c == '.'
}

/// A lower-case ASCII letter or a digit.
pub open spec fn is_lower_alnum(c: char) -> bool {
    ('a' <= c && c <= 'z') || ('0' <= c && c <= '9')
}

/// A well-formed account identity: 2 to 64 lower-case letters, digits and
/// separators, with no separator first, last, or next to another.
pub open spec fn valid_account_id(s: Seq<char>) -> bool {
    &&& 2 <= s.len() <= 64
    &&& forall|i: int| 0 <= i < s.len() ==> is_lower_alnum(#[trigger] s[i]) || is_separator(s[i])
    &&& !is_separator(s[0])
    &&& !is_separator(s[s.len() - 1])
    &&& forall|i: int|
        0 <= i < s.len() - 1 ==> !(is_separator(#[trigger] s[i]) && is_separator(s[i + 1]))
}

/// Relies on `near_sdk::env::is_valid_account_id`, which walks the UTF-8 bytes
/// of the identity. A character outside ASCII gives bytes of 0x80 and above,
/// which it refuses, so on the characters it decides `valid_account_id`.
#[verifier::external_body]
pub(crate) fn is_valid_account_id(s: &String) -> (r: bool)
    ensures
        r == valid_account_id(s@),
{
    near_sdk::env::is_valid_account_id(s.as_bytes())
}

} // verus!
