//! Reading the token out of an authorization header.

use vstd::prelude::*;
use crate::text::{from_chars, to_chars};

verus! {

/// What stands in front of the token in an authorization header.
pub const BEARER_PREFIX: &'static str = "Bearer ";

/// The token of an authorization header: what follows `Bearer `, where the
/// header begins with it.
pub open spec fn bearer_token_of(header: Seq<char>) -> Option<Seq<char>> {
    if BEARER_PREFIX@.is_prefix_of(header) {
        Some(header.skip(BEARER_PREFIX@.len() as int))
    } else {
        None
    }
}

/// Reads the token out of an authorization header.
pub fn bearer_token(header: &str) -> (token: Option<String>)
    ensures
        match token {
            Some(t) => bearer_token_of(header@) == Some(t@),
            None => bearer_token_of(header@) is None,
        },
{
    let chars = to_chars(header);
    let prefix = to_chars(BEARER_PREFIX);
    if chars.len() < prefix.len() {
        return None;
    }
    let mut i: usize = 0;
    while i < prefix.len()
        invariant
            i <= prefix.len() <= chars.len(),
            prefix@ == BEARER_PREFIX@,
            chars@ == header@,
            forall|j: int| 0 <= j < i ==> chars@[j] == prefix@[j],
        decreases prefix.len() - i,
    {
        if chars[i] != prefix[i] {
            proof {
                if BEARER_PREFIX@.is_prefix_of(header@) {
                    assert(header@.subrange(0, prefix.len() as int)[i as int]
                        == BEARER_PREFIX@[i as int]);
                }
            }
            return None;
        }
        i += 1;
    }
    assert(header@.subrange(0, prefix.len() as int) =~= BEARER_PREFIX@);
    let token = from_chars(&chars, prefix.len(), chars.len());
    assert(header@.skip(prefix.len() as int) =~= token@);
    Some(token)
}

} // verus!
