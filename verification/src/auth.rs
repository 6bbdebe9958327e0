//! Reading the bearer token out of an `Authorization` header.

use vstd::prelude::*;
use crate::text::str_equal;

verus! {

/// The token of an `Authorization` header value: what follows its
/// `Bearer ` prefix, when it has that prefix.
pub open spec fn bearer_token_of(header: Seq<char>) -> Option<Seq<char>> {
    if header.len() >= 7 && header.take(7) == "Bearer "@ {
        Some(header.skip(7))
    } else {
        None
    }
}

/// The token that an `Authorization` header value carries after `Bearer `,
/// or `None` when the value does not start so.
pub fn bearer_token(header: &str) -> (token: Option<String>)
    ensures
        match (token, bearer_token_of(header@)) {
            (Some(t), Some(u)) => t@ == u,
            (None, None) => true,
            _ => false,
        },
{
    let n = header.unicode_len();
    if n < 7 {
        return None;
    }
    let prefix = header.substring_char(0, 7);
    if !str_equal(prefix, "Bearer ") {
        return None;
    }
    Some(header.substring_char(7, n).to_owned())
}

/// A header value made of `Bearer ` and a token carries that token.
pub proof fn lemma_bearer_token_round_trip(token: Seq<char>)
    ensures
        bearer_token_of("Bearer "@ + token) == Some(token),
{
    reveal_strlit("Bearer ");
    let header = "Bearer "@ + token;
    assert(header.take(7) =~= "Bearer "@);
    assert(header.skip(7) =~= token);
}

} // verus!
