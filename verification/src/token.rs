//! Structural decomposition of a bearer token.
//!
//! A token is three base64url segments — header, payload, signature —
//! joined by dots. Any other shape is malformed.

use vstd::prelude::*;
use crate::strutil::{find_char_from, find_from, lemma_find_from};

verus! {

/// The three segments of a token holding exactly two dots, in order.
pub open spec fn spec_split3(t: Seq<char>) -> Option<(Seq<char>, Seq<char>, Seq<char>)> {
    match find_from(t, '.', 0) {
        None => None,
        Some(i) => match find_from(t, '.', i + 1) {
            None => None,
            Some(j) => if find_from(t, '.', j + 1) is Some {
                None
            } else if 0 <= i < j < t.len() {
                Some((t.subrange(0, i), t.subrange(i + 1, j), t.subrange(j + 1, t.len() as int)))
            } else {
                None
            },
        },
    }
}

/// Splits a token into its three segments; any other segment count is
/// rejected.
pub fn split3<'a>(token: &'a str) -> (r: Option<(&'a str, &'a str, &'a str)>)
    ensures
        match r {
            Some(parts) => spec_split3(token@) == Some((parts.0@, parts.1@, parts.2@)),
            None => spec_split3(token@) is None,
        },
{
    let len: usize = token.unicode_len();
    let i = match find_char_from(token, '.', 0) {
        Some(i) => i,
        None => return None,
    };
    proof {
        lemma_find_from(token@, '.', 0);
    }
    assert(i < len);
    let j = match find_char_from(token, '.', i + 1) {
        Some(j) => j,
        None => return None,
    };
    proof {
        lemma_find_from(token@, '.', i as int + 1);
    }
    assert(i < j && j < len);
    if find_char_from(token, '.', j + 1).is_some() {
        return None;
    }
    let header = token.substring_char(0, i);
    let payload = token.substring_char(i + 1, j);
    let signature = token.substring_char(j + 1, len);
    Some((header, payload, signature))
}

} // verus!
