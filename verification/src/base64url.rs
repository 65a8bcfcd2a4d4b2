//! Decoding of unpadded base64url token segments.
//!
//! A token segment arrives without padding and in the URL-safe alphabet.
//! The padding is reconstructed from the segment's length (a length of
//! 1 mod 4 cannot come from any encoding and is rejected), the URL-safe
//! characters are mapped to the standard alphabet, and the outcome is
//! handed to the standard decoder.

use vstd::prelude::*;
use vstd::utf8::is_ascii_chars;

verus! {

/// The URL-safe alphabet mapped onto the standard one; other characters
/// pass through as their code points.
pub open spec fn map_b64_char(c: char) -> u8 {
    if c == '-' {
        43u8  // '+'
    } else if c == '_' {
        47u8  // '/'
    } else {
        c as u8
    }
}

/// The padded, standard-alphabet form of an unpadded base64url segment,
/// or nothing where the segment's length cannot come from any encoding.
pub open spec fn padded_standard(s: Seq<char>) -> Option<Seq<u8>> {
    if !is_ascii_chars(s) {
        None
    } else if s.len() % 4 == 1 {
        None
    } else {
        let mapped = s.map_values(|c: char| map_b64_char(c));
        if s.len() % 4 == 2 {
            Some(mapped + seq![61u8, 61u8])
        } else if s.len() % 4 == 3 {
            Some(mapped + seq![61u8])
        } else {
            Some(mapped)
        }
    }
}

/// What the standard, padded base64 decoder returns on the given bytes.
pub uninterp spec fn b64_decoded(b: Seq<u8>) -> Option<Seq<u8>>;

/// Relies on base64::decode: standard-alphabet, padded decoding, a
/// function of the input bytes alone.
#[verifier::external_body]
fn b64_standard_decode(input: &[u8]) -> (r: Option<Vec<u8>>)
    ensures
        r is Some <==> b64_decoded(input@) is Some,
        r is Some ==> r.unwrap()@ == b64_decoded(input@).unwrap(),
{
    match base64::decode(input) {
        Ok(v) => Some(v),
        Err(_) => None,
    }
}

/// The bytes an unpadded base64url segment decodes to, going through
/// padding reconstruction and the standard decoder.
pub open spec fn b64url_decoded(s: Seq<char>) -> Option<Seq<u8>> {
    match padded_standard(s) {
        None => None,
        Some(b) => b64_decoded(b),
    }
}

/// Padding correction: a segment of length 2 mod 4 is completed with two
/// padding bytes, one of length 3 mod 4 with a single padding byte, one
/// of length 0 mod 4 with none, and a length of 1 mod 4 is rejected
/// before any decoding is attempted.
pub proof fn lemma_padding_correction(s: Seq<char>)
    requires
        is_ascii_chars(s),
    ensures
        s.len() % 4 == 1 ==> padded_standard(s) is None,
        s.len() % 4 == 2 ==> padded_standard(s) == Some(
            s.map_values(|c: char| map_b64_char(c)) + seq![61u8, 61u8],
        ),
        s.len() % 4 == 3 ==> padded_standard(s) == Some(
            s.map_values(|c: char| map_b64_char(c)) + seq![61u8],
        ),
        s.len() % 4 == 0 ==> padded_standard(s) == Some(
            s.map_values(|c: char| map_b64_char(c)),
        ),
{
}

/// Decodes an unpadded base64url segment, correcting the padding first.
pub fn base64_decode(input: &str) -> (r: Option<Vec<u8>>)
    ensures
        r is Some <==> b64url_decoded(input@) is Some,
        r is Some ==> r.unwrap()@ == b64url_decoded(input@).unwrap(),
{
    if !input.is_ascii() {
        return None;
    }
    let len: usize = input.unicode_len();
    if len % 4 == 1 {
        return None;
    }
    let mut padded: Vec<u8> = Vec::new();
    let mut i: usize = 0;
    while i < len
        invariant
            0 <= i <= len,
            len == input@.len(),
            is_ascii_chars(input@),
            padded@.len() == i,
            forall|k: int| 0 <= k < i ==> padded@[k] == map_b64_char(input@[k]),
        decreases len - i,
    {
        let b: u8 = input.get_ascii(i);
        let mapped: u8 = if b == 45 {
            43  // '-' to '+'
        } else if b == 95 {
            47  // '_' to '/'
        } else {
            b
        };
        proof {
            assert('\0' <= input@[i as int] <= '\u{7f}');
            assert(mapped == map_b64_char(input@[i as int]));
        }
        padded.push(mapped);
        i += 1;
    }
    if len % 4 == 2 {
        padded.push(61);
        padded.push(61);
    } else if len % 4 == 3 {
        padded.push(61);
    }
    proof {
        assert(padded@ =~= padded_standard(input@).unwrap());
    }
    b64_standard_decode(padded.as_slice())
}

} // verus!
