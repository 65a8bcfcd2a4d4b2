//! Signature and claims verification against a key-set snapshot, and the
//! signature-free emulator decode path.
//!
//! The real path re-checks audience, issuer and expiry itself, on the
//! claims it decoded, independently of anything the signature library
//! validates: a claims value is returned only when the signature matched
//! a key of the given snapshot and every claim check passed.

use vstd::prelude::*;
use vstd::utf8::is_ascii_chars;
use serde_json::Value;
use crate::base64url::{b64url_decoded, base64_decode};
use crate::claims::{claims_from_value, claims_of_value, req_str, ClaimsModel, FirebaseClaims};
use crate::errors::AuthError;
use crate::jsonval::{json_parse, json_parsed};
use crate::keys::{spec_find_key, KeyModel, SigningKeySet};
use crate::strutil::{str_eq, str_eq_concat};
use crate::token::{spec_split3, split3};

verus! {

/// The issuer URL of a token is this prefix followed by the project
/// identifier.
pub open spec fn issuer_prefix() -> Seq<char> {
    "https://securetoken.google.com/"@
}

/// A result with each claims value replaced by its model.
pub open spec fn result_model(r: Result<FirebaseClaims, AuthError>) -> Result<
    ClaimsModel,
    AuthError,
> {
    match r {
        Ok(c) => Ok(c@),
        Err(e) => Err(e),
    }
}

/// The bytes of an ASCII string.
pub open spec fn ascii_bytes(s: Seq<char>) -> Seq<u8> {
    s.map_values(|c: char| c as u8)
}

/// The bytes whose signature a token carries: header, dot, payload.
pub open spec fn signing_input(h: Seq<char>, p: Seq<char>) -> Seq<u8> {
    ascii_bytes(h) + seq![46u8] + ascii_bytes(p)
}

/// Whether the RSA key with the given base64url modulus and exponent
/// signed `message` with the accepted asymmetric algorithm, where the
/// signature is given in base64url.
pub uninterp spec fn rs256_sig_ok(
    message: Seq<u8>,
    signature_b64: Seq<char>,
    n_b64: Seq<char>,
    e_b64: Seq<char>,
) -> bool;

/// Relies on jsonwebtoken::DecodingKey::from_rsa_components and
/// jsonwebtoken::crypto::verify with Algorithm::RS256: whether a
/// base64url signature matches a message under the RSA key named by its
/// base64url modulus and exponent depends on those values alone.
/// Unusable key material or an undecodable signature is a mismatch.
#[verifier::external_body]
fn rs256_verify(message: &[u8], signature_b64: &str, n_b64: &str, e_b64: &str) -> (r: bool)
    ensures
        r == rs256_sig_ok(message@, signature_b64@, n_b64@, e_b64@),
{
    match jsonwebtoken::DecodingKey::from_rsa_components(n_b64, e_b64) {
        Ok(key) => jsonwebtoken::crypto::verify(
            signature_b64,
            message,
            &key,
            jsonwebtoken::Algorithm::RS256,
        ).unwrap_or(false),
        Err(_) => false,
    }
}

fn build_signing_input(h: &str, p: &str) -> (r: Vec<u8>)
    requires
        h.is_ascii(),
        p.is_ascii(),
    ensures
        r@ == signing_input(h@, p@),
{
    let hlen: usize = h.unicode_len();
    let plen: usize = p.unicode_len();
    let mut out: Vec<u8> = Vec::new();
    let mut i: usize = 0;
    while i < hlen
        invariant
            0 <= i <= hlen,
            hlen == h@.len(),
            h.is_ascii(),
            out@.len() == i,
            forall|k: int| 0 <= k < i ==> out@[k] == h@[k] as u8,
        decreases hlen - i,
    {
        out.push(h.get_ascii(i));
        i += 1;
    }
    out.push(46);
    let mut j: usize = 0;
    while j < plen
        invariant
            0 <= j <= plen,
            hlen == h@.len(),
            plen == p@.len(),
            p.is_ascii(),
            out@.len() == hlen + 1 + j,
            forall|k: int| 0 <= k < hlen ==> out@[k] == h@[k] as u8,
            out@[hlen as int] == 46u8,
            forall|k: int| 0 <= k < j ==> out@[hlen + 1 + k] == p@[k] as u8,
        decreases plen - j,
    {
        out.push(p.get_ascii(j));
        j += 1;
    }
    proof {
        assert(out@ =~= signing_input(h@, p@));
    }
    out
}

/// The JSON document a base64url segment carries.
pub open spec fn segment_doc(seg: Seq<char>) -> Option<Value> {
    match b64url_decoded(seg) {
        None => None,
        Some(b) => json_parsed(b),
    }
}

/// Decodes a base64url segment and parses it as JSON.
pub(crate) fn decode_segment(seg: &str) -> (r: Option<Value>)
    ensures
        r == segment_doc(seg@),
{
    match base64_decode(seg) {
        Some(bytes) => json_parse(bytes.as_slice()),
        None => None,
    }
}

/// The claims a payload segment carries.
pub open spec fn payload_claims(p: Seq<char>) -> Option<ClaimsModel> {
    match segment_doc(p) {
        None => None,
        Some(v) => claims_of_value(v),
    }
}

/// The outcome of verifying a token against the given keys, project
/// identifier and clock, reading the steps in order: structure, header,
/// algorithm, key lookup, signature, payload, audience, issuer, expiry.
pub open spec fn spec_check_token(
    t: Seq<char>,
    keys: Seq<KeyModel>,
    project: Seq<char>,
    now: u64,
) -> Result<ClaimsModel, AuthError> {
    if !is_ascii_chars(t) {
        Err(AuthError::MalformedToken)
    } else {
        match spec_split3(t) {
            None => Err(AuthError::MalformedToken),
            Some(parts) => match segment_doc(parts.0) {
                None => Err(AuthError::MalformedToken),
                Some(hv) => match req_str(hv, "alg"@) {
                    None => Err(AuthError::MalformedToken),
                    Some(alg) => match req_str(hv, "kid"@) {
                        None => Err(AuthError::MalformedToken),
                        Some(kid) => if alg != "RS256"@ {
                            Err(AuthError::InvalidSignature)
                        } else {
                            match spec_find_key(keys, kid) {
                                None => Err(AuthError::UnknownKey),
                                Some(key) => spec_check_signed(parts, key, project, now),
                            }
                        },
                    },
                },
            },
        }
    }
}

/// The outcome of the steps after key resolution: signature, payload,
/// audience, issuer, expiry.
pub open spec fn spec_check_signed(
    parts: (Seq<char>, Seq<char>, Seq<char>),
    key: KeyModel,
    project: Seq<char>,
    now: u64,
) -> Result<ClaimsModel, AuthError> {
    if !rs256_sig_ok(signing_input(parts.0, parts.1), parts.2, key.n, key.e) {
        Err(AuthError::InvalidSignature)
    } else {
        match payload_claims(parts.1) {
            None => Err(AuthError::MalformedToken),
            Some(c) => if c.aud != project {
                Err(AuthError::InvalidAudience)
            } else if c.iss != issuer_prefix() + project {
                Err(AuthError::InvalidIssuer)
            } else if c.exp <= now {
                Err(AuthError::Expired)
            } else {
                Ok(c)
            },
        }
    }
}

/// Verifies a token against a key-set snapshot: signature under the
/// resolved key, then audience, issuer and expiry, re-checked here
/// independently of the signature library.
pub fn check_token(token: &str, key_set: &SigningKeySet, project_id: &str, now: u64) -> (r: Result<
    FirebaseClaims,
    AuthError,
>)
    ensures
        result_model(r) == spec_check_token(token@, key_set@.keys, project_id@, now),
{
    if !token.is_ascii() {
        return Err(AuthError::MalformedToken);
    }
    let parts = match split3(token) {
        Some(parts) => parts,
        None => return Err(AuthError::MalformedToken),
    };
    let (header_seg, payload_seg, signature_seg) = parts;
    proof {
        assert(is_ascii_chars(header_seg@));
        assert(is_ascii_chars(payload_seg@));
    }
    let hv = match decode_segment(header_seg) {
        Some(v) => v,
        None => return Err(AuthError::MalformedToken),
    };
    let alg = match crate::claims::get_req_str(&hv, "alg") {
        Some(s) => s,
        None => return Err(AuthError::MalformedToken),
    };
    let kid = match crate::claims::get_req_str(&hv, "kid") {
        Some(s) => s,
        None => return Err(AuthError::MalformedToken),
    };
    if !str_eq(alg.as_str(), "RS256") {
        return Err(AuthError::InvalidSignature);
    }
    let key = match key_set.find(kid.as_str()) {
        Some(k) => k,
        None => return Err(AuthError::UnknownKey),
    };
    let message = build_signing_input(header_seg, payload_seg);
    if !rs256_verify(message.as_slice(), signature_seg, key.n.as_str(), key.e.as_str()) {
        return Err(AuthError::InvalidSignature);
    }
    let pv = match decode_segment(payload_seg) {
        Some(v) => v,
        None => return Err(AuthError::MalformedToken),
    };
    let claims = match claims_from_value(&pv) {
        Ok(c) => c,
        Err(_) => return Err(AuthError::MalformedToken),
    };
    if !str_eq(claims.aud.as_str(), project_id) {
        return Err(AuthError::InvalidAudience);
    }
    if !str_eq_concat(claims.iss.as_str(), "https://securetoken.google.com/", project_id) {
        return Err(AuthError::InvalidIssuer);
    }
    if claims.exp <= now {
        return Err(AuthError::Expired);
    }
    Ok(claims)
}

/// The outcome of the signature-free decode path on a token: split,
/// decode the payload, read the claims — nothing else is looked at.
pub open spec fn spec_verify_unsigned(t: Seq<char>) -> Result<ClaimsModel, AuthError> {
    match spec_split3(t) {
        None => Err(AuthError::MalformedToken),
        Some(parts) => match payload_claims(parts.1) {
            None => Err(AuthError::MalformedToken),
            Some(c) => Ok(c),
        },
    }
}

/// Decodes a token without any signature, issuer or audience check. This
/// is the emulator path: it trusts the caller-supplied token structurally
/// and must only be reachable under explicit emulator configuration.
pub fn verify_unsigned(token: &str) -> (r: Result<FirebaseClaims, AuthError>)
    ensures
        result_model(r) == spec_verify_unsigned(token@),
{
    let parts = match split3(token) {
        Some(parts) => parts,
        None => return Err(AuthError::MalformedToken),
    };
    let pv = match decode_segment(parts.1) {
        Some(v) => v,
        None => return Err(AuthError::MalformedToken),
    };
    match claims_from_value(&pv) {
        Ok(c) => Ok(c),
        Err(_) => Err(AuthError::MalformedToken),
    }
}

} // verus!
