//! Laws of the verifier, stated across its functions and proved from
//! the contracts the modules export.

use vstd::prelude::*;
use vstd::utf8::is_ascii_chars;
use serde_json::Value;
use crate::cachecontrol::{
    spec_effective_max_age, spec_refresh_deadline, KEYS_REFRESH_BUFFER_SECS,
};
use crate::claims::{req_str, ClaimsModel};
use crate::errors::AuthError;
use crate::facade::{spec_begin_verify, token_kid};
use crate::keys::{spec_find_key, KeyModel};
use crate::verify::{
    issuer_prefix, payload_claims, rs256_sig_ok, segment_doc, signing_input, spec_check_token,
};

verus! {

/// A valid token is accepted with its payload returned exactly: where
/// the token is well-formed, declares the accepted algorithm, names a
/// key the snapshot holds, carries a signature that key made, and its
/// claims match the configured audience and issuer with an expiry still
/// in the future, verification returns exactly the claims the payload
/// carries.
pub proof fn lemma_valid_token_accepted(
    t: Seq<char>,
    keys: Seq<KeyModel>,
    project: Seq<char>,
    now: u64,
    parts: (Seq<char>, Seq<char>, Seq<char>),
    hv: Value,
    kid: Seq<char>,
    key: KeyModel,
    c: ClaimsModel,
)
    requires
        is_ascii_chars(t),
        crate::token::spec_split3(t) == Some(parts),
        segment_doc(parts.0) == Some(hv),
        req_str(hv, "alg"@) == Some("RS256"@),
        req_str(hv, "kid"@) == Some(kid),
        spec_find_key(keys, kid) == Some(key),
        rs256_sig_ok(signing_input(parts.0, parts.1), parts.2, key.n, key.e),
        payload_claims(parts.1) == Some(c),
        c.aud == project,
        c.iss == issuer_prefix() + project,
        c.exp > now,
    ensures
        spec_check_token(t, keys, project, now) == Ok::<ClaimsModel, AuthError>(c),
{
}

/// Claims are only ever produced from a valid token: whenever the real
/// path returns a claims value, the token was well-formed, declared the
/// accepted algorithm, its signature matched a key held by the snapshot
/// used for this verification, the claims are exactly the payload's, the
/// audience and issuer matched the configured project, and the expiry
/// was strictly in the future at verification time.
pub proof fn lemma_accepted_token_was_valid(
    t: Seq<char>,
    keys: Seq<KeyModel>,
    project: Seq<char>,
    now: u64,
    c: ClaimsModel,
)
    requires
        spec_check_token(t, keys, project, now) == Ok::<ClaimsModel, AuthError>(c),
    ensures
        is_ascii_chars(t),
        crate::token::spec_split3(t) is Some,
        ({
            let parts = crate::token::spec_split3(t).unwrap();
            let hv = segment_doc(parts.0);
            &&& hv is Some
            &&& req_str(hv.unwrap(), "alg"@) == Some("RS256"@)
            &&& req_str(hv.unwrap(), "kid"@) is Some
            &&& spec_find_key(keys, req_str(hv.unwrap(), "kid"@).unwrap()) is Some
            &&& rs256_sig_ok(
                signing_input(parts.0, parts.1),
                parts.2,
                spec_find_key(keys, req_str(hv.unwrap(), "kid"@).unwrap()).unwrap().n,
                spec_find_key(keys, req_str(hv.unwrap(), "kid"@).unwrap()).unwrap().e,
            )
            &&& payload_claims(parts.1) == Some(c)
        }),
        c.aud == project,
        c.iss == issuer_prefix() + project,
        c.exp > now,
{
}

/// A token naming a key the refreshed snapshot still does not hold is
/// rejected as unknown: after the one refresh a verification performs,
/// a well-formed token with the accepted algorithm whose key identifier
/// is still absent fails with `UnknownKey`, whatever else it carries.
pub proof fn lemma_unknown_after_refresh(
    t: Seq<char>,
    stale_keys: Seq<KeyModel>,
    stale_expiry: u64,
    refreshed_keys: Seq<KeyModel>,
    project: Seq<char>,
    now: u64,
    kid: Seq<char>,
)
    requires
        spec_begin_verify(t, stale_keys, stale_expiry, project, now) is NeedRefresh,
        token_kid(t) == Some(kid),
        spec_find_key(refreshed_keys, kid) is None,
    ensures
        spec_check_token(t, refreshed_keys, project, now) == Err::<ClaimsModel, AuthError>(
            AuthError::UnknownKey,
        ),
{
}

/// An expired token is rejected as such by the verifier's own clock
/// comparison, which runs on the decoded claims after the signature
/// check and owes nothing to any expiry validation the signature
/// library performs: with every earlier step passing and the expiry not
/// in the future, the outcome is `Expired`.
pub proof fn lemma_expired_rejected(
    t: Seq<char>,
    keys: Seq<KeyModel>,
    project: Seq<char>,
    now: u64,
    parts: (Seq<char>, Seq<char>, Seq<char>),
    hv: Value,
    kid: Seq<char>,
    key: KeyModel,
    c: ClaimsModel,
)
    requires
        is_ascii_chars(t),
        crate::token::spec_split3(t) == Some(parts),
        segment_doc(parts.0) == Some(hv),
        req_str(hv, "alg"@) == Some("RS256"@),
        req_str(hv, "kid"@) == Some(kid),
        spec_find_key(keys, kid) == Some(key),
        rs256_sig_ok(signing_input(parts.0, parts.1), parts.2, key.n, key.e),
        payload_claims(parts.1) == Some(c),
        c.aud == project,
        c.iss == issuer_prefix() + project,
        c.exp <= now,
    ensures
        spec_check_token(t, keys, project, now) == Err::<ClaimsModel, AuthError>(
            AuthError::Expired,
        ),
{
}

/// A token declaring any algorithm other than the accepted asymmetric
/// one is rejected with a signature-class error before any key is
/// looked up: the outcome does not depend on the key set at all.
pub proof fn lemma_disallowed_alg_rejected(
    t: Seq<char>,
    keys: Seq<KeyModel>,
    project: Seq<char>,
    now: u64,
    parts: (Seq<char>, Seq<char>, Seq<char>),
    hv: Value,
    alg: Seq<char>,
    kid: Seq<char>,
)
    requires
        is_ascii_chars(t),
        crate::token::spec_split3(t) == Some(parts),
        segment_doc(parts.0) == Some(hv),
        req_str(hv, "alg"@) == Some(alg),
        req_str(hv, "kid"@) == Some(kid),
        alg != "RS256"@,
    ensures
        spec_check_token(t, keys, project, now) == Err::<ClaimsModel, AuthError>(
            AuthError::InvalidSignature,
        ),
{
}

/// The signature-free decode path looks at nothing but the payload
/// segment: two three-segment tokens with the same payload decode to the
/// same outcome, whatever their header and signature segments hold — no
/// signature check occurs on this path.
pub proof fn lemma_unsigned_ignores_header_and_signature(t1: Seq<char>, t2: Seq<char>)
    requires
        crate::token::spec_split3(t1) is Some,
        crate::token::spec_split3(t2) is Some,
        crate::token::spec_split3(t1).unwrap().1 == crate::token::spec_split3(t2).unwrap().1,
    ensures
        crate::verify::spec_verify_unsigned(t1) == crate::verify::spec_verify_unsigned(t2),
{
}

/// A refresh that installs a response advertising more than the safety
/// buffer leaves a snapshot that is not yet stale at the time of the
/// fetch, so a caller re-reading after a completed refresh observes a
/// non-expired snapshot.
pub proof fn lemma_refresh_gives_fresh_snapshot(now: u64, cc: Option<Seq<char>>)
    requires
        spec_effective_max_age(cc) > KEYS_REFRESH_BUFFER_SECS,
        now + spec_effective_max_age(cc) - KEYS_REFRESH_BUFFER_SECS <= u64::MAX,
    ensures
        spec_refresh_deadline(now, cc) > now,
{
}

} // verus!
