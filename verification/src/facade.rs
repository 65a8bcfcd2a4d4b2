//! The verification flow around the key cache.
//!
//! A verification either completes against the snapshot at hand or asks
//! for one key-set refresh first: the snapshot has passed its deadline,
//! or the token names a key the snapshot does not hold. The caller runs
//! the fetch (the one suspension point of the flow) and finishes against
//! the installed snapshot; a second refresh is never requested, so a key
//! still unknown after the refresh fails the request.

use vstd::prelude::*;
use vstd::utf8::is_ascii_chars;
use crate::claims::{req_str, ClaimsModel, FirebaseClaims};
use crate::config::FirebaseConfig;
use crate::errors::AuthError;
use crate::keys::{spec_find_key, KeyModel, SigningKeySet};
use crate::strutil::str_eq;
use crate::token::{spec_split3, split3};
use crate::verify::{
    check_token, decode_segment, result_model, segment_doc, spec_check_token, spec_verify_unsigned,
    verify_unsigned,
};

verus! {

/// What a verification needs next: it is done, or the key cache must be
/// refreshed once before it can finish.
pub enum VerifyStep {
    Done(Result<FirebaseClaims, AuthError>),
    NeedRefresh,
}

/// The mathematical shape of a flow step.
pub ghost enum StepModel {
    Done(Result<ClaimsModel, AuthError>),
    NeedRefresh,
}

impl View for VerifyStep {
    type V = StepModel;

    open spec fn view(&self) -> StepModel {
        match self {
            VerifyStep::Done(r) => StepModel::Done(result_model(*r)),
            VerifyStep::NeedRefresh => StepModel::NeedRefresh,
        }
    }
}

/// The key identifier a token's header names, where the token is ASCII,
/// three-segmented and its header decodes.
pub open spec fn token_kid(t: Seq<char>) -> Option<Seq<char>> {
    if !is_ascii_chars(t) {
        None
    } else {
        match spec_split3(t) {
            None => None,
            Some(parts) => match segment_doc(parts.0) {
                None => None,
                Some(hv) => req_str(hv, "kid"@),
            },
        }
    }
}

/// The first step of verifying against the snapshot at hand: a refresh
/// is requested exactly where the header is in order, its algorithm is
/// the accepted one, and the snapshot is stale or lacks the named key;
/// every other token completes immediately.
pub open spec fn spec_begin_verify(
    t: Seq<char>,
    keys: Seq<KeyModel>,
    expiry: u64,
    project: Seq<char>,
    now: u64,
) -> StepModel {
    if !is_ascii_chars(t) {
        StepModel::Done(Err(AuthError::MalformedToken))
    } else {
        match spec_split3(t) {
            None => StepModel::Done(Err(AuthError::MalformedToken)),
            Some(parts) => match segment_doc(parts.0) {
                None => StepModel::Done(Err(AuthError::MalformedToken)),
                Some(hv) => match req_str(hv, "alg"@) {
                    None => StepModel::Done(Err(AuthError::MalformedToken)),
                    Some(alg) => match req_str(hv, "kid"@) {
                        None => StepModel::Done(Err(AuthError::MalformedToken)),
                        Some(kid) => if alg != "RS256"@ {
                            StepModel::Done(Err(AuthError::InvalidSignature))
                        } else if now >= expiry || spec_find_key(keys, kid) is None {
                            StepModel::NeedRefresh
                        } else {
                            StepModel::Done(spec_check_token(t, keys, project, now))
                        },
                    },
                },
            },
        }
    }
}

/// Starts a verification against the snapshot at hand, asking for one
/// refresh where the snapshot is stale or lacks the token's key.
pub fn begin_verify(token: &str, key_set: &SigningKeySet, project_id: &str, now: u64) -> (r:
    VerifyStep)
    ensures
        r@ == spec_begin_verify(token@, key_set@.keys, key_set@.expiry, project_id@, now),
{
    if !token.is_ascii() {
        return VerifyStep::Done(Err(AuthError::MalformedToken));
    }
    let parts = match split3(token) {
        Some(parts) => parts,
        None => return VerifyStep::Done(Err(AuthError::MalformedToken)),
    };
    let hv = match decode_segment(parts.0) {
        Some(v) => v,
        None => return VerifyStep::Done(Err(AuthError::MalformedToken)),
    };
    let alg = match crate::claims::get_req_str(&hv, "alg") {
        Some(s) => s,
        None => return VerifyStep::Done(Err(AuthError::MalformedToken)),
    };
    let kid = match crate::claims::get_req_str(&hv, "kid") {
        Some(s) => s,
        None => return VerifyStep::Done(Err(AuthError::MalformedToken)),
    };
    if !str_eq(alg.as_str(), "RS256") {
        return VerifyStep::Done(Err(AuthError::InvalidSignature));
    }
    if key_set.is_stale(now) || !key_set.has_key(kid.as_str()) {
        return VerifyStep::NeedRefresh;
    }
    VerifyStep::Done(check_token(token, key_set, project_id, now))
}

/// Finishes a verification after the one permitted refresh, against the
/// snapshot the refresh installed. No further refresh is ever requested:
/// a key still unknown here fails the request.
pub fn finish_verify(token: &str, refreshed: &SigningKeySet, project_id: &str, now: u64) -> (r:
    Result<FirebaseClaims, AuthError>)
    ensures
        result_model(r) == spec_check_token(token@, refreshed@.keys, project_id@, now),
{
    check_token(token, refreshed, project_id, now)
}

/// Dispatches a verification: the signature-free decode path runs when
/// and only when the emulator toggle is set; otherwise the real path
/// starts against the snapshot at hand.
pub fn verify_dispatch(token: &str, config: &FirebaseConfig, key_set: &SigningKeySet, now: u64) -> (r:
    VerifyStep)
    ensures
        config.use_emulator ==> r@ == StepModel::Done(spec_verify_unsigned(token@)),
        !config.use_emulator ==> r@ == spec_begin_verify(
            token@,
            key_set@.keys,
            key_set@.expiry,
            config.project_id@,
            now,
        ),
{
    if config.use_emulator {
        VerifyStep::Done(verify_unsigned(token))
    } else {
        begin_verify(token, key_set, config.project_id.as_str(), now)
    }
}

} // verus!
