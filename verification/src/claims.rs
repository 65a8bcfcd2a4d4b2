//! The decoded, validated payload of a bearer token.
//!
//! A claims value is produced once per verification call and owned by the
//! caller. Extraction from a parsed JSON payload is exact: every required
//! field must be present with the right kind, an optional field may be
//! absent or null, and any other shape rejects the whole payload.

use vstd::prelude::*;
use serde_json::Value;
use crate::errors::AuthError;
use crate::jsonval::{
    json_as_bool, json_as_str, json_as_u64, json_field, json_get, json_is_null, json_null,
    json_string, json_truth, json_uint,
};

verus! {

/// The payload fields of a verified token.
#[derive(Debug, Clone, PartialEq, Eq)]
pub struct FirebaseClaims {
    /// Subject: the provider's identifier for the authenticated user.
    pub sub: String,
    /// Audience: the project identifier the token was minted for.
    pub aud: String,
    /// Issuer URL.
    pub iss: String,
    /// Issued-at time, in seconds since the epoch.
    pub iat: u64,
    /// Expiry time, in seconds since the epoch.
    pub exp: u64,
    /// Optional profile fields.
    pub email: Option<String>,
    pub email_verified: Option<bool>,
    pub name: Option<String>,
    pub picture: Option<String>,
    pub user_id: Option<String>,
}

/// The mathematical shape of a claims value.
#[verifier::ext_equal]
pub ghost struct ClaimsModel {
    pub sub: Seq<char>,
    pub aud: Seq<char>,
    pub iss: Seq<char>,
    pub iat: u64,
    pub exp: u64,
    pub email: Option<Seq<char>>,
    pub email_verified: Option<bool>,
    pub name: Option<Seq<char>>,
    pub picture: Option<Seq<char>>,
    pub user_id: Option<Seq<char>>,
}

impl View for FirebaseClaims {
    type V = ClaimsModel;

    open spec fn view(&self) -> ClaimsModel {
        ClaimsModel {
            sub: self.sub@,
            aud: self.aud@,
            iss: self.iss@,
            iat: self.iat,
            exp: self.exp,
            email: match self.email {
                Some(s) => Some(s@),
                None => None,
            },
            email_verified: self.email_verified,
            name: match self.name {
                Some(s) => Some(s@),
                None => None,
            },
            picture: match self.picture {
                Some(s) => Some(s@),
                None => None,
            },
            user_id: match self.user_id {
                Some(s) => Some(s@),
                None => None,
            },
        }
    }
}

/// A required string member: present and a string.
pub open spec fn req_str(v: Value, key: Seq<char>) -> Option<Seq<char>> {
    match json_field(v, key) {
        None => None,
        Some(f) => json_string(f),
    }
}

/// A required unsigned integer member: present and an integer in range.
pub open spec fn req_u64(v: Value, key: Seq<char>) -> Option<u64> {
    match json_field(v, key) {
        None => None,
        Some(f) => json_uint(f),
    }
}

/// An optional string member: the outer None stands for a present member
/// of the wrong kind, the inner None for an absent or null member.
pub open spec fn opt_str(v: Value, key: Seq<char>) -> Option<Option<Seq<char>>> {
    match json_field(v, key) {
        None => Some(None),
        Some(f) => if json_is_null(f) {
            Some(None)
        } else {
            match json_string(f) {
                None => None,
                Some(s) => Some(Some(s)),
            }
        },
    }
}

/// An optional boolean member, shaped as `opt_str`.
pub open spec fn opt_bool(v: Value, key: Seq<char>) -> Option<Option<bool>> {
    match json_field(v, key) {
        None => Some(None),
        Some(f) => if json_is_null(f) {
            Some(None)
        } else {
            match json_truth(f) {
                None => None,
                Some(b) => Some(Some(b)),
            }
        },
    }
}

/// The claims a JSON payload document carries, or nothing where a
/// required member is missing or any member has the wrong kind.
pub open spec fn claims_of_value(v: Value) -> Option<ClaimsModel> {
    if req_str(v, "sub"@) is Some && req_str(v, "aud"@) is Some && req_str(v, "iss"@) is Some
        && req_u64(v, "iat"@) is Some && req_u64(v, "exp"@) is Some && opt_str(v, "email"@) is Some
        && opt_bool(v, "email_verified"@) is Some && opt_str(v, "name"@) is Some && opt_str(
        v,
        "picture"@,
    ) is Some && opt_str(v, "user_id"@) is Some {
        Some(
            ClaimsModel {
                sub: req_str(v, "sub"@).unwrap(),
                aud: req_str(v, "aud"@).unwrap(),
                iss: req_str(v, "iss"@).unwrap(),
                iat: req_u64(v, "iat"@).unwrap(),
                exp: req_u64(v, "exp"@).unwrap(),
                email: opt_str(v, "email"@).unwrap(),
                email_verified: opt_bool(v, "email_verified"@).unwrap(),
                name: opt_str(v, "name"@).unwrap(),
                picture: opt_str(v, "picture"@).unwrap(),
                user_id: opt_str(v, "user_id"@).unwrap(),
            },
        )
    } else {
        None
    }
}

pub(crate) fn get_req_str(v: &Value, key: &str) -> (r: Option<String>)
    ensures
        r is Some <==> req_str(*v, key@) is Some,
        r matches Some(s) ==> req_str(*v, key@) == Some(s@),
{
    match json_get(v, key) {
        None => None,
        Some(f) => json_as_str(&f),
    }
}

pub(crate) fn get_req_u64(v: &Value, key: &str) -> (r: Option<u64>)
    ensures
        r == req_u64(*v, key@),
{
    match json_get(v, key) {
        None => None,
        Some(f) => json_as_u64(&f),
    }
}

pub(crate) fn get_opt_str(v: &Value, key: &str) -> (r: Option<Option<String>>)
    ensures
        r is Some <==> opt_str(*v, key@) is Some,
        r matches Some(None) ==> opt_str(*v, key@) == Some(None::<Seq<char>>),
        r matches Some(Some(s)) ==> opt_str(*v, key@) == Some(Some(s@)),
{
    match json_get(v, key) {
        None => Some(None),
        Some(f) => if json_null(&f) {
            Some(None)
        } else {
            match json_as_str(&f) {
                None => None,
                Some(s) => Some(Some(s)),
            }
        },
    }
}

pub(crate) fn get_opt_bool(v: &Value, key: &str) -> (r: Option<Option<bool>>)
    ensures
        r is Some <==> opt_bool(*v, key@) is Some,
        r matches Some(ob) ==> opt_bool(*v, key@) == Some(ob),
{
    match json_get(v, key) {
        None => Some(None),
        Some(f) => if json_null(&f) {
            Some(None)
        } else {
            match json_as_bool(&f) {
                None => None,
                Some(b) => Some(Some(b)),
            }
        },
    }
}

/// Decodes a parsed JSON payload into the typed claims structure.
pub fn claims_from_value(v: &Value) -> (r: Result<FirebaseClaims, AuthError>)
    ensures
        match r {
            Ok(c) => claims_of_value(*v) == Some(c@),
            Err(e) => claims_of_value(*v) is None && e == AuthError::MalformedToken,
        },
{
    let sub = match get_req_str(v, "sub") {
        Some(s) => s,
        None => return Err(AuthError::MalformedToken),
    };
    let aud = match get_req_str(v, "aud") {
        Some(s) => s,
        None => return Err(AuthError::MalformedToken),
    };
    let iss = match get_req_str(v, "iss") {
        Some(s) => s,
        None => return Err(AuthError::MalformedToken),
    };
    let iat = match get_req_u64(v, "iat") {
        Some(n) => n,
        None => return Err(AuthError::MalformedToken),
    };
    let exp = match get_req_u64(v, "exp") {
        Some(n) => n,
        None => return Err(AuthError::MalformedToken),
    };
    let email = match get_opt_str(v, "email") {
        Some(o) => o,
        None => return Err(AuthError::MalformedToken),
    };
    let email_verified = match get_opt_bool(v, "email_verified") {
        Some(o) => o,
        None => return Err(AuthError::MalformedToken),
    };
    let name = match get_opt_str(v, "name") {
        Some(o) => o,
        None => return Err(AuthError::MalformedToken),
    };
    let picture = match get_opt_str(v, "picture") {
        Some(o) => o,
        None => return Err(AuthError::MalformedToken),
    };
    let user_id = match get_opt_str(v, "user_id") {
        Some(o) => o,
        None => return Err(AuthError::MalformedToken),
    };
    let c = FirebaseClaims {
        sub,
        aud,
        iss,
        iat,
        exp,
        email,
        email_verified,
        name,
        picture,
        user_id,
    };
    proof {
        assert(claims_of_value(*v) == Some(c@));
    }
    Ok(c)
}

} // verus!
