//! The provider's public signing keys.
//!
//! A snapshot holds the keys published by the identity provider together
//! with the deadline after which it must be refreshed before use. A
//! snapshot is immutable: a refresh builds a complete replacement and
//! publishes it whole, so no reader ever observes a partially updated
//! key mapping.

use vstd::prelude::*;
use serde_json::Value;
use crate::cachecontrol::{refresh_deadline, spec_refresh_deadline};
use crate::claims::{get_req_str, req_str};
use crate::errors::AuthError;
use crate::jsonval::{json_as_array, json_elements, json_field, json_get, json_parse, json_parsed};
use crate::strutil::str_eq;

verus! {

/// One published RSA public key: its identifier and its base64url-encoded
/// modulus and exponent, exactly as the key-set document carries them.
#[derive(Debug, Clone, PartialEq, Eq)]
pub struct SigningKey {
    pub kid: String,
    pub n: String,
    pub e: String,
}

/// The mathematical shape of a signing key.
#[verifier::ext_equal]
pub ghost struct KeyModel {
    pub kid: Seq<char>,
    pub n: Seq<char>,
    pub e: Seq<char>,
}

impl View for SigningKey {
    type V = KeyModel;

    open spec fn view(&self) -> KeyModel {
        KeyModel { kid: self.kid@, n: self.n@, e: self.e@ }
    }
}

/// An immutable snapshot of the published keys and its refresh deadline,
/// in seconds since the epoch.
#[derive(Debug, Clone, PartialEq, Eq)]
pub struct SigningKeySet {
    pub keys: Vec<SigningKey>,
    pub expiry: u64,
}

/// The mathematical shape of a snapshot.
#[verifier::ext_equal]
pub ghost struct KeySetModel {
    pub keys: Seq<KeyModel>,
    pub expiry: u64,
}

impl View for SigningKeySet {
    type V = KeySetModel;

    open spec fn view(&self) -> KeySetModel {
        KeySetModel { keys: self.keys@.map_values(|k: SigningKey| k@), expiry: self.expiry }
    }
}

/// The first key at or after position `i` carrying the identifier.
pub open spec fn find_key_from(keys: Seq<KeyModel>, kid: Seq<char>, i: int) -> Option<KeyModel>
    decreases keys.len() - i,
{
    if i < 0 || i >= keys.len() {
        None
    } else if keys[i].kid == kid {
        Some(keys[i])
    } else {
        find_key_from(keys, kid, i + 1)
    }
}

/// The first key carrying the identifier, if any.
pub open spec fn spec_find_key(keys: Seq<KeyModel>, kid: Seq<char>) -> Option<KeyModel> {
    find_key_from(keys, kid, 0)
}

proof fn lemma_find_key_pin(keys: Seq<KeyModel>, kid: Seq<char>, from: int, i: int)
    requires
        0 <= from <= i <= keys.len(),
        forall|k: int| from <= k < i ==> keys[k].kid != kid,
    ensures
        find_key_from(keys, kid, from) == find_key_from(keys, kid, i),
    decreases i - from,
{
    if from < i {
        lemma_find_key_pin(keys, kid, from + 1, i);
    }
}

impl SigningKeySet {
    /// Looks the identifier up among the held keys.
    pub fn find(&self, kid: &str) -> (r: Option<&SigningKey>)
        ensures
            match r {
                Some(k) => spec_find_key(self@.keys, kid@) == Some(k@),
                None => spec_find_key(self@.keys, kid@) is None,
            },
    {
        let n = self.keys.len();
        let mut i: usize = 0;
        while i < n
            invariant
                0 <= i <= n,
                n == self.keys@.len(),
                forall|k: int| 0 <= k < i ==> self@.keys[k].kid != kid@,
            decreases n - i,
        {
            if str_eq(self.keys[i].kid.as_str(), kid) {
                proof {
                    lemma_find_key_pin(self@.keys, kid@, 0, i as int);
                }
                return Some(&self.keys[i]);
            }
            i += 1;
        }
        proof {
            lemma_find_key_pin(self@.keys, kid@, 0, n as int);
        }
        None
    }

    /// Whether the identifier is among the held keys.
    pub fn has_key(&self, kid: &str) -> (r: bool)
        ensures
            r == (spec_find_key(self@.keys, kid@) is Some),
    {
        self.find(kid).is_some()
    }

    /// Whether the snapshot has passed its refresh deadline.
    pub fn is_stale(&self, now: u64) -> (r: bool)
        ensures
            r == (now >= self@.expiry),
    {
        now >= self.expiry
    }
}

/// The key one element of the published array describes: it must name an
/// RSA key and carry its identifier, modulus and exponent as strings.
pub open spec fn key_of_value(v: Value) -> Option<KeyModel> {
    if req_str(v, "kty"@) == Some("RSA"@) && req_str(v, "kid"@) is Some && req_str(v, "n"@) is Some
        && req_str(v, "e"@) is Some {
        Some(
            KeyModel {
                kid: req_str(v, "kid"@).unwrap(),
                n: req_str(v, "n"@).unwrap(),
                e: req_str(v, "e"@).unwrap(),
            },
        )
    } else {
        None
    }
}

/// The keys described by the first `i` elements of the published array,
/// or nothing where any of them is unusable.
pub open spec fn keys_of_prefix(items: Seq<Value>, i: int) -> Option<Seq<KeyModel>>
    decreases i,
{
    if i <= 0 {
        Some(Seq::empty())
    } else {
        match keys_of_prefix(items, i - 1) {
            None => None,
            Some(pre) => match key_of_value(items[i - 1]) {
                None => None,
                Some(k) => Some(pre.push(k)),
            },
        }
    }
}

/// The keys a parsed key-set document describes: a `keys` member holding
/// an array of usable key descriptions.
pub open spec fn keys_of_value(v: Value) -> Option<Seq<KeyModel>> {
    match json_field(v, "keys"@) {
        None => None,
        Some(arr) => match json_elements(arr) {
            None => None,
            Some(items) => keys_of_prefix(items, items.len() as int),
        },
    }
}

/// The keys a fetched key-set body describes, or nothing where the body
/// is not JSON or does not describe a usable key set.
pub open spec fn spec_parse_jwks(b: Seq<u8>) -> Option<Seq<KeyModel>> {
    match json_parsed(b) {
        None => None,
        Some(v) => keys_of_value(v),
    }
}

proof fn lemma_keys_of_prefix_bad(items: Seq<Value>, i: int, j: int)
    requires
        0 <= i <= j,
        keys_of_prefix(items, i) is None,
    ensures
        keys_of_prefix(items, j) is None,
    decreases j,
{
    if i < j {
        lemma_keys_of_prefix_bad(items, i, j - 1);
    }
}

fn key_from_value(v: &Value) -> (r: Option<SigningKey>)
    ensures
        r is Some <==> key_of_value(*v) is Some,
        r matches Some(k) ==> key_of_value(*v) == Some(k@),
{
    let kty = match get_req_str(v, "kty") {
        Some(s) => s,
        None => return None,
    };
    if !str_eq(kty.as_str(), "RSA") {
        return None;
    }
    let kid = match get_req_str(v, "kid") {
        Some(s) => s,
        None => return None,
    };
    let n = match get_req_str(v, "n") {
        Some(s) => s,
        None => return None,
    };
    let e = match get_req_str(v, "e") {
        Some(s) => s,
        None => return None,
    };
    Some(SigningKey { kid, n, e })
}

/// Reads the keys out of a fetched key-set body. An unusable body is a
/// fetch failure: it is never defaulted to an empty key set.
pub fn parse_jwks(body: &[u8]) -> (r: Result<Vec<SigningKey>, AuthError>)
    ensures
        match r {
            Ok(ks) => spec_parse_jwks(body@) == Some(ks@.map_values(|k: SigningKey| k@)),
            Err(e) => spec_parse_jwks(body@) is None && e == AuthError::KeySetFetchFailed,
        },
{
    let doc = match json_parse(body) {
        Some(v) => v,
        None => return Err(AuthError::KeySetFetchFailed),
    };
    let arr = match json_get(&doc, "keys") {
        Some(a) => a,
        None => return Err(AuthError::KeySetFetchFailed),
    };
    let items = match json_as_array(&arr) {
        Some(items) => items,
        None => return Err(AuthError::KeySetFetchFailed),
    };
    let n = items.len();
    let mut out: Vec<SigningKey> = Vec::new();
    let mut i: usize = 0;
    while i < n
        invariant
            0 <= i <= n,
            n == items@.len(),
            spec_parse_jwks(body@) == keys_of_prefix(items@, n as int),
            keys_of_prefix(items@, i as int) == Some(out@.map_values(|k: SigningKey| k@)),
        decreases n - i,
    {
        match key_from_value(&items[i]) {
            Some(k) => {
                out.push(k);
                proof {
                    assert(out@.map_values(|k: SigningKey| k@) =~= keys_of_prefix(
                        items@,
                        i as int,
                    ).unwrap().push(out@.last()@));
                }
            },
            None => {
                proof {
                    lemma_keys_of_prefix_bad(items@, i as int + 1, n as int);
                }
                return Err(AuthError::KeySetFetchFailed);
            },
        }
        i += 1;
    }
    Ok(out)
}

/// Builds the snapshot a successful fetch installs: the keys the body
/// describes, with the deadline the response's Cache-Control value gives.
pub fn install_snapshot(body: &[u8], cache_control: Option<&str>, now: u64) -> (r: Result<
    SigningKeySet,
    AuthError,
>)
    ensures
        match r {
            Ok(s) => spec_parse_jwks(body@) == Some(s@.keys) && s@.expiry == spec_refresh_deadline(
                now,
                match cache_control {
                    Some(cc) => Some(cc@),
                    None => None,
                },
            ),
            Err(e) => spec_parse_jwks(body@) is None && e == AuthError::KeySetFetchFailed,
        },
{
    let keys = match parse_jwks(body) {
        Ok(ks) => ks,
        Err(e) => return Err(e),
    };
    let expiry = refresh_deadline(now, cache_control);
    Ok(SigningKeySet { keys, expiry })
}

/// The empty, far-future snapshot the emulator path starts from: the
/// emulator never checks signatures, so no keys are ever fetched.
pub fn emulator_snapshot(now: u64) -> (r: SigningKeySet)
    ensures
        r@.keys.len() == 0,
        r@.expiry == now as int + 3600 || (now as int + 3600 > u64::MAX && r@.expiry == u64::MAX),
{
    let s = SigningKeySet { keys: Vec::new(), expiry: now.saturating_add(3600) };
    proof {
        assert(s@.keys =~= Seq::<KeyModel>::empty());
    }
    s
}

} // verus!
