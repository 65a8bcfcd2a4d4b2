//! Verification of bearer tokens issued by an external identity provider.
//!
//! The provider publishes its current public signing keys as a JSON Web Key
//! Set (JWKS). This crate holds a snapshot of those keys together with a
//! refresh deadline, checks a token's signature, issuer, audience and expiry
//! against that snapshot, and offers a separate, explicitly configured
//! signature-free decode path for local emulator deployments.

pub mod base64url;
pub mod cachecontrol;
pub mod claims;
pub mod config;
pub mod errors;
pub mod facade;
pub mod jsonval;
pub mod keys;
pub mod laws;
pub mod response;
pub mod strutil;
pub mod token;
pub mod verify;
