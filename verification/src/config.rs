//! Configuration consumed by the verifier at construction.

use vstd::prelude::*;
use crate::errors::AuthError;

verus! {

/// Identity-provider settings: the project identifier expected in a
/// token's audience and issuer, and the emulator toggle with its
/// endpoint. Loaded once at startup; immutable thereafter.
#[derive(Debug, Clone)]
pub struct FirebaseConfig {
    pub project_id: String,
    pub api_key: String,
    pub auth_domain: String,
    pub use_emulator: bool,
    pub emulator_host: Option<String>,
    pub emulator_port: Option<u16>,
}

/// Service-wide configuration, read from the environment at startup.
#[derive(Debug, Clone)]
pub struct Config {
    pub database_url: String,
    pub redis_url: String,
    pub jwt_secret: String,
    pub server_port: u16,
    pub environment: String,
    pub firebase: FirebaseConfig,
}

/// Whether the emulator toggle is set without a complete endpoint.
pub open spec fn spec_emulator_misconfigured(c: &FirebaseConfig) -> bool {
    c.use_emulator && (c.emulator_host is None || c.emulator_port is None)
}

/// Rejects a configuration that enables the emulator without giving both
/// its host and its port.
pub fn validate_config(c: &FirebaseConfig) -> (r: Result<(), AuthError>)
    ensures
        r is Ok <==> !spec_emulator_misconfigured(c),
        r is Err ==> r == Err::<(), AuthError>(AuthError::ConfigurationError),
{
    if c.use_emulator && (c.emulator_host.is_none() || c.emulator_port.is_none()) {
        Err(AuthError::ConfigurationError)
    } else {
        Ok(())
    }
}

} // verus!
