//! Where the keys for tokens lie, and how long a token lasts.

use vstd::prelude::*;

verus! {

/// The files of an RSA key pair, by their paths, and the lifetime of a token
/// in seconds.
#[derive(Debug, Clone, PartialEq, Eq)]
pub struct RsaJwtConfig {
    pub private_key: String,
    pub public_key: String,
    pub expiration: u64,
}

/// The settings of authentication.
#[derive(Debug, Clone, PartialEq, Eq)]
pub struct AuthConfig {
    pub access: RsaJwtConfig,
}

} // verus!
