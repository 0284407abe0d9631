//! Configuration that the process is given at start.

use vstd::prelude::*;

use std::sync::Arc;

verus! {

/// The account used to log in to the upstream service.
#[derive(Clone, Debug)]
pub struct AuthConfig {
    pub email: String,
    pub password: String,
}

/// Settings of the upstream service: the application identifier sent in the
/// `ubi-appid` header, the scheme prefixed to every ticket, and the space and
/// sandbox identifiers of each platform.
#[derive(Clone, Debug)]
pub struct UbiConfig {
    pub appid: String,
    pub authorization_prefix: String,
    pub spaces_id_pc: String,
    pub spaces_id_xbox: String,
    pub spaces_id_ps4: String,
    pub sandbox_pc: String,
    pub sandbox_xbox: String,
    pub sandbox_ps4: String,
}

/// The whole configuration of the process.
#[derive(Clone, Debug)]
pub struct Config {
    pub auth: AuthConfig,
    pub ubi: UbiConfig,
    pub database_url: String,
    pub host: String,
    pub port: i32,
    pub secret_key: String,
    pub jwt_secret: String,
}

/// The keys for password hashing and for web tokens, shared between workers.
#[derive(Clone, Debug)]
pub struct CryptoService {
    pub key: Arc<String>,
    pub jwt_secret: Arc<String>,
}

impl Config {
    /// The hashing service, keyed with this configuration's secrets.
    pub fn crypto_service(&self) -> (r: CryptoService)
        ensures
            (*r.key)@ == self.secret_key@,
            (*r.jwt_secret)@ == self.jwt_secret@,
    {
        CryptoService {
            key: Arc::new(self.secret_key.clone()),
            jwt_secret: Arc::new(self.jwt_secret.clone()),
        }
    }
}

} // verus!
