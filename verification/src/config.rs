//! Server configuration as plain values.
//!
//! Reading the environment happens outside the library; these types only
//! carry what was read.

use vstd::prelude::*;

verus! {

/// Where the server listens.
#[derive(Clone)]
pub struct ServerConfig {
    pub host: String,
    pub port: u16,
}

/// The full configuration: listen address, database URL, and the JWT
/// signing material.
#[derive(Clone)]
pub struct Config {
    pub server: ServerConfig,
    pub database_url: String,
    pub jwt_secret: String,
    pub jwt_expires_in: String,
}

} // verus!
