//! The settings of the process.

use vstd::prelude::*;

verus! {

/// The host the server listens on where none is configured.
pub const DEFAULT_HOST: &'static str = "0.0.0.0";

/// The port the server listens on where none is configured.
pub const DEFAULT_PORT: u16 = 8080;

/// The size of the connection pool where none is configured.
pub const DEFAULT_MAX_CONNECTIONS: u32 = 5;

/// The lifetime of a session token, in seconds, where none is configured.
pub const DEFAULT_JWT_EXPIRATION: i64 = 3600;

/// The name of the environment where none is configured.
pub const DEFAULT_ENVIRONMENT: &'static str = "development";

/// Where the server listens.
#[derive(Debug, Clone, PartialEq, Eq)]
pub struct ServerSettings {
    pub host: String,
    pub port: u16,
}

/// How the user store is reached.
#[derive(Debug, Clone, PartialEq, Eq)]
pub struct DatabaseSettings {
    pub url: String,
    pub max_connections: u32,
}

/// What the token codec is configured with.
#[derive(Debug, Clone, PartialEq, Eq)]
pub struct ApplicationSettings {
    pub jwt_secret: String,
    pub jwt_expiration: i64,
    pub environment: String,
}

/// The process-wide configuration, read once at startup and never changed.
#[derive(Debug, Clone, PartialEq, Eq)]
pub struct Settings {
    pub server: ServerSettings,
    pub database: DatabaseSettings,
    pub application: ApplicationSettings,
}

impl Settings {
    /// The address of the user store.
    pub fn database_url(&self) -> (url: String)
        ensures
            url@ == self.database.url@,
    {
        self.database.url.clone()
    }
}

} // verus!
