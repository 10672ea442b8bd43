//! Server config.

use crate::crypto::{encode_lower, hex_lower, lemma_hex_lower_len, random_bytes, seeded_rng};
use vstd::prelude::*;

verus! {

/// The default port the server is hosted on.
pub const DEFAULT_PORT: u16 = 4000;

/// The number of random bytes in a signing key.
pub const SIGNING_KEY_BYTES: usize = 256;

/// Server config.
#[derive(Clone, Debug)]
pub struct ServerConfig {
    pub port: u16,
    pub static_files_dir: String,
    pub database_url: Option<String>,
    pub signing_key: Option<String>,
}

impl ServerConfig {
    /// Creates a new `ServerConfig` with sensible defaults: the default
    /// port, static files under `./site`, neither database nor signing key.
    pub fn new() -> (r: ServerConfig)
        ensures
            r.port == DEFAULT_PORT,
            r.static_files_dir@ == "./site"@,
            r.database_url is None,
            r.signing_key is None,
    {
        ServerConfig {
            port: DEFAULT_PORT,
            static_files_dir: "./site".to_owned(),
            database_url: None,
            signing_key: None,
        }
    }

    /// The database connection url.
    pub fn database_url(self, database_url: String) -> (r: ServerConfig)
        ensures
            r.database_url == Some(database_url),
            r.port == self.port,
            r.static_files_dir == self.static_files_dir,
            r.signing_key == self.signing_key,
    {
        ServerConfig {
            port: self.port,
            static_files_dir: self.static_files_dir,
            database_url: Some(database_url),
            signing_key: self.signing_key,
        }
    }

    /// The signing key to use when signing tokens. If no key is passed, one
    /// is generated on startup.
    pub fn signing_key(self, key: String) -> (r: ServerConfig)
        ensures
            r.signing_key == Some(key),
            r.port == self.port,
            r.static_files_dir == self.static_files_dir,
            r.database_url == self.database_url,
    {
        ServerConfig {
            port: self.port,
            static_files_dir: self.static_files_dir,
            database_url: self.database_url,
            signing_key: Some(key),
        }
    }
}

impl Default for ServerConfig {
    fn default() -> (r: ServerConfig)
        ensures
            r.port == DEFAULT_PORT,
            r.static_files_dir@ == "./site"@,
            r.database_url is None,
            r.signing_key is None,
    {
        ServerConfig::new()
    }
}

/// Creates a random signing key and returns it as a [`String`]: 256 random
/// bytes in base 16.
pub fn random_signing_key() -> (key: String)
    ensures
        key@.len() == 2 * SIGNING_KEY_BYTES,
        exists|bytes: Seq<u8>| bytes.len() == SIGNING_KEY_BYTES && key@ == hex_lower(bytes),
{
    let mut rng = seeded_rng();
    let bytes = random_bytes(&mut rng, SIGNING_KEY_BYTES);
    proof {
        lemma_hex_lower_len(bytes@);
    }
    encode_lower(bytes.as_slice())
}

} // verus!
