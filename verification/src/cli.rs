//! The commands of the command line.

use crate::crypto::{generate_salt, hash_password, hex_lower, sha256, HASH_LENGTH, SALT_LENGTH};
use crate::text::is_ascii_alphanumeric;
use vstd::prelude::*;
use vstd::utf8::*;

verus! {

/// The command line.
#[derive(Debug)]
pub struct Cli {
    pub command: Option<Command>,
}

/// Performs an operation.
#[derive(Debug)]
pub enum Command {
    /// Creates a new object in the database.
    Create(Create),
}

/// Creates a new object in the database.
#[derive(Debug)]
pub enum Create {
    /// Creates a new user.
    User(CreateUser),
    /// Creates a new universe.
    Universe(CreateUniverse),
    /// Creates a new signing key.
    SigningKey,
}

/// Creates a new user in the database.
#[derive(Debug)]
pub struct CreateUser {
    /// The username of the account.
    pub username: String,
    /// The password of the account.
    pub password: String,
}

/// Creates a new universe in the database.
#[derive(Debug)]
pub struct CreateUniverse {
    /// The virtual host of the universe.
    pub host: String,
}

/// What the process does once the command line is dealt with.
#[derive(Clone, Copy, Debug, PartialEq, Eq, Structural)]
pub enum ShouldContinue {
    /// The server should start as normal.
    Daemon,
    /// A one-time command was issued and the process should exit.
    Exit,
}

impl Cli {
    /// The process serves where no command was given, and exits once a
    /// command is carried out.
    pub fn should_continue(&self) -> (r: ShouldContinue)
        ensures
            r == if self.command is None {
                ShouldContinue::Daemon
            } else {
                ShouldContinue::Exit
            },
    {
        match self.command {
            Some(_) => ShouldContinue::Exit,
            None => ShouldContinue::Daemon,
        }
    }
}

/// The salt and the hash that are stored for a password.
#[derive(Debug)]
pub struct NewLogin {
    pub password_hash: String,
    pub salt: String,
}

/// Makes the login of a new user: a fresh salt, and the hash of the
/// password with it.
pub fn new_login(password: &str) -> (r: NewLogin)
    ensures
        r.salt@.len() == SALT_LENGTH,
        forall|i: int| 0 <= i < r.salt@.len() ==> is_ascii_alphanumeric(#[trigger] r.salt@[i]),
        r.password_hash@ == hex_lower(sha256(encode_utf8(password@) + encode_utf8(r.salt@))),
        r.password_hash@.len() == HASH_LENGTH,
{
    let salt = generate_salt(SALT_LENGTH);
    let password_hash = hash_password(password, salt.as_str());
    NewLogin { password_hash, salt }
}

} // verus!
