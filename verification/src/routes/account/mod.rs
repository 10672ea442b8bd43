//! Account routes.

pub mod login;
pub mod logout;
