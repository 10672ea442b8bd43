//! The rows that the database holds, as the rest of the crate reads them.

pub mod page;
pub mod session;
pub mod universe;
pub mod user;
