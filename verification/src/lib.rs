//! A wiki content engine.
//!
//! [`slug`] holds the paths of pages. [`markdown`] turns the source of a
//! page into a stream of markup events and runs it through the filters that
//! tag headings, shorten wikitext and decorate links; [`markdown::links`]
//! collects the pages that a source links to. [`routes::page`] renders a page
//! to sanitized HTML and says what a submitted edit writes: the new content,
//! the patch for the log of changes, and the links to establish and to
//! deregister.
//!
//! Nothing in the crate reads or writes outside of memory. The database, the
//! clock and the web are the caller's.

pub mod account;
pub mod cli;
pub mod crypto;
pub mod markdown;
pub mod routes;
pub mod schema;
pub mod slug;
pub mod slug_set;
pub mod state;
pub mod text;
pub mod universe;
