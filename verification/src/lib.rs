//! Extraction of the text a desktop user is currently focused on, through the
//! operating system's accessibility tree.
//!
//! The tree itself lives behind platform glue outside this crate; here stand
//! the decisions: how one node is probed for selected text ([`element`]), in
//! which order the neighborhood of the focused element is searched and when
//! the search stops ([`search`]), how a whole query plays out against a known
//! environment ([`environment`]), how the caller's bounded wait is resolved
//! ([`worker`]), and the one-time initialization guard ([`init`]).

pub mod element;
pub mod environment;
pub mod error;
pub mod init;
pub mod search;
pub mod worker;
