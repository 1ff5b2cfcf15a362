//! Filesystem operation helpers and a component-registry filter.
//!
//! The crate has two independent parts. The filesystem part resolves
//! `~`-prefixed paths, renders directory trees, searches file names and
//! turns operation outcomes into descriptive strings; all of its logic is
//! verified here, while the surrounding I/O lives outside the library.
//! The registry part filters a list of named, described, URI-addressed
//! components by a free-text query.

pub mod errors;
pub mod ops;
pub mod registry;
pub mod resolve;
pub mod search;
pub mod text;
pub mod tree;
