//! Batch removal of filesystem entries.
//!
//! Raw path fragments are anchored on a working directory and collapsed into
//! absolute paths by the [`sanitizer`]; the [`remover`] then decides, for each
//! path, what has to be deleted and how the attempt is counted in a
//! [`report::Report`]. The library holds every decision; reading the working
//! directory and touching the disk are left to the caller.

pub mod app;
pub mod appdata;
pub mod error;
pub mod exit;
pub mod paths;
pub mod remover;
pub mod report;
pub mod sanitizer;
