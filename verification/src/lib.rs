//! Rebuilds the manifests of a Cargo project from the text of its lock file.
//!
//! The lock file names every resolved package. Those without a `source` are the
//! project's own; for each of them a minimal manifest is planned that declares
//! again the dependencies it had from the crates.io registry.

pub mod document;
pub mod edge;
pub mod error;
pub mod lockfile;
pub mod manifest;
pub mod package;
pub mod scaffold;
pub mod table;

pub use crate::error::PrepopError;
pub use crate::scaffold::prepopulate;
