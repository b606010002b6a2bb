//! Core of a game-client launcher: resolves a versioned client manifest into
//! the set of files the client needs, plans hash-verified downloads for them,
//! and assembles the argument vector that starts the client process.

use vstd::prelude::*;

pub use io::launcher_store::LauncherStore;

pub mod assets_installer;
pub mod global_path;
pub mod io;
pub mod java;
pub mod json;
pub mod minecraft;
pub mod text;
pub mod utils;

verus! {

/// The error taxonomy of the launcher core.
///
/// `ManifestNotFound`: the requested version is absent from the catalog.
/// `SchemaError`: a required manifest field is missing or malformed.
/// `NetworkError`: a transport failure, non-success status, or a response
/// without a declared content length.
/// `IntegrityError`: a downloaded body whose digest does not match.
/// `FilesystemError`: directories or files cannot be created or written.
#[derive(Clone, Copy, Debug, PartialEq, Eq, Structural)]
pub enum LauncherError {
    ManifestNotFound,
    SchemaError,
    NetworkError,
    IntegrityError,
    FilesystemError,
}

} // verus!
