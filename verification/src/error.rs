//! The ways in which planning a project can fail.

use vstd::prelude::*;

verus! {

/// A field of a package entry in a lock document.
#[derive(Debug, Clone, Copy, PartialEq, Eq, Structural)]
pub enum RecordField {
    Name,
    Version,
    Source,
    Dependencies,
}

/// Why a lock document was turned down.
#[derive(Debug, Clone, PartialEq, Eq)]
pub enum LockIssue {
    /// The text is not TOML; the string is the parser's message.
    Syntax(String),
    /// The document has no top-level `package` entry.
    MissingPackageList,
    /// The top-level `package` entry is not an array.
    PackageListNotArray,
    /// The entry at index `entry` of the package list lacks `field`, or holds
    /// a value of the wrong type in it.
    BadField { entry: usize, field: RecordField },
    /// A dependency of one of the project's own packages is made of neither
    /// two nor three space-separated parts; the string is that dependency.
    MalformedEdge(String),
}

/// An error of this library.
#[derive(Debug, Clone, PartialEq, Eq)]
pub enum PrepopError {
    /// The path given does not name a lock file, or could not be read or written.
    PathError(String),
    /// A manifest could not be rendered or its file could not be opened.
    TomlBuildError(String),
    /// The lock document cannot be interpreted.
    FormatError(LockIssue),
    /// The packages found do not make up a project.
    InvalidProject,
}

} // verus!
