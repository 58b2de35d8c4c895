//! From the text of a lock file to the project that it describes.

use crate::document::{document_records, parse_toml, read_packages, toml_parse};
use crate::error::{LockIssue, PrepopError};
use crate::package::{project_shape, shape_of, ProjectShape};
use vstd::prelude::*;

verus! {

/// Reads the project out of a parsed lock document.
pub fn project_of_document(document: &toml::Value) -> (project: Result<ProjectShape, PrepopError>)
    ensures
        match document_records(*document) {
            Ok(records) => project matches Ok(shape) && shape@ == shape_of(records),
            Err(issue) => project == Err::<ProjectShape, _>(PrepopError::FormatError(issue)),
        },
{
    match read_packages(document) {
        Ok(records) => Ok(project_shape(records)),
        Err(error) => Err(error),
    }
}

/// Reads the project out of the text of a lock file.
///
/// Fails where the text is not TOML and where the document holds no list of
/// package records.
pub fn parse_lockfile(text: &str) -> (project: Result<ProjectShape, PrepopError>)
    ensures
        match toml_parse(text@) {
            None => project matches Err(PrepopError::FormatError(LockIssue::Syntax(_))),
            Some(document) => match document_records(document) {
                Ok(records) => project matches Ok(shape) && shape@ == shape_of(records),
                Err(issue) => project == Err::<ProjectShape, _>(PrepopError::FormatError(issue)),
            },
        },
{
    match parse_toml(text) {
        Ok(document) => project_of_document(&document),
        Err(error) => Err(error),
    }
}

} // verus!
