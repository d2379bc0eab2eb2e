//! Projects, their import summary and import errors.

use vstd::prelude::*;
use crate::text::concat;

verus! {

broadcast use vstd::string::group_string_axioms;

/// A registered project.
#[derive(Debug, Clone)]
pub struct Project {
    pub id: i64,
    pub name: String,
    pub path: String,
    pub dpx_count: i64,
    pub exr_count: i64,
    pub mov_count: i64,
    pub created_at: i64,
}

/// Summary of an import: the variants found, the files skipped, and the fingerprints
/// and grading features stored.
#[derive(Debug, Clone, Default)]
pub struct VariantBreakdown {
    pub variants: Vec<String>,
    pub skipped_count: usize,
    pub skipped_files: Vec<String>,
    pub fingerprint_count: usize,
    pub grading_feature_count: usize,
    pub resumed_count: usize,
}

/// Errors of project import.
#[derive(Debug, Clone)]
pub enum ImportError {
    PathNotFound(String),
    DuplicateName(String),
    DbError(String),
    CorruptFile { filename: String, reason: String },
}

impl ImportError {
    /// The text of the error.
    pub fn message(&self) -> (r: String)
        ensures
            *self matches ImportError::PathNotFound(p) ==> r@ == "IMPORT_PATH_NOT_FOUND \u{2014} Path "@ + p@
                + " does not exist"@,
            *self matches ImportError::DuplicateName(n) ==> r@ == "IMPORT_DUPLICATE_NAME \u{2014} Project '"@
                + n@ + "' already exists"@,
            *self matches ImportError::DbError(m) ==> r@ == "DB_ERROR \u{2014} "@ + m@,
            *self matches ImportError::CorruptFile { filename, reason } ==> r@
                == "IMPORT_CORRUPT_FILE -- Failed to decode "@ + filename@ + ": "@ + reason@,
    {
        match self {
            ImportError::PathNotFound(p) => {
                let a = concat("IMPORT_PATH_NOT_FOUND \u{2014} Path ", p.as_str());
                concat(a.as_str(), " does not exist")
            },
            ImportError::DuplicateName(n) => {
                let a = concat("IMPORT_DUPLICATE_NAME \u{2014} Project '", n.as_str());
                concat(a.as_str(), "' already exists")
            },
            ImportError::DbError(m) => concat("DB_ERROR \u{2014} ", m.as_str()),
            ImportError::CorruptFile { filename, reason } => {
                let a = concat("IMPORT_CORRUPT_FILE -- Failed to decode ", filename.as_str());
                let b = concat(a.as_str(), ": ");
                concat(b.as_str(), reason.as_str())
            },
        }
    }
}

} // verus!
