//! Visual style search over a library of fingerprint strips: which files are
//! candidates, how results are named, how many are kept, and the search errors.

use vstd::prelude::*;
use crate::text::{concat, str_eq};

verus! {

broadcast use vstd::string::group_string_axioms;

/// Errors of movie search.
#[derive(Debug, Clone)]
pub enum MovieSearchError {
    IoError(String),
    InvalidInput(String),
    DnaError(String),
    NoResults(String),
}

impl MovieSearchError {
    /// The text of the error.
    pub fn message(&self) -> (r: String)
        ensures
            *self matches MovieSearchError::IoError(m) ==> r@ == "MOVIE_SEARCH_IO_ERROR -- "@ + m@,
            *self matches MovieSearchError::InvalidInput(m) ==> r@ == "MOVIE_SEARCH_INVALID_INPUT -- "@ + m@,
            *self matches MovieSearchError::DnaError(m) ==> r@ == "MOVIE_SEARCH_DNA_ERROR -- "@ + m@,
            *self matches MovieSearchError::NoResults(m) ==> r@ == "MOVIE_SEARCH_NO_RESULTS -- "@ + m@,
    {
        match self {
            MovieSearchError::IoError(m) => concat("MOVIE_SEARCH_IO_ERROR -- ", m.as_str()),
            MovieSearchError::InvalidInput(m) => concat("MOVIE_SEARCH_INVALID_INPUT -- ", m.as_str()),
            MovieSearchError::DnaError(m) => concat("MOVIE_SEARCH_DNA_ERROR -- ", m.as_str()),
            MovieSearchError::NoResults(m) => concat("MOVIE_SEARCH_NO_RESULTS -- ", m.as_str()),
        }
    }
}

/// Whether a library file is compared with the query: a ".png" file (exactly that
/// extension) other than the query itself.
pub fn is_library_candidate(extension: Option<&str>, is_query: bool) -> (r: bool)
    ensures
        r == ((extension matches Some(e) && e@ == "png"@) && !is_query),
{
    match extension {
        Some(e) => str_eq(e, "png") && !is_query,
        None => false,
    }
}

/// The name of a result: the file stem, or "unknown".
pub fn result_name(stem: Option<&str>) -> (r: String)
    ensures
        stem matches Some(s) ==> r@ == s@,
        stem is None ==> r@ == "unknown"@,
{
    match stem {
        Some(s) => String::from_str(s),
        None => String::from_str("unknown"),
    }
}

/// The number of ranked results kept: at most `limit`; a library search that keeps
/// none reports that no strip was found.
pub fn kept_results(found: usize, limit: usize) -> (r: Result<usize, MovieSearchError>)
    ensures
        (if found < limit { found } else { limit }) == 0 ==> (r matches Err(MovieSearchError::NoResults(m))
            && m@ == "no valid strip images found in library directory"@),
        (if found < limit { found } else { limit }) > 0 ==> r == Ok::<usize, MovieSearchError>(
            if found < limit { found } else { limit }),
{
    let kept = if found < limit {
        found
    } else {
        limit
    };
    if kept == 0 {
        return Err(MovieSearchError::NoResults(String::from_str("no valid strip images found in library directory")));
    }
    Ok(kept)
}

/// The error for a query strip that does not exist.
pub fn query_not_found(path: &str) -> (r: MovieSearchError)
    ensures
        r matches MovieSearchError::InvalidInput(m) && m@ == "query strip not found: "@ + path@,
{
    MovieSearchError::InvalidInput(concat("query strip not found: ", path))
}

/// The error for a library directory that does not exist.
pub fn library_not_found(path: &str) -> (r: MovieSearchError)
    ensures
        r matches MovieSearchError::InvalidInput(m) && m@ == "library directory not found: "@ + path@,
{
    MovieSearchError::InvalidInput(concat("library directory not found: ", path))
}

} // verus!
