//! Tag calibration records, search feedback and their errors.

use vstd::prelude::*;
use crate::text::{concat, str_eq};

verus! {

broadcast use vstd::string::group_string_axioms;

/// Errors of calibration operations.
#[derive(Debug, Clone)]
pub enum CalibrationError {
    DatabaseError(String),
}

impl CalibrationError {
    /// The text of the error.
    pub fn message(&self) -> (r: String)
        ensures
            *self matches CalibrationError::DatabaseError(m) ==> r@ == "CALIBRATION_DB_ERROR -- "@ + m@,
    {
        match self {
            CalibrationError::DatabaseError(m) => concat("CALIBRATION_DB_ERROR -- ", m.as_str()),
        }
    }
}

/// A colourist's correction of generated tags.
#[derive(Debug, Clone)]
pub struct CalibrationRecord {
    pub id: i64,
    pub project_name: String,
    pub fingerprint_id: i64,
    pub removed_tags: String,
    pub added_tags: String,
    pub renamed_tags: String,
    pub created_at: i64,
}

/// Errors of search feedback.
#[derive(Debug, Clone)]
pub enum FeedbackError {
    DatabaseError(String),
    InvalidAction(String),
}

impl FeedbackError {
    /// The text of the error.
    pub fn message(&self) -> (r: String)
        ensures
            *self matches FeedbackError::DatabaseError(m) ==> r@ == "FEEDBACK_DB_ERROR -- "@ + m@,
            *self matches FeedbackError::InvalidAction(m) ==> r@ == "FEEDBACK_INVALID_ACTION -- "@ + m@,
    {
        match self {
            FeedbackError::DatabaseError(m) => concat("FEEDBACK_DB_ERROR -- ", m.as_str()),
            FeedbackError::InvalidAction(m) => concat("FEEDBACK_INVALID_ACTION -- ", m.as_str()),
        }
    }
}

/// Check the action of a feedback entry: "accepted" or "rejected".
pub fn check_feedback_action(action: &str) -> (r: Result<(), FeedbackError>)
    ensures
        (action@ == "accepted"@ || action@ == "rejected"@) ==> r is Ok,
        !(action@ == "accepted"@ || action@ == "rejected"@) ==> (r matches Err(FeedbackError::InvalidAction(m))
            && m@ == "Invalid action '"@ + action@ + "', must be 'accepted' or 'rejected'"@),
{
    if !str_eq(action, "accepted") && !str_eq(action, "rejected") {
        let a = concat("Invalid action '", action);
        return Err(FeedbackError::InvalidAction(concat(a.as_str(), "', must be 'accepted' or 'rejected'")));
    }
    Ok(())
}

} // verus!
