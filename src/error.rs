use vstd::prelude::*;
use crate::model::RecordStatus;

verus! {

/// The ways a request against the demonlist can fail.
#[derive(Clone, Debug, PartialEq, Eq)]
pub enum PointercrateError {
    /// No connection to the store could be had; the caller may retry.
    DatabaseConnectionError,
    /// Any other fault of the store.
    DatabaseError,
    /// The submitting party is banned.
    BannedFromSubmissions,
    /// The player the record is for is banned.
    PlayerBanned,
    /// The demon is beyond the extended list and takes no submissions.
    SubmitLegacy,
    /// Demons on the extended list only take records of 100%.
    Non100Extended,
    /// The progress lies outside `[requirement, 100]`.
    InvalidProgress { requirement: i16 },
    /// A record of equal or better standing already exists.
    SubmissionExists { status: RecordStatus },
    /// The named object does not exist.
    ModelNotFound { model: &'static str, identified_by: String },
    /// The video reference did not pass validation.
    InvalidVideo { reason: String },
}

} // verus!
