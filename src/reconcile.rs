use vstd::prelude::*;
use crate::error::PointercrateError;
use crate::model::RecordStatus;

verus! {

/// What to do with a submission that passed the eligibility rules.
#[derive(Clone, Copy, Debug, PartialEq, Eq, Structural)]
pub enum Resolution {
    /// Nothing is written: the submission was only to be checked.
    Unchanged,
    /// A new record is added beside whatever exists.
    Insert,
    /// The pending duplicate is deleted and a new record is added.
    Supersede,
}

/// The decision for a submission of `progress`, given the status and progress
/// of the duplicate that exists for it, if any.
pub open spec fn resolution(
    existing: Option<(RecordStatus, i16)>,
    progress: i16,
    verify_only: bool,
) -> Result<Resolution, PointercrateError> {
    match existing {
        None => if verify_only {
            Ok(Resolution::Unchanged)
        } else {
            Ok(Resolution::Insert)
        },
        Some((status, previous)) => if status == RecordStatus::Rejected || previous >= progress {
            Err(PointercrateError::SubmissionExists { status })
        } else if verify_only {
            Ok(Resolution::Unchanged)
        } else if status == RecordStatus::Submitted {
            Ok(Resolution::Supersede)
        } else {
            Ok(Resolution::Insert)
        },
    }
}

/// Decides between inserting, superseding a pending duplicate, doing nothing
/// and rejecting.
pub fn resolve_duplicate(
    existing: Option<(RecordStatus, i16)>,
    progress: i16,
    verify_only: bool,
) -> (r: Result<Resolution, PointercrateError>)
    ensures
        r == resolution(existing, progress, verify_only),
{
    match existing {
        None => {
            if verify_only {
                Ok(Resolution::Unchanged)
            } else {
                Ok(Resolution::Insert)
            }
        },
        Some((status, previous)) => {
            if status == RecordStatus::Rejected || previous >= progress {
                Err(PointercrateError::SubmissionExists { status })
            } else if verify_only {
                Ok(Resolution::Unchanged)
            } else if status == RecordStatus::Submitted {
                Ok(Resolution::Supersede)
            } else {
                Ok(Resolution::Insert)
            }
        },
    }
}

} // verus!
