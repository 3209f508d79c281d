//! The ways in which a report submission fails.

use vstd::prelude::*;

verus! {

/// Why a submission was turned down or could not be completed.
#[derive(Clone, Copy, Debug, PartialEq, Eq, Structural)]
pub enum Error {
    /// The payload breaks a shape rule, such as the bound on the length of
    /// the additional context.
    ValidationFailed,
    /// The caller is a bot; bots cannot file reports.
    ActorNotAllowed,
    /// The caller reports content that is their own.
    SelfReportForbidden,
    /// The reported content does not exist.
    NotFound,
    /// An attachment of the reported content could not be flagged for
    /// retention.
    AttachmentMarkingFailed,
    /// The store failed while reading context or while writing the snapshot
    /// or the report.
    PersistenceFailed,
}

} // verus!
