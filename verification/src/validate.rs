//! Shape rules of the report payload.

use crate::error::Error;
use crate::report::{DataReportContent, DataReportContentView};
use vstd::prelude::*;

verus! {

/// Most characters that the additional context of a report may have.
pub const MAX_CONTEXT_LEN: u64 = 1000;

/// Whether a length meets the bounds given.  An exact length, where one is
/// given, replaces both bounds.
pub open spec fn length_within(
    len: nat,
    min: Option<u64>,
    max: Option<u64>,
    equal: Option<u64>,
) -> bool {
    match equal {
        Some(eq) => len == eq,
        None => (min is Some ==> min->0 <= len) && (max is Some ==> len <= max->0),
    }
}

/// `validator::validate_length` on a string: it counts the characters of the
/// string (not its bytes) and holds the count against the bounds as
/// `length_within` says.
#[verifier::external_body]
fn validate_length(
    value: &String,
    min: Option<u64>,
    max: Option<u64>,
    equal: Option<u64>,
) -> (ok: bool)
    ensures
        ok == length_within(value@.len(), min, max, equal),
{
    validator::validate_length(value, min, max, equal)
}

impl DataReportContentView {
    /// Whether the payload meets the shape rules.
    pub open spec fn valid(self) -> bool {
        self.additional_context.len() <= MAX_CONTEXT_LEN
    }
}

impl DataReportContent {
    /// Checks the shape rules of the payload: the additional context has at
    /// most `MAX_CONTEXT_LEN` characters.
    pub fn validate(&self) -> (r: Result<(), Error>)
        ensures
            self.deep_view().valid() ==> r == Ok::<(), Error>(()),
            !self.deep_view().valid() ==> r == Err::<(), Error>(Error::ValidationFailed),
    {
        if validate_length(&self.additional_context, Some(0), Some(MAX_CONTEXT_LEN), None) {
            Ok(())
        } else {
            Err(Error::ValidationFailed)
        }
    }
}

} // verus!
