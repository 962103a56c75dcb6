//! Ingestion from a provider that sends metadata and the addresses of the
//! attachments, which this service fetches itself.
//!
//! All parts of such an email are resolved within one request, so no
//! session is kept. The request is acknowledged only if the email was
//! accepted and every attachment was fetched and dispatched.

use vstd::prelude::*;
use crate::admission::{Decision, DecisionView};
use crate::dispatch::DispatchError;
use crate::text::same_text;

verus! {

/// The encodings in which the provider posts an email.
#[derive(Clone, Copy, Debug, PartialEq, Eq, Structural)]
pub enum PayloadFormat {
    Json,
    Form,
}

/// An attachment that the provider holds for fetching.
#[derive(Debug, PartialEq, Eq)]
pub struct RemoteAttachment {
    pub name: String,
    pub url: String,
    pub size: usize,
}

/// Why one attachment of a batch did not reach storage.
#[derive(Clone, Copy, Debug, PartialEq, Eq, Structural)]
pub enum PartFailure {
    /// The bytes could not be fetched from the provider in time.
    FetchFailed,
    /// The bytes were fetched and the dispatch failed.
    Dispatch(DispatchError),
}

/// Why a whole request is refused.
#[derive(Clone, Copy, Debug, PartialEq, Eq, Structural)]
pub enum BatchError {
    /// The email was not accepted.
    NotAccepted,
    /// The attachment at `index` is the first that failed.
    PartFailed { index: usize, failure: PartFailure },
}

/// The format that a content type names, if the provider uses it.
pub open spec fn format_of(content_type: Option<Seq<char>>) -> Option<PayloadFormat> {
    match content_type {
        Some(t) => if t == "application/json"@ {
            Some(PayloadFormat::Json)
        } else if t == "application/x-www-form-urlencoded"@ {
            Some(PayloadFormat::Form)
        } else {
            None
        },
        None => None,
    }
}

/// The view of an optional string slice.
pub open spec fn optional_str(t: Option<&str>) -> Option<Seq<char>> {
    match t {
        Some(s) => Some(s@),
        None => None,
    }
}

/// Every part of `parts` before `end` succeeded.
pub open spec fn all_ok_before(parts: Seq<Result<(), PartFailure>>, end: int) -> bool {
    forall|i: int| 0 <= i < end ==> (#[trigger] parts[i]) is Ok
}

/// The answer to a whole request: the email must have been accepted and
/// every part must have succeeded; otherwise the first part that failed
/// is named.
pub open spec fn batch_result(
    decision: DecisionView,
    parts: Seq<Result<(), PartFailure>>,
    res: Result<(), BatchError>,
) -> bool {
    match res {
        Ok(_) => decision is Accepted && all_ok_before(parts, parts.len() as int),
        Err(BatchError::NotAccepted) => decision is Rejected,
        Err(BatchError::PartFailed { index, failure }) => {
            &&& decision is Accepted
            &&& index < parts.len()
            &&& all_ok_before(parts, index as int)
            &&& parts[index as int] == Err::<(), PartFailure>(failure)
        },
    }
}

/// The format of a posted email, by its content type. `None` where the
/// content type is missing or names another encoding.
pub fn payload_format(content_type: Option<&str>) -> (format: Option<PayloadFormat>)
    ensures
        format == format_of(optional_str(content_type)),
{
    match content_type {
        Some(t) => {
            if same_text(t, "application/json") {
                Some(PayloadFormat::Json)
            } else if same_text(t, "application/x-www-form-urlencoded") {
                Some(PayloadFormat::Form)
            } else {
                None
            }
        },
        None => None,
    }
}

/// Joins the outcomes of a request: it succeeds only if the email was
/// accepted and every attachment reached storage. No part of a failed
/// request is acknowledged.
pub fn batch_outcome(decision: &Decision, parts: &Vec<Result<(), PartFailure>>) -> (res: Result<
    (),
    BatchError,
>)
    ensures
        batch_result(decision@, parts@, res),
{
    match decision {
        Decision::Rejected { .. } => {
            return Err(BatchError::NotAccepted);
        },
        Decision::Accepted { .. } => {},
    }
    let mut i: usize = 0;
    while i < parts.len()
        invariant
            i <= parts.len(),
            decision@ is Accepted,
            all_ok_before(parts@, i as int),
        decreases parts.len() - i,
    {
        let part: Result<(), PartFailure> = parts[i];
        match part {
            Ok(_) => {},
            Err(failure) => {
                assert(parts@[i as int] == Err::<(), PartFailure>(failure));
                return Err(BatchError::PartFailed { index: i, failure });
            },
        }
        i = i + 1;
    }
    Ok(())
}

/// One failed part fails the whole request, whatever became of the
/// others.
pub proof fn lemma_one_failure_fails_batch(
    decision: DecisionView,
    parts: Seq<Result<(), PartFailure>>,
    res: Result<(), BatchError>,
    failed: int,
)
    requires
        batch_result(decision, parts, res),
        0 <= failed < parts.len(),
        parts[failed] is Err,
    ensures
        res is Err,
{
}

/// The answer to a request is decided by its outcomes alone.
pub proof fn lemma_batch_result_unique(
    decision: DecisionView,
    parts: Seq<Result<(), PartFailure>>,
    a: Result<(), BatchError>,
    b: Result<(), BatchError>,
)
    requires
        batch_result(decision, parts, a),
        batch_result(decision, parts, b),
    ensures
        a is Ok <==> b is Ok,
        a is Err ==> a->Err_0 == b->Err_0,
{
    match (a, b) {
        (
            Err(BatchError::PartFailed { index: i, .. }),
            Err(BatchError::PartFailed { index: j, .. }),
        ) => {
            if i < j {
                assert(parts[i as int] is Ok);
            }
            if j < i {
                assert(parts[j as int] is Ok);
            }
        },
        (Ok(_), Err(BatchError::PartFailed { index, .. })) => {
            assert(parts[index as int] is Ok);
        },
        (Err(BatchError::PartFailed { index, .. }), Ok(_)) => {
            assert(parts[index as int] is Ok);
        },
        _ => {},
    }
}

} // verus!
