//! The storage backends that attachments are written to, and the errors
//! that every backend reports in.

use vstd::prelude::*;
use vstd::string::StringExecFns;
use crate::dropbox;
use crate::text::{decimal, decimal_text, same_text};

verus! {

/// The provider that holds a recipient's files.
#[derive(Clone, Copy, Debug, PartialEq, Eq, Structural)]
pub enum Backend {
    Dropbox,
    /// A selector that names no provider this service can write to.
    Unsupported,
}

/// The backend that a stored selector names.
pub open spec fn backend_named(name: Seq<char>) -> Backend {
    if name == "dropbox"@ {
        Backend::Dropbox
    } else {
        Backend::Unsupported
    }
}

impl Backend {
    /// The backend that the selector of an address record names.
    pub fn from_name(name: &str) -> (backend: Backend)
        ensures
            backend == backend_named(name@),
    {
        if same_text(name, "dropbox") {
            Backend::Dropbox
        } else {
            Backend::Unsupported
        }
    }
}

/// Why a write to a storage backend failed, in terms that hold for every
/// provider.
#[derive(Clone, Copy, Debug, PartialEq, Eq, Structural)]
pub enum StorageError {
    /// The provider refused the request as malformed.
    BadInput,
    /// The credential has expired or is not valid.
    InvalidCredential,
    /// The destination path is taken or cannot be written.
    PathConflict,
    /// The provider asks to slow down.
    RateLimited,
    /// Any other fault on the provider's side, with its status.
    ProviderFault(u16),
    /// The payload broke off before its last chunk.
    PayloadInterrupted,
    /// The address names a backend that is not supported.
    UnsupportedBackend,
}

/// The common error that a Dropbox error stands for.
pub open spec fn storage_error_of(e: dropbox::Error) -> StorageError {
    match e {
        dropbox::Error::BadInput => StorageError::BadInput,
        dropbox::Error::TokenExpired => StorageError::InvalidCredential,
        dropbox::Error::Endpoint => StorageError::PathConflict,
        dropbox::Error::RateLimited => StorageError::RateLimited,
        dropbox::Error::Internal(status) => StorageError::ProviderFault(status),
    }
}

impl StorageError {
    /// Whether the same upload may succeed when it is tried again later.
    pub open spec fn spec_is_transient(self) -> bool {
        match self {
            StorageError::RateLimited => true,
            StorageError::ProviderFault(_) => true,
            StorageError::PayloadInterrupted => true,
            _ => false,
        }
    }

    /// The text that is recorded for this error.
    pub open spec fn spec_describe(self) -> Seq<char> {
        match self {
            StorageError::BadInput => "storage rejected the request"@,
            StorageError::InvalidCredential => "storage credential is expired or invalid"@,
            StorageError::PathConflict => "storage path conflict"@,
            StorageError::RateLimited => "storage rate limit reached"@,
            StorageError::ProviderFault(status) => "storage provider fault, status "@ + decimal(
                status as int,
            ),
            StorageError::PayloadInterrupted => "attachment payload was interrupted"@,
            StorageError::UnsupportedBackend => "storage backend is not supported"@,
        }
    }

    /// Maps an error of the Dropbox API onto the common errors.
    pub fn from_dropbox(e: dropbox::Error) -> (mapped: StorageError)
        ensures
            mapped == storage_error_of(e),
    {
        match e {
            dropbox::Error::BadInput => StorageError::BadInput,
            dropbox::Error::TokenExpired => StorageError::InvalidCredential,
            dropbox::Error::Endpoint => StorageError::PathConflict,
            dropbox::Error::RateLimited => StorageError::RateLimited,
            dropbox::Error::Internal(status) => StorageError::ProviderFault(status),
        }
    }

    /// Whether the same upload may succeed when it is tried again later.
    pub fn is_transient(&self) -> (transient: bool)
        ensures
            transient == self.spec_is_transient(),
    {
        match self {
            StorageError::RateLimited => true,
            StorageError::ProviderFault(_) => true,
            StorageError::PayloadInterrupted => true,
            _ => false,
        }
    }

    /// The text that is recorded for this error.
    pub fn describe(&self) -> (t: String)
        ensures
            t@ == self.spec_describe(),
    {
        match self {
            StorageError::BadInput => String::from_str("storage rejected the request"),
            StorageError::InvalidCredential => String::from_str(
                "storage credential is expired or invalid",
            ),
            StorageError::PathConflict => String::from_str("storage path conflict"),
            StorageError::RateLimited => String::from_str("storage rate limit reached"),
            StorageError::ProviderFault(status) => {
                let number: String = decimal_text(*status as i64);
                String::from_str("storage provider fault, status ").concat(number.as_str())
            },
            StorageError::PayloadInterrupted => String::from_str(
                "attachment payload was interrupted",
            ),
            StorageError::UnsupportedBackend => String::from_str(
                "storage backend is not supported",
            ),
        }
    }
}

/// What happens while the chunks of a payload are passed on to a backend.
#[derive(Clone, Copy, Debug, PartialEq, Eq, Structural)]
pub enum TransferEvent {
    /// The payload gave a chunk of this many bytes, and the backend took
    /// it.
    Written(usize),
    /// The payload gave a chunk, and the backend refused it.
    WriteFailed(StorageError),
    /// The payload broke off.
    Broken,
    /// The payload has ended, and the backend has closed the file.
    Closed,
    /// The payload has ended, and the backend could not close the file.
    CloseFailed(StorageError),
}

/// How a transfer stands.
#[derive(Clone, Copy, Debug, PartialEq, Eq, Structural)]
pub enum Transfer {
    /// Chunks may still come; `sent` bytes were passed on.
    Open { sent: u64 },
    /// The file is closed and holds `sent` bytes.
    Done { sent: u64 },
    /// The upload failed.
    Failed { error: StorageError },
}

/// A transfer after `event`. One that is done or has failed stays as it
/// is. An open one fails with the first failure, and is done only by being
/// closed. More bytes than a `u64` counts are refused as bad input.
pub open spec fn transfer_after(transfer: Transfer, event: TransferEvent) -> Transfer {
    match transfer {
        Transfer::Open { sent } => match event {
            TransferEvent::Written(len) => if sent + len <= u64::MAX {
                Transfer::Open { sent: (sent + len) as u64 }
            } else {
                Transfer::Failed { error: StorageError::BadInput }
            },
            TransferEvent::WriteFailed(e) => Transfer::Failed { error: e },
            TransferEvent::Broken => Transfer::Failed { error: StorageError::PayloadInterrupted },
            TransferEvent::Closed => Transfer::Done { sent },
            TransferEvent::CloseFailed(e) => Transfer::Failed { error: e },
        },
        _ => transfer,
    }
}

/// A transfer after the events of `events`, one after the other.
pub open spec fn transfer_after_all(transfer: Transfer, events: Seq<TransferEvent>) -> Transfer
    decreases events.len(),
{
    if events.len() == 0 {
        transfer
    } else {
        transfer_after(transfer_after_all(transfer, events.drop_last()), events.last())
    }
}

/// The event passes bytes on or closes the file without a failure.
pub open spec fn event_ok(event: TransferEvent) -> bool {
    event is Written || event is Closed
}

impl Transfer {
    /// A transfer that has passed nothing on yet.
    pub fn begin() -> (transfer: Transfer)
        ensures
            transfer == (Transfer::Open { sent: 0 }),
    {
        Transfer::Open { sent: 0 }
    }

    /// The transfer after `event`.
    pub fn after(self, event: TransferEvent) -> (next: Transfer)
        ensures
            next == transfer_after(self, event),
    {
        match self {
            Transfer::Open { sent } => match event {
                TransferEvent::Written(len) => {
                    if len as u64 <= u64::MAX - sent {
                        Transfer::Open { sent: sent + len as u64 }
                    } else {
                        Transfer::Failed { error: StorageError::BadInput }
                    }
                },
                TransferEvent::WriteFailed(e) => Transfer::Failed { error: e },
                TransferEvent::Broken => Transfer::Failed {
                    error: StorageError::PayloadInterrupted,
                },
                TransferEvent::Closed => Transfer::Done { sent },
                TransferEvent::CloseFailed(e) => Transfer::Failed { error: e },
            },
            _ => self,
        }
    }
}

/// A failure in the middle of a payload is never reported as success: a
/// transfer that ends well has seen no failure before its file was
/// closed.
pub proof fn lemma_success_needs_every_chunk(events: Seq<TransferEvent>, at: int)
    requires
        0 <= at < events.len(),
        transfer_after_all(Transfer::Open { sent: 0 }, events) is Done,
        forall|k: int| 0 <= k < at ==> !((#[trigger] events[k]) is Closed),
    ensures
        event_ok(events[at]),
{
    if !event_ok(events[at]) {
        lemma_failure_is_final(events, at);
    }
}

/// Once an event has failed an open transfer, no later event changes the
/// result.
pub proof fn lemma_failure_is_final(events: Seq<TransferEvent>, at: int)
    requires
        0 <= at < events.len(),
        forall|k: int| 0 <= k < at ==> !((#[trigger] events[k]) is Closed),
        !event_ok(events[at]),
    ensures
        transfer_after_all(Transfer::Open { sent: 0 }, events) is Failed,
    decreases events.len() - at,
{
    let start = Transfer::Open { sent: 0 };
    if at == events.len() - 1 {
        lemma_over_or_open(events.drop_last());
    } else {
        assert(events.drop_last()[at] == events[at]);
        assert forall|k: int| 0 <= k < at implies !((#[trigger] events.drop_last()[k]) is Closed) by {
            assert(events.drop_last()[k] == events[k]);
        }
        lemma_failure_is_final(events.drop_last(), at);
    }
}

/// A transfer is done only after its file was closed.
pub proof fn lemma_over_or_open(events: Seq<TransferEvent>)
    ensures
        transfer_after_all(Transfer::Open { sent: 0 }, events) is Done ==> exists|k: int| 0 <= k < events.len() && (#[trigger] events[k]) is Closed,
    decreases events.len(),
{
    if events.len() > 0 {
        lemma_over_or_open(events.drop_last());
        let before = transfer_after_all(Transfer::Open { sent: 0 }, events.drop_last());
        if before is Done {
            let k = choose|k: int| 0 <= k < events.drop_last().len() && (#[trigger] events.drop_last()[k]) is Closed;
            assert(events[k] is Closed);
        } else if events.last() is Closed {
            assert(events[events.len() - 1] is Closed);
        }
    }
}

/// No two Dropbox errors stand for the same common error.
pub proof fn lemma_storage_error_of_injective(a: dropbox::Error, b: dropbox::Error)
    requires
        storage_error_of(a) == storage_error_of(b),
    ensures
        a == b,
{
}

} // verus!
