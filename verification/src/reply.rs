//! What the service answers: bodies for accepted requests and a status for
//! every way a request can fail.

use vstd::prelude::*;
use vstd::string::StringExecFns;
use crate::admission::RejectReason;
use crate::email::{Email, EmailView};
use crate::ident::uuid_text;
use crate::text::{decimal, numeral_text};

verus! {

/// A way in which a request fails.
#[derive(Clone, Copy, Debug, PartialEq, Eq, Structural)]
pub enum Failure {
    /// The email was turned away at admission.
    Rejected(RejectReason),
    /// An attachment came for an email that has no session.
    SessionNotFound,
    /// An attachment could not be written to storage or fetched.
    DispatchFailed,
    /// The request carried no valid credential.
    Unauthorized,
    /// No route or no readable payload.
    NotFound,
}

impl Failure {
    /// The HTTP status that tells this failure from every other.
    pub open spec fn spec_status(self) -> u16 {
        match self {
            Failure::Rejected(RejectReason::InvalidRecipient) => 422,
            Failure::Rejected(RejectReason::SenderNotWhitelisted) => 403,
            Failure::Rejected(RejectReason::SizeExceeded) => 413,
            Failure::Rejected(RejectReason::QuotaExceeded) => 429,
            Failure::Rejected(RejectReason::PersistenceFailure) => 500,
            Failure::SessionNotFound => 409,
            Failure::DispatchFailed => 502,
            Failure::Unauthorized => 401,
            Failure::NotFound => 404,
        }
    }

    /// Whether the same request would fail again: a rejection by the rules
    /// of the address, a request that breaks the protocol or lacks a
    /// credential. Faults of the database, the storage or the network
    /// are not permanent.
    pub open spec fn spec_is_permanent(self) -> bool {
        match self {
            Failure::Rejected(RejectReason::PersistenceFailure) => false,
            Failure::DispatchFailed => false,
            _ => true,
        }
    }

    /// The HTTP status that tells this failure from every other.
    pub fn status(self) -> (code: u16)
        ensures
            code == self.spec_status(),
    {
        match self {
            Failure::Rejected(RejectReason::InvalidRecipient) => 422,
            Failure::Rejected(RejectReason::SenderNotWhitelisted) => 403,
            Failure::Rejected(RejectReason::SizeExceeded) => 413,
            Failure::Rejected(RejectReason::QuotaExceeded) => 429,
            Failure::Rejected(RejectReason::PersistenceFailure) => 500,
            Failure::SessionNotFound => 409,
            Failure::DispatchFailed => 502,
            Failure::Unauthorized => 401,
            Failure::NotFound => 404,
        }
    }

    /// Whether the same request would fail again.
    pub fn is_permanent(self) -> (permanent: bool)
        ensures
            permanent == self.spec_is_permanent(),
    {
        match self {
            Failure::Rejected(RejectReason::PersistenceFailure) => false,
            Failure::DispatchFailed => false,
            _ => true,
        }
    }
}

/// The three answers of the mail relay's routes to a request that no
/// handler took.
#[derive(Clone, Copy, Debug, PartialEq, Eq, Structural)]
pub enum Recovered {
    NotFound,
    AuthRequired,
    InternalError,
}

/// The answer to a request that no handler took: 404 where no route
/// matched, 401 where the credential was refused, 500 for anything else.
pub open spec fn recovered(not_found: bool, unauthorized: bool) -> Recovered {
    if not_found {
        Recovered::NotFound
    } else if unauthorized {
        Recovered::AuthRequired
    } else {
        Recovered::InternalError
    }
}

impl Recovered {
    /// The HTTP status of the answer.
    pub open spec fn spec_status(self) -> u16 {
        match self {
            Recovered::NotFound => 404,
            Recovered::AuthRequired => 401,
            Recovered::InternalError => 500,
        }
    }

    /// The body of the answer.
    pub open spec fn spec_text(self) -> Seq<char> {
        match self {
            Recovered::NotFound => "NOT FOUND"@,
            Recovered::AuthRequired => "AUTH REQUIRED"@,
            Recovered::InternalError => "INTERNAL SERVER ERROR"@,
        }
    }

    /// The HTTP status of the answer.
    pub fn status(self) -> (code: u16)
        ensures
            code == self.spec_status(),
    {
        match self {
            Recovered::NotFound => 404,
            Recovered::AuthRequired => 401,
            Recovered::InternalError => 500,
        }
    }

    /// The body of the answer.
    pub fn text(self) -> (body: &'static str)
        ensures
            body@ == self.spec_text(),
    {
        match self {
            Recovered::NotFound => "NOT FOUND",
            Recovered::AuthRequired => "AUTH REQUIRED",
            Recovered::InternalError => "INTERNAL SERVER ERROR",
        }
    }
}

/// Picks the answer to a request that no handler took. A request that
/// matched no route is answered as not found even if its credential was
/// refused as well.
pub fn recover(not_found: bool, unauthorized: bool) -> (answer: Recovered)
    ensures
        answer == recovered(not_found, unauthorized),
{
    if not_found {
        Recovered::NotFound
    } else if unauthorized {
        Recovered::AuthRequired
    } else {
        Recovered::InternalError
    }
}

/// The body that acknowledges an email: sender and identifier.
pub open spec fn email_body(email: EmailView) -> Seq<char> {
    email.sender + ", "@ + uuid_text(email.uuid)
}

/// The body that acknowledges an attachment.
pub open spec fn attachment_body(
    name: Seq<char>,
    recipient: Seq<char>,
    size: nat,
    mail_id: Seq<char>,
) -> Seq<char> {
    "Attachment name: "@ + name + ", Recipient: "@ + recipient + ", Size: "@ + decimal(
        size as int,
    ) + ", UUID: "@ + mail_id
}

/// The body that acknowledges an email: sender and identifier.
pub fn email_body_text(email: &Email) -> (body: String)
    ensures
        body@ == email_body(email@),
{
    let mut body: String = email.sender.clone();
    body.append(", ");
    let id: String = email.id_text();
    body.append(id.as_str());
    body
}

/// The body that acknowledges an attachment.
pub fn attachment_body_text(name: &str, recipient: &str, size: usize, mail_id: &str) -> (body:
    String)
    ensures
        body@ == attachment_body(name@, recipient@, size as nat, mail_id@),
{
    let mut body: String = String::from_str("Attachment name: ");
    body.append(name);
    body.append(", Recipient: ");
    body.append(recipient);
    body.append(", Size: ");
    let digits: String = numeral_text(size as u64);
    body.append(digits.as_str());
    body.append(", UUID: ");
    body.append(mail_id);
    body
}

/// Why the manager's webhook route could not take a post.
#[derive(Debug, PartialEq, Eq)]
pub enum PostFailure {
    /// The body of the request could not be read.
    BodyUnreadable,
    /// The request names no content type.
    NoContentType,
    /// The payload could not be decoded, with the decoder's message.
    Payload(String),
    /// An attachment could not be fetched, with the message of the fetch.
    Fetch(String),
}

/// What a [`PostFailure`] holds, as mathematical values.
pub enum PostFailureView {
    BodyUnreadable,
    NoContentType,
    Payload(Seq<char>),
    Fetch(Seq<char>),
}

impl View for PostFailure {
    type V = PostFailureView;

    open spec fn view(&self) -> PostFailureView {
        match *self {
            PostFailure::BodyUnreadable => PostFailureView::BodyUnreadable,
            PostFailure::NoContentType => PostFailureView::NoContentType,
            PostFailure::Payload(m) => PostFailureView::Payload(m@),
            PostFailure::Fetch(m) => PostFailureView::Fetch(m@),
        }
    }
}

/// The view of the outcome of a post.
pub open spec fn post_view(outcome: Result<(), PostFailure>) -> Option<PostFailureView> {
    match outcome {
        Ok(_) => None,
        Err(f) => Some(f@),
    }
}

/// The body of the answer to a post.
pub open spec fn post_text(failure: Option<PostFailureView>) -> Seq<char> {
    match failure {
        None => "Success"@,
        Some(PostFailureView::BodyUnreadable) => "Failed to read request body"@,
        Some(PostFailureView::NoContentType) => "No content type set!"@,
        Some(PostFailureView::Payload(m)) => m,
        Some(PostFailureView::Fetch(m)) => m,
    }
}

/// The status of the answer to a post: 200 for success, 500 for every
/// failure.
pub open spec fn post_status(failure: Option<PostFailureView>) -> u16 {
    if failure is None {
        200
    } else {
        500
    }
}

/// The answer of the manager's webhook route: body and status.
pub fn post_reply(outcome: Result<(), PostFailure>) -> (answer: (String, u16))
    ensures
        answer.0@ == post_text(post_view(outcome)),
        answer.1 == post_status(post_view(outcome)),
{
    match outcome {
        Ok(_) => (String::from_str("Success"), 200),
        Err(PostFailure::BodyUnreadable) => (String::from_str("Failed to read request body"), 500),
        Err(PostFailure::NoContentType) => (String::from_str("No content type set!"), 500),
        Err(PostFailure::Payload(m)) => (m, 500),
        Err(PostFailure::Fetch(m)) => (m, 500),
    }
}

/// No two failures share a status, so the sender of a request can tell
/// them apart.
pub proof fn lemma_status_tells_failures_apart(a: Failure, b: Failure)
    requires
        a.spec_status() == b.spec_status(),
    ensures
        a == b,
{
}

/// No failure is answered with the status of success.
pub proof fn lemma_failure_is_never_ok(f: Failure)
    ensures
        f.spec_status() != 200,
        400 <= f.spec_status() < 600,
{
}

} // verus!
