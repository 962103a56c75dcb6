//! Dispatch of one attachment to the storage backend of its recipient.
//!
//! The dispatcher keeps no state. [`plan_upload`] says where the bytes go
//! and with which credential; the caller streams them there and hands the
//! outcome to [`conclude`], which says what to write down and what to
//! answer.

use vstd::prelude::*;
use vstd::string::{StrSliceExecFns, StringExecFns};
use crate::address::{Address, AddressView};
use crate::admission::{Effect, EffectView, effect_views};
use crate::email::{Email, EmailView};
use crate::log_level::LogLevel;
use crate::reply::{attachment_body, attachment_body_text};
use crate::session::{SessionCache, SessionError, after_arrival, op_ran_on};
use crate::storage::{Backend, StorageError};

verus! {

/// Why the dispatch of an attachment failed.
#[derive(Clone, Copy, Debug, PartialEq, Eq, Structural)]
pub enum DispatchError {
    /// The upload to the storage backend failed.
    UploadFailed(StorageError),
}

/// Where the bytes of an attachment go, and with which credential.
#[derive(Debug, PartialEq, Eq)]
pub struct UploadPlan {
    pub backend: Backend,
    pub token: String,
    pub root: String,
    /// The destination below the root of the backend.
    pub path: String,
}

/// What an [`UploadPlan`] holds, as mathematical values.
pub struct UploadPlanView {
    pub backend: Backend,
    pub token: Seq<char>,
    pub root: Seq<char>,
    pub path: Seq<char>,
}

impl View for UploadPlan {
    type V = UploadPlanView;

    open spec fn view(&self) -> UploadPlanView {
        UploadPlanView {
            backend: self.backend,
            token: self.token@,
            root: self.root@,
            path: self.path@,
        }
    }
}

/// The destination of an attachment: the storage path of the address, one
/// slash, and the name of the attachment. A path that already ends in a
/// slash gets no second one.
pub open spec fn destination(prefix: Seq<char>, name: Seq<char>) -> Seq<char> {
    if prefix.len() > 0 && prefix.last() == '/' {
        prefix + name
    } else {
        prefix + "/"@ + name
    }
}

/// The plan for an attachment called `name` that goes to `address`.
pub open spec fn upload_plan(address: AddressView, name: Seq<char>) -> UploadPlanView {
    UploadPlanView {
        backend: address.storage_backend,
        token: address.storage_token,
        root: address.storage_path,
        path: destination(address.storage_path, name),
    }
}

/// The log text for an attachment that has arrived.
pub open spec fn arrival_message(address: AddressView) -> Seq<char> {
    "Got attachment for recipient "@ + address.address
}

/// What is written down and answered once an upload has ended.
pub open spec fn conclusion(email_id: u128, outcome: Result<(), StorageError>) -> (
    Seq<EffectView>,
    Result<(), DispatchError>,
) {
    match outcome {
        Ok(_) => (Seq::empty(), Ok(())),
        Err(e) => (
            seq![
                EffectView::UpdateStatus {
                    uuid: email_id,
                    success: false,
                    reason: Some(e.spec_describe()),
                },
            ],
            Err(DispatchError::UploadFailed(e)),
        ),
    }
}

/// The destination of an attachment below the storage path `prefix`.
pub fn destination_path(prefix: &str, name: &str) -> (path: String)
    ensures
        path@ == destination(prefix@, name@),
{
    let n: usize = prefix.unicode_len();
    let mut path: String = String::from_str(prefix);
    if n == 0 || prefix.get_char(n - 1) != '/' {
        path.append("/");
    }
    path.append(name);
    path
}

/// Says where the bytes of the attachment `name` go: to the backend of the
/// address, under its credential, below its storage path.
pub fn plan_upload(address: &Address, name: &str) -> (plan: UploadPlan)
    ensures
        plan@ == upload_plan(address@, name@),
{
    UploadPlan {
        backend: address.storage_backend,
        token: address.storage_token.clone(),
        root: address.storage_path.clone(),
        path: destination_path(address.storage_path.as_str(), name),
    }
}

/// The audit-log entry for an attachment of the email `email_id` that has
/// arrived for `address`.
pub fn arrival_log(email_id: u128, address: &Address) -> (entry: Effect)
    ensures
        entry@ == (EffectView::Log {
            message: arrival_message(address@),
            email_id: Some(email_id),
            level: LogLevel::Info,
        }),
{
    Effect::Log {
        message: String::from_str("Got attachment for recipient ").concat(
            address.address.as_str(),
        ),
        email_id: Some(email_id),
        level: LogLevel::Info,
    }
}

/// What the service does for an attachment that has arrived, before any
/// byte is sent on.
#[derive(Debug, PartialEq, Eq)]
pub struct Arrival {
    /// The email that the attachment belongs to.
    pub email_id: u128,
    /// Whether this was the last attachment that the email waited for.
    pub last: bool,
    /// The entry for the audit log.
    pub log: Effect,
    /// The body that acknowledges the attachment.
    pub body: String,
    /// Where the bytes go.
    pub plan: UploadPlan,
}

/// What an [`Arrival`] holds, as mathematical values.
pub struct ArrivalView {
    pub email_id: u128,
    pub last: bool,
    pub log: EffectView,
    pub body: Seq<char>,
    pub plan: UploadPlanView,
}

impl View for Arrival {
    type V = ArrivalView;

    open spec fn view(&self) -> ArrivalView {
        ArrivalView {
            email_id: self.email_id,
            last: self.last,
            log: self.log@,
            body: self.body@,
            plan: self.plan@,
        }
    }
}

/// The arrival of the attachment `name` of `size` bytes for a session
/// that waits for `remaining` attachments.
pub open spec fn arrival_of(
    email: EmailView,
    address: AddressView,
    remaining: nat,
    mail_id: Seq<char>,
    name: Seq<char>,
    size: nat,
) -> ArrivalView {
    ArrivalView {
        email_id: email.uuid,
        last: remaining == 1,
        log: EffectView::Log {
            message: arrival_message(address),
            email_id: Some(email.uuid),
            level: LogLevel::Info,
        },
        body: attachment_body(name, address.address, size, mail_id),
        plan: upload_plan(address, name),
    }
}

/// Takes an attachment that has arrived for the email `mail_id`: counts
/// it off in the cache, which drops the session with the last one, and
/// says what to log, what to answer and where the bytes go. The
/// attachment is counted before its upload begins, so that no outcome of
/// the upload can keep the session in the cache.
pub fn attachment_arrived(cache: &mut SessionCache, mail_id: &str, name: &str, size: usize) -> (res:
    Result<Arrival, SessionError>)
    requires
        old(cache).wf(),
    ensures
        final(cache).wf(),
        final(cache)@ == after_arrival(old(cache)@, mail_id@),
        res is Ok <==> old(cache)@.contains_key(mail_id@),
        res is Err ==> res == Err::<Arrival, SessionError>(SessionError::SessionNotFound),
        res matches Ok(arrival) ==> arrival@ == arrival_of(
            old(cache)@[mail_id@].email,
            old(cache)@[mail_id@].address,
            old(cache)@[mail_id@].remaining,
            mail_id@,
            name@,
            size as nat,
        ),
{
    let prepare = |email: &Email, address: &Address| -> (parts: (u128, Effect, String, UploadPlan))
        ensures
            parts.0 == email.uuid,
            parts.1@ == (EffectView::Log {
                message: arrival_message(address@),
                email_id: Some(email.uuid),
                level: LogLevel::Info,
            }),
            parts.2@ == attachment_body(name@, address@.address, size as nat, mail_id@),
            parts.3@ == upload_plan(address@, name@),
        {
            (
                email.uuid,
                arrival_log(email.uuid, address),
                attachment_body_text(name, address.address.as_str(), size, mail_id),
                plan_upload(address, name),
            )
        };
    match cache.dispatch_and_decrement(mail_id, prepare) {
        Ok((last, parts)) => {
            let (email_id, log, body, plan) = parts;
            Ok(Arrival { email_id, last, log, body, plan })
        },
        Err(e) => Err(e),
    }
}

/// Takes the outcome of an upload. A failure marks the email as failed,
/// with the text of the error, and is returned; a success writes nothing
/// down.
pub fn conclude(email_id: u128, outcome: Result<(), StorageError>) -> (done: (
    Vec<Effect>,
    Result<(), DispatchError>,
))
    ensures
        effect_views(done.0@) == conclusion(email_id, outcome).0,
        done.1 == conclusion(email_id, outcome).1,
{
    let mut effects: Vec<Effect> = Vec::new();
    match outcome {
        Ok(_) => {
            assert(effect_views(effects@) =~= Seq::empty());
            (effects, Ok(()))
        },
        Err(e) => {
            effects.push(
                Effect::UpdateStatus { uuid: email_id, success: false, reason: Some(e.describe()) },
            );
            assert(effect_views(effects@) =~= conclusion(email_id, outcome).0);
            (effects, Err(DispatchError::UploadFailed(e)))
        },
    }
}

/// An upload that failed marks the email as failed; one that succeeded
/// leaves its status alone.
pub proof fn lemma_failure_is_recorded(email_id: u128, outcome: Result<(), StorageError>)
    ensures
        outcome is Err <==> conclusion(email_id, outcome).0.len() == 1,
        outcome is Ok <==> conclusion(email_id, outcome).0.len() == 0,
        outcome is Ok <==> conclusion(email_id, outcome).1 is Ok,
{
}

} // verus!
