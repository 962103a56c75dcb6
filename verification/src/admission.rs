//! Admission of an inbound email.
//!
//! An admission is a short conversation with the address directory and
//! the email store. [`Admission::advance`] takes the answer to the last
//! question and says what to record and what to ask next, until it reaches
//! a [`Decision`]. The caller does the asking.

use vstd::prelude::*;
use vstd::string::StringExecFns;
use crate::address::{Address, AddressView};
use crate::email::{Email, EmailView};
use crate::ident::uuid_text;
use crate::log_level::LogLevel;
use crate::session::{SessionCache, SessionView, Sessions};
use crate::text::{
    contains_text,
    decimal,
    decimal_text,
    join,
    joined,
    megabytes,
    megabytes_text,
};

verus! {

/// Why an email was turned away.
#[derive(Clone, Copy, Debug, PartialEq, Eq, Structural)]
pub enum RejectReason {
    InvalidRecipient,
    SenderNotWhitelisted,
    SizeExceeded,
    QuotaExceeded,
    PersistenceFailure,
}

/// How an admission ended.
#[derive(Debug, PartialEq, Eq)]
pub enum Decision {
    /// The email was accepted; `session_created` says whether it now waits
    /// for attachments in the session cache.
    Accepted { session_created: bool },
    Rejected { reason: RejectReason, detail: String },
}

/// What a [`Decision`] holds, as mathematical values.
pub enum DecisionView {
    Accepted { session_created: bool },
    Rejected { reason: RejectReason, detail: Seq<char> },
}

impl View for Decision {
    type V = DecisionView;

    open spec fn view(&self) -> DecisionView {
        match *self {
            Decision::Accepted { session_created } => DecisionView::Accepted { session_created },
            Decision::Rejected { reason, detail } => DecisionView::Rejected {
                reason,
                detail: detail@,
            },
        }
    }
}

/// Something to write down on the way, without waiting for an answer and
/// without caring whether the write succeeds.
#[derive(Debug, PartialEq, Eq)]
pub enum Effect {
    /// An entry for the audit log.
    Log { message: String, email_id: Option<u128>, level: LogLevel },
    /// The status of a stored email, with the reason if it failed.
    UpdateStatus { uuid: u128, success: bool, reason: Option<String> },
}

/// What an [`Effect`] holds, as mathematical values.
pub enum EffectView {
    Log { message: Seq<char>, email_id: Option<u128>, level: LogLevel },
    UpdateStatus { uuid: u128, success: bool, reason: Option<Seq<char>> },
}

impl View for Effect {
    type V = EffectView;

    open spec fn view(&self) -> EffectView {
        match *self {
            Effect::Log { message, email_id, level } => EffectView::Log {
                message: message@,
                email_id,
                level,
            },
            Effect::UpdateStatus { uuid, success, reason } => EffectView::UpdateStatus {
                uuid,
                success,
                reason: match reason {
                    Some(m) => Some(m@),
                    None => None,
                },
            },
        }
    }
}

/// The views of a list of effects, in order.
pub open spec fn effect_views(effects: Seq<Effect>) -> Seq<EffectView> {
    effects.map_values(|e: Effect| e@)
}

/// The answer of a collaborator to the question that an admission waits
/// on.
#[derive(Debug, PartialEq, Eq)]
pub enum Reply {
    /// The directory's record of the first candidate it knows, if any.
    Resolved(Option<Address>),
    /// Whether the sender is on the whitelist of the address.
    SenderChecked(bool),
    /// The email record was stored.
    Inserted,
    /// The received count of the address was raised by one.
    Incremented,
    /// The collaborator failed, with its message.
    Failed(String),
}

/// What a [`Reply`] holds, as mathematical values.
pub enum ReplyView {
    Resolved(Option<AddressView>),
    SenderChecked(bool),
    Inserted,
    Incremented,
    Failed(Seq<char>),
}

impl View for Reply {
    type V = ReplyView;

    open spec fn view(&self) -> ReplyView {
        match *self {
            Reply::Resolved(found) => ReplyView::Resolved(
                match found {
                    Some(a) => Some(a@),
                    None => None,
                },
            ),
            Reply::SenderChecked(ok) => ReplyView::SenderChecked(ok),
            Reply::Inserted => ReplyView::Inserted,
            Reply::Incremented => ReplyView::Incremented,
            Reply::Failed(message) => ReplyView::Failed(message@),
        }
    }
}

/// An admission under way. Each state names the question that is open.
#[derive(Debug, PartialEq, Eq)]
pub enum Admission {
    /// Which of the recipients does the directory know?
    Resolving { email: Email },
    /// Is the sender on the whitelist of the address?
    Validating { email: Email, address: Address },
    /// Store the email record.
    Persisting { email: Email, address: Address },
    /// Raise the received count of the address by one.
    Counting { email: Email, address: Address },
}

/// What an [`Admission`] holds, as mathematical values.
pub enum AdmissionView {
    Resolving { email: EmailView },
    Validating { email: EmailView, address: AddressView },
    Persisting { email: EmailView, address: AddressView },
    Counting { email: EmailView, address: AddressView },
}

impl View for Admission {
    type V = AdmissionView;

    open spec fn view(&self) -> AdmissionView {
        match *self {
            Admission::Resolving { email } => AdmissionView::Resolving { email: email@ },
            Admission::Validating { email, address } => AdmissionView::Validating {
                email: email@,
                address: address@,
            },
            Admission::Persisting { email, address } => AdmissionView::Persisting {
                email: email@,
                address: address@,
            },
            Admission::Counting { email, address } => AdmissionView::Counting {
                email: email@,
                address: address@,
            },
        }
    }
}

/// Where an admission stands after a step.
#[derive(Debug, PartialEq, Eq)]
pub enum Next {
    /// The question of this state is to be asked.
    Ask(Admission),
    Done(Decision),
}

/// What a [`Next`] holds, as mathematical values.
pub enum NextView {
    Ask(AdmissionView),
    Done(DecisionView),
}

impl View for Next {
    type V = NextView;

    open spec fn view(&self) -> NextView {
        match *self {
            Next::Ask(state) => NextView::Ask(state@),
            Next::Done(decision) => NextView::Done(decision@),
        }
    }
}

/// One step of an admission: what to write down, and where it stands.
#[derive(Debug, PartialEq, Eq)]
pub struct Step {
    pub effects: Vec<Effect>,
    pub next: Next,
}

/// What a [`Step`] holds, as mathematical values.
pub struct StepView {
    pub effects: Seq<EffectView>,
    pub next: NextView,
}

impl View for Step {
    type V = StepView;

    open spec fn view(&self) -> StepView {
        StepView { effects: effect_views(self.effects@), next: self.next@ }
    }
}

/// The log text for an email none of whose recipients is known.
pub open spec fn unknown_recipient_message(email: EmailView) -> Seq<char> {
    "Rejecting email message_id: "@ + (match email.message_id {
        Some(id) => id,
        None => "N/A"@,
    }) + ", from: "@ + email.sender + ", to: "@ + joined(email.recipients, ", "@)
}

/// The text for an email that is larger than its address allows.
pub open spec fn size_message(address: AddressView) -> Seq<char> {
    "This email is larger than allowed for "@ + address.address
        + ": maximum email size is "@ + megabytes(address.max_email_size) + " MB."@
}

/// The text for an email that would go beyond the quota of its address.
pub open spec fn quota_message(address: AddressView) -> Seq<char> {
    "Address "@ + address.address + " has hit its quota of "@ + decimal(address.quota)
        + " emails for this period."@
}

/// The log text for an accepted email.
pub open spec fn accepted_message(address: AddressView) -> Seq<char> {
    "Got email for recipient "@ + address.address
}

/// The text for an answer that does not fit the open question.
pub open spec fn unexpected_reply_message() -> Seq<char> {
    "unexpected reply from collaborator"@
}

/// A step that ends the admission with a rejection and writes nothing
/// down.
pub open spec fn plain_rejection(reason: RejectReason, detail: Seq<char>) -> StepView {
    StepView { effects: Seq::empty(), next: NextView::Done(DecisionView::Rejected { reason, detail }) }
}

/// A step that ends the admission of a stored email over one of the limits
/// of its address: the text goes to the audit log and to the status of the
/// email, which is marked as failed.
pub open spec fn limit_rejection(uuid: u128, reason: RejectReason, text: Seq<char>) -> StepView {
    StepView {
        effects: seq![
            EffectView::Log { message: text, email_id: Some(uuid), level: LogLevel::Warning },
            EffectView::UpdateStatus { uuid, success: false, reason: Some(text) },
        ],
        next: NextView::Done(DecisionView::Rejected { reason, detail: text }),
    }
}

/// The step from the state `Resolving`.
pub open spec fn resolving_step(email: EmailView, reply: ReplyView) -> StepView {
    match reply {
        ReplyView::Resolved(Some(address)) if email.recipients.contains(address.address) => StepView {
            effects: Seq::empty(),
            next: NextView::Ask(
                AdmissionView::Validating { email: email.narrowed_to(address.address), address },
            ),
        },
        ReplyView::Resolved(_) => StepView {
            effects: seq![
                EffectView::Log {
                    message: unknown_recipient_message(email),
                    email_id: None,
                    level: LogLevel::Warning,
                },
            ],
            next: NextView::Done(
                DecisionView::Rejected {
                    reason: RejectReason::InvalidRecipient,
                    detail: unknown_recipient_message(email),
                },
            ),
        },
        ReplyView::Failed(message) => plain_rejection(RejectReason::PersistenceFailure, message),
        _ => plain_rejection(RejectReason::PersistenceFailure, unexpected_reply_message()),
    }
}

/// The step from the state `Validating`.
pub open spec fn validating_step(email: EmailView, address: AddressView, reply: ReplyView) -> StepView {
    match reply {
        ReplyView::SenderChecked(true) => StepView {
            effects: Seq::empty(),
            next: NextView::Ask(AdmissionView::Persisting { email, address }),
        },
        ReplyView::SenderChecked(false) => plain_rejection(
            RejectReason::SenderNotWhitelisted,
            address.address,
        ),
        ReplyView::Failed(message) => plain_rejection(RejectReason::PersistenceFailure, message),
        _ => plain_rejection(RejectReason::PersistenceFailure, unexpected_reply_message()),
    }
}

/// The step from the state `Persisting`: with the record stored, the size
/// limit is looked at first, the quota second.
pub open spec fn persisting_step(email: EmailView, address: AddressView, reply: ReplyView) -> StepView {
    match reply {
        ReplyView::Inserted => if address.size_exceeded(email.size) {
            limit_rejection(email.uuid, RejectReason::SizeExceeded, size_message(address))
        } else if address.quota_exceeded() {
            limit_rejection(email.uuid, RejectReason::QuotaExceeded, quota_message(address))
        } else {
            StepView {
                effects: Seq::empty(),
                next: NextView::Ask(AdmissionView::Counting { email, address }),
            }
        },
        ReplyView::Failed(message) => plain_rejection(RejectReason::PersistenceFailure, message),
        _ => plain_rejection(RejectReason::PersistenceFailure, unexpected_reply_message()),
    }
}

/// The step from the state `Counting`.
pub open spec fn counting_step(email: EmailView, address: AddressView, reply: ReplyView) -> StepView {
    match reply {
        ReplyView::Incremented => StepView {
            effects: seq![
                EffectView::Log {
                    message: accepted_message(address),
                    email_id: Some(email.uuid),
                    level: LogLevel::Info,
                },
            ],
            next: NextView::Done(
                DecisionView::Accepted { session_created: email.expected_attachments() >= 1 },
            ),
        },
        ReplyView::Failed(message) => plain_rejection(RejectReason::PersistenceFailure, message),
        _ => plain_rejection(RejectReason::PersistenceFailure, unexpected_reply_message()),
    }
}

/// The step that an admission in `state` takes on `reply`.
pub open spec fn admission_step(state: AdmissionView, reply: ReplyView) -> StepView {
    match state {
        AdmissionView::Resolving { email } => resolving_step(email, reply),
        AdmissionView::Validating { email, address } => validating_step(email, address, reply),
        AdmissionView::Persisting { email, address } => persisting_step(email, address, reply),
        AdmissionView::Counting { email, address } => counting_step(email, address, reply),
    }
}

/// Whether the step on `reply` registers a session: the count was raised,
/// and the email declares an attachment.
pub open spec fn registers_session(state: AdmissionView, reply: ReplyView) -> bool {
    &&& state matches AdmissionView::Counting { email, .. }
    &&& reply is Incremented
    &&& email.expected_attachments() >= 1
}

/// The identifier under which the session of the email under admission is
/// kept.
pub open spec fn session_id(state: AdmissionView) -> Seq<char> {
    match state {
        AdmissionView::Resolving { email } => uuid_text(email.uuid),
        AdmissionView::Validating { email, .. } => uuid_text(email.uuid),
        AdmissionView::Persisting { email, .. } => uuid_text(email.uuid),
        AdmissionView::Counting { email, .. } => uuid_text(email.uuid),
    }
}

/// The session cache after the step on `reply`.
pub open spec fn sessions_after(state: AdmissionView, reply: ReplyView, sessions: Sessions) -> Sessions {
    match state {
        AdmissionView::Counting { email, address } if registers_session(state, reply) => sessions.insert(
            uuid_text(email.uuid),
            SessionView { email, address, remaining: email.expected_attachments() },
        ),
        _ => sessions,
    }
}

/// The log text for an email none of whose recipients is known.
pub fn unknown_recipient_text(email: &Email) -> (t: String)
    ensures
        t@ == unknown_recipient_message(email@),
{
    let mut t: String = String::from_str("Rejecting email message_id: ");
    match &email.message_id {
        Some(id) => t.append(id.as_str()),
        None => t.append("N/A"),
    }
    t.append(", from: ");
    t.append(email.sender.as_str());
    t.append(", to: ");
    let list: String = join(&email.recipients, ", ");
    t.append(list.as_str());
    t
}

/// The text for an email that is larger than its address allows.
pub fn size_text(address: &Address) -> (t: String)
    ensures
        t@ == size_message(address@),
{
    let mut t: String = String::from_str("This email is larger than allowed for ");
    t.append(address.address.as_str());
    t.append(": maximum email size is ");
    let limit: String = megabytes_text(address.max_email_size);
    t.append(limit.as_str());
    t.append(" MB.");
    t
}

/// The text for an email that would go beyond the quota of its address.
pub fn quota_text(address: &Address) -> (t: String)
    ensures
        t@ == quota_message(address@),
{
    let mut t: String = String::from_str("Address ");
    t.append(address.address.as_str());
    t.append(" has hit its quota of ");
    let quota: String = decimal_text(address.quota as i64);
    t.append(quota.as_str());
    t.append(" emails for this period.");
    t
}

/// The log text for an accepted email.
pub fn accepted_text(address: &Address) -> (t: String)
    ensures
        t@ == accepted_message(address@),
{
    String::from_str("Got email for recipient ").concat(address.address.as_str())
}

fn reject(reason: RejectReason, detail: String) -> (step: Step)
    ensures
        step@ == plain_rejection(reason, detail@),
{
    let step = Step { effects: Vec::new(), next: Next::Done(Decision::Rejected { reason, detail }) };
    assert(effect_views(step.effects@) =~= Seq::empty());
    step
}

fn reject_unexpected() -> (step: Step)
    ensures
        step@ == plain_rejection(RejectReason::PersistenceFailure, unexpected_reply_message()),
{
    reject(RejectReason::PersistenceFailure, String::from_str("unexpected reply from collaborator"))
}

fn reject_over_limit(uuid: u128, reason: RejectReason, text: String) -> (step: Step)
    ensures
        step@ == limit_rejection(uuid, reason, text@),
{
    let mut effects: Vec<Effect> = Vec::new();
    effects.push(Effect::Log { message: text.clone(), email_id: Some(uuid), level: LogLevel::Warning });
    effects.push(Effect::UpdateStatus { uuid, success: false, reason: Some(text.clone()) });
    let step = Step { effects, next: Next::Done(Decision::Rejected { reason, detail: text }) };
    assert(effect_views(step.effects@) =~= limit_rejection(uuid, reason, text@).effects);
    step
}

fn ask(state: Admission) -> (step: Step)
    ensures
        step@ == (StepView { effects: Seq::empty(), next: NextView::Ask(state@) }),
{
    let step = Step { effects: Vec::new(), next: Next::Ask(state) };
    assert(effect_views(step.effects@) =~= Seq::empty());
    step
}

fn resolve(email: Email, reply: Reply) -> (step: Step)
    ensures
        step@ == resolving_step(email@, reply@),
{
    let mut email = email;
    match reply {
        Reply::Resolved(found) => {
            match found {
                Some(address) => {
                    if contains_text(&email.recipients, address.address.as_str()) {
                        email.narrow_to(address.address.as_str());
                        return ask(Admission::Validating { email, address });
                    }
                },
                None => {},
            }
            let text: String = unknown_recipient_text(&email);
            let mut effects: Vec<Effect> = Vec::new();
            effects.push(
                Effect::Log { message: text.clone(), email_id: None, level: LogLevel::Warning },
            );
            let step = Step {
                effects,
                next: Next::Done(
                    Decision::Rejected { reason: RejectReason::InvalidRecipient, detail: text },
                ),
            };
            assert(effect_views(step.effects@) =~= resolving_step(email@, reply@).effects);
            step
        },
        Reply::Failed(message) => reject(RejectReason::PersistenceFailure, message),
        _ => reject_unexpected(),
    }
}

fn validate(email: Email, address: Address, reply: Reply) -> (step: Step)
    ensures
        step@ == validating_step(email@, address@, reply@),
{
    match reply {
        Reply::SenderChecked(listed) => {
            if listed {
                ask(Admission::Persisting { email, address })
            } else {
                reject(RejectReason::SenderNotWhitelisted, address.address)
            }
        },
        Reply::Failed(message) => reject(RejectReason::PersistenceFailure, message),
        _ => reject_unexpected(),
    }
}

fn persist(email: Email, address: Address, reply: Reply) -> (step: Step)
    ensures
        step@ == persisting_step(email@, address@, reply@),
{
    match reply {
        Reply::Inserted => {
            if address.size_exceeded(email.size) {
                reject_over_limit(email.uuid, RejectReason::SizeExceeded, size_text(&address))
            } else if address.quota_exceeded() {
                reject_over_limit(email.uuid, RejectReason::QuotaExceeded, quota_text(&address))
            } else {
                ask(Admission::Counting { email, address })
            }
        },
        Reply::Failed(message) => reject(RejectReason::PersistenceFailure, message),
        _ => reject_unexpected(),
    }
}

fn count(email: Email, address: Address, reply: Reply, cache: &mut SessionCache) -> (step: Step)
    requires
        old(cache).wf(),
        reply@ is Incremented && email@.expected_attachments() >= 1 ==> !old(cache)@.contains_key(
            uuid_text(email.uuid),
        ),
    ensures
        step@ == counting_step(email@, address@, reply@),
        final(cache).wf(),
        final(cache)@ == sessions_after(
            AdmissionView::Counting { email: email@, address: address@ },
            reply@,
            old(cache)@,
        ),
{
    match reply {
        Reply::Incremented => {
            let mut effects: Vec<Effect> = Vec::new();
            effects.push(
                Effect::Log {
                    message: accepted_text(&address),
                    email_id: Some(email.uuid),
                    level: LogLevel::Info,
                },
            );
            let session_created: bool = email.expected_attachments() >= 1;
            if session_created {
                let id: String = email.id_text();
                cache.register(id.as_str(), email, address);
            }
            let step = Step { effects, next: Next::Done(Decision::Accepted { session_created }) };
            assert(effect_views(step.effects@) =~= counting_step(email@, address@, reply@).effects);
            step
        },
        Reply::Failed(message) => reject(RejectReason::PersistenceFailure, message),
        _ => reject_unexpected(),
    }
}

impl Admission {
    /// The admission of `email`, with its first question open.
    pub fn start(email: Email) -> (state: Admission)
        ensures
            state@ == (AdmissionView::Resolving { email: email@ }),
    {
        Admission::Resolving { email }
    }

    /// Takes the answer to the open question and returns what to write
    /// down and where the admission stands. A session is registered in
    /// `cache` exactly when an email that declares attachments is
    /// accepted.
    pub fn advance(self, reply: Reply, cache: &mut SessionCache) -> (step: Step)
        requires
            old(cache).wf(),
            registers_session(self@, reply@) ==> !old(cache)@.contains_key(session_id(self@)),
        ensures
            step@ == admission_step(self@, reply@),
            final(cache).wf(),
            final(cache)@ == sessions_after(self@, reply@, old(cache)@),
    {
        match self {
            Admission::Resolving { email } => resolve(email, reply),
            Admission::Validating { email, address } => validate(email, address, reply),
            Admission::Persisting { email, address } => persist(email, address, reply),
            Admission::Counting { email, address } => count(email, address, reply, cache),
        }
    }
}

/// How far a run of replies has taken an admission, and how often the
/// received count of the address was raised on the way.
pub struct RunView {
    pub next: NextView,
    pub increments: nat,
}

/// Whether the step on `reply` consumes a raise of the received count.
pub open spec fn consumes_increment(state: AdmissionView, reply: ReplyView) -> bool {
    state is Counting && reply is Incremented
}

/// The run of an admission from `state` over `replies`, one after the
/// other. Replies that come after the decision are not looked at.
pub open spec fn run(state: AdmissionView, replies: Seq<ReplyView>) -> RunView
    decreases replies.len(),
{
    if replies.len() == 0 {
        RunView { next: NextView::Ask(state), increments: 0 }
    } else {
        let before = run(state, replies.drop_last());
        match before.next {
            NextView::Done(_) => before,
            NextView::Ask(at) => RunView {
                next: admission_step(at, replies.last()).next,
                increments: before.increments + if consumes_increment(at, replies.last()) {
                    1nat
                } else {
                    0nat
                },
            },
        }
    }
}

/// The received count is raised once for an accepted email and not at all
/// for a rejected one: however the collaborators answer, a run that ends
/// in acceptance has consumed exactly one raise, and any other run none.
pub proof fn lemma_quota_monotonic(email: EmailView, replies: Seq<ReplyView>)
    ensures
        run(AdmissionView::Resolving { email }, replies).next matches NextView::Done(
            DecisionView::Accepted { .. },
        ) ==> run(AdmissionView::Resolving { email }, replies).increments == 1,
        !(run(AdmissionView::Resolving { email }, replies).next matches NextView::Done(
            DecisionView::Accepted { .. },
        )) ==> run(AdmissionView::Resolving { email }, replies).increments == 0,
    decreases replies.len(),
{
    if replies.len() > 0 {
        lemma_quota_monotonic(email, replies.drop_last());
    }
}

/// An email is accepted only by a raise of the received count, and every
/// raise that an admission consumes accepts the email.
pub proof fn lemma_accepted_iff_incremented(state: AdmissionView, reply: ReplyView)
    ensures
        admission_step(state, reply).next matches NextView::Done(DecisionView::Accepted { .. })
            <==> consumes_increment(state, reply),
{
}

/// Where an email is over the size limit and over the quota of its
/// address, it is rejected for its size.
pub proof fn lemma_size_before_quota(email: EmailView, address: AddressView)
    requires
        address.size_exceeded(email.size),
    ensures
        admission_step(AdmissionView::Persisting { email, address }, ReplyView::Inserted).next
            == NextView::Done(
            DecisionView::Rejected {
                reason: RejectReason::SizeExceeded,
                detail: size_message(address),
            },
        ),
{
}

/// From the resolution on, an admission carries exactly one recipient: the
/// address that the directory resolved.
pub proof fn lemma_recipient_narrowed(email: EmailView, address: AddressView)
    requires
        email.recipients.contains(address.address),
    ensures
        admission_step(
            AdmissionView::Resolving { email },
            ReplyView::Resolved(Some(address)),
        ).next == NextView::Ask(
            AdmissionView::Validating {
                email: EmailView { recipients: seq![address.address], ..email },
                address,
            },
        ),
{
}

/// A session is registered by the step that accepts an email with
/// attachments and by no other.
pub proof fn lemma_session_iff_accepted_with_attachments(
    state: AdmissionView,
    reply: ReplyView,
    sessions: Sessions,
)
    ensures
        registers_session(state, reply) <==> admission_step(state, reply).next == NextView::Done(
            DecisionView::Accepted { session_created: true },
        ),
        !registers_session(state, reply) ==> sessions_after(state, reply, sessions) == sessions,
{
}

} // verus!
