//! The email record that travels through admission and dispatch.

use vstd::prelude::*;
use crate::ident::{uuid_string, uuid_text};
use crate::text::texts;

verus! {

/// An inbound email as the ingress parser hands it over.
#[derive(Debug, PartialEq, Eq)]
pub struct Email {
    /// The identifier given at ingress, as the 128-bit value of its UUID.
    pub uuid: u128,
    pub sender: String,
    /// Candidate recipients; after admission, the one valid recipient.
    pub recipients: Vec<String>,
    pub message_id: Option<String>,
    pub subject: Option<String>,
    /// Declared size of the whole email in bytes.
    pub size: usize,
    /// Declared number of attachments; `None` if none are expected.
    pub num_attachments: Option<u32>,
}

/// One attachment as it is announced: the email it belongs to, its name
/// and its declared size. The bytes travel apart from it.
#[derive(Debug, PartialEq, Eq)]
pub struct Attachment {
    pub email_id: u128,
    pub name: String,
    pub size: usize,
}

/// What an [`Email`] holds, as mathematical values.
pub struct EmailView {
    pub uuid: u128,
    pub sender: Seq<char>,
    pub recipients: Seq<Seq<char>>,
    pub message_id: Option<Seq<char>>,
    pub subject: Option<Seq<char>>,
    pub size: nat,
    pub num_attachments: Option<nat>,
}

/// The view of an optional string.
pub open spec fn optional_text(t: Option<String>) -> Option<Seq<char>> {
    match t {
        Some(s) => Some(s@),
        None => None,
    }
}

impl View for Email {
    type V = EmailView;

    open spec fn view(&self) -> EmailView {
        EmailView {
            uuid: self.uuid,
            sender: self.sender@,
            recipients: texts(self.recipients@),
            message_id: optional_text(self.message_id),
            subject: optional_text(self.subject),
            size: self.size as nat,
            num_attachments: match self.num_attachments {
                Some(n) => Some(n as nat),
                None => None,
            },
        }
    }
}

impl EmailView {
    /// The number of attachments that are still to come for a freshly
    /// admitted email.
    pub open spec fn expected_attachments(self) -> nat {
        match self.num_attachments {
            Some(n) => n,
            None => 0,
        }
    }

    /// This email with its recipients replaced by the single `recipient`.
    pub open spec fn narrowed_to(self, recipient: Seq<char>) -> EmailView {
        EmailView { recipients: seq![recipient], ..self }
    }
}

/// A copy of an optional string.
pub fn copy_optional_text(t: &Option<String>) -> (copy: Option<String>)
    ensures
        optional_text(copy) == optional_text(*t),
{
    match t {
        Some(s) => Some(s.clone()),
        None => None,
    }
}

/// A copy of a list of strings.
pub fn copy_texts(items: &Vec<String>) -> (copy: Vec<String>)
    ensures
        texts(copy@) == texts(items@),
{
    let mut copy: Vec<String> = Vec::new();
    let mut i: usize = 0;
    while i < items.len()
        invariant
            i <= items.len(),
            texts(copy@) == texts(items@).take(i as int),
        decreases items.len() - i,
    {
        let ghost before = copy@;
        let item: String = items[i].clone();
        copy.push(item);
        i = i + 1;
        proof {
            let want = texts(items@).take(i as int);
            assert(texts(before).len() == i - 1);
            assert forall|k: int| 0 <= k < i implies texts(copy@)[k] == want[k] by {
                if k < i - 1 {
                    assert(texts(copy@)[k] == texts(before)[k]);
                }
            }
            assert(texts(copy@) =~= want);
        }
    }
    assert(texts(items@).take(items.len() as int) =~= texts(items@));
    copy
}

impl Clone for Email {
    fn clone(&self) -> (copy: Email)
        ensures
            copy@ == self@,
    {
        Email {
            uuid: self.uuid,
            sender: self.sender.clone(),
            recipients: copy_texts(&self.recipients),
            message_id: copy_optional_text(&self.message_id),
            subject: copy_optional_text(&self.subject),
            size: self.size,
            num_attachments: self.num_attachments,
        }
    }
}

impl Attachment {
    /// The identifier of the owning email as text, under which its session
    /// is kept.
    pub fn mail_id(&self) -> (t: String)
        ensures
            t@ == uuid_text(self.email_id),
    {
        uuid_string(self.email_id)
    }
}

impl Email {
    /// Replaces the candidate recipients by the one recipient that was
    /// resolved.
    pub fn narrow_to(&mut self, recipient: &str)
        ensures
            final(self)@ == old(self)@.narrowed_to(recipient@),
    {
        let mut only: Vec<String> = Vec::new();
        only.push(recipient.to_owned());
        self.recipients = only;
        assert(texts(self.recipients@) =~= seq![recipient@]);
    }

    /// The identifier of the email as text, under which its session is
    /// kept and its attachments are addressed.
    pub fn id_text(&self) -> (t: String)
        ensures
            t@ == uuid_text(self.uuid),
    {
        uuid_string(self.uuid)
    }

    /// The number of attachments that the email declares.
    pub fn expected_attachments(&self) -> (n: u32)
        ensures
            n == self@.expected_attachments(),
    {
        match self.num_attachments {
            Some(n) => n,
            None => 0,
        }
    }
}

} // verus!
