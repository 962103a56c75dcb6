//! The cache of emails that still wait for attachments.
//!
//! A session is registered when an email with attachments is admitted and
//! leaves the cache with the last of its attachments, whatever became of
//! each upload.

use vstd::prelude::*;
use crate::address::{Address, AddressView};
use crate::email::{Email, EmailView};

verus! {

/// An admitted email, the address it goes to, and the number of its
/// attachments that have not arrived yet.
#[derive(Debug, PartialEq, Eq)]
pub struct Session {
    pub email: Email,
    pub address: Address,
    pub remaining: u32,
}

/// What a [`Session`] holds, as mathematical values.
pub struct SessionView {
    pub email: EmailView,
    pub address: AddressView,
    pub remaining: nat,
}

impl View for Session {
    type V = SessionView;

    open spec fn view(&self) -> SessionView {
        SessionView { email: self.email@, address: self.address@, remaining: self.remaining as nat }
    }
}

impl Clone for Session {
    fn clone(&self) -> (copy: Session)
        ensures
            copy@ == self@,
    {
        Session {
            email: self.email.clone(),
            address: self.address.clone(),
            remaining: self.remaining,
        }
    }
}

/// Why a call on the cache failed.
#[derive(Clone, Copy, Debug, PartialEq, Eq, Structural)]
pub enum SessionError {
    /// No session is registered under the identifier: the email is unknown
    /// or all its attachments have arrived.
    SessionNotFound,
}

/// The sessions of a cache, by identifier.
pub type Sessions = Map<Seq<char>, SessionView>;

/// No sessions at all.
pub open spec fn no_sessions() -> Sessions {
    Map::empty()
}

/// The view of an optional session.
pub open spec fn slot_view(slot: Option<Session>) -> Option<SessionView> {
    match slot {
        Some(s) => Some(s@),
        None => None,
    }
}

/// The session under `id`, if there is one.
pub open spec fn slot_of(sessions: Sessions, id: Seq<char>) -> Option<SessionView> {
    if sessions.contains_key(id) {
        Some(sessions[id])
    } else {
        None
    }
}

/// The sessions with the slot of `id` set to `slot`.
pub open spec fn with_slot(sessions: Sessions, id: Seq<char>, slot: Option<SessionView>) -> Sessions {
    match slot {
        Some(s) => sessions.insert(id, s),
        None => sessions.remove(id),
    }
}

/// A slot after the arrival of one attachment: the session with one
/// attachment less to wait for, or nothing if that was the last one.
pub open spec fn slot_after_arrival(slot: Option<SessionView>) -> Option<SessionView> {
    match slot {
        Some(s) => if s.remaining <= 1 {
            None
        } else {
            Some(SessionView { remaining: (s.remaining - 1) as nat, ..s })
        },
        None => None,
    }
}

/// A slot after a visit: unchanged, or after the arrival of an attachment.
pub open spec fn slot_after(slot: Option<SessionView>, arrival: bool) -> Option<SessionView> {
    if arrival {
        slot_after_arrival(slot)
    } else {
        slot
    }
}

/// The sessions after the arrival of one attachment for `id`.
pub open spec fn after_arrival(sessions: Sessions, id: Seq<char>) -> Sessions {
    with_slot(sessions, id, slot_after_arrival(slot_of(sessions, id)))
}

/// Every session still waits for an attachment, and the sessions are
/// finitely many.
pub open spec fn sessions_wf(sessions: Sessions) -> bool {
    &&& sessions.dom().finite()
    &&& forall|id: Seq<char>| #[trigger] sessions.contains_key(id) ==> sessions[id].remaining >= 1
}

/// The sessions after attachments have arrived for the identifiers of
/// `calls`, one after the other.
pub open spec fn after_arrivals(sessions: Sessions, calls: Seq<Seq<char>>) -> Sessions
    decreases calls.len(),
{
    if calls.len() == 0 {
        sessions
    } else {
        after_arrival(after_arrivals(sessions, calls.drop_last()), calls.last())
    }
}

/// How many of `calls` are for `id`.
pub open spec fn arrivals_for(calls: Seq<Seq<char>>, id: Seq<char>) -> nat
    decreases calls.len(),
{
    if calls.len() == 0 {
        0
    } else {
        arrivals_for(calls.drop_last(), id) + if calls.last() == id {
            1nat
        } else {
            0nat
        }
    }
}

/// The call at position `at` of `calls` is the one at which the session of
/// `id` leaves the cache.
pub open spec fn removed_at(sessions: Sessions, calls: Seq<Seq<char>>, id: Seq<char>, at: int) -> bool {
    &&& 0 <= at < calls.len()
    &&& after_arrivals(sessions, calls.take(at)).contains_key(id)
    &&& !after_arrivals(sessions, calls.take(at + 1)).contains_key(id)
}

/// One arrival keeps the cache well-formed, touches no session but the one
/// it is for, and adds none.
pub proof fn lemma_arrival_is_local(sessions: Sessions, id: Seq<char>)
    requires
        sessions_wf(sessions),
    ensures
        sessions_wf(after_arrival(sessions, id)),
        forall|other: Seq<char>|
            other != id ==> slot_of(after_arrival(sessions, id), other) == slot_of(sessions, other),
        forall|any: Seq<char>|
            after_arrival(sessions, id).contains_key(any) ==> sessions.contains_key(any),
{
    let end = after_arrival(sessions, id);
    assert forall|k: Seq<char>| #[trigger] end.contains_key(k) implies end[k].remaining >= 1 by {
        if k != id {
            assert(sessions.contains_key(k));
        }
    }
}

/// A session waits for exactly as many attachments as it was registered
/// with: whatever the order of the calls, and whatever other sessions they
/// serve, after fewer arrivals it is still in the cache with the rest to
/// come, and from the last arrival on it is gone.
pub proof fn lemma_no_leak(sessions: Sessions, id: Seq<char>, calls: Seq<Seq<char>>)
    requires
        sessions_wf(sessions),
        sessions.contains_key(id),
    ensures
        sessions_wf(after_arrivals(sessions, calls)),
        arrivals_for(calls, id) < sessions[id].remaining ==> slot_of(
            after_arrivals(sessions, calls),
            id,
        ) == Some(
            SessionView {
                remaining: (sessions[id].remaining - arrivals_for(calls, id)) as nat,
                ..sessions[id]
            },
        ),
        arrivals_for(calls, id) >= sessions[id].remaining ==> !after_arrivals(
            sessions,
            calls,
        ).contains_key(id),
    decreases calls.len(),
{
    if calls.len() > 0 {
        lemma_no_leak(sessions, id, calls.drop_last());
        lemma_arrival_is_local(after_arrivals(sessions, calls.drop_last()), calls.last());
    }
}

/// A session that has left the cache does not come back by arrivals.
pub proof fn lemma_gone_stays_gone(
    sessions: Sessions,
    calls: Seq<Seq<char>>,
    id: Seq<char>,
    from: int,
    to: int,
)
    requires
        sessions_wf(sessions),
        0 <= from <= to <= calls.len(),
        !after_arrivals(sessions, calls.take(from)).contains_key(id),
    ensures
        !after_arrivals(sessions, calls.take(to)).contains_key(id),
    decreases to - from,
{
    if from < to {
        lemma_gone_stays_gone(sessions, calls, id, from, to - 1);
        assert(calls.take(to).drop_last() =~= calls.take(to - 1));
        lemma_arrivals_keep_wf(sessions, calls.take(to - 1));
        lemma_arrival_is_local(after_arrivals(sessions, calls.take(to - 1)), calls[to - 1]);
    }
}

/// Arrivals keep the cache well-formed.
pub proof fn lemma_arrivals_keep_wf(sessions: Sessions, calls: Seq<Seq<char>>)
    requires
        sessions_wf(sessions),
    ensures
        sessions_wf(after_arrivals(sessions, calls)),
    decreases calls.len(),
{
    if calls.len() > 0 {
        lemma_arrivals_keep_wf(sessions, calls.drop_last());
        lemma_arrival_is_local(after_arrivals(sessions, calls.drop_last()), calls.last());
    }
}

/// A session leaves the cache at most once, by an arrival of its own, and
/// only when that arrival is the last one it waited for.
pub proof fn lemma_removed_exactly_once(
    sessions: Sessions,
    calls: Seq<Seq<char>>,
    id: Seq<char>,
    first: int,
    second: int,
)
    requires
        sessions_wf(sessions),
        removed_at(sessions, calls, id, first),
        removed_at(sessions, calls, id, second),
    ensures
        first == second,
        calls[first] == id,
        after_arrivals(sessions, calls.take(first))[id].remaining == 1,
{
    if first < second {
        lemma_gone_stays_gone(sessions, calls, id, first + 1, second);
    }
    if second < first {
        lemma_gone_stays_gone(sessions, calls, id, second + 1, first);
    }
    let before = after_arrivals(sessions, calls.take(first));
    assert(calls.take(first + 1).drop_last() =~= calls.take(first));
    assert(calls.take(first + 1).last() == calls[first]);
    lemma_arrivals_keep_wf(sessions, calls.take(first));
    lemma_arrival_is_local(before, calls[first]);
}

/// `chashmap::CHashMap`, a hash map with a lock on every bucket. Verus
/// sees nothing inside it; what it holds is named by [`held`].
#[verifier::external_type_specification]
#[verifier::external_body]
#[verifier::reject_recursive_types(K)]
#[verifier::reject_recursive_types(V)]
pub struct ExCHashMap<K, V>(chashmap::CHashMap<K, V>);

/// The entries of a concurrent hash map of sessions.
pub uninterp spec fn held(map: chashmap::CHashMap<String, Session>) -> Sessions;

/// `CHashMap::new`: a map without entries.
#[verifier::external_body]
fn empty_map() -> (fresh: chashmap::CHashMap<String, Session>)
    ensures
        held(fresh) == no_sessions(),
{
    chashmap::CHashMap::new()
}

/// `CHashMap::len`: the number of entries.
#[verifier::external_body]
fn entry_count(map: &chashmap::CHashMap<String, Session>) -> (n: usize)
    ensures
        held(*map).dom().finite() ==> n == held(*map).len(),
{
    map.len()
}

/// `CHashMap::insert`: sets the entry of `key` to `val`, whether or not the
/// key had one, and returns the value it had.
#[verifier::external_body]
fn put_entry(map: &mut chashmap::CHashMap<String, Session>, key: String, val: Session) -> (prior:
    Option<Session>)
    ensures
        held(*final(map)) == held(*old(map)).insert(key@, val@),
        slot_view(prior) == slot_of(held(*old(map)), key@),
{
    map.insert(key, val)
}

/// What a visit does to a slot: it is copied to `seen`, and it stays as it
/// is or loses one attachment as `arrival` says.
fn settle(slot: Option<Session>, arrival: bool, seen: &mut Option<Session>) -> (kept: Option<
    Session,
>)
    ensures
        slot_view(*final(seen)) == slot_view(slot),
        slot_view(kept) == slot_after(slot_view(slot), arrival),
{
    match slot {
        None => {
            *seen = None;
            None
        },
        Some(s) => {
            *seen = Some(s.clone());
            if !arrival {
                Some(s)
            } else if s.remaining <= 1 {
                None
            } else {
                Some(Session { email: s.email, address: s.address, remaining: s.remaining - 1 })
            }
        },
    }
}

/// `CHashMap::alter` with [`settle`] as its closure. The map hands the
/// closure the value under `key`, or `None` if the key has no entry; what
/// the closure returns becomes the entry, and `None` leaves the key
/// without one. Returns the value that the closure was handed.
#[verifier::external_body]
fn visit_entry(map: &mut chashmap::CHashMap<String, Session>, key: String, arrival: bool) -> (seen:
    Option<Session>)
    ensures
        slot_view(seen) == slot_of(held(*old(map)), key@),
        held(*final(map)) == with_slot(
            held(*old(map)),
            key@,
            slot_after(slot_of(held(*old(map)), key@), arrival),
        ),
{
    let mut seen: Option<Session> = None;
    map.alter(key, |slot| settle(slot, arrival, &mut seen));
    seen
}

/// `op` was run on the email and the address of `session` and returned
/// `out`.
pub open spec fn op_ran_on<R, F: FnOnce(&Email, &Address) -> R>(
    op: F,
    session: SessionView,
    out: R,
) -> bool {
    exists|email: &Email, address: &Address|
        {
            &&& email@ == session.email
            &&& address@ == session.address
            &&& op.ensures((email, address), out)
        }
}

/// The registry of emails whose attachments are still arriving.
pub struct SessionCache {
    map: chashmap::CHashMap<String, Session>,
}

impl View for SessionCache {
    type V = Sessions;

    closed spec fn view(&self) -> Sessions {
        held(self.map)
    }
}

impl SessionCache {
    /// Every session in the cache still waits for an attachment.
    pub open spec fn wf(&self) -> bool {
        sessions_wf(self@)
    }

    /// A cache without sessions.
    pub fn new() -> (cache: SessionCache)
        ensures
            cache.wf(),
            cache@ == no_sessions(),
    {
        SessionCache { map: empty_map() }
    }

    /// The number of sessions in the cache.
    pub fn len(&self) -> (n: usize)
        requires
            self.wf(),
        ensures
            n == self@.len(),
    {
        entry_count(&self.map)
    }

    /// The session under `id`, if one is registered. The cache is left as
    /// it was; it is borrowed mutably because the lookup goes through the
    /// map's altering call, the one lookup that the map answers for every
    /// key.
    pub fn session(&mut self, id: &str) -> (found: Option<Session>)
        ensures
            final(self)@ == old(self)@,
            slot_view(found) == slot_of(old(self)@, id@),
    {
        let found: Option<Session> = visit_entry(&mut self.map, id.to_owned(), false);
        proof {
            let before = old(self)@;
            if before.contains_key(id@) {
                assert(before.insert(id@, before[id@]) =~= before);
            } else {
                assert(before.remove(id@) =~= before);
            }
        }
        found
    }

    /// Registers the session of an admitted email under `id`, waiting for
    /// all the attachments that the email declares.
    pub fn register(&mut self, id: &str, email: Email, address: Address)
        requires
            old(self).wf(),
            email@.expected_attachments() >= 1,
            !old(self)@.contains_key(id@),
        ensures
            final(self).wf(),
            final(self)@ == old(self)@.insert(
                id@,
                SessionView {
                    email: email@,
                    address: address@,
                    remaining: email@.expected_attachments(),
                },
            ),
    {
        let remaining: u32 = email.expected_attachments();
        let session = Session { email, address, remaining };
        let _ = put_entry(&mut self.map, id.to_owned(), session);
    }

    /// Handles the arrival of one attachment for `id`: runs `op` on the
    /// email and the address of the session, counts the attachment off, and
    /// drops the session if it was the last one. Whatever `op` returns, the
    /// attachment is counted. Returns whether it was the last one, and what
    /// `op` returned.
    pub fn dispatch_and_decrement<R, F: FnOnce(&Email, &Address) -> R>(
        &mut self,
        id: &str,
        op: F,
    ) -> (res: Result<(bool, R), SessionError>)
        requires
            old(self).wf(),
            old(self)@.contains_key(id@) ==> forall|email: &Email, address: &Address|
                email@ == old(self)@[id@].email && address@ == old(self)@[id@].address
                    ==> op.requires((email, address)),
        ensures
            final(self).wf(),
            final(self)@ == after_arrival(old(self)@, id@),
            res is Ok <==> old(self)@.contains_key(id@),
            res is Err ==> res == Err::<(bool, R), SessionError>(SessionError::SessionNotFound),
            res matches Ok(done) ==> {
                &&& done.0 == (old(self)@[id@].remaining == 1)
                &&& done.0 == !final(self)@.contains_key(id@)
                &&& op_ran_on(op, old(self)@[id@], done.1)
            },
    {
        let seen: Option<Session> = visit_entry(&mut self.map, id.to_owned(), true);
        match seen {
            None => {
                proof {
                    assert(!old(self)@.contains_key(id@));
                    assert(old(self)@.remove(id@) =~= old(self)@);
                    assert(self@ == old(self)@);
                }
                Err(SessionError::SessionNotFound)
            },
            Some(session) => {
                let last: bool = session.remaining <= 1;
                let out: R = op(&session.email, &session.address);
                assert(op_ran_on(op, old(self)@[id@], out)) by {
                    let email = &session.email;
                    let address = &session.address;
                    assert(op.ensures((email, address), out));
                }
                Ok((last, out))
            },
        }
    }
}

} // verus!
