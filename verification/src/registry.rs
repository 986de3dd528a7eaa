//! The connection registry: which client is connected through which session.
//!
//! The registry is the single point of coupling between the outbound flow
//! (clients sending orders) and the inbound flow (responses looking for their
//! client). It holds at most one live session per client identifier; a login
//! under an identifier that is already registered evicts the earlier session.
//!
//! Tasks learn of a session's end at their own pace: a handler whose client
//! has meanwhile logged in again, or a router whose write failed after the
//! session was replaced, must not take the newer session out. Each session
//! therefore carries a number that its connection was given, and
//! `remove_session` removes a session only while it is still the one
//! registered.

use vstd::hash_map::StringHashMap;
use vstd::prelude::*;
use vstd::string::*;

verus! {

/// The live association between a client identifier and the handle through
/// which its socket is reached. `session_id` is the number of the connection,
/// which tells this session from an earlier or later one of the same client.
#[derive(Debug)]
pub struct ClientSession<H> {
    pub client_id: String,
    pub session_id: u64,
    pub handle: H,
}

impl<H> ClientSession<H> {
    /// The session of `client_id` on the connection numbered `session_id`,
    /// reached through `handle`.
    pub fn new(client_id: String, session_id: u64, handle: H) -> (session: Self)
        ensures
            session.client_id == client_id,
            session.session_id == session_id,
            session.handle == handle,
    {
        ClientSession { client_id, session_id, handle }
    }
}

/// What `register` did with the session it was given.
#[derive(Debug, Clone, Copy, PartialEq, Eq, Structural)]
pub enum RegisterOutcome {
    /// The identifier was free.
    Inserted,
    /// The identifier was taken: the earlier session has been evicted.
    Replaced,
}

/// A mapping from client identifier to live session, keys unique.
#[verifier::reject_recursive_types(H)]
pub struct ConnectionRegistry<H> {
    sessions: StringHashMap<ClientSession<H>>,
}

impl<H> View for ConnectionRegistry<H> {
    type V = Map<Seq<char>, ClientSession<H>>;

    closed spec fn view(&self) -> Map<Seq<char>, ClientSession<H>> {
        self.sessions@
    }
}

/// Every session is filed under its own client identifier.
pub open spec fn keyed_by_client_id<H>(sessions: Map<Seq<char>, ClientSession<H>>) -> bool {
    forall|client_id: Seq<char>| #[trigger]
        sessions.contains_key(client_id) ==> sessions[client_id].client_id@ == client_id
}

/// Whether the session registered for `client_id` is the one numbered
/// `session_id`.
pub open spec fn is_current_session<H>(
    sessions: Map<Seq<char>, ClientSession<H>>,
    client_id: Seq<char>,
    session_id: u64,
) -> bool {
    sessions.contains_key(client_id) && sessions[client_id].session_id == session_id
}

/// The sessions after `session` was registered: it takes the place under its
/// client identifier, whether or not a session was there before, and every
/// other session stays.
pub open spec fn spec_register<H>(
    sessions: Map<Seq<char>, ClientSession<H>>,
    session: ClientSession<H>,
) -> Map<Seq<char>, ClientSession<H>> {
    sessions.insert(session.client_id@, session)
}

/// The sessions after the session of `client_id` numbered `session_id` was
/// removed: it is gone if it was still the one registered; a session that
/// has replaced it stays, and so does every other session.
pub open spec fn spec_remove_session<H>(
    sessions: Map<Seq<char>, ClientSession<H>>,
    client_id: Seq<char>,
    session_id: u64,
) -> Map<Seq<char>, ClientSession<H>> {
    if is_current_session(sessions, client_id, session_id) {
        sessions.remove(client_id)
    } else {
        sessions
    }
}

impl<H> ConnectionRegistry<H> {
    /// The registry's invariant: every session is filed under its own client
    /// identifier.
    #[verifier::type_invariant]
    spec fn wf(&self) -> bool {
        keyed_by_client_id(self.sessions@)
    }

    /// Whether a live session is registered for `client_id`.
    pub open spec fn spec_is_registered(&self, client_id: Seq<char>) -> bool {
        self@.contains_key(client_id)
    }

    /// A registry without sessions.
    pub fn new() -> (registry: Self)
        ensures
            keyed_by_client_id(registry@),
            registry@ == Map::<Seq<char>, ClientSession<H>>::empty(),
    {
        ConnectionRegistry { sessions: StringHashMap::new() }
    }

    /// Registers `session` under its client identifier. A session already
    /// registered under that identifier is evicted and dropped; all other
    /// sessions stay as they are.
    pub fn register(&mut self, session: ClientSession<H>) -> (outcome: RegisterOutcome)
        ensures
            keyed_by_client_id(final(self)@),
            final(self)@ == spec_register(old(self)@, session),
            outcome == (if old(self)@.contains_key(session.client_id@) {
                RegisterOutcome::Replaced
            } else {
                RegisterOutcome::Inserted
            }),
    {
        proof {
            use_type_invariant(&*self);
        }
        let outcome = if self.sessions.contains_key(session.client_id.as_str()) {
            RegisterOutcome::Replaced
        } else {
            RegisterOutcome::Inserted
        };
        let key = session.client_id.clone();
        let mut sessions = StringHashMap::new();
        core::mem::swap(&mut self.sessions, &mut sessions);
        sessions.insert(key, session);
        core::mem::swap(&mut self.sessions, &mut sessions);
        outcome
    }

    /// Removes the session of `client_id`, if there is one, and says whether
    /// there was. All other sessions stay as they are.
    pub fn remove(&mut self, client_id: &str) -> (removed: bool)
        ensures
            keyed_by_client_id(final(self)@),
            final(self)@ == old(self)@.remove(client_id@),
            removed == old(self)@.contains_key(client_id@),
    {
        proof {
            use_type_invariant(&*self);
        }
        let removed = self.sessions.contains_key(client_id);
        let mut sessions = StringHashMap::new();
        core::mem::swap(&mut self.sessions, &mut sessions);
        sessions.remove(client_id);
        core::mem::swap(&mut self.sessions, &mut sessions);
        removed
    }

    /// Removes the session of `client_id` if it is still the one numbered
    /// `session_id`, and says whether it was. A session that has replaced it
    /// stays, and so do all other sessions.
    pub fn remove_session(&mut self, client_id: &str, session_id: u64) -> (removed: bool)
        ensures
            keyed_by_client_id(final(self)@),
            final(self)@ == spec_remove_session(old(self)@, client_id@, session_id),
            removed == is_current_session(old(self)@, client_id@, session_id),
    {
        proof {
            use_type_invariant(&*self);
        }
        let current = match self.sessions.get(client_id) {
            Some(session) => session.session_id == session_id,
            None => false,
        };
        if current {
            self.remove(client_id)
        } else {
            false
        }
    }

    /// The live session of `client_id`, or `None` where none is registered.
    pub fn lookup(&self, client_id: &str) -> (found: Option<&ClientSession<H>>)
        ensures
            found is Some <==> self@.contains_key(client_id@),
            found matches Some(session) ==> *session == self@[client_id@]
                && session.client_id@ == client_id@,
    {
        proof {
            use_type_invariant(self);
        }
        self.sessions.get(client_id)
    }

    /// Whether a live session is registered for `client_id`.
    pub fn is_registered(&self, client_id: &str) -> (registered: bool)
        ensures
            registered == self.spec_is_registered(client_id@),
    {
        self.sessions.contains_key(client_id)
    }

    /// The number of live sessions.
    pub fn len(&self) -> (n: usize)
        ensures
            n == self@.len(),
    {
        self.sessions.len()
    }
}

/// A registered session is found under its identifier until it is removed,
/// and not after.
pub proof fn lemma_register_then_remove<H>(
    sessions: Map<Seq<char>, ClientSession<H>>,
    session: ClientSession<H>,
)
    ensures
        spec_register(sessions, session).contains_key(session.client_id@),
        spec_register(sessions, session)[session.client_id@] == session,
        !spec_register(sessions, session).remove(session.client_id@).contains_key(
            session.client_id@,
        ),
        !spec_remove_session(
            spec_register(sessions, session),
            session.client_id@,
            session.session_id,
        ).contains_key(session.client_id@),
{
}

/// Two logins under one identifier leave exactly one session for it, the
/// later one: the registry is what it would be had the earlier login never
/// happened.
pub proof fn lemma_second_login_replaces<H>(
    sessions: Map<Seq<char>, ClientSession<H>>,
    first: ClientSession<H>,
    second: ClientSession<H>,
)
    requires
        first.client_id@ == second.client_id@,
    ensures
        spec_register(spec_register(sessions, first), second) == spec_register(sessions, second),
        spec_register(spec_register(sessions, first), second)[second.client_id@] == second,
{
    assert(spec_register(spec_register(sessions, first), second) =~= spec_register(
        sessions,
        second,
    ));
}

/// The end of an evicted session does not touch the session that replaced
/// it: after a second login under the same identifier, removing the first
/// session by its number changes nothing, and the second is still found.
pub proof fn lemma_stale_removal_spares_the_newer_session<H>(
    sessions: Map<Seq<char>, ClientSession<H>>,
    first: ClientSession<H>,
    second: ClientSession<H>,
)
    requires
        first.client_id@ == second.client_id@,
        first.session_id != second.session_id,
    ensures
        spec_remove_session(
            spec_register(spec_register(sessions, first), second),
            first.client_id@,
            first.session_id,
        ) == spec_register(spec_register(sessions, first), second),
        spec_register(spec_register(sessions, first), second)[second.client_id@] == second,
{
}

/// Registering and removing keep every session filed under its own client
/// identifier.
pub proof fn lemma_registry_stays_keyed<H>(
    sessions: Map<Seq<char>, ClientSession<H>>,
    session: ClientSession<H>,
    client_id: Seq<char>,
    session_id: u64,
)
    requires
        keyed_by_client_id(sessions),
    ensures
        keyed_by_client_id(spec_register(sessions, session)),
        keyed_by_client_id(sessions.remove(client_id)),
        keyed_by_client_id(spec_remove_session(sessions, client_id, session_id)),
{
}

} // verus!
