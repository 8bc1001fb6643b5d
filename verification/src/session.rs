//! Sessions: one per message to sign, each with the aggregation context of
//! its ordered identity list, kept by their session ids.

use vstd::prelude::*;
use crate::bytes::bytes_copy;
use crate::crypto::{
    aggregate_keys,
    aggregated_identity,
    aggregated_pubkey,
    aggregation_context,
    context_size_of,
    fresh_session_id,
};
use crate::identity::{identity_views, Identity};
use crate::node::PeerTable;
use crate::order::{
    canonical_order,
    canonically_ordered,
    lemma_canonical_order_sorts,
    sort_identities,
};
use crate::registry::MAX_PARTICIPANTS;
use crate::table::{key_ids, Table};
use crate::types::SigningSession;

verus! {

/// Why no aggregation context was built.
#[derive(Debug, Clone, Copy, PartialEq, Eq, Structural)]
pub enum AggregationError {
    /// There is no identity to aggregate.
    EmptyIdentitySet,
    /// There are more identities than one context can hold.
    TooManyIdentities,
    /// An identity occurs twice.
    DuplicateIdentity,
    /// The keys behind the identities do not aggregate.
    KeysDoNotAggregate,
}

/// Why a session could not be made or found.
#[derive(Debug, Clone, Copy, PartialEq, Eq, Structural)]
pub enum SessionError {
    /// No aggregation context could be built for the session.
    Aggregation(AggregationError),
    /// No session has the given id.
    SessionNotFound,
    /// A session with the given id exists already.
    SessionExists,
}

/// The aggregation context of an ordered identity list, or why there is none.
pub open spec fn context_of(ids: Seq<Seq<u8>>) -> Result<Seq<u8>, AggregationError> {
    if ids.len() == 0 {
        Err(AggregationError::EmptyIdentitySet)
    } else if ids.len() > MAX_PARTICIPANTS {
        Err(AggregationError::TooManyIdentities)
    } else if !ids.no_duplicates() {
        Err(AggregationError::DuplicateIdentity)
    } else {
        match aggregation_context(ids) {
            Some(context) => Ok(context),
            None => Err(AggregationError::KeysDoNotAggregate),
        }
    }
}

/// Whether some identity occurs twice in `ids`.
pub fn has_duplicates(ids: &Vec<Identity>) -> (r: bool)
    ensures
        r == !identity_views(ids@).no_duplicates(),
{
    let ghost views = identity_views(ids@);
    let mut i: usize = 0;
    while i < ids.len()
        invariant
            i <= ids@.len(),
            views == identity_views(ids@),
            forall|a: int, b: int| 0 <= a < b < views.len() && b < i ==> views[a] != views[b],
        decreases ids@.len() - i,
    {
        let mut j: usize = 0;
        while j < i
            invariant
                j <= i,
                i < ids@.len(),
                views == identity_views(ids@),
                forall|a: int| 0 <= a < j ==> views[a] != views[i as int],
            decreases i - j,
        {
            if ids[j].same_as(&ids[i]) {
                assert(views[j as int] == views[i as int]);
                return true;
            }
            j += 1;
        }
        i += 1;
    }
    assert forall|a: int, b: int| 0 <= a < views.len() && 0 <= b < views.len() && a != b implies views[a]
        != views[b] by {
        if a < b {
            assert(views[a] != views[b]);
        } else {
            assert(views[b] != views[a]);
        }
    }
    false
}

/// Builds the aggregation context of an ordered identity list. An empty list
/// and a list that holds an identity twice are refused.
pub fn build_context(ordered_identities: &Vec<Identity>) -> (r: Result<Vec<u8>, AggregationError>)
    ensures
        match r {
            Ok(context) => {
                &&& context_of(identity_views(ordered_identities@)) == Ok::<
                    Seq<u8>,
                    AggregationError,
                >(context@)
                &&& context_size_of(context@) == Some(ordered_identities@.len())
                &&& aggregated_identity(context@) is Some
            },
            Err(e) => context_of(identity_views(ordered_identities@)) == Err::<
                Seq<u8>,
                AggregationError,
            >(e),
        },
{
    if ordered_identities.len() == 0 {
        return Err(AggregationError::EmptyIdentitySet);
    }
    if ordered_identities.len() > MAX_PARTICIPANTS {
        return Err(AggregationError::TooManyIdentities);
    }
    if has_duplicates(ordered_identities) {
        return Err(AggregationError::DuplicateIdentity);
    }
    match aggregate_keys(ordered_identities) {
        Some(context) => Ok(context),
        None => Err(AggregationError::KeysDoNotAggregate),
    }
}

/// The aggregated identity of a context: the one public key under which the
/// group's signatures verify. `None` where the bytes are no context.
pub fn aggregated_public_key(context: &Vec<u8>) -> (r: Option<Vec<u8>>)
    ensures
        match r {
            Some(key) => aggregated_identity(context@) == Some(key@) && key@.len() == 33,
            None => aggregated_identity(context@) is None,
        },
{
    aggregated_pubkey(context)
}

/// The session with the given id for `message` among the participants of
/// `ordered_identities`.
pub fn session_with_id(
    session_id: String,
    message: String,
    ordered_identities: &Vec<Identity>,
) -> (r: Result<SigningSession, AggregationError>)
    ensures
        match r {
            Ok(session) => {
                &&& session.session_id == session_id
                &&& session.message == message
                &&& context_of(identity_views(ordered_identities@)) == Ok::<
                    Seq<u8>,
                    AggregationError,
                >(session.key_agg_ctx@)
            },
            Err(e) => context_of(identity_views(ordered_identities@)) == Err::<
                Seq<u8>,
                AggregationError,
            >(e),
        },
{
    match build_context(ordered_identities) {
        Ok(key_agg_ctx) => Ok(SigningSession { session_id, message, key_agg_ctx }),
        Err(e) => Err(e),
    }
}

/// A new session for `message` among the participants of
/// `ordered_identities`, under a freshly drawn session id.
pub fn create_session(message: String, ordered_identities: &Vec<Identity>) -> (r: Result<
    SigningSession,
    AggregationError,
>)
    ensures
        match r {
            Ok(session) => {
                &&& session.message == message
                &&& context_of(identity_views(ordered_identities@)) == Ok::<
                    Seq<u8>,
                    AggregationError,
                >(session.key_agg_ctx@)
            },
            Err(e) => context_of(identity_views(ordered_identities@)) == Err::<
                Seq<u8>,
                AggregationError,
            >(e),
        },
{
    session_with_id(fresh_session_id(), message, ordered_identities)
}

/// A copy of a session.
pub fn copy_session(session: &SigningSession) -> (r: SigningSession)
    ensures
        r.session_id == session.session_id,
        r.message == session.message,
        r.key_agg_ctx@ == session.key_agg_ctx@,
{
    SigningSession {
        session_id: session.session_id.clone(),
        message: session.message.clone(),
        key_agg_ctx: bytes_copy(&session.key_agg_ctx),
    }
}

/// The sessions of one party, each under its own id. Sessions share
/// nothing: making, finding or closing one leaves the others as they were.
pub struct SessionManager {
    sessions: Table<String, SigningSession>,
}

impl View for SessionManager {
    type V = Map<Seq<char>, SigningSession>;

    closed spec fn view(&self) -> Map<Seq<char>, SigningSession> {
        self.sessions@
    }
}

impl SessionManager {
    /// What holds of every manager: each session is kept under its own id.
    pub closed spec fn wf(&self) -> bool {
        &&& self.sessions.wf()
        &&& forall|id: Seq<char>| #[trigger]
            self.sessions@.contains_key(id) ==> self.sessions@[id].session_id@ == id
    }

    /// Each session is kept under its own id.
    pub proof fn lemma_wf(&self, session_id: Seq<char>)
        requires
            self.wf(),
            self@.contains_key(session_id),
        ensures
            self@[session_id].session_id@ == session_id,
    {
    }

    /// A manager without sessions.
    pub fn new() -> (r: SessionManager)
        ensures
            r.wf(),
            r@ == Map::<Seq<char>, SigningSession>::empty(),
    {
        SessionManager { sessions: Table::new() }
    }

    /// The number of sessions kept.
    pub fn len(&self) -> (r: usize)
        requires
            self.wf(),
        ensures
            r == self@.dom().len(),
    {
        self.sessions.len()
    }

    /// Makes the session with the given id and keeps it. On any error the
    /// manager is left as it was.
    pub fn open_session(
        &mut self,
        session_id: String,
        message: String,
        ordered_identities: &Vec<Identity>,
    ) -> (r: Result<(), SessionError>)
        requires
            old(self).wf(),
        ensures
            final(self).wf(),
            match r {
                Ok(()) => {
                    &&& !old(self)@.contains_key(session_id@)
                    &&& final(self)@.contains_key(session_id@)
                    &&& final(self)@ == old(self)@.insert(session_id@, final(self)@[session_id@])
                    &&& final(self)@[session_id@].session_id == session_id
                    &&& final(self)@[session_id@].message == message
                    &&& context_of(identity_views(ordered_identities@)) == Ok::<
                        Seq<u8>,
                        AggregationError,
                    >(final(self)@[session_id@].key_agg_ctx@)
                },
                Err(SessionError::SessionExists) => {
                    &&& old(self)@.contains_key(session_id@)
                    &&& final(self)@ == old(self)@
                },
                Err(SessionError::Aggregation(e)) => {
                    &&& !old(self)@.contains_key(session_id@)
                    &&& context_of(identity_views(ordered_identities@)) == Err::<
                        Seq<u8>,
                        AggregationError,
                    >(e)
                    &&& final(self)@ == old(self)@
                },
                Err(SessionError::SessionNotFound) => false,
            },
    {
        if self.sessions.contains(&session_id) {
            return Err(SessionError::SessionExists);
        }
        let key = session_id.clone();
        match session_with_id(session_id, message, ordered_identities) {
            Ok(session) => {
                self.sessions.insert(key, session);
                Ok(())
            },
            Err(e) => Err(SessionError::Aggregation(e)),
        }
    }

    /// Makes a session under a freshly drawn id, keeps it, and returns the
    /// id. On any error the manager is left as it was.
    pub fn create_session(&mut self, message: String, ordered_identities: &Vec<Identity>) -> (r:
        Result<String, SessionError>)
        requires
            old(self).wf(),
        ensures
            final(self).wf(),
            match r {
                Ok(session_id) => {
                    &&& !old(self)@.contains_key(session_id@)
                    &&& final(self)@.contains_key(session_id@)
                    &&& final(self)@ == old(self)@.insert(session_id@, final(self)@[session_id@])
                    &&& final(self)@[session_id@].session_id == session_id
                    &&& final(self)@[session_id@].message == message
                    &&& context_of(identity_views(ordered_identities@)) == Ok::<
                        Seq<u8>,
                        AggregationError,
                    >(final(self)@[session_id@].key_agg_ctx@)
                },
                Err(SessionError::SessionExists) => {
                    &&& final(self)@ == old(self)@
                    &&& exists|id: Seq<char>| old(self)@.contains_key(id)
                },
                Err(SessionError::Aggregation(e)) => {
                    &&& context_of(identity_views(ordered_identities@)) == Err::<
                        Seq<u8>,
                        AggregationError,
                    >(e)
                    &&& final(self)@ == old(self)@
                },
                Err(SessionError::SessionNotFound) => false,
            },
    {
        let session_id = fresh_session_id();
        let kept = session_id.clone();
        match self.open_session(session_id, message, ordered_identities) {
            Ok(()) => Ok(kept),
            Err(e) => Err(e),
        }
    }

    /// The session with the given id.
    pub fn get_session(&self, session_id: &String) -> (r: Result<&SigningSession, SessionError>)
        requires
            self.wf(),
        ensures
            match r {
                Ok(session) => {
                    &&& self@.contains_key(session_id@)
                    &&& self@[session_id@] == *session
                    &&& session.session_id@ == session_id@
                },
                Err(e) => e == SessionError::SessionNotFound && !self@.contains_key(session_id@),
            },
    {
        match self.sessions.get(session_id) {
            Some(session) => Ok(session),
            None => Err(SessionError::SessionNotFound),
        }
    }

    /// Takes the session with the given id out of the manager: a session
    /// that has ended, well or badly, is discarded whole.
    pub fn close_session(&mut self, session_id: &String) -> (r: Result<SigningSession, SessionError>)
        requires
            old(self).wf(),
        ensures
            final(self).wf(),
            final(self)@ == old(self)@.remove(session_id@),
            match r {
                Ok(session) => {
                    &&& old(self)@.contains_key(session_id@)
                    &&& old(self)@[session_id@] == session
                    &&& session.session_id@ == session_id@
                },
                Err(e) => e == SessionError::SessionNotFound && !old(self)@.contains_key(
                    session_id@,
                ),
            },
    {
        match self.sessions.remove(session_id) {
            Some(session) => Ok(session),
            None => Err(SessionError::SessionNotFound),
        }
    }
}

/// What became of an attempt to establish the aggregation context of a
/// participant of the peer-to-peer topology.
#[derive(Debug, Clone, Copy, PartialEq, Eq, Structural)]
pub enum SessionInit {
    /// A context is established already; it was left alone.
    AlreadyInitialized,
    /// The participant is not linked to all its peers yet.
    Waiting,
    /// The context was built and is established now.
    Initialized,
    /// No context could be built.
    Failed(AggregationError),
}

/// Whether `list` is the participant list of someone with identity `own`
/// linked to `peers`: in canonical order, with each peer once and the
/// participant itself once more.
pub open spec fn is_participant_list(list: Seq<Seq<u8>>, peers: Set<Seq<u8>>, own: Seq<u8>) -> bool {
    &&& canonically_ordered(list)
    &&& forall|id: Seq<u8>| #[trigger]
        list.to_multiset().count(id) == (if peers.contains(id) {
            1nat
        } else {
            0nat
        }) + (if id == own {
            1nat
        } else {
            0nat
        })
}

/// The participant list of someone with identity `own` linked to `peers`.
pub open spec fn participant_list(peers: Set<Seq<u8>>, own: Seq<u8>) -> Seq<Seq<u8>> {
    choose|list: Seq<Seq<u8>>| is_participant_list(list, peers, own)
}

/// There is only one participant list: participants that are linked to the
/// same peers arrive at the same list, and so at the same context, without
/// talking to one another.
pub proof fn lemma_participant_list_unique(
    a: Seq<Seq<u8>>,
    b: Seq<Seq<u8>>,
    peers: Set<Seq<u8>>,
    own: Seq<u8>,
)
    requires
        is_participant_list(a, peers, own),
        is_participant_list(b, peers, own),
    ensures
        a == b,
{
    crate::bytes::lemma_lex_total_ordering();
    assert forall|id: Seq<u8>| a.to_multiset().count(id) == b.to_multiset().count(id) by {
        assert(a.to_multiset().count(id) == (if peers.contains(id) {
            1nat
        } else {
            0nat
        }) + (if id == own {
            1nat
        } else {
            0nat
        }));
        assert(b.to_multiset().count(id) == (if peers.contains(id) {
            1nat
        } else {
            0nat
        }) + (if id == own {
            1nat
        } else {
            0nat
        }));
    }
    assert(a.to_multiset() =~= b.to_multiset());
    vstd::seq_lib::lemma_sorted_unique(a, b, crate::bytes::lex_order());
}

/// The canonical order of a listing of the peers, each once, followed by
/// the participant itself is the participant list.
pub proof fn lemma_participant_list(listing: Seq<Seq<u8>>, peers: Set<Seq<u8>>, own: Seq<u8>)
    requires
        listing.no_duplicates(),
        listing.to_set() == peers,
    ensures
        is_participant_list(canonical_order(listing.push(own)), peers, own),
        participant_list(peers, own) == canonical_order(listing.push(own)),
{
    broadcast use vstd::multiset::group_multiset_axioms;

    let all = listing.push(own);
    let list = canonical_order(all);
    lemma_canonical_order_sorts(all);
    listing.to_multiset_ensures();
    listing.lemma_multiset_has_no_duplicates();
    assert(all.to_multiset() =~= listing.to_multiset().insert(own));
    assert forall|id: Seq<u8>| #[trigger]
        list.to_multiset().count(id) == (if peers.contains(id) {
            1nat
        } else {
            0nat
        }) + (if id == own {
            1nat
        } else {
            0nat
        }) by {
        assert(listing.contains(id) <==> listing.to_multiset().count(id) > 0);
        assert(listing.contains(id) <==> peers.contains(id));
        if listing.to_multiset().count(id) > 0 {
            assert(listing.to_multiset().contains(id));
        }
    }
    assert(is_participant_list(list, peers, own));
    assert(is_participant_list(participant_list(peers, own), peers, own));
    lemma_participant_list_unique(participant_list(peers, own), list, peers, own);
}

/// Participants that know the same identities arrive at the same list,
/// whichever of the identities is their own, as long as none finds its own
/// identity among its peers' (where one does, its list holds an identity
/// twice, and no context is built from it).
pub proof fn lemma_participant_lists_converge(
    peers_a: Set<Seq<u8>>,
    own_a: Seq<u8>,
    peers_b: Set<Seq<u8>>,
    own_b: Seq<u8>,
)
    requires
        peers_a.insert(own_a) == peers_b.insert(own_b),
        !peers_a.contains(own_a),
        !peers_b.contains(own_b),
        exists|list: Seq<Seq<u8>>| is_participant_list(list, peers_a, own_a),
    ensures
        participant_list(peers_a, own_a) == participant_list(peers_b, own_b),
        context_of(participant_list(peers_a, own_a)) == context_of(
            participant_list(peers_b, own_b),
        ),
{
    let a = participant_list(peers_a, own_a);
    assert(is_participant_list(a, peers_a, own_a));
    assert forall|id: Seq<u8>| #[trigger]
        a.to_multiset().count(id) == (if peers_b.contains(id) {
            1nat
        } else {
            0nat
        }) + (if id == own_b {
            1nat
        } else {
            0nat
        }) by {
        assert(a.to_multiset().count(id) == (if peers_a.contains(id) {
            1nat
        } else {
            0nat
        }) + (if id == own_a {
            1nat
        } else {
            0nat
        }));
        assert(peers_a.insert(own_a).contains(id) == peers_b.insert(own_b).contains(id));
        assert(peers_a.insert(own_a).contains(id) == (peers_a.contains(id) || id == own_a));
        assert(peers_b.insert(own_b).contains(id) == (peers_b.contains(id) || id == own_b));
    }
    assert(is_participant_list(a, peers_b, own_b));
    let b = participant_list(peers_b, own_b);
    assert(is_participant_list(b, peers_b, own_b));
    lemma_participant_list_unique(a, b, peers_b, own_b);
}

/// A participant is on its own participant list.
pub proof fn lemma_own_listed(list: Seq<Seq<u8>>, peers: Set<Seq<u8>>, own: Seq<u8>)
    requires
        is_participant_list(list, peers, own),
    ensures
        list.contains(own),
{
    list.to_multiset_ensures();
    assert(list.to_multiset().count(own) > 0);
}

/// The participant list of someone with identity `our_public_key` linked to
/// `peers`.
pub fn participant_identities(peers: &PeerTable, our_public_key: &Identity) -> (r: Vec<Identity>)
    requires
        peers.wf(),
    ensures
        identity_views(r@) == participant_list(peers@.dom(), our_public_key@),
        is_participant_list(identity_views(r@), peers@.dom(), our_public_key@),
        r@.len() == peers@.dom().len() + 1,
{
    let mut pubkeys = peers.keys();
    let ghost listing = identity_views(pubkeys@);
    assert(listing =~= key_ids(pubkeys@));
    pubkeys.push(our_public_key.clone());
    assert(identity_views(pubkeys@) =~= listing.push(our_public_key@));
    let ordered = sort_identities(&pubkeys);
    proof {
        lemma_participant_list(listing, peers@.dom(), our_public_key@);
        lemma_canonical_order_sorts(listing.push(our_public_key@));
    }
    ordered
}

/// Builds the aggregation context of the participant list of someone with
/// identity `our_public_key` linked to `peers`, and establishes it. A failure
/// establishes nothing.
pub fn establish_context(
    peers: &PeerTable,
    our_public_key: &Identity,
    our_signing_session: &mut Option<Vec<u8>>,
) -> (r: SessionInit)
    requires
        peers.wf(),
        *old(our_signing_session) is None,
    ensures
        match context_of(participant_list(peers@.dom(), our_public_key@)) {
            Ok(context) => {
                &&& r == SessionInit::Initialized
                &&& *final(our_signing_session) matches Some(established)
                &&& established@ == context
                &&& context_size_of(context) == Some(peers@.dom().len() + 1)
                &&& aggregated_identity(context) is Some
            },
            Err(e) => {
                &&& r == SessionInit::Failed(e)
                &&& *final(our_signing_session) is None
            },
        },
{
    let ordered = participant_identities(peers, our_public_key);
    match build_context(&ordered) {
        Ok(context) => {
            *our_signing_session = Some(context);
            SessionInit::Initialized
        },
        Err(e) => SessionInit::Failed(e),
    }
}

/// Establishes the aggregation context of a participant of the
/// peer-to-peer topology, once it is linked to all but one of the
/// `expected_signers`: the identities of the peers and its own are put in
/// canonical order, and the context of that list is built. A context that
/// is established already is never built again, and a failure establishes
/// nothing.
pub fn initialize_signing_session(
    peers: &PeerTable,
    our_public_key: &Identity,
    expected_signers: usize,
    our_signing_session: &mut Option<Vec<u8>>,
) -> (r: SessionInit)
    requires
        peers.wf(),
    ensures
        match *old(our_signing_session) {
            Some(_) => {
                &&& r == SessionInit::AlreadyInitialized
                &&& *final(our_signing_session) == *old(our_signing_session)
            },
            None => if peers@.dom().len() + 1 != expected_signers {
                &&& r == SessionInit::Waiting
                &&& *final(our_signing_session) is None
            } else {
                match context_of(participant_list(peers@.dom(), our_public_key@)) {
                    Ok(context) => {
                        &&& r == SessionInit::Initialized
                        &&& *final(our_signing_session) matches Some(established)
                        &&& established@ == context
                        &&& context_size_of(context) == Some(peers@.dom().len() + 1)
                        &&& aggregated_identity(context) is Some
                    },
                    Err(e) => {
                        &&& r == SessionInit::Failed(e)
                        &&& *final(our_signing_session) is None
                    },
                }
            },
        },
{
    if our_signing_session.is_some() {
        return SessionInit::AlreadyInitialized;
    }
    let count = peers.len();
    if expected_signers == 0 || count != expected_signers - 1 {
        return SessionInit::Waiting;
    }
    establish_context(peers, our_public_key, our_signing_session)
}

} // verus!
