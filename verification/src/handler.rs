//! What a participant of the peer-to-peer topology does about each message
//! that arrives on a stream. Peers are told apart by the port that each
//! message names as its sender: the identity that a port has announced is
//! the identity under which its nonce and its partial signature are taken.

use vstd::prelude::*;
use crate::bytes::bytes_copy;
use crate::crypto::{fresh_nonce_seed, hex_encode, public_key_of_text};
use crate::hexcode::hex_encoding;
use crate::identity::{identity_views, Identity, SigningKey};
use crate::message::{Message, MessageType};
use crate::order::{canonical_order, sort_identities};
use crate::round::{
    fresh_model,
    generate_step,
    take_nonce_step,
    take_partial_signature_step,
    RoundError,
    RoundModel,
    RoundPhase,
    SignerRound,
};
use crate::session::{build_context, context_of, AggregationError};
use crate::state::SharedState;

verus! {

/// Why a message was turned down.
#[derive(Debug, Clone, Copy, PartialEq, Eq, Structural)]
pub enum StreamError {
    /// The text spells no public key.
    InvalidPublicKey,
    /// No aggregation context could be built.
    Aggregation(AggregationError),
    /// A step of the participant's round failed.
    Round(RoundError),
    /// No round is under way: the identities of the peers are not all in.
    NoRound,
    /// The sender has announced no identity.
    UnknownSender,
}

/// The seconds that pass between two attempts to reach a peer.
pub const RETRY_DELAY_SECONDS: u64 = 2;

/// What follows an attempt to reach a peer.
#[derive(Debug, Clone, Copy, PartialEq, Eq, Structural)]
pub enum ConnectStep {
    /// The peer is reached: announce the identity and read the stream.
    Proceed,
    /// The peer is not there yet: wait, then try again.
    RetryAfter { seconds: u64 },
}

/// Decides what follows an attempt to reach a peer. A peer that cannot be
/// reached is no failure: the attempt is repeated after a fixed delay, for
/// as long as it takes.
pub fn try_connect_to_peer(connected: bool) -> (r: ConnectStep)
    ensures
        r == if connected {
            ConnectStep::Proceed
        } else {
            ConnectStep::RetryAfter { seconds: RETRY_DELAY_SECONDS }
        },
{
    if connected {
        ConnectStep::Proceed
    } else {
        ConnectStep::RetryAfter { seconds: RETRY_DELAY_SECONDS }
    }
}

/// The message by which the participant that opened a stream announces its
/// identity.
pub fn announce(own_public_key: &Identity, own_port: u16) -> (r: Message)
    ensures
        r.sender_port == own_port,
        r.message_type matches MessageType::PublicKey(text) && text@ == hex_encoding(
            own_public_key@,
        ),
{
    Message {
        sender_port: own_port,
        message_type: MessageType::PublicKey(hex_encode(own_public_key.as_bytes())),
    }
}

/// Whether `i` is the first place at which `x` stands in `s`.
pub open spec fn is_first<T>(s: Seq<T>, x: T, i: int) -> bool {
    &&& 0 <= i < s.len()
    &&& s[i] == x
    &&& forall|k: int| 0 <= k < i ==> s[k] != x
}

/// The first place at which `x` stands in `s`, if it stands in it.
pub open spec fn first_of<T>(s: Seq<T>, x: T) -> Option<int> {
    if exists|i: int| is_first(s, x, i) {
        Some(choose|i: int| is_first(s, x, i))
    } else {
        None
    }
}

/// There is only one first place.
pub proof fn lemma_first_of<T>(s: Seq<T>, x: T, i: int)
    requires
        is_first(s, x, i),
    ensures
        first_of(s, x) == Some(i),
{
    let c = choose|c: int| is_first(s, x, c);
    assert(is_first(s, x, c));
    if c < i {
        assert(s[c] != x);
    }
    if i < c {
        assert(s[i] != x);
    }
}

/// What is not in a sequence has no first place in it.
pub proof fn lemma_first_of_none<T>(s: Seq<T>)
    ensures
        forall|x: T| (forall|k: int| 0 <= k < s.len() ==> s[k] != x) ==> first_of(s, x) is None,
{
    assert forall|x: T| (forall|k: int| 0 <= k < s.len() ==> s[k] != x) implies first_of(
        s,
        x,
    ) is None by {
        if exists|i: int| is_first(s, x, i) {
            let i = choose|i: int| is_first(s, x, i);
            assert(s[i] == x);
        }
    }
}

/// The first place of an identity in a list.
pub fn first_identity(list: &Vec<Identity>, identity: &Identity) -> (r: Option<usize>)
    ensures
        match r {
            Some(i) => first_of(identity_views(list@), identity@) == Some(i as int),
            None => first_of(identity_views(list@), identity@) is None,
        },
{
    let mut i: usize = 0;
    while i < list.len()
        invariant
            i <= list@.len(),
            forall|k: int| 0 <= k < i ==> identity_views(list@)[k] != identity@,
        decreases list@.len() - i,
    {
        if list[i].same_as(identity) {
            proof {
                lemma_first_of(identity_views(list@), identity@, i as int);
            }
            return Some(i);
        }
        i += 1;
    }
    proof {
        lemma_first_of_none(identity_views(list@));
    }
    None
}

/// The first place of a port among the first `limit` ports of a list.
pub fn first_port(ports: &Vec<u16>, port: u16, limit: usize) -> (r: Option<usize>)
    requires
        limit <= ports@.len(),
    ensures
        match r {
            Some(i) => first_of(ports@.take(limit as int), port) == Some(i as int),
            None => first_of(ports@.take(limit as int), port) is None,
        },
{
    let mut i: usize = 0;
    while i < limit
        invariant
            i <= limit <= ports@.len(),
            forall|k: int| 0 <= k < i ==> ports@.take(limit as int)[k] != port,
        decreases limit - i,
    {
        if ports[i] == port {
            proof {
                lemma_first_of(ports@.take(limit as int), port, i as int);
            }
            return Some(i);
        }
        i += 1;
    }
    proof {
        lemma_first_of_none(ports@.take(limit as int));
    }
    None
}

/// The participants once the identities of all peers are in: the peers'
/// identities and the participant's own, in canonical order.
pub open spec fn gathered_participants(state: SharedState) -> Seq<Seq<u8>> {
    canonical_order(identity_views(state.public_keys@).push(state.own_public_key@))
}

/// The participants in canonical order.
pub fn gather_participants(state: &SharedState) -> (r: Vec<Identity>)
    ensures
        identity_views(r@) == gathered_participants(*state),
{
    let mut pubkeys: Vec<Identity> = Vec::new();
    let mut i: usize = 0;
    while i < state.public_keys.len()
        invariant
            i <= state.public_keys@.len(),
            pubkeys@.len() == i,
            forall|k: int| 0 <= k < i ==> (#[trigger] pubkeys@[k])@ == state.public_keys@[k]@,
        decreases state.public_keys@.len() - i,
    {
        pubkeys.push(state.public_keys[i].clone());
        i += 1;
    }
    pubkeys.push(state.own_public_key.clone());
    assert(identity_views(pubkeys@) =~= identity_views(state.public_keys@).push(
        state.own_public_key@,
    ));
    sort_identities(&pubkeys)
}

/// The number of identities that were announced with their sender.
pub open spec fn announced(state: SharedState) -> int {
    if state.senders@.len() <= state.public_keys@.len() {
        state.senders@.len() as int
    } else {
        state.public_keys@.len() as int
    }
}

/// The index, among the participants in canonical order, of the identity
/// that the sender at `port` has announced; `None` where it has announced
/// none.
pub open spec fn sender_index(state: SharedState, port: u16) -> Option<usize> {
    match first_of(state.senders@.take(announced(state)), port) {
        None => None,
        Some(k) => match first_of(gathered_participants(state), state.public_keys@[k]@) {
            None => None,
            Some(i) => Some(i as usize),
        },
    }
}

/// The index of the sender at `port` among the participants.
pub fn sender_place(state: &SharedState, port: u16) -> (r: Option<usize>)
    ensures
        r == sender_index(*state, port),
{
    let limit = if state.senders.len() <= state.public_keys.len() {
        state.senders.len()
    } else {
        state.public_keys.len()
    };
    let k = match first_port(&state.senders, port, limit) {
        Some(k) => k,
        None => {
            return None;
        },
    };
    let participants = gather_participants(state);
    assert(identity_views(state.public_keys@)[k as int] == state.public_keys@[k as int]@);
    first_identity(&participants, &state.public_keys[k])
}

/// Whether everything but the identities, their senders, the nonces handed
/// out and the round is as in `before`.
pub open spec fn same_frame(before: SharedState, after: SharedState) -> bool {
    &&& after.own_public_key == before.own_public_key
    &&& after.num_of_signers == before.num_of_signers
    &&& after.partial_signatures == before.partial_signatures
    &&& after.active_connections == before.active_connections
}

/// What is left alone by whatever does not set up the round.
pub open spec fn round_untouched(before: SharedState, after: SharedState) -> bool {
    &&& after.nonces == before.nonces
    &&& after.first_round == before.first_round
}

/// Whether the identity `peer` is held already: it is the participant's own,
/// or a peer has announced it before.
pub open spec fn is_held(state: SharedState, peer: Seq<u8>) -> bool {
    peer == state.own_public_key@ || identity_views(state.public_keys@).contains(peer)
}

/// What taking in the identity of a peer, spelled in hexadecimal, leaves
/// behind, given the seed for the round that may follow. An identity that is
/// held already changes nothing and counts for nothing. A new identity is
/// kept with the port of its sender. When it is the last one missing, all
/// identities are put in canonical order, the aggregation context of that
/// order is built, the round is set up with the seed and that context at the
/// participant's own place in the order, its public nonce is recorded, and
/// the message that carries the nonce to every peer is returned. Until then,
/// and on any failure, nothing is sent.
pub open spec fn identity_taken(
    before: SharedState,
    key: Seq<char>,
    sender_port: u16,
    own_port: u16,
    secret: Seq<u8>,
    message: Seq<u8>,
    seed: Seq<u8>,
    after: SharedState,
    r: Result<Option<Message>, StreamError>,
) -> bool {
    &&& same_frame(before, after)
    &&& match public_key_of_text(key) {
        None => {
            &&& r matches Err(e)
            &&& e == StreamError::InvalidPublicKey
            &&& after.public_keys == before.public_keys
            &&& after.senders == before.senders
            &&& round_untouched(before, after)
        },
        Some(peer) => if is_held(before, peer) {
            &&& r matches Ok(None)
            &&& after.public_keys == before.public_keys
            &&& after.senders == before.senders
            &&& round_untouched(before, after)
        } else {
            &&& identity_views(after.public_keys@) == identity_views(before.public_keys@).push(peer)
            &&& after.senders@ == before.senders@.push(sender_port)
            &&& if after.public_keys@.len() != after.num_of_signers - 1 {
                &&& r matches Ok(None)
                &&& round_untouched(before, after)
            } else {
                match context_of(gathered_participants(after)) {
                    Err(failure) => {
                        &&& r matches Err(e)
                        &&& e == StreamError::Aggregation(failure)
                        &&& round_untouched(before, after)
                    },
                    Ok(context) => match first_of(
                        gathered_participants(after),
                        after.own_public_key@,
                    ) {
                        None => false,
                        Some(place) => match generate_step(
                            fresh_model(seed),
                            context,
                            place as usize,
                            secret,
                            message,
                        ) {
                            Err(e) => {
                                &&& r matches Err(x)
                                &&& x == StreamError::Round(e)
                                &&& round_untouched(before, after)
                            },
                            Ok(m) => {
                                &&& r matches Ok(Some(sent))
                                &&& sent.sender_port == own_port
                                &&& sent.message_type matches MessageType::PublicNonce(nonce)
                                &&& m.nonces[m.index as int] == Some(nonce@)
                                &&& after.first_round matches Some(round)
                                &&& round@ == m
                                &&& round.wf()
                                &&& after.nonces@.len() == before.nonces@.len() + 1
                                &&& after.nonces@.drop_last() == before.nonces@
                                &&& after.nonces@.last()@ == nonce@
                            },
                        },
                    },
                }
            }
        },
    }
}

/// Takes in the identity of a peer, spelled in hexadecimal and announced by
/// the sender at `sender_port`, with the given seed for the round that may
/// follow.
pub fn handle_public_key(
    key: &str,
    sender_port: u16,
    shared_state: &mut SharedState,
    own_port: u16,
    secret_key: &SigningKey,
    message: &Vec<u8>,
    seed: [u8; 32],
) -> (r: Result<Option<Message>, StreamError>)
    ensures
        identity_taken(
            *old(shared_state),
            key@,
            sender_port,
            own_port,
            secret_key@,
            message@,
            seed@,
            *final(shared_state),
            r,
        ),
{
    let public_key = match Identity::from_text(key) {
        Some(public_key) => public_key,
        None => {
            return Err(StreamError::InvalidPublicKey);
        },
    };
    if public_key.same_as(&shared_state.own_public_key) {
        return Ok(None);
    }
    proof {
        lemma_first_of_none(identity_views(shared_state.public_keys@));
    }
    if first_identity(&shared_state.public_keys, &public_key).is_some() {
        assert(identity_views(shared_state.public_keys@).contains(public_key@)) by {
            let i = first_of(identity_views(shared_state.public_keys@), public_key@)->0;
            assert(is_first(identity_views(shared_state.public_keys@), public_key@, i));
        }
        return Ok(None);
    }
    assert(!identity_views(shared_state.public_keys@).contains(public_key@)) by {
        if identity_views(shared_state.public_keys@).contains(public_key@) {
            let views = identity_views(shared_state.public_keys@);
            let k = choose|k: int| 0 <= k < views.len() && views[k] == public_key@;
            lemma_some_first(views, public_key@, k);
        }
    }
    let ghost before = identity_views(shared_state.public_keys@);
    shared_state.add_public_key(public_key);
    shared_state.senders.push(sender_port);
    assert(identity_views(shared_state.public_keys@) =~= before.push(public_key@));
    if !shared_state.public_keys_received() {
        return Ok(None);
    }
    let ordered = gather_participants(shared_state);
    let context = match build_context(&ordered) {
        Ok(context) => context,
        Err(e) => {
            return Err(StreamError::Aggregation(e));
        },
    };
    let index = match first_identity(&ordered, &shared_state.own_public_key) {
        Some(index) => index,
        None => {
            proof {
                lemma_own_gathered(*shared_state);
            }
            return Ok(None);
        },
    };
    let round = match SignerRound::fresh(seed).generate(
        &context,
        index,
        secret_key,
        bytes_copy(message),
    ) {
        Ok(round) => round,
        Err(e) => {
            return Err(StreamError::Round(e));
        },
    };
    let public_nonce = match round.public_nonce() {
        Some(nonce) => bytes_copy(nonce),
        None => Vec::new(),
    };
    let ghost earlier = shared_state.nonces@;
    shared_state.add_nonce(bytes_copy(&public_nonce));
    assert(shared_state.nonces@.drop_last() =~= earlier);
    shared_state.first_round = Some(round);
    Ok(Some(Message { sender_port: own_port, message_type: MessageType::PublicNonce(public_nonce) }))
}

/// What stands in a sequence has a first place in it.
pub proof fn lemma_some_first<T>(s: Seq<T>, x: T, k: int)
    requires
        0 <= k < s.len(),
        s[k] == x,
    ensures
        first_of(s, x) is Some,
    decreases k,
{
    if forall|j: int| 0 <= j < k ==> s[j] != x {
        assert(is_first(s, x, k));
    } else {
        let j = choose|j: int| 0 <= j < k && s[j] == x;
        lemma_some_first(s, x, j);
    }
}

/// The participant itself is among the participants.
pub proof fn lemma_own_gathered(state: SharedState)
    ensures
        first_of(gathered_participants(state), state.own_public_key@) is Some,
{
    let all = identity_views(state.public_keys@).push(state.own_public_key@);
    let own = state.own_public_key@;
    crate::order::lemma_canonical_order_sorts(all);
    all.to_multiset_ensures();
    canonical_order(all).to_multiset_ensures();
    assert(all[all.len() - 1] == own);
    assert(all.contains(own));
    assert(all.to_multiset().count(own) > 0);
    assert(canonical_order(all).to_multiset().count(own) > 0);
    assert(canonical_order(all).contains(own));
    let list = canonical_order(all);
    let k = choose|k: int| 0 <= k < list.len() && list[k] == own;
    lemma_some_first(list, own, k);
}

/// What the reply is to a contribution that the round has taken in: the
/// participant's own next contribution, when the round has just made it.
pub open spec fn reply_of(m: RoundModel, own_port: u16, nonce: bool, sent: Option<Message>) -> bool {
    if nonce && m.phase == RoundPhase::PartialSigReady {
        &&& sent matches Some(message)
        &&& message.sender_port == own_port
        &&& message.message_type matches MessageType::PartialSignature(signature)
        &&& m.partial_signatures[m.index as int] == Some(signature@)
    } else {
        sent is None
    }
}

/// What a public nonce (`nonce` true) or a partial signature of a peer
/// leaves behind. Without a round, and from a sender that has announced no
/// identity, nothing changes. Otherwise the contribution is taken into the
/// round under the index of its sender's identity: once per sender, and
/// only the last one missing moves the round on. A nonce that completes the
/// round's nonces is answered with the participant's partial signature for
/// every peer. A failure ends the round.
pub open spec fn contribution_taken(
    before: SharedState,
    sender_port: u16,
    own_port: u16,
    secret: Seq<u8>,
    contribution: Seq<u8>,
    nonce: bool,
    after: SharedState,
    r: Result<Option<Message>, StreamError>,
) -> bool {
    &&& same_frame(before, after)
    &&& after.public_keys == before.public_keys
    &&& after.senders == before.senders
    &&& after.nonces == before.nonces
    &&& match before.first_round {
        None => {
            &&& r matches Err(e)
            &&& e == StreamError::NoRound
            &&& after.first_round is None
        },
        Some(round) => match sender_index(before, sender_port) {
            None => {
                &&& r matches Err(e)
                &&& e == StreamError::UnknownSender
                &&& after.first_round == before.first_round
            },
            Some(index) => match (if nonce {
                take_nonce_step(round@, index, contribution, secret)
            } else {
                take_partial_signature_step(round@, index, contribution)
            }) {
                Err(e) => {
                    &&& r matches Err(x)
                    &&& x == StreamError::Round(e)
                    &&& after.first_round is None
                },
                Ok(m) => {
                    &&& after.first_round matches Some(next)
                    &&& next@ == m
                    &&& next.wf()
                    &&& r matches Ok(sent)
                    &&& reply_of(m, own_port, nonce, sent)
                },
            },
        },
    }
}

/// Takes a public nonce (`nonce` true) or a partial signature of the sender
/// at `sender_port` into the round.
pub fn handle_contribution(
    shared_state: &mut SharedState,
    sender_port: u16,
    own_port: u16,
    secret_key: &SigningKey,
    contribution: Vec<u8>,
    nonce: bool,
) -> (r: Result<Option<Message>, StreamError>)
    requires
        old(shared_state).first_round matches Some(round) ==> round.wf(),
    ensures
        contribution_taken(
            *old(shared_state),
            sender_port,
            own_port,
            secret_key@,
            contribution@,
            nonce,
            *final(shared_state),
            r,
        ),
        final(shared_state).first_round matches Some(round) ==> round.wf(),
{
    if shared_state.first_round.is_none() {
        return Err(StreamError::NoRound);
    }
    let index = match sender_place(shared_state, sender_port) {
        Some(index) => index,
        None => {
            return Err(StreamError::UnknownSender);
        },
    };
    let round = match shared_state.first_round.take() {
        Some(round) => round,
        None => {
            return Err(StreamError::NoRound);
        },
    };
    let taken = if nonce {
        round.take_nonce(index, contribution, secret_key)
    } else {
        round.take_partial_signature(index, contribution)
    };
    match taken {
        Err(e) => Err(StreamError::Round(e)),
        Ok(next) => {
            let sent = if nonce && next.current_phase() == RoundPhase::PartialSigReady {
                match next.partial_signature() {
                    Some(signature) => Some(
                        Message {
                            sender_port: own_port,
                            message_type: MessageType::PartialSignature(bytes_copy(signature)),
                        },
                    ),
                    None => None,
                }
            } else {
                None
            };
            shared_state.first_round = Some(next);
            Ok(sent)
        },
    }
}

/// Decides about a message that arrived on a stream. The identity of a peer
/// is taken in, with a fresh seed for the round that may follow; a public
/// nonce and a partial signature are taken into the round under the identity
/// of their sender. Returns the message to send to every peer, if there is
/// one.
pub fn handle_stream(
    received: Message,
    shared_state: &mut SharedState,
    own_port: u16,
    secret_key: &SigningKey,
    message: &Vec<u8>,
) -> (r: Result<Option<Message>, StreamError>)
    requires
        old(shared_state).first_round matches Some(round) ==> round.wf(),
    ensures
        final(shared_state).first_round matches Some(round) ==> round.wf(),
        match received.message_type {
            MessageType::PublicKey(key) => exists|seed: Seq<u8>| #[trigger]
                identity_taken(
                    *old(shared_state),
                    key@,
                    received.sender_port,
                    own_port,
                    secret_key@,
                    message@,
                    seed,
                    *final(shared_state),
                    r,
                ),
            MessageType::PublicNonce(nonce) => contribution_taken(
                *old(shared_state),
                received.sender_port,
                own_port,
                secret_key@,
                nonce@,
                true,
                *final(shared_state),
                r,
            ),
            MessageType::PartialSignature(signature) => contribution_taken(
                *old(shared_state),
                received.sender_port,
                own_port,
                secret_key@,
                signature@,
                false,
                *final(shared_state),
                r,
            ),
        },
{
    match received.message_type {
        MessageType::PublicKey(key) => handle_public_key(
            key.as_str(),
            received.sender_port,
            shared_state,
            own_port,
            secret_key,
            message,
            fresh_nonce_seed(),
        ),
        MessageType::PublicNonce(nonce) => handle_contribution(
            shared_state,
            received.sender_port,
            own_port,
            secret_key,
            nonce,
            true,
        ),
        MessageType::PartialSignature(signature) => handle_contribution(
            shared_state,
            received.sender_port,
            own_port,
            secret_key,
            signature,
            false,
        ),
    }
}

} // verus!
