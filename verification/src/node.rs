//! A participant of the peer-to-peer topology: the peers it is linked to,
//! each under its public identity, and what it decides when a link is made
//! or lost.

use vstd::prelude::*;
use crate::bytes::bytes_copy;
use crate::connection::{handle_messages, Frame, MessageStep};
use crate::consistency::{check_signature, ConsistencyError};
use crate::crypto::{
    aggregated_identity,
    aggregated_pubkey,
    context_size_of,
    fresh_nonce_seed,
    public_key_of_secret,
    signature_verifies,
};
use crate::identity::{identity_views, Identity, SigningKey};
use crate::round::{
    fresh_model,
    generate_step,
    lemma_steps_keep_wf,
    take_nonce_step,
    take_partial_signature_step,
    RoundError,
    RoundPhase,
    SignerRound,
};
use crate::table::Table;
use crate::session::{
    context_of,
    establish_context,
    participant_identities,
    participant_list,
    AggregationError,
    SessionInit,
};

verus! {

/// How a link to a peer came about. The channel itself stays with whoever
/// opened it.
#[derive(Debug, Clone, Copy, PartialEq, Eq, Structural)]
pub enum PeerConnection {
    /// The peer connected to this participant.
    Server,
    /// This participant connected to the peer.
    Client,
}

/// The linked peers: how the link to each came about, by the identity of
/// the peer.
pub type PeerTable = Table<Identity, PeerConnection>;

/// Why a step of a participant of the peer-to-peer topology failed.
#[derive(Debug, Clone, Copy, PartialEq, Eq, Structural)]
pub enum NodeError {
    /// No aggregation context is established yet.
    NotInitialized,
    /// No round is under way.
    NoRound,
    /// The sender is not among the participants.
    UnknownSender,
    /// A step of the round failed.
    Round(RoundError),
    /// The final signature was not accepted.
    Consistency(ConsistencyError),
}

/// The position of `identity` in `list`.
pub fn position_of(list: &Vec<Identity>, identity: &Identity) -> (r: Option<usize>)
    ensures
        match r {
            Some(i) => i < list@.len() && list@[i as int]@ == identity@ && forall|k: int|
                0 <= k < i ==> (#[trigger] list@[k])@ != identity@,
            None => !identity_views(list@).contains(identity@),
        },
{
    let mut i: usize = 0;
    while i < list.len()
        invariant
            i <= list@.len(),
            forall|k: int| 0 <= k < i ==> (#[trigger] list@[k])@ != identity@,
        decreases list@.len() - i,
    {
        if list[i].same_as(identity) {
            return Some(i);
        }
        i += 1;
    }
    assert(!identity_views(list@).contains(identity@)) by {
        if identity_views(list@).contains(identity@) {
            let k = choose|k: int|
                0 <= k < identity_views(list@).len() && identity_views(list@)[k] == identity@;
            assert(list@[k]@ == identity@);
        }
    }
    None
}

/// The place of `identity` in `list`.
pub open spec fn place_of(list: Seq<Seq<u8>>, identity: Seq<u8>) -> int {
    choose|i: int| 0 <= i < list.len() && list[i] == identity
}

/// What starting a round on `message` with the given seed leaves behind.
/// Without an established context there is no round. Otherwise the round is
/// made at the participant's place among the participants, and takes the
/// place of any round under way; its public nonce is returned. A failure
/// leaves no round.
pub open spec fn round_begun(
    before: SignerNode,
    message: Seq<u8>,
    seed: Seq<u8>,
    after: SignerNode,
    r: Result<Vec<u8>, NodeError>,
) -> bool {
    &&& after.same_links(before)
    &&& match before.session() {
        None => {
            &&& r matches Err(e)
            &&& e == NodeError::NotInitialized
            &&& after.round() is None
        },
        Some(context) => match generate_step(
            fresh_model(seed),
            context,
            place_of(before.participants(), before.own()) as usize,
            before.secret(),
            message,
        ) {
            Err(e) => {
                &&& r matches Err(x)
                &&& x == NodeError::Round(e)
                &&& after.round() is None
            },
            Ok(m) => {
                &&& r matches Ok(nonce)
                &&& m.nonces[m.index as int] == Some(nonce@)
                &&& after.round() matches Some(round)
                &&& round@ == m
            },
        },
    }
}

/// What a contribution leaves behind that arrives when no round is under
/// way, or from someone who is not among the participants: nothing changes.
pub open spec fn turned_away(
    before: SignerNode,
    sender: Seq<u8>,
    after: SignerNode,
    r: Result<Option<Vec<u8>>, NodeError>,
) -> Option<bool> {
    if before.round() is None {
        Some(
            {
                &&& r matches Err(e)
                &&& e == NodeError::NoRound
                &&& after.round() is None
            },
        )
    } else if !before.participants().contains(sender) {
        Some(
            {
                &&& r matches Err(e)
                &&& e == NodeError::UnknownSender
                &&& after.round() == before.round()
            },
        )
    } else {
        None
    }
}

/// What the public nonce of a peer leaves behind. When it is the last one
/// missing, the participant has signed, and its partial signature is
/// returned. A failure ends the round.
pub open spec fn nonce_received(
    before: SignerNode,
    sender: Seq<u8>,
    nonce: Seq<u8>,
    after: SignerNode,
    r: Result<Option<Vec<u8>>, NodeError>,
) -> bool {
    &&& after.same_links(before)
    &&& match turned_away(before, sender, after, r) {
        Some(holds) => holds,
        None => match take_nonce_step(
            before.round()->0@,
            place_of(before.participants(), sender) as usize,
            nonce,
            before.secret(),
        ) {
            Err(e) => {
                &&& r matches Err(x)
                &&& x == NodeError::Round(e)
                &&& after.round() is None
            },
            Ok(m) => {
                &&& after.round() matches Some(round)
                &&& round@ == m
                &&& r matches Ok(reply)
                &&& match reply {
                    Some(signature) => m.phase == RoundPhase::PartialSigReady
                        && m.partial_signatures[m.index as int] == Some(signature@),
                    None => m.phase != RoundPhase::PartialSigReady,
                }
            },
        },
    }
}

/// What the partial signature of a peer leaves behind. When it is the last
/// one missing, the participant has finalized; the final signature is
/// returned if it verifies on the round's message under the aggregated
/// identity of the context, and the round ends otherwise. Any other failure
/// ends the round too.
pub open spec fn partial_signature_received(
    before: SignerNode,
    sender: Seq<u8>,
    signature: Seq<u8>,
    after: SignerNode,
    r: Result<Option<Vec<u8>>, NodeError>,
) -> bool {
    &&& after.same_links(before)
    &&& match turned_away(before, sender, after, r) {
        Some(holds) => holds,
        None => match take_partial_signature_step(
            before.round()->0@,
            place_of(before.participants(), sender) as usize,
            signature,
        ) {
            Err(e) => {
                &&& r matches Err(x)
                &&& x == NodeError::Round(e)
                &&& after.round() is None
            },
            Ok(m) => if m.phase != RoundPhase::Finalized {
                &&& after.round() matches Some(round)
                &&& round@ == m
                &&& r matches Ok(None)
            } else if aggregated_identity(before.session()->0) matches Some(identity)
                && signature_verifies(identity, m.final_signature->0, m.message) {
                &&& after.round() matches Some(round)
                &&& round@ == m
                &&& r matches Ok(Some(accepted))
                &&& m.final_signature == Some(accepted@)
            } else {
                &&& r matches Err(x)
                &&& x == NodeError::Consistency(ConsistencyError::InvalidSignature)
                &&& after.round() is None
            },
        },
    }
}

/// The ports of `discovery_ports` other than `port`, in the same order.
pub open spec fn other_ports(discovery_ports: Seq<u16>, port: u16) -> Seq<u16>
    decreases discovery_ports.len(),
{
    if discovery_ports.len() == 0 {
        discovery_ports
    } else {
        let before = other_ports(discovery_ports.drop_last(), port);
        if discovery_ports.last() != port {
            before.push(discovery_ports.last())
        } else {
            before
        }
    }
}

/// A participant of the peer-to-peer topology.
pub struct SignerNode {
    port: u16,
    secret_key: SigningKey,
    public_key: Identity,
    peers: PeerTable,
    discovery_ports: Vec<u16>,
    signing_session: Option<Vec<u8>>,
    participants: Vec<Identity>,
    round: Option<SignerRound>,
}

impl SignerNode {
    /// The port that the participant listens on.
    pub closed spec fn spec_port(&self) -> u16 {
        self.port
    }

    /// The participant's own identity.
    pub closed spec fn own(&self) -> Seq<u8> {
        self.public_key@
    }

    /// The participant's secret key.
    pub closed spec fn secret(&self) -> Seq<u8> {
        self.secret_key@
    }

    /// Whether everything but the round is as in `before`.
    pub open spec fn same_links(&self, before: SignerNode) -> bool {
        &&& self.spec_port() == before.spec_port()
        &&& self.own() == before.own()
        &&& self.secret() == before.secret()
        &&& self.spec_discovery_ports() == before.spec_discovery_ports()
        &&& self.peers() == before.peers()
        &&& self.session() == before.session()
        &&& self.participants() == before.participants()
    }

    /// The linked peers.
    pub closed spec fn peers(&self) -> Map<Seq<u8>, PeerConnection> {
        self.peers@
    }

    /// The ports at which peers are looked for.
    pub closed spec fn spec_discovery_ports(&self) -> Seq<u16> {
        self.discovery_ports@
    }

    /// The established aggregation context, if any.
    pub closed spec fn session(&self) -> Option<Seq<u8>> {
        match self.signing_session {
            Some(c) => Some(c@),
            None => None,
        }
    }

    /// The participants in canonical order, once a context is established.
    pub closed spec fn participants(&self) -> Seq<Seq<u8>> {
        identity_views(self.participants@)
    }

    /// The round under way, if any.
    pub closed spec fn round(&self) -> Option<SignerRound> {
        self.round
    }

    /// How many signers the participant expects: itself and one at each of
    /// the other ports.
    pub open spec fn expected_signers(&self) -> nat {
        other_ports(self.spec_discovery_ports(), self.spec_port()).len() + 1
    }

    /// What holds of every participant. An established context is that of
    /// the participants, which are all different and include the
    /// participant itself; a round under way is a round among them, in
    /// which the participant stands at its own place.
    pub closed spec fn wf(&self) -> bool {
        &&& self.peers.wf()
        &&& self.signing_session is None ==> self.round is None
        &&& self.public_key@ == public_key_of_secret(self.secret_key@)
        &&& self.signing_session matches Some(context) ==> {
            &&& context_of(self.participants()) == Ok::<Seq<u8>, AggregationError>(context@)
            &&& context_size_of(context@) == Some(self.participants().len())
            &&& self.participants().contains(self.own())
        }
        &&& self.round matches Some(round) ==> {
            &&& round.wf()
            &&& round.phase() != RoundPhase::Fresh
            &&& round.size() == self.participants@.len()
            &&& round.context() == self.signing_session->0@
            &&& self.participants()[round.index() as int] == self.own()
        }
    }

    /// In every participant, an established context is the context of the
    /// participants in their order, no participant occurs twice, the
    /// participant itself is one of them, and a round under way is among
    /// them all.
    pub proof fn lemma_wf(&self)
        requires
            self.wf(),
        ensures
            self.own() == public_key_of_secret(self.secret()),
            self.session() matches Some(context) ==> {
                &&& context_of(self.participants()) == Ok::<Seq<u8>, AggregationError>(context)
                &&& context_size_of(context) == Some(self.participants().len())
                &&& self.participants().no_duplicates()
                &&& self.participants().contains(self.own())
            },
            self.round() matches Some(round) ==> {
                &&& self.session() is Some
                &&& round.wf()
                &&& round.size() == self.participants().len()
                &&& Some(round.context()) == self.session()
                &&& self.participants()[round.index() as int] == self.own()
            },
    {
    }

    /// A participant on the given port with freshly drawn keys, which looks
    /// for its peers at the given ports. It has no peer, no context and no
    /// round yet.
    pub fn new(port: u16, discovery_ports: Vec<u16>) -> (r: SignerNode)
        ensures
            r.wf(),
            r.spec_port() == port,
            r.spec_discovery_ports() == discovery_ports@,
            r.peers() == Map::<Seq<u8>, PeerConnection>::empty(),
            r.session() is None,
            r.round() is None,
    {
        let secret_key = SigningKey::generate();
        let public_key = Identity::of_secret_key(&secret_key);
        SignerNode {
            port,
            secret_key,
            public_key,
            peers: PeerTable::new(),
            discovery_ports,
            signing_session: None,
            participants: Vec::new(),
            round: None,
        }
    }

    /// The port that the participant listens on.
    pub fn port(&self) -> (r: u16)
        ensures
            r == self.spec_port(),
    {
        self.port
    }

    /// The participant's own identity.
    pub fn public_key(&self) -> (r: &Identity)
        ensures
            r@ == self.own(),
    {
        &self.public_key
    }

    /// The established aggregation context, if any.
    pub fn signing_session(&self) -> (r: Option<&Vec<u8>>)
        ensures
            match r {
                Some(context) => self.session() == Some(context@),
                None => self.session() is None,
            },
    {
        match &self.signing_session {
            Some(context) => Some(context),
            None => None,
        }
    }

    /// The participants in canonical order, once a context is established.
    pub fn participant_identities(&self) -> (r: &Vec<Identity>)
        ensures
            identity_views(r@) == self.participants(),
    {
        &self.participants
    }

    /// The number of linked peers.
    pub fn peer_count(&self) -> (r: usize)
        requires
            self.wf(),
        ensures
            r == self.peers().dom().len(),
    {
        self.peers.len()
    }

    /// The round under way, if any.
    pub fn current_round(&self) -> (r: Option<&SignerRound>)
        ensures
            match r {
                Some(round) => self.round() == Some(*round),
                None => self.round() is None,
            },
    {
        match &self.round {
            Some(round) => Some(round),
            None => None,
        }
    }

    /// The ports at which the participant looks for peers: the configured
    /// ports but its own, in their order.
    pub fn discover_peers(&self) -> (r: Vec<u16>)
        ensures
            r@ == other_ports(self.spec_discovery_ports(), self.spec_port()),
    {
        let mut out: Vec<u16> = Vec::new();
        let mut i: usize = 0;
        assert(other_ports(self.discovery_ports@.take(0), self.port) =~= out@);
        while i < self.discovery_ports.len()
            invariant
                i <= self.discovery_ports@.len(),
                out@ == other_ports(self.discovery_ports@.take(i as int), self.port),
            decreases self.discovery_ports@.len() - i,
        {
            let candidate = self.discovery_ports[i];
            proof {
                let seen = self.discovery_ports@.take(i as int);
                let next = self.discovery_ports@.take(i + 1);
                assert(next.drop_last() =~= seen);
                assert(next.last() == candidate);
            }
            if candidate != self.port {
                out.push(candidate);
            }
            i += 1;
        }
        assert(self.discovery_ports@.take(self.discovery_ports@.len() as int)
            =~= self.discovery_ports@);
        out
    }

    /// Records the link to a peer that has announced its identity and, once
    /// the participant is linked to all its peers, establishes the
    /// aggregation context. A context that is established already is left
    /// alone, together with the participants and the round under way.
    pub fn peer_joined(&mut self, peer: Identity, connection: PeerConnection) -> (r: SessionInit)
        requires
            old(self).wf(),
        ensures
            final(self).wf(),
            final(self).spec_port() == old(self).spec_port(),
            final(self).own() == old(self).own(),
            final(self).secret() == old(self).secret(),
            final(self).spec_discovery_ports() == old(self).spec_discovery_ports(),
            final(self).peers() == old(self).peers().insert(peer@, connection),
            final(self).round() == old(self).round(),
            match old(self).session() {
                Some(_) => {
                    &&& r == SessionInit::AlreadyInitialized
                    &&& final(self).session() == old(self).session()
                    &&& final(self).participants() == old(self).participants()
                },
                None => if final(self).peers().dom().len() + 1 != final(self).expected_signers() {
                    &&& r == SessionInit::Waiting
                    &&& final(self).session() is None
                } else {
                    match context_of(participant_list(final(self).peers().dom(), final(self).own())) {
                        Ok(context) => {
                            &&& r == SessionInit::Initialized
                            &&& final(self).session() == Some(context)
                            &&& final(self).participants() == participant_list(
                                final(self).peers().dom(),
                                final(self).own(),
                            )
                        },
                        Err(e) => {
                            &&& r == SessionInit::Failed(e)
                            &&& final(self).session() is None
                        },
                    }
                },
            },
    {
        self.peers.insert(peer, connection);
        if self.signing_session.is_some() {
            return SessionInit::AlreadyInitialized;
        }
        if self.peers.len() != self.discover_peers().len() {
            return SessionInit::Waiting;
        }
        let outcome = establish_context(&self.peers, &self.public_key, &mut self.signing_session);
        match outcome {
            SessionInit::Initialized => {
                self.participants = participant_identities(&self.peers, &self.public_key);
                proof {
                    let list = self.participants();
                    crate::session::lemma_own_listed(list, self.peers@.dom(), self.own());
                }
            },
            _ => {},
        }
        outcome
    }

    /// Drops the link to a peer.
    pub fn peer_left(&mut self, peer: &Identity)
        requires
            old(self).wf(),
        ensures
            final(self).wf(),
            final(self).spec_port() == old(self).spec_port(),
            final(self).own() == old(self).own(),
            final(self).secret() == old(self).secret(),
            final(self).spec_discovery_ports() == old(self).spec_discovery_ports(),
            final(self).peers() == old(self).peers().remove(peer@),
            final(self).session() == old(self).session(),
            final(self).participants() == old(self).participants(),
            final(self).round() == old(self).round(),
    {
        let _ = self.peers.remove(peer);
    }

    /// Decides about what arrived on the link to a peer, or about its end
    /// where nothing did: a closed or ended link drops the peer, and a link
    /// to a peer that is not linked is not read.
    pub fn message_arrived(&mut self, peer: &Identity, arrived: Option<Frame>) -> (r: MessageStep)
        requires
            old(self).wf(),
        ensures
            final(self).wf(),
            final(self).spec_port() == old(self).spec_port(),
            final(self).own() == old(self).own(),
            final(self).secret() == old(self).secret(),
            final(self).spec_discovery_ports() == old(self).spec_discovery_ports(),
            final(self).session() == old(self).session(),
            final(self).participants() == old(self).participants(),
            final(self).round() == old(self).round(),
            if !old(self).peers().contains_key(peer@) {
                &&& r is Stop
                &&& final(self).peers() == old(self).peers()
            } else {
                match arrived {
                    Some(Frame::Text(text)) => {
                        &&& r matches MessageStep::Deliver(handed)
                        &&& handed == text
                        &&& final(self).peers() == old(self).peers()
                    },
                    Some(Frame::Other) => {
                        &&& r is Continue
                        &&& final(self).peers() == old(self).peers()
                    },
                    _ => {
                        &&& r is Stop
                        &&& final(self).peers() == old(self).peers().remove(peer@)
                    },
                }
            },
    {
        handle_messages(&mut self.peers, peer, arrived)
    }

    /// Starts a round on `message` with the given seed, in place of any
    /// round under way, and returns the participant's public nonce, which
    /// goes to every linked peer.
    pub fn begin_round(&mut self, message: Vec<u8>, seed: [u8; 32]) -> (r: Result<
        Vec<u8>,
        NodeError,
    >)
        requires
            old(self).wf(),
        ensures
            final(self).wf(),
            round_begun(*old(self), message@, seed@, *final(self), r),
    {
        self.round = None;
        let context = match &self.signing_session {
            None => {
                return Err(NodeError::NotInitialized);
            },
            Some(context) => context,
        };
        let index = match position_of(&self.participants, &self.public_key) {
            Some(index) => index,
            None => {
                return Err(NodeError::NotInitialized);
            },
        };
        proof {
            let list = self.participants();
            let own = self.own();
            assert(list[index as int] == own);
            assert(list.no_duplicates());
            let chosen = place_of(list, own);
            assert(0 <= chosen < list.len() && list[chosen] == own);
        }
        match SignerRound::fresh(seed).generate(context, index, &self.secret_key, message) {
            Err(e) => Err(NodeError::Round(e)),
            Ok(round) => {
                let nonce = match round.public_nonce() {
                    Some(nonce) => bytes_copy(nonce),
                    None => Vec::new(),
                };
                self.round = Some(round);
                Ok(nonce)
            },
        }
    }

    /// Starts a round on `message` with a freshly drawn seed, in place of
    /// any round under way, and returns the participant's public nonce. A
    /// seed is never used for two rounds.
    pub fn start_round(&mut self, message: Vec<u8>) -> (r: Result<Vec<u8>, NodeError>)
        requires
            old(self).wf(),
        ensures
            final(self).wf(),
            exists|seed: Seq<u8>| #[trigger] round_begun(*old(self), message@, seed, *final(self), r),
    {
        self.begin_round(message, fresh_nonce_seed())
    }

    /// The place of a sender among the participants, where a round is under
    /// way.
    fn place_of_sender(&self, sender: &Identity) -> (r: Option<usize>)
        requires
            self.wf(),
            self.round is Some,
        ensures
            match r {
                Some(index) => self.participants().contains(sender@) && index == place_of(
                    self.participants(),
                    sender@,
                ),
                None => !self.participants().contains(sender@),
            },
    {
        let found = position_of(&self.participants, sender);
        proof {
            if let Some(index) = found {
                let list = self.participants();
                assert(list[index as int] == sender@);
                assert(list.no_duplicates());
                let chosen = place_of(list, sender@);
                assert(0 <= chosen < list.len() && list[chosen] == sender@);
            }
        }
        found
    }

    /// Takes in the public nonce of a peer. When it is the last one missing,
    /// the participant signs and returns its partial signature, which goes
    /// to every linked peer. A sender that is not among the participants is
    /// turned away; any other failure ends the round.
    pub fn receive_nonce(&mut self, sender: &Identity, nonce: Vec<u8>) -> (r: Result<
        Option<Vec<u8>>,
        NodeError,
    >)
        requires
            old(self).wf(),
        ensures
            final(self).wf(),
            nonce_received(*old(self), sender@, nonce@, *final(self), r),
    {
        if self.round.is_none() {
            return Err(NodeError::NoRound);
        }
        let index = match self.place_of_sender(sender) {
            Some(index) => index,
            None => {
                return Err(NodeError::UnknownSender);
            },
        };
        let round = match self.round.take() {
            Some(round) => round,
            None => {
                return Err(NodeError::NoRound);
            },
        };
        proof {
            lemma_steps_keep_wf(
                round@,
                round.context(),
                index,
                self.secret(),
                round.message(),
                index,
                nonce@,
            );
        }
        match round.take_nonce(index, nonce, &self.secret_key) {
            Err(e) => Err(NodeError::Round(e)),
            Ok(next) => {
                let reply = match next.partial_signature() {
                    Some(signature) => Some(bytes_copy(signature)),
                    None => None,
                };
                self.round = Some(next);
                Ok(reply)
            },
        }
    }

    /// Takes in the partial signature of a peer. When it is the last one
    /// missing, the participant combines them all into the final signature,
    /// checks it against the aggregated identity and the message, and
    /// returns it. A sender that is not among the participants is turned
    /// away; any other failure ends the round.
    pub fn receive_partial_signature(&mut self, sender: &Identity, signature: Vec<u8>) -> (r:
        Result<Option<Vec<u8>>, NodeError>)
        requires
            old(self).wf(),
        ensures
            final(self).wf(),
            partial_signature_received(*old(self), sender@, signature@, *final(self), r),
    {
        if self.round.is_none() {
            return Err(NodeError::NoRound);
        }
        let index = match self.place_of_sender(sender) {
            Some(index) => index,
            None => {
                return Err(NodeError::UnknownSender);
            },
        };
        let round = match self.round.take() {
            Some(round) => round,
            None => {
                return Err(NodeError::NoRound);
            },
        };
        let next = match round.take_partial_signature(index, signature) {
            Err(e) => {
                return Err(NodeError::Round(e));
            },
            Ok(next) => next,
        };
        let final_signature = match next.signature() {
            Some(signature) => bytes_copy(signature),
            None => {
                self.round = Some(next);
                return Ok(None);
            },
        };
        let identity = match &self.signing_session {
            Some(context) => aggregated_pubkey(context),
            None => None,
        };
        let accepted = match identity {
            Some(identity) => check_signature(
                &final_signature,
                &identity,
                next.message_bytes(),
            ).is_ok(),
            None => false,
        };
        if !accepted {
            return Err(NodeError::Consistency(ConsistencyError::InvalidSignature));
        }
        self.round = Some(next);
        Ok(Some(final_signature))
    }
}

} // verus!
