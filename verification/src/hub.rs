//! The hub-mediated topology: one coordinating party takes all participants
//! through three full barriers. It asks each for its public nonce; once all
//! nonces are in, it sends each participant the nonces of the others and
//! collects the partial signatures; once those are in, it sends each the
//! partial signatures of the others and collects the final signatures; and
//! it accepts the outcome only if all final signatures are the same and
//! verify.
//!
//! The hub decides; its caller does the sending. Each step returns the
//! requests that are due next, and the caller reports each answer back.

use vstd::prelude::*;
use vstd::string::StrSliceExecFns;
use crate::barrier::{
    carries,
    collected,
    complete,
    lemma_delivery_size,
    peer_contributions,
    untouched,
    Barrier,
    ContributionError,
};
use crate::bytes::bytes_copy;
use crate::bytes::byte_views;
use crate::consistency::{consistency_verdict, verdict, ConsistencyError};
use crate::crypto::{aggregated_identity, aggregated_pubkey, signature_verifies, verify_signature};
use crate::error::CustomError;
use crate::registry::ParticipantRecord;
use crate::text::{decimal, numbered};
use crate::types::{
    GenerateNonceRequest,
    ReceiveNoncesRequest,
    ReceivePartialSignaturesRequest,
    SigningInitiateResponse,
    SigningSession,
};

verus! {

/// Where a session stands at the hub.
#[derive(Debug, Clone, Copy, PartialEq, Eq, Structural)]
pub enum HubPhase {
    /// Waiting for the public nonces.
    CollectingNonces,
    /// Waiting for the partial signatures.
    CollectingPartialSignatures,
    /// Waiting for the final signatures.
    CollectingFinalSignatures,
    /// The outcome was accepted.
    Completed,
}

/// Why a step of the hub failed. Every failure ends the session.
#[derive(Debug, Clone, Copy, PartialEq, Eq, Structural)]
pub enum HubError {
    /// The answer belongs to a phase that is not the current one.
    UnexpectedPhase { current: HubPhase },
    /// The participant at `index` sent what the barrier refuses.
    Contribution { phase: HubPhase, index: usize, reason: ContributionError },
    /// The participants' outcome was not accepted.
    Consistency(ConsistencyError),
    /// The participant at `index` could not be reached, or its answer could
    /// not be read.
    Transport { phase: HubPhase, index: usize },
}

/// A request that the hub wants sent.
#[allow(inconsistent_fields)]
pub enum HubAction {
    /// Ask the participant at `address` for its public nonce.
    RequestNonce { address: String, request: GenerateNonceRequest },
    /// Send the participant at `address` the nonces of all the others.
    SendNonces { address: String, request: ReceiveNoncesRequest },
    /// Send the participant at `address` the partial signatures of all the
    /// others.
    SendPartialSignatures { address: String, request: ReceivePartialSignaturesRequest },
}

/// The bytes of a message: its UTF-8 encoding.
pub open spec fn message_bytes(message: Seq<char>) -> Seq<u8> {
    vstd::utf8::encode_utf8(message)
}

/// The bytes of a message.
pub fn message_to_bytes(message: &String) -> (r: Vec<u8>)
    ensures
        r@ == message_bytes(message@),
{
    message.as_str().as_bytes_vec()
}

/// Whether `action` asks participant `p` for its nonce in session `s`.
pub open spec fn is_nonce_request(action: HubAction, s: SigningSession, p: ParticipantRecord) -> bool {
    &&& action matches HubAction::RequestNonce { address, request }
    &&& address@ == p.address@
    &&& request.session_id@ == s.session_id@
    &&& request.message@ == s.message@
    &&& request.key_agg_ctx@ == s.key_agg_ctx@
    &&& request.signer_index == p.index
}

/// Whether `action` sends participant `p` the nonces of all the others.
pub open spec fn is_nonce_delivery(
    action: HubAction,
    s: SigningSession,
    p: ParticipantRecord,
    nonces: Seq<Option<Seq<u8>>>,
) -> bool {
    &&& action matches HubAction::SendNonces { address, request }
    &&& address@ == p.address@
    &&& request.session_id@ == s.session_id@
    &&& carries(request.nonces@, peer_contributions(nonces, p.index as int))
}

/// Whether `action` sends participant `p` the partial signatures of all the
/// others.
pub open spec fn is_partial_signature_delivery(
    action: HubAction,
    s: SigningSession,
    p: ParticipantRecord,
    partial_signatures: Seq<Option<Seq<u8>>>,
) -> bool {
    &&& action matches HubAction::SendPartialSignatures { address, request }
    &&& address@ == p.address@
    &&& request.session_id@ == s.session_id@
    &&& carries(
        request.partial_signatures@,
        peer_contributions(partial_signatures, p.index as int),
    )
}

/// What the hub makes of the final signatures of a session: the aggregated
/// identity and the accepted signature, or why the outcome is not accepted.
pub open spec fn outcome(s: SigningSession, final_signatures: Seq<Seq<u8>>) -> Result<
    (Seq<u8>, Seq<u8>),
    ConsistencyError,
> {
    match aggregated_identity(s.key_agg_ctx@) {
        None => match verdict(final_signatures, false) {
            Ok(_) => Err(ConsistencyError::InvalidSignature),
            Err(e) => Err(e),
        },
        Some(identity) => match verdict(
            final_signatures,
            final_signatures.len() > 0 && signature_verifies(
                identity,
                final_signatures[0],
                message_bytes(s.message@),
            ),
        ) {
            Ok(signature) => Ok((identity, signature)),
            Err(e) => Err(e),
        },
    }
}

/// When the nonce barrier of `n` participants is released, what is sent to
/// each participant carries exactly `n - 1` nonces: one from each of the
/// others, and not its own.
pub proof fn lemma_nonce_delivery_size(
    action: HubAction,
    s: SigningSession,
    p: ParticipantRecord,
    nonces: Seq<Option<Seq<u8>>>,
)
    requires
        is_nonce_delivery(action, s, p, nonces),
        complete(nonces),
        p.index < nonces.len(),
        nonces.len() <= usize::MAX,
    ensures
        action matches HubAction::SendNonces { address, request } ==> {
            &&& request.nonces@.dom().finite()
            &&& request.nonces@.dom().len() == nonces.len() - 1
            &&& !request.nonces@.contains_key(p.index)
        },
{
    match action {
        HubAction::SendNonces { address, request } => {
            lemma_delivery_size(request.nonces@, nonces, p.index);
        },
        _ => {},
    }
}

/// When the partial-signature barrier of `n` participants is released, what
/// is sent to each participant carries exactly `n - 1` partial signatures:
/// one from each of the others, and not its own.
pub proof fn lemma_partial_signature_delivery_size(
    action: HubAction,
    s: SigningSession,
    p: ParticipantRecord,
    partial_signatures: Seq<Option<Seq<u8>>>,
)
    requires
        is_partial_signature_delivery(action, s, p, partial_signatures),
        complete(partial_signatures),
        p.index < partial_signatures.len(),
        partial_signatures.len() <= usize::MAX,
    ensures
        action matches HubAction::SendPartialSignatures { address, request } ==> {
            &&& request.partial_signatures@.dom().finite()
            &&& request.partial_signatures@.dom().len() == partial_signatures.len() - 1
            &&& !request.partial_signatures@.contains_key(p.index)
        },
{
    match action {
        HubAction::SendPartialSignatures { address, request } => {
            lemma_delivery_size(request.partial_signatures@, partial_signatures, p.index);
        },
        _ => {},
    }
}

/// An outcome is accepted only if there is a final signature from every
/// participant, all final signatures are the accepted one byte for byte, and
/// the accepted signature verifies on the message of the session under the
/// aggregated identity of its context.
pub proof fn lemma_accepted_outcome(
    s: SigningSession,
    final_signatures: Seq<Seq<u8>>,
    identity: Seq<u8>,
    signature: Seq<u8>,
)
    requires
        outcome(s, final_signatures) == Ok::<(Seq<u8>, Seq<u8>), ConsistencyError>(
            (identity, signature),
        ),
    ensures
        final_signatures.len() > 0,
        forall|i: int| 0 <= i < final_signatures.len() ==> final_signatures[i] == signature,
        aggregated_identity(s.key_agg_ctx@) == Some(identity),
        signature_verifies(identity, signature, message_bytes(s.message@)),
{
}

/// One session as the hub sees it.
pub struct HubSession {
    session: SigningSession,
    participants: Vec<ParticipantRecord>,
    phase: HubPhase,
    nonces: Barrier,
    partial_signatures: Barrier,
    final_signatures: Barrier,
}

impl HubSession {
    /// The session.
    pub closed spec fn session(&self) -> SigningSession {
        self.session
    }

    /// The participants, in the order of their indices.
    pub closed spec fn participants(&self) -> Seq<ParticipantRecord> {
        self.participants@
    }

    /// The current phase.
    pub closed spec fn phase(&self) -> HubPhase {
        self.phase
    }

    /// The public nonces received so far, by index.
    pub closed spec fn nonces(&self) -> Seq<Option<Seq<u8>>> {
        self.nonces@
    }

    /// The partial signatures received so far, by index.
    pub closed spec fn partial_signatures(&self) -> Seq<Option<Seq<u8>>> {
        self.partial_signatures@
    }

    /// The final signatures received so far, by index.
    pub closed spec fn final_signatures(&self) -> Seq<Option<Seq<u8>>> {
        self.final_signatures@
    }

    /// What holds of every session of the hub. There is a slot for each
    /// participant in each round, and no round is entered before the round
    /// before it is complete.
    pub open spec fn wf(&self) -> bool {
        &&& self.nonces().len() == self.participants().len()
        &&& self.partial_signatures().len() == self.participants().len()
        &&& self.final_signatures().len() == self.participants().len()
        &&& forall|i: int|
            0 <= i < self.participants().len() ==> (#[trigger] self.participants()[i]).index == i
        &&& match self.phase() {
            HubPhase::CollectingNonces => {
                &&& untouched(self.partial_signatures())
                &&& untouched(self.final_signatures())
            },
            HubPhase::CollectingPartialSignatures => {
                &&& complete(self.nonces())
                &&& untouched(self.final_signatures())
            },
            HubPhase::CollectingFinalSignatures => {
                &&& complete(self.nonces())
                &&& complete(self.partial_signatures())
            },
            HubPhase::Completed => {
                &&& complete(self.nonces())
                &&& complete(self.partial_signatures())
                &&& complete(self.final_signatures())
            },
        }
    }

    /// Starts a session among `participants`, each of which must stand at
    /// its own index, and returns the nonce request for each of them, in the
    /// order of their indices.
    pub fn begin(session: SigningSession, participants: Vec<ParticipantRecord>) -> (r: (
        HubSession,
        Vec<HubAction>,
    ))
        requires
            forall|i: int| 0 <= i < participants@.len() ==> (#[trigger] participants@[i]).index == i,
        ensures
            r.0.wf(),
            r.0.session() == session,
            r.0.participants() == participants@,
            r.0.phase() == HubPhase::CollectingNonces,
            untouched(r.0.nonces()),
            r.1@.len() == participants@.len(),
            forall|i: int|
                0 <= i < r.1@.len() ==> is_nonce_request(#[trigger] r.1@[i], session, participants@[i]),
    {
        let n = participants.len();
        let mut actions: Vec<HubAction> = Vec::new();
        let mut i: usize = 0;
        while i < n
            invariant
                n == participants@.len(),
                i <= n,
                actions@.len() == i,
                forall|k: int|
                    0 <= k < participants@.len() ==> (#[trigger] participants@[k]).index == k,
                forall|k: int|
                    0 <= k < i ==> is_nonce_request(
                        #[trigger] actions@[k],
                        session,
                        participants@[k],
                    ),
            decreases n - i,
        {
            let request = GenerateNonceRequest {
                session_id: session.session_id.clone(),
                message: session.message.clone(),
                key_agg_ctx: bytes_copy(&session.key_agg_ctx),
                signer_index: i,
            };
            actions.push(
                HubAction::RequestNonce { address: participants[i].address.clone(), request },
            );
            i += 1;
        }
        let hub = HubSession {
            session,
            participants,
            phase: HubPhase::CollectingNonces,
            nonces: Barrier::new(n),
            partial_signatures: Barrier::new(n),
            final_signatures: Barrier::new(n),
        };
        (hub, actions)
    }

    /// The current phase.
    pub fn current_phase(&self) -> (r: HubPhase)
        ensures
            r == self.phase(),
    {
        self.phase
    }

    /// The number of participants.
    pub fn size(&self) -> (r: usize)
        ensures
            r == self.participants().len(),
    {
        self.participants.len()
    }

    /// The id of the session.
    pub fn session_id(&self) -> (r: &String)
        ensures
            r@ == self.session().session_id@,
    {
        &self.session.session_id
    }

    /// Ends the session because the participant at `index` could not be
    /// reached or answered what could not be read: there is no retry and no
    /// quorum. The session is given up whole, and the failure names the phase
    /// and the participant.
    pub fn fail(self, index: usize) -> (r: HubError)
        ensures
            r == (HubError::Transport { phase: self.phase(), index }),
    {
        HubError::Transport { phase: self.phase, index }
    }

    /// Records the public nonce of the participant at `index`. When it is the
    /// last one missing, the barrier is released: the hub moves on to the
    /// partial signatures and returns, for each participant in the order of
    /// the indices, the delivery of all the other participants' nonces.
    /// Until then nothing is due. A failure changes nothing.
    pub fn receive_nonce(&mut self, index: usize, nonce: Vec<u8>) -> (r: Result<
        Vec<HubAction>,
        HubError,
    >)
        requires
            old(self).wf(),
        ensures
            final(self).wf(),
            final(self).session() == old(self).session(),
            final(self).participants() == old(self).participants(),
            final(self).partial_signatures() == old(self).partial_signatures(),
            final(self).final_signatures() == old(self).final_signatures(),
            match r {
                Ok(actions) => {
                    &&& old(self).phase() == HubPhase::CollectingNonces
                    &&& index < old(self).nonces().len()
                    &&& old(self).nonces()[index as int] is None || old(self).nonces()[index as int]
                        == Some(nonce@)
                    &&& final(self).nonces() == old(self).nonces().update(
                        index as int,
                        Some(nonce@),
                    )
                    &&& if complete(final(self).nonces()) {
                        &&& final(self).phase() == HubPhase::CollectingPartialSignatures
                        &&& actions@.len() == final(self).participants().len()
                        &&& forall|i: int|
                            0 <= i < actions@.len() ==> is_nonce_delivery(
                                #[trigger] actions@[i],
                                final(self).session(),
                                final(self).participants()[i],
                                final(self).nonces(),
                            )
                    } else {
                        &&& final(self).phase() == HubPhase::CollectingNonces
                        &&& actions@.len() == 0
                    }
                },
                Err(HubError::UnexpectedPhase { current }) => {
                    &&& current == old(self).phase()
                    &&& current != HubPhase::CollectingNonces
                    &&& final(self).phase() == old(self).phase()
                    &&& final(self).nonces() == old(self).nonces()
                },
                Err(HubError::Contribution { phase, index: at, reason }) => {
                    &&& old(self).phase() == HubPhase::CollectingNonces
                    &&& phase == HubPhase::CollectingNonces
                    &&& at == index
                    &&& reason == ContributionError::OutOfRange <==> index >= old(
                        self,
                    ).nonces().len()
                    &&& reason == ContributionError::Inconsistent ==> old(
                        self,
                    ).nonces()[index as int] is Some && old(self).nonces()[index as int] != Some(
                        nonce@,
                    )
                    &&& final(self).phase() == old(self).phase()
                    &&& final(self).nonces() == old(self).nonces()
                },
                Err(HubError::Consistency(_)) => false,
                Err(HubError::Transport { .. }) => false,
            },
    {
        if self.phase != HubPhase::CollectingNonces {
            return Err(HubError::UnexpectedPhase { current: self.phase });
        }
        match self.nonces.deliver(index, nonce) {
            Err(reason) => Err(
                HubError::Contribution { phase: HubPhase::CollectingNonces, index, reason },
            ),
            Ok(()) => {
                if !self.nonces.is_complete() {
                    return Ok(Vec::new());
                }
                self.phase = HubPhase::CollectingPartialSignatures;
                let n = self.participants.len();
                let mut actions: Vec<HubAction> = Vec::new();
                let mut i: usize = 0;
                while i < n
                    invariant
                        n == self.participants@.len(),
                        i <= n,
                        actions@.len() == i,
                        forall|k: int|
                            0 <= k < self.participants@.len() ==> (
                            #[trigger] self.participants@[k]).index == k,
                        forall|k: int|
                            0 <= k < i ==> is_nonce_delivery(
                                #[trigger] actions@[k],
                                self.session,
                                self.participants@[k],
                                self.nonces@,
                            ),
                    decreases n - i,
                {
                    let request = ReceiveNoncesRequest {
                        session_id: self.session.session_id.clone(),
                        nonces: self.nonces.others(i),
                    };
                    actions.push(
                        HubAction::SendNonces {
                            address: self.participants[i].address.clone(),
                            request,
                        },
                    );
                    i += 1;
                }
                Ok(actions)
            },
        }
    }

    /// Records the partial signature of the participant at `index`. When it
    /// is the last one missing, the barrier is released: the hub moves on to
    /// the final signatures and returns, for each participant in the order
    /// of the indices, the delivery of all the other participants' partial
    /// signatures. Until then nothing is due. A failure changes nothing.
    pub fn receive_partial_signature(&mut self, index: usize, partial_signature: Vec<u8>) -> (r:
        Result<Vec<HubAction>, HubError>)
        requires
            old(self).wf(),
        ensures
            final(self).wf(),
            final(self).session() == old(self).session(),
            final(self).participants() == old(self).participants(),
            final(self).nonces() == old(self).nonces(),
            final(self).final_signatures() == old(self).final_signatures(),
            match r {
                Ok(actions) => {
                    &&& old(self).phase() == HubPhase::CollectingPartialSignatures
                    &&& index < old(self).partial_signatures().len()
                    &&& old(self).partial_signatures()[index as int] is None || old(
                        self,
                    ).partial_signatures()[index as int] == Some(partial_signature@)
                    &&& final(self).partial_signatures() == old(self).partial_signatures().update(
                        index as int,
                        Some(partial_signature@),
                    )
                    &&& if complete(final(self).partial_signatures()) {
                        &&& final(self).phase() == HubPhase::CollectingFinalSignatures
                        &&& actions@.len() == final(self).participants().len()
                        &&& forall|i: int|
                            0 <= i < actions@.len() ==> is_partial_signature_delivery(
                                #[trigger] actions@[i],
                                final(self).session(),
                                final(self).participants()[i],
                                final(self).partial_signatures(),
                            )
                    } else {
                        &&& final(self).phase() == HubPhase::CollectingPartialSignatures
                        &&& actions@.len() == 0
                    }
                },
                Err(HubError::UnexpectedPhase { current }) => {
                    &&& current == old(self).phase()
                    &&& current != HubPhase::CollectingPartialSignatures
                    &&& final(self).phase() == old(self).phase()
                    &&& final(self).partial_signatures() == old(self).partial_signatures()
                },
                Err(HubError::Contribution { phase, index: at, reason }) => {
                    &&& old(self).phase() == HubPhase::CollectingPartialSignatures
                    &&& phase == HubPhase::CollectingPartialSignatures
                    &&& at == index
                    &&& reason == ContributionError::OutOfRange <==> index >= old(
                        self,
                    ).partial_signatures().len()
                    &&& reason == ContributionError::Inconsistent ==> old(
                        self,
                    ).partial_signatures()[index as int] is Some && old(
                        self,
                    ).partial_signatures()[index as int] != Some(partial_signature@)
                    &&& final(self).phase() == old(self).phase()
                    &&& final(self).partial_signatures() == old(self).partial_signatures()
                },
                Err(HubError::Consistency(_)) => false,
                Err(HubError::Transport { .. }) => false,
            },
    {
        if self.phase != HubPhase::CollectingPartialSignatures {
            return Err(HubError::UnexpectedPhase { current: self.phase });
        }
        match self.partial_signatures.deliver(index, partial_signature) {
            Err(reason) => Err(
                HubError::Contribution {
                    phase: HubPhase::CollectingPartialSignatures,
                    index,
                    reason,
                },
            ),
            Ok(()) => {
                if !self.partial_signatures.is_complete() {
                    return Ok(Vec::new());
                }
                self.phase = HubPhase::CollectingFinalSignatures;
                let n = self.participants.len();
                let mut actions: Vec<HubAction> = Vec::new();
                let mut i: usize = 0;
                while i < n
                    invariant
                        n == self.participants@.len(),
                        i <= n,
                        actions@.len() == i,
                        forall|k: int|
                            0 <= k < self.participants@.len() ==> (
                            #[trigger] self.participants@[k]).index == k,
                        forall|k: int|
                            0 <= k < i ==> is_partial_signature_delivery(
                                #[trigger] actions@[k],
                                self.session,
                                self.participants@[k],
                                self.partial_signatures@,
                            ),
                    decreases n - i,
                {
                    let request = ReceivePartialSignaturesRequest {
                        session_id: self.session.session_id.clone(),
                        partial_signatures: self.partial_signatures.others(i),
                    };
                    actions.push(
                        HubAction::SendPartialSignatures {
                            address: self.participants[i].address.clone(),
                            request,
                        },
                    );
                    i += 1;
                }
                Ok(actions)
            },
        }
    }

    /// Records the final signature of the participant at `index`. When it is
    /// the last one missing, the outcome is checked: all final signatures
    /// must be the same bytes and must verify on the message under the
    /// aggregated identity of the session. An accepted outcome completes the
    /// session and is returned; until the last signature arrives, nothing is.
    /// A signature that the barrier refuses changes nothing.
    pub fn receive_final_signature(&mut self, index: usize, final_signature: Vec<u8>) -> (r:
        Result<Option<SigningInitiateResponse>, HubError>)
        requires
            old(self).wf(),
        ensures
            final(self).wf(),
            final(self).session() == old(self).session(),
            final(self).participants() == old(self).participants(),
            final(self).nonces() == old(self).nonces(),
            final(self).partial_signatures() == old(self).partial_signatures(),
            match r {
                Ok(reply) => {
                    &&& old(self).phase() == HubPhase::CollectingFinalSignatures
                    &&& index < old(self).final_signatures().len()
                    &&& old(self).final_signatures()[index as int] is None || old(
                        self,
                    ).final_signatures()[index as int] == Some(final_signature@)
                    &&& final(self).final_signatures() == old(self).final_signatures().update(
                        index as int,
                        Some(final_signature@),
                    )
                    &&& match reply {
                        None => {
                            &&& !complete(final(self).final_signatures())
                            &&& final(self).phase() == HubPhase::CollectingFinalSignatures
                        },
                        Some(response) => {
                            &&& complete(final(self).final_signatures())
                            &&& final(self).phase() == HubPhase::Completed
                            &&& response.session_id@ == final(self).session().session_id@
                            &&& response.is_signature_valid
                            &&& outcome(
                                final(self).session(),
                                collected(final(self).final_signatures()),
                            ) == Ok::<(Seq<u8>, Seq<u8>), ConsistencyError>(
                                (response.aggregated_pubkey@, response.aggregated_signature@),
                            )
                        },
                    }
                },
                Err(HubError::UnexpectedPhase { current }) => {
                    &&& current == old(self).phase()
                    &&& current != HubPhase::CollectingFinalSignatures
                    &&& final(self).phase() == old(self).phase()
                    &&& final(self).final_signatures() == old(self).final_signatures()
                },
                Err(HubError::Contribution { phase, index: at, reason }) => {
                    &&& old(self).phase() == HubPhase::CollectingFinalSignatures
                    &&& phase == HubPhase::CollectingFinalSignatures
                    &&& at == index
                    &&& reason == ContributionError::OutOfRange <==> index >= old(
                        self,
                    ).final_signatures().len()
                    &&& reason == ContributionError::Inconsistent ==> old(
                        self,
                    ).final_signatures()[index as int] is Some && old(
                        self,
                    ).final_signatures()[index as int] != Some(final_signature@)
                    &&& final(self).phase() == old(self).phase()
                    &&& final(self).final_signatures() == old(self).final_signatures()
                },
                Err(HubError::Consistency(e)) => {
                    &&& old(self).phase() == HubPhase::CollectingFinalSignatures
                    &&& final(self).phase() == HubPhase::CollectingFinalSignatures
                    &&& index < old(self).final_signatures().len()
                    &&& final(self).final_signatures() == old(self).final_signatures().update(
                        index as int,
                        Some(final_signature@),
                    )
                    &&& complete(final(self).final_signatures())
                    &&& outcome(final(self).session(), collected(final(self).final_signatures()))
                        == Err::<(Seq<u8>, Seq<u8>), ConsistencyError>(e)
                },
                Err(HubError::Transport { .. }) => false,
            },
    {
        if self.phase != HubPhase::CollectingFinalSignatures {
            return Err(HubError::UnexpectedPhase { current: self.phase });
        }
        match self.final_signatures.deliver(index, final_signature) {
            Err(reason) => Err(
                HubError::Contribution {
                    phase: HubPhase::CollectingFinalSignatures,
                    index,
                    reason,
                },
            ),
            Ok(()) => {
                if !self.final_signatures.is_complete() {
                    return Ok(None);
                }
                let signatures = self.final_signatures.collect();
                assert(byte_views(signatures@) =~= collected(self.final_signatures@));
                let checked = match aggregated_pubkey(&self.session.key_agg_ctx) {
                    None => match consistency_verdict(&signatures, false) {
                        Ok(_) => Err(ConsistencyError::InvalidSignature),
                        Err(e) => Err(e),
                    },
                    Some(identity) => {
                        let message = message_to_bytes(&self.session.message);
                        let verified = signatures.len() > 0 && verify_signature(
                            &identity,
                            &signatures[0],
                            &message,
                        );
                        match consistency_verdict(&signatures, verified) {
                            Ok(signature) => Ok((identity, signature)),
                            Err(e) => Err(e),
                        }
                    },
                };
                match checked {
                    Err(e) => Err(HubError::Consistency(e)),
                    Ok((aggregated_pubkey, aggregated_signature)) => {
                        self.phase = HubPhase::Completed;
                        Ok(
                            Some(
                                SigningInitiateResponse {
                                    session_id: self.session.session_id.clone(),
                                    aggregated_pubkey,
                                    aggregated_signature,
                                    is_signature_valid: true,
                                },
                            ),
                        )
                    },
                }
            },
        }
    }
}

/// What the hub tells the initiator about a failed session. A participant
/// that could not be reached, or whose contribution was refused, is named by
/// its index after the phase that failed.
pub open spec fn failure_text(e: HubError) -> Seq<char> {
    match e {
        HubError::UnexpectedPhase { current } => "Answer out of phase"@,
        HubError::Contribution { phase, index, reason } => match phase {
            HubPhase::CollectingNonces => "Nonce refused from signer "@ + decimal(index as nat),
            HubPhase::CollectingPartialSignatures => "Partial signature refused from signer "@
                + decimal(index as nat),
            _ => "Final signature refused from signer "@ + decimal(index as nat),
        },
        HubError::Consistency(ConsistencyError::InconsistentSignatures) =>
            "Inconsistent final signatures"@,
        HubError::Consistency(ConsistencyError::InvalidSignature) => "Invalid final signature"@,
        HubError::Consistency(ConsistencyError::NoSignatures) => "No final signatures"@,
        HubError::Transport { phase, index } => match phase {
            HubPhase::CollectingNonces => "Failed to request nonce from signer "@ + decimal(
                index as nat,
            ),
            HubPhase::CollectingPartialSignatures => "Failed to distribute nonces to signer "@
                + decimal(index as nat),
            _ => "Failed to send partial signatures to signer "@ + decimal(index as nat),
        },
    }
}

impl HubError {
    /// The failure in words for the initiator.
    pub fn describe(&self) -> (r: CustomError)
        ensures
            r.0@ == failure_text(*self),
    {
        match self {
            HubError::UnexpectedPhase { current } => CustomError("Answer out of phase".to_owned()),
            HubError::Contribution { phase, index, reason } => match phase {
                HubPhase::CollectingNonces => CustomError(
                    numbered("Nonce refused from signer ", *index),
                ),
                HubPhase::CollectingPartialSignatures => CustomError(
                    numbered("Partial signature refused from signer ", *index),
                ),
                _ => CustomError(numbered("Final signature refused from signer ", *index)),
            },
            HubError::Consistency(ConsistencyError::InconsistentSignatures) => CustomError(
                "Inconsistent final signatures".to_owned(),
            ),
            HubError::Consistency(ConsistencyError::InvalidSignature) => CustomError(
                "Invalid final signature".to_owned(),
            ),
            HubError::Consistency(ConsistencyError::NoSignatures) => CustomError(
                "No final signatures".to_owned(),
            ),
            HubError::Transport { phase, index } => match phase {
                HubPhase::CollectingNonces => CustomError(
                    numbered("Failed to request nonce from signer ", *index),
                ),
                HubPhase::CollectingPartialSignatures => CustomError(
                    numbered("Failed to distribute nonces to signer ", *index),
                ),
                _ => CustomError(numbered("Failed to send partial signatures to signer ", *index)),
            },
        }
    }
}

} // verus!
