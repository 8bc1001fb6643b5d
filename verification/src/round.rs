//! The round state machine of one participant in one session. It is the
//! same for both topologies: a participant hands out its own contribution
//! and takes in those of its peers, and each round ends only behind a full
//! barrier.
//!
//! A round moves forward only: `Fresh`, `NonceReady`, `NoncesCollected`,
//! `PartialSigReady`, `Finalized`. Every step consumes the round; a step
//! that fails gives nothing back, so a failed round is gone. What each step
//! makes of a round is a function of the round and of what is handed in.

use vstd::prelude::*;
use crate::barrier::{
    collected,
    complete,
    lemma_complete_peers,
    lists_holdouts,
    peer_contributions,
    untouched,
    Barrier,
};
use crate::bytes::{byte_views, bytes_copy};
use crate::crypto::{
    aggregate_signatures,
    check_partial_signature,
    check_public_nonce,
    context_size,
    context_size_of,
    final_signature_of,
    first_round_nonce,
    first_round_sign,
    is_partial_signature,
    is_public_nonce,
    partial_signature_verifies,
    round_nonce,
    round_partial_signature,
    verify_partial_signature,
};
use crate::identity::SigningKey;
use crate::table::Table;

verus! {

/// Where a round stands.
#[derive(Debug, Clone, Copy, PartialEq, Eq, Structural)]
pub enum RoundPhase {
    /// A seed is drawn; nothing is derived from it yet.
    Fresh,
    /// The public nonce is made; peer nonces are still missing.
    NonceReady,
    /// The nonces of all peers are in.
    NoncesCollected,
    /// The partial signature is made; peer partial signatures may be missing.
    PartialSigReady,
    /// The final signature is made.
    Finalized,
}

/// Why a step of a round failed.
#[derive(Debug, Clone, Copy, PartialEq, Eq, Structural)]
pub enum RoundError {
    /// The step is not the one that the round's phase allows.
    InvalidTransition { phase: RoundPhase },
    /// The aggregation context cannot be read.
    InvalidContext,
    /// The participant's own index names no signer of the context.
    InvalidSignerIndex { index: usize, size: usize },
    /// The secret key is not that of the signer at the index.
    SetupFailed,
    /// The index is the participant's own, or names no signer.
    NotAPeer { index: usize },
    /// The bytes from the peer at `index` are no public nonce.
    InvalidNonceFormat { index: usize },
    /// The bytes from the peer at `index` are no partial signature.
    InvalidPartialSignatureFormat { index: usize },
    /// The peer at `index` has contributed something else before.
    Inconsistent { index: usize },
    /// The partial signature of the peer at `index` does not verify.
    Rejected { index: usize },
    /// Signing or aggregation failed.
    FinalizeFailed,
}

/// One participant's state in one session.
pub struct SignerRound {
    phase: RoundPhase,
    seed: [u8; 32],
    context: Vec<u8>,
    index: usize,
    message: Vec<u8>,
    nonces: Barrier,
    partial_signatures: Barrier,
    final_signature: Option<Vec<u8>>,
}

/// What a round holds.
pub struct RoundModel {
    /// The phase.
    pub phase: RoundPhase,
    /// The seed that the round was made with: its private state.
    pub seed: Seq<u8>,
    /// The aggregation context, from `NonceReady` on.
    pub context: Seq<u8>,
    /// The participant's own index, from `NonceReady` on.
    pub index: usize,
    /// The bytes of the message, from `NonceReady` on.
    pub message: Seq<u8>,
    /// The public nonces known so far, by index, the participant's own among
    /// them.
    pub nonces: Seq<Option<Seq<u8>>>,
    /// The partial signatures known so far, by index, the participant's own
    /// among them.
    pub partial_signatures: Seq<Option<Seq<u8>>>,
    /// The final signature, once the round is finalized.
    pub final_signature: Option<Seq<u8>>,
}

/// The rounds that one participant keeps, each under the id of its session.
pub type RoundTable = Table<String, SignerRound>;

/// What is wrong with a contribution to a round of `slots` from the
/// participant at `peer`, as far as its place and its encoding go: `None`
/// where nothing is.
pub open spec fn contribution_fault(
    slots: Seq<Option<Seq<u8>>>,
    own: usize,
    peer: usize,
    well_formed: bool,
    malformed: RoundError,
    contribution: Seq<u8>,
) -> Option<RoundError> {
    if peer == own || peer >= slots.len() {
        Some(RoundError::NotAPeer { index: peer })
    } else if !well_formed {
        Some(malformed)
    } else if slots[peer as int] is Some && slots[peer as int] != Some(contribution) {
        Some(RoundError::Inconsistent { index: peer })
    } else {
        None
    }
}

/// What a round holds that has only its seed.
pub open spec fn fresh_model(seed: Seq<u8>) -> RoundModel {
    RoundModel {
        phase: RoundPhase::Fresh,
        seed,
        context: Seq::<u8>::empty(),
        index: 0,
        message: Seq::<u8>::empty(),
        nonces: Seq::<Option<Seq<u8>>>::empty(),
        partial_signatures: Seq::<Option<Seq<u8>>>::empty(),
        final_signature: None,
    }
}

/// `n` empty slots.
pub open spec fn empty_slots(n: nat) -> Seq<Option<Seq<u8>>> {
    Seq::new(n, |i: int| None::<Seq<u8>>)
}

/// What holds of every round: the phase says which contributions are in.
pub open spec fn round_wf(m: RoundModel) -> bool {
    &&& m.seed.len() == 32
    &&& m.partial_signatures.len() == m.nonces.len()
    &&& match m.phase {
        RoundPhase::Fresh => {
            &&& m.nonces.len() == 0
            &&& m.final_signature is None
        },
        RoundPhase::NonceReady => {
            &&& m.index < m.nonces.len()
            &&& m.nonces[m.index as int] is Some
            &&& !complete(m.nonces)
            &&& untouched(m.partial_signatures)
            &&& m.final_signature is None
        },
        RoundPhase::NoncesCollected => {
            &&& m.index < m.nonces.len()
            &&& complete(m.nonces)
            &&& untouched(m.partial_signatures)
            &&& m.final_signature is None
        },
        RoundPhase::PartialSigReady => {
            &&& m.index < m.nonces.len()
            &&& complete(m.nonces)
            &&& m.partial_signatures[m.index as int] is Some
            &&& m.final_signature is None
        },
        RoundPhase::Finalized => {
            &&& m.index < m.nonces.len()
            &&& complete(m.nonces)
            &&& complete(m.partial_signatures)
            &&& m.final_signature is Some
        },
    }
}

/// The phase behind the nonce barrier: collected when every nonce is in.
pub open spec fn nonce_phase(nonces: Seq<Option<Seq<u8>>>) -> RoundPhase {
    if complete(nonces) {
        RoundPhase::NoncesCollected
    } else {
        RoundPhase::NonceReady
    }
}

/// Making the participant's nonce. A round that is not fresh refuses; so
/// does a context that cannot be read, an index at or beyond the number of
/// identities in the context, and a secret key that is not that of the
/// signer at the index. Otherwise the round holds the context, the index,
/// the message and, in its own slot, the public nonce.
pub open spec fn generate_step(
    m: RoundModel,
    context: Seq<u8>,
    index: usize,
    secret: Seq<u8>,
    message: Seq<u8>,
) -> Result<RoundModel, RoundError> {
    if m.phase != RoundPhase::Fresh {
        Err(RoundError::InvalidTransition { phase: m.phase })
    } else {
        match context_size_of(context) {
            None => Err(RoundError::InvalidContext),
            Some(size) => if index >= size {
                Err(RoundError::InvalidSignerIndex { index, size: size as usize })
            } else {
                match round_nonce(context, m.seed, index as nat, secret, message) {
                    None => Err(RoundError::SetupFailed),
                    Some(nonce) => {
                        let nonces = empty_slots(size).update(index as int, Some(nonce));
                        Ok(
                            RoundModel {
                                phase: nonce_phase(nonces),
                                seed: m.seed,
                                context,
                                index,
                                message,
                                nonces,
                                partial_signatures: empty_slots(size),
                                final_signature: None,
                            },
                        )
                    },
                }
            },
        }
    }
}

/// Taking in the public nonce of the peer at `peer`. The same nonce from the
/// same peer may come again; a different one is refused. When the last
/// missing nonce arrives, the nonces are collected.
pub open spec fn nonce_step(m: RoundModel, peer: usize, nonce: Seq<u8>) -> Result<
    RoundModel,
    RoundError,
> {
    if m.phase != RoundPhase::NonceReady {
        Err(RoundError::InvalidTransition { phase: m.phase })
    } else {
        match contribution_fault(
            m.nonces,
            m.index,
            peer,
            is_public_nonce(nonce),
            RoundError::InvalidNonceFormat { index: peer },
            nonce,
        ) {
            Some(e) => Err(e),
            None => {
                let nonces = m.nonces.update(peer as int, Some(nonce));
                Ok(RoundModel { phase: nonce_phase(nonces), nonces, ..m })
            },
        }
    }
}

/// Ending the first round, once the nonces of all peers are in: the
/// participant's partial signature on the message, under all nonces, goes
/// into its own slot.
pub open spec fn sign_step(m: RoundModel, secret: Seq<u8>) -> Result<RoundModel, RoundError> {
    if m.phase != RoundPhase::NoncesCollected {
        Err(RoundError::InvalidTransition { phase: m.phase })
    } else {
        match round_partial_signature(
            m.context,
            m.seed,
            m.index as nat,
            secret,
            m.message,
            collected(m.nonces),
        ) {
            None => Err(RoundError::FinalizeFailed),
            Some(signature) => Ok(
                RoundModel {
                    phase: RoundPhase::PartialSigReady,
                    partial_signatures: m.partial_signatures.update(
                        m.index as int,
                        Some(signature),
                    ),
                    ..m
                },
            ),
        }
    }
}

/// Taking in the partial signature of the peer at `peer`. It must verify for
/// that peer under the nonces of the round. The same signature from the same
/// peer may come again; a different one is refused.
pub open spec fn partial_signature_step(m: RoundModel, peer: usize, signature: Seq<u8>) -> Result<
    RoundModel,
    RoundError,
> {
    if m.phase != RoundPhase::PartialSigReady {
        Err(RoundError::InvalidTransition { phase: m.phase })
    } else {
        match contribution_fault(
            m.partial_signatures,
            m.index,
            peer,
            is_partial_signature(signature),
            RoundError::InvalidPartialSignatureFormat { index: peer },
            signature,
        ) {
            Some(e) => Err(e),
            None => if !partial_signature_verifies(
                m.context,
                collected(m.nonces),
                m.message,
                peer as nat,
                signature,
            ) {
                Err(RoundError::Rejected { index: peer })
            } else {
                Ok(
                    RoundModel {
                        partial_signatures: m.partial_signatures.update(
                            peer as int,
                            Some(signature),
                        ),
                        ..m
                    },
                )
            },
        }
    }
}

/// Ending the second round, once the partial signatures of all peers are in:
/// they are combined into the final signature.
pub open spec fn finalize_step(m: RoundModel) -> Result<RoundModel, RoundError> {
    if m.phase != RoundPhase::PartialSigReady || !complete(m.partial_signatures) {
        Err(RoundError::InvalidTransition { phase: m.phase })
    } else {
        match final_signature_of(
            m.context,
            collected(m.nonces),
            m.message,
            collected(m.partial_signatures),
        ) {
            None => Err(RoundError::FinalizeFailed),
            Some(signature) => Ok(
                RoundModel {
                    phase: RoundPhase::Finalized,
                    final_signature: Some(signature),
                    ..m
                },
            ),
        }
    }
}

/// Taking in a peer's nonce and, when it is the last one missing, signing
/// at once.
pub open spec fn take_nonce_step(m: RoundModel, peer: usize, nonce: Seq<u8>, secret: Seq<u8>) -> Result<
    RoundModel,
    RoundError,
> {
    match nonce_step(m, peer, nonce) {
        Err(e) => Err(e),
        Ok(next) => if next.phase == RoundPhase::NoncesCollected {
            sign_step(next, secret)
        } else {
            Ok(next)
        },
    }
}

/// Taking in a peer's partial signature and, when it is the last one
/// missing, finalizing at once.
pub open spec fn take_partial_signature_step(m: RoundModel, peer: usize, signature: Seq<u8>) -> Result<
    RoundModel,
    RoundError,
> {
    match partial_signature_step(m, peer, signature) {
        Err(e) => Err(e),
        Ok(next) => if complete(next.partial_signatures) {
            finalize_step(next)
        } else {
            Ok(next)
        },
    }
}

/// Whether the exec result `r` of a step is what the step makes of the
/// round.
pub open spec fn is_step(r: Result<SignerRound, RoundError>, expected: Result<RoundModel, RoundError>) -> bool {
    match expected {
        Ok(m) => r matches Ok(next) && next@ == m && next.wf(),
        Err(e) => r matches Err(x) && x == e,
    }
}

/// Every step keeps a round well formed.
pub proof fn lemma_steps_keep_wf(
    m: RoundModel,
    context: Seq<u8>,
    index: usize,
    secret: Seq<u8>,
    message: Seq<u8>,
    peer: usize,
    contribution: Seq<u8>,
)
    requires
        round_wf(m),
    ensures
        generate_step(m, context, index, secret, message) is Ok ==> round_wf(
            generate_step(m, context, index, secret, message)->Ok_0,
        ),
        nonce_step(m, peer, contribution) is Ok ==> round_wf(
            nonce_step(m, peer, contribution)->Ok_0,
        ),
        sign_step(m, secret) is Ok ==> round_wf(sign_step(m, secret)->Ok_0),
        partial_signature_step(m, peer, contribution) is Ok ==> round_wf(
            partial_signature_step(m, peer, contribution)->Ok_0,
        ),
        finalize_step(m) is Ok ==> round_wf(finalize_step(m)->Ok_0),
        take_nonce_step(m, peer, contribution, secret) is Ok ==> round_wf(
            take_nonce_step(m, peer, contribution, secret)->Ok_0,
        ),
        take_partial_signature_step(m, peer, contribution) is Ok ==> round_wf(
            take_partial_signature_step(m, peer, contribution)->Ok_0,
        ),
{
    if generate_step(m, context, index, secret, message) is Ok {
        let next = generate_step(m, context, index, secret, message)->Ok_0;
        assert(untouched(next.partial_signatures));
    }
}

impl View for SignerRound {
    type V = RoundModel;

    closed spec fn view(&self) -> RoundModel {
        RoundModel {
            phase: self.phase,
            seed: self.seed@,
            context: self.context@,
            index: self.index,
            message: self.message@,
            nonces: self.nonces@,
            partial_signatures: self.partial_signatures@,
            final_signature: match self.final_signature {
                Some(s) => Some(s@),
                None => None,
            },
        }
    }
}

impl SignerRound {
    /// The phase.
    pub open spec fn phase(&self) -> RoundPhase {
        self@.phase
    }

    /// The seed that the round was made with.
    pub open spec fn seed(&self) -> Seq<u8> {
        self@.seed
    }

    /// The aggregation context that the round was made with.
    pub open spec fn context(&self) -> Seq<u8> {
        self@.context
    }

    /// The participant's own index, from `NonceReady` on.
    pub open spec fn index(&self) -> usize {
        self@.index
    }

    /// The bytes of the message, from `NonceReady` on.
    pub open spec fn message(&self) -> Seq<u8> {
        self@.message
    }

    /// The public nonces known so far, by index; the participant's own is
    /// among them.
    pub open spec fn nonces(&self) -> Seq<Option<Seq<u8>>> {
        self@.nonces
    }

    /// The partial signatures known so far, by index; the participant's own
    /// is among them.
    pub open spec fn partial_signatures(&self) -> Seq<Option<Seq<u8>>> {
        self@.partial_signatures
    }

    /// The final signature, once the round is finalized.
    pub open spec fn final_signature(&self) -> Option<Seq<u8>> {
        self@.final_signature
    }

    /// The number of signers, from `NonceReady` on.
    pub open spec fn size(&self) -> nat {
        self@.nonces.len()
    }

    /// What holds of every round: the phase says which contributions are in.
    pub open spec fn wf(&self) -> bool {
        round_wf(self@)
    }

    /// In every round there is a slot for each signer in both barriers, and
    /// from `NonceReady` on the participant's own index names one of them.
    pub proof fn lemma_shape(&self)
        requires
            self.wf(),
        ensures
            self.partial_signatures().len() == self.size(),
            self.phase() != RoundPhase::Fresh ==> self.index() < self.size(),
            self.phase() == RoundPhase::Fresh ==> self.size() == 0,
    {
    }

    /// The completeness gate. A round that holds a partial signature has the
    /// nonces of exactly `size - 1` peers, one for each other index; a round
    /// that holds a final signature has, besides, the partial signatures of
    /// exactly `size - 1` peers.
    pub proof fn lemma_completeness_gate(&self)
        requires
            self.wf(),
        ensures
            self.phase() == RoundPhase::PartialSigReady || self.phase() == RoundPhase::Finalized
                ==> {
                &&& complete(self.nonces())
                &&& peer_contributions(self.nonces(), self.index() as int).dom().finite()
                &&& peer_contributions(self.nonces(), self.index() as int).dom().len()
                    == self.size() - 1
                &&& self.partial_signatures()[self.index() as int] is Some
            },
            self.phase() == RoundPhase::Finalized ==> {
                &&& complete(self.partial_signatures())
                &&& peer_contributions(
                    self.partial_signatures(),
                    self.index() as int,
                ).dom().finite()
                &&& peer_contributions(self.partial_signatures(), self.index() as int).dom().len()
                    == self.size() - 1
                &&& self.final_signature() is Some
            },
            self.phase() == RoundPhase::NonceReady ==> !complete(self.nonces()),
            self.phase() != RoundPhase::Finalized ==> self.final_signature() is None,
    {
        if self.phase() == RoundPhase::PartialSigReady || self.phase() == RoundPhase::Finalized {
            lemma_complete_peers(self.nonces(), self.index() as int);
        }
        if self.phase() == RoundPhase::Finalized {
            lemma_complete_peers(self.partial_signatures(), self.index() as int);
        }
    }

    /// A round that has only its seed.
    pub fn fresh(seed: [u8; 32]) -> (r: SignerRound)
        ensures
            r.wf(),
            r@ == fresh_model(seed@),
    {
        let r = SignerRound {
            phase: RoundPhase::Fresh,
            seed,
            context: Vec::new(),
            index: 0,
            message: Vec::new(),
            nonces: Barrier::new(0),
            partial_signatures: Barrier::new(0),
            final_signature: None,
        };
        assert(r.nonces@ =~= Seq::<Option<Seq<u8>>>::empty());
        assert(r.partial_signatures@ =~= Seq::<Option<Seq<u8>>>::empty());
        assert(r.context@ =~= Seq::<u8>::empty());
        assert(r.message@ =~= Seq::<u8>::empty());
        r
    }

    /// The participant's own index.
    pub fn own_index(&self) -> (r: usize)
        ensures
            r == self.index(),
    {
        self.index
    }

    /// The number of signers.
    pub fn signers(&self) -> (r: usize)
        ensures
            r == self.size(),
    {
        self.nonces.size()
    }

    /// The bytes of the message.
    pub fn message_bytes(&self) -> (r: &Vec<u8>)
        ensures
            r@ == self.message(),
    {
        &self.message
    }

    /// The aggregation context that the round was made with.
    pub fn context_bytes(&self) -> (r: &Vec<u8>)
        ensures
            r@ == self.context(),
    {
        &self.context
    }

    /// The phase.
    pub fn current_phase(&self) -> (r: RoundPhase)
        ensures
            r == self.phase(),
    {
        self.phase
    }

    /// The participant's own public nonce, from `NonceReady` on.
    pub fn public_nonce(&self) -> (r: Option<&Vec<u8>>)
        requires
            self.wf(),
        ensures
            match r {
                Some(nonce) => self.phase() != RoundPhase::Fresh && self.nonces()[self.index() as int]
                    == Some(nonce@),
                None => self.phase() == RoundPhase::Fresh,
            },
    {
        if self.phase == RoundPhase::Fresh {
            None
        } else {
            self.nonces.get(self.index)
        }
    }

    /// The participant's own partial signature, from `PartialSigReady` on.
    pub fn partial_signature(&self) -> (r: Option<&Vec<u8>>)
        requires
            self.wf(),
        ensures
            match r {
                Some(signature) => {
                    &&& self.phase() == RoundPhase::PartialSigReady || self.phase()
                        == RoundPhase::Finalized
                    &&& self.partial_signatures()[self.index() as int] == Some(signature@)
                    &&& complete(self.nonces())
                },
                None => self.phase() != RoundPhase::PartialSigReady && self.phase()
                    != RoundPhase::Finalized,
            },
    {
        if self.phase == RoundPhase::PartialSigReady || self.phase == RoundPhase::Finalized {
            self.partial_signatures.get(self.index)
        } else {
            None
        }
    }

    /// The final signature, once the round is finalized.
    pub fn signature(&self) -> (r: Option<&Vec<u8>>)
        requires
            self.wf(),
        ensures
            match r {
                Some(signature) => {
                    &&& self.phase() == RoundPhase::Finalized
                    &&& self.final_signature() == Some(signature@)
                    &&& complete(self.nonces())
                    &&& complete(self.partial_signatures())
                },
                None => self.phase() != RoundPhase::Finalized,
            },
    {
        match &self.final_signature {
            Some(s) => Some(s),
            None => None,
        }
    }

    /// The indices of the peers whose contribution to the current round is
    /// still missing, in ascending order.
    pub fn holdouts(&self) -> (r: Vec<usize>)
        requires
            self.wf(),
        ensures
            match self.phase() {
                RoundPhase::NonceReady => lists_holdouts(r@, self.nonces()) && r@.len() > 0,
                RoundPhase::PartialSigReady => {
                    &&& lists_holdouts(r@, self.partial_signatures())
                    &&& r@.len() == 0 <==> complete(self.partial_signatures())
                },
                _ => r@.len() == 0,
            },
    {
        match self.phase {
            RoundPhase::NonceReady => self.nonces.holdouts(),
            RoundPhase::PartialSigReady => self.partial_signatures.holdouts(),
            _ => Vec::new(),
        }
    }

    /// Whether the contributions of all peers to the current round are in.
    pub fn is_complete(&self) -> (r: bool)
        requires
            self.wf(),
        ensures
            r == match self.phase() {
                RoundPhase::Fresh => false,
                RoundPhase::NonceReady => false,
                RoundPhase::NoncesCollected => true,
                RoundPhase::PartialSigReady => complete(self.partial_signatures()),
                RoundPhase::Finalized => true,
            },
    {
        match self.phase {
            RoundPhase::Fresh => false,
            RoundPhase::NonceReady => false,
            RoundPhase::NoncesCollected => true,
            RoundPhase::PartialSigReady => self.partial_signatures.is_complete(),
            RoundPhase::Finalized => true,
        }
    }

    /// Makes the participant's nonce for a session.
    pub fn generate(
        self,
        context: &Vec<u8>,
        index: usize,
        secret_key: &SigningKey,
        message: Vec<u8>,
    ) -> (r: Result<SignerRound, RoundError>)
        requires
            self.wf(),
        ensures
            is_step(r, generate_step(self@, context@, index, secret_key@, message@)),
            r matches Ok(next) ==> next.nonces()[index as int] matches Some(nonce) && nonce.len()
                == 66,
    {
        if self.phase != RoundPhase::Fresh {
            return Err(RoundError::InvalidTransition { phase: self.phase });
        }
        let size = match context_size(context) {
            Some(size) => size,
            None => {
                return Err(RoundError::InvalidContext);
            },
        };
        if index >= size {
            return Err(RoundError::InvalidSignerIndex { index, size });
        }
        let nonce = match first_round_nonce(
            context,
            self.seed,
            index,
            secret_key.as_bytes(),
            &message,
        ) {
            Some(nonce) => nonce,
            None => {
                return Err(RoundError::SetupFailed);
            },
        };
        let mut nonces = Barrier::new(size);
        assert(nonces@ =~= empty_slots(size as nat));
        let delivered = nonces.deliver(index, nonce);
        assert(delivered is Ok);
        let partial_signatures = Barrier::new(size);
        assert(partial_signatures@ =~= empty_slots(size as nat));
        let phase = if nonces.is_complete() {
            RoundPhase::NoncesCollected
        } else {
            RoundPhase::NonceReady
        };
        let next = SignerRound {
            phase,
            seed: self.seed,
            context: bytes_copy(context),
            index,
            message,
            nonces,
            partial_signatures,
            final_signature: None,
        };
        proof {
            assert(untouched(next.partial_signatures@));
            assert(next@ == generate_step(self@, context@, index, secret_key@, message@)->Ok_0);
        }
        Ok(next)
    }

    /// Takes in the public nonce of the peer at `peer`.
    pub fn deliver_nonce(self, peer: usize, nonce: Vec<u8>) -> (r: Result<SignerRound, RoundError>)
        requires
            self.wf(),
        ensures
            is_step(r, nonce_step(self@, peer, nonce@)),
    {
        if self.phase != RoundPhase::NonceReady {
            return Err(RoundError::InvalidTransition { phase: self.phase });
        }
        if peer == self.index || peer >= self.nonces.size() {
            return Err(RoundError::NotAPeer { index: peer });
        }
        if !check_public_nonce(&nonce) {
            return Err(RoundError::InvalidNonceFormat { index: peer });
        }
        let ghost before = self@;
        let mut next = self;
        match next.nonces.deliver(peer, nonce) {
            Err(_) => {
                return Err(RoundError::Inconsistent { index: peer });
            },
            Ok(()) => {},
        }
        next.phase = if next.nonces.is_complete() {
            RoundPhase::NoncesCollected
        } else {
            RoundPhase::NonceReady
        };
        assert(next@ == nonce_step(before, peer, nonce@)->Ok_0);
        Ok(next)
    }

    /// Ends the first round, once the nonces of all peers are in: signs the
    /// message with the secret key and records the partial signature.
    pub fn sign(self, secret_key: &SigningKey) -> (r: Result<SignerRound, RoundError>)
        requires
            self.wf(),
        ensures
            is_step(r, sign_step(self@, secret_key@)),
            r matches Ok(next) ==> next.partial_signatures()[next.index() as int] matches Some(
                signature,
            ) && signature.len() == 32,
    {
        if self.phase != RoundPhase::NoncesCollected {
            return Err(RoundError::InvalidTransition { phase: self.phase });
        }
        let nonces = self.nonces.collect();
        assert(byte_views(nonces@) =~= collected(self.nonces@));
        let signature = match first_round_sign(
            &self.context,
            self.seed,
            self.index,
            secret_key.as_bytes(),
            &self.message,
            &nonces,
        ) {
            Some(signature) => signature,
            None => {
                return Err(RoundError::FinalizeFailed);
            },
        };
        let ghost before = self@;
        let mut next = self;
        assert(next.partial_signatures@[next.index as int] is None);
        let delivered = next.partial_signatures.deliver(next.index, signature);
        assert(delivered is Ok);
        next.phase = RoundPhase::PartialSigReady;
        assert(next@ == sign_step(before, secret_key@)->Ok_0);
        Ok(next)
    }

    /// Takes in the partial signature of the peer at `peer`.
    pub fn deliver_partial_signature(self, peer: usize, signature: Vec<u8>) -> (r: Result<
        SignerRound,
        RoundError,
    >)
        requires
            self.wf(),
        ensures
            is_step(r, partial_signature_step(self@, peer, signature@)),
    {
        if self.phase != RoundPhase::PartialSigReady {
            return Err(RoundError::InvalidTransition { phase: self.phase });
        }
        if peer == self.index || peer >= self.partial_signatures.size() {
            return Err(RoundError::NotAPeer { index: peer });
        }
        if !check_partial_signature(&signature) {
            return Err(RoundError::InvalidPartialSignatureFormat { index: peer });
        }
        let held = match self.partial_signatures.get(peer) {
            Some(held) => !crate::bytes::bytes_eq(held, &signature),
            None => false,
        };
        if held {
            return Err(RoundError::Inconsistent { index: peer });
        }
        let nonces = self.nonces.collect();
        assert(byte_views(nonces@) =~= collected(self.nonces@));
        if !verify_partial_signature(&self.context, &nonces, &self.message, peer, &signature) {
            return Err(RoundError::Rejected { index: peer });
        }
        let ghost before = self@;
        let mut next = self;
        let delivered = next.partial_signatures.deliver(peer, signature);
        assert(delivered is Ok);
        assert(next@ == partial_signature_step(before, peer, signature@)->Ok_0);
        Ok(next)
    }

    /// Ends the second round, once the partial signatures of all peers are
    /// in: combines them into the final signature.
    pub fn finalize(self) -> (r: Result<SignerRound, RoundError>)
        requires
            self.wf(),
        ensures
            is_step(r, finalize_step(self@)),
            r matches Ok(next) ==> next.final_signature() matches Some(signature)
                && signature.len() == 64,
    {
        if self.phase != RoundPhase::PartialSigReady || !self.partial_signatures.is_complete() {
            return Err(RoundError::InvalidTransition { phase: self.phase });
        }
        let nonces = self.nonces.collect();
        assert(byte_views(nonces@) =~= collected(self.nonces@));
        let partial_signatures = self.partial_signatures.collect();
        assert(byte_views(partial_signatures@) =~= collected(self.partial_signatures@));
        let signature = match aggregate_signatures(
            &self.context,
            &nonces,
            &self.message,
            &partial_signatures,
        ) {
            Some(signature) => signature,
            None => {
                return Err(RoundError::FinalizeFailed);
            },
        };
        let ghost before = self@;
        let mut next = self;
        next.phase = RoundPhase::Finalized;
        next.final_signature = Some(signature);
        assert(next@ == finalize_step(before)->Ok_0);
        Ok(next)
    }

    /// Takes in the public nonce of a peer and, when it is the last one
    /// missing, signs at once.
    pub fn take_nonce(self, peer: usize, nonce: Vec<u8>, secret_key: &SigningKey) -> (r: Result<
        SignerRound,
        RoundError,
    >)
        requires
            self.wf(),
        ensures
            is_step(r, take_nonce_step(self@, peer, nonce@, secret_key@)),
    {
        match self.deliver_nonce(peer, nonce) {
            Err(e) => Err(e),
            Ok(next) => if next.current_phase() == RoundPhase::NoncesCollected {
                next.sign(secret_key)
            } else {
                Ok(next)
            },
        }
    }

    /// Takes in the partial signature of a peer and, when it is the last one
    /// missing, finalizes at once.
    pub fn take_partial_signature(self, peer: usize, signature: Vec<u8>) -> (r: Result<
        SignerRound,
        RoundError,
    >)
        requires
            self.wf(),
        ensures
            is_step(r, take_partial_signature_step(self@, peer, signature@)),
    {
        match self.deliver_partial_signature(peer, signature) {
            Err(e) => Err(e),
            Ok(next) => if next.is_complete() {
                next.finalize()
            } else {
                Ok(next)
            },
        }
    }
}

} // verus!
