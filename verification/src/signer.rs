//! A signer of the hub-mediated topology. The hub asks it for its public
//! nonce, hands it the nonces of all other signers for its partial
//! signature, and hands it their partial signatures for the final signature.
//! The signer keeps one round per session and never shows its private state.

use vstd::prelude::*;
use std::collections::HashMap;
use crate::bytes::bytes_copy;
use crate::crypto::{fresh_nonce_seed, public_key_of_secret};
use crate::error::CustomError;
use crate::hub::{message_bytes, message_to_bytes};
use crate::identity::{Identity, SigningKey};
use crate::round::{
    fresh_model,
    generate_step,
    finalize_step,
    nonce_step,
    partial_signature_step,
    sign_step,
    RoundError,
    RoundModel,
    RoundPhase,
    RoundTable,
    SignerRound,
};
use crate::text::{decimal, local_address, numbered};
use crate::types::{
    GenerateNonceRequest,
    NodeRegistration,
    ReceiveNoncesRequest,
    ReceiveNoncesResponse,
    ReceivePartialSignaturesRequest,
    ReceivePartialSignaturesResponse,
    SigningSession,
};

verus! {

broadcast use vstd::std_specs::hash::group_hash_axioms;

/// Why a signer turned a request down.
#[derive(Debug, Clone, Copy, PartialEq, Eq, Structural)]
pub enum SignerError {
    /// No session has been started at this signer.
    NoActiveSession,
    /// The signer holds no round of the right kind for the session.
    RoundNotFound,
    /// The request does not carry one contribution for each peer.
    WrongCount { expected: usize, found: usize },
    /// The request carries nothing from the peer at `index`.
    MissingContribution { index: usize },
    /// A step of the round failed.
    Round(RoundError),
}

/// Taking the nonces that a request carries into a round, peer by peer in
/// the order of the indices from `from` on. The first peer whose nonce is
/// missing, or is refused by the round, ends it.
pub open spec fn peer_nonces_step(
    m: RoundModel,
    carried: Map<usize, Vec<u8>>,
    from: usize,
    size: usize,
) -> Result<RoundModel, SignerError>
    decreases size - from,
{
    if from >= size {
        Ok(m)
    } else if from == m.index {
        peer_nonces_step(m, carried, (from + 1) as usize, size)
    } else if !carried.contains_key(from) {
        Err(SignerError::MissingContribution { index: from })
    } else {
        match nonce_step(m, from, carried[from]@) {
            Err(e) => Err(SignerError::Round(e)),
            Ok(next) => peer_nonces_step(next, carried, (from + 1) as usize, size),
        }
    }
}

/// Taking the partial signatures that a request carries into a round, peer
/// by peer in the order of the indices from `from` on. The first peer whose
/// partial signature is missing, or is refused by the round, ends it.
pub open spec fn peer_partial_signatures_step(
    m: RoundModel,
    carried: Map<usize, Vec<u8>>,
    from: usize,
    size: usize,
) -> Result<RoundModel, SignerError>
    decreases size - from,
{
    if from >= size {
        Ok(m)
    } else if from == m.index {
        peer_partial_signatures_step(m, carried, (from + 1) as usize, size)
    } else if !carried.contains_key(from) {
        Err(SignerError::MissingContribution { index: from })
    } else {
        match partial_signature_step(m, from, carried[from]@) {
            Err(e) => Err(SignerError::Round(e)),
            Ok(next) => peer_partial_signatures_step(next, carried, (from + 1) as usize, size),
        }
    }
}

/// The number of peers in a round of `size` signers.
pub open spec fn peers_in(size: nat) -> usize {
    if size == 0 {
        0
    } else {
        (size - 1) as usize
    }
}

/// Taking in the nonces of all peers and signing. The request must carry
/// exactly one nonce for each peer.
pub open spec fn collect_nonces_step(
    m: RoundModel,
    carried: Map<usize, Vec<u8>>,
    secret: Seq<u8>,
) -> Result<RoundModel, SignerError> {
    if carried.len() != peers_in(m.nonces.len()) {
        Err(
            SignerError::WrongCount {
                expected: peers_in(m.nonces.len()),
                found: carried.len() as usize,
            },
        )
    } else {
        match peer_nonces_step(m, carried, 0, m.nonces.len() as usize) {
            Err(e) => Err(e),
            Ok(next) => match sign_step(next, secret) {
                Err(e) => Err(SignerError::Round(e)),
                Ok(signed) => Ok(signed),
            },
        }
    }
}

/// Taking in the partial signatures of all peers and finalizing. The request
/// must carry exactly one partial signature for each peer.
pub open spec fn collect_partial_signatures_step(
    m: RoundModel,
    carried: Map<usize, Vec<u8>>,
) -> Result<RoundModel, SignerError> {
    if carried.len() != peers_in(m.nonces.len()) {
        Err(
            SignerError::WrongCount {
                expected: peers_in(m.nonces.len()),
                found: carried.len() as usize,
            },
        )
    } else {
        match peer_partial_signatures_step(m, carried, 0, m.nonces.len() as usize) {
            Err(e) => Err(e),
            Ok(next) => match finalize_step(next) {
                Err(e) => Err(SignerError::Round(e)),
                Ok(finalized) => Ok(finalized),
            },
        }
    }
}

/// Whether the result `r` of collecting is what collecting makes of the
/// round.
pub open spec fn is_collected(
    r: Result<SignerRound, SignerError>,
    expected: Result<RoundModel, SignerError>,
) -> bool {
    match expected {
        Ok(m) => r matches Ok(next) && next@ == m && next.wf(),
        Err(e) => r matches Err(x) && x == e,
    }
}

/// Takes the nonces of all peers into a round, in the order of the indices,
/// and signs.
pub fn collect_nonces(
    round: SignerRound,
    nonces: &HashMap<usize, Vec<u8>>,
    secret_key: &SigningKey,
) -> (r: Result<SignerRound, SignerError>)
    requires
        round.wf(),
    ensures
        is_collected(r, collect_nonces_step(round@, nonces@, secret_key@)),
        r matches Ok(next) ==> next.partial_signatures()[next.index() as int] matches Some(
            signature,
        ) && signature.len() == 32,
{
    let size = round.signers();
    let expected = if size == 0 {
        0
    } else {
        size - 1
    };
    if nonces.len() != expected {
        return Err(SignerError::WrongCount { expected, found: nonces.len() });
    }
    let mut current = round;
    let mut i: usize = 0;
    while i < size
        invariant
            i <= size,
            size == round.size(),
            current.wf(),
            current.size() == size,
            nonces@.len() == peers_in(round@.nonces.len()),
            peer_nonces_step(round@, nonces@, 0, size) == peer_nonces_step(
                current@,
                nonces@,
                i,
                size,
            ),
        decreases size - i,
    {
        if i != current.own_index() {
            let nonce = match nonces.get(&i) {
                Some(nonce) => bytes_copy(nonce),
                None => {
                    return Err(SignerError::MissingContribution { index: i });
                },
            };
            match current.deliver_nonce(i, nonce) {
                Ok(next) => {
                    current = next;
                },
                Err(e) => {
                    return Err(SignerError::Round(e));
                },
            }
        }
        i += 1;
    }
    match current.sign(secret_key) {
        Ok(next) => Ok(next),
        Err(e) => Err(SignerError::Round(e)),
    }
}

/// Takes the partial signatures of all peers into a round, in the order of
/// the indices, and finalizes.
pub fn collect_partial_signatures(
    round: SignerRound,
    partial_signatures: &HashMap<usize, Vec<u8>>,
) -> (r: Result<SignerRound, SignerError>)
    requires
        round.wf(),
    ensures
        is_collected(r, collect_partial_signatures_step(round@, partial_signatures@)),
        r matches Ok(next) ==> next.final_signature() matches Some(signature) && signature.len()
            == 64,
{
    let size = round.signers();
    let expected = if size == 0 {
        0
    } else {
        size - 1
    };
    if partial_signatures.len() != expected {
        return Err(SignerError::WrongCount { expected, found: partial_signatures.len() });
    }
    let mut current = round;
    let mut i: usize = 0;
    while i < size
        invariant
            i <= size,
            size == round.size(),
            current.wf(),
            current.size() == size,
            partial_signatures@.len() == peers_in(round@.nonces.len()),
            peer_partial_signatures_step(round@, partial_signatures@, 0, size)
                == peer_partial_signatures_step(current@, partial_signatures@, i, size),
        decreases size - i,
    {
        if i != current.own_index() {
            let signature = match partial_signatures.get(&i) {
                Some(signature) => bytes_copy(signature),
                None => {
                    return Err(SignerError::MissingContribution { index: i });
                },
            };
            match current.deliver_partial_signature(i, signature) {
                Ok(next) => {
                    current = next;
                },
                Err(e) => {
                    return Err(SignerError::Round(e));
                },
            }
        }
        i += 1;
    }
    match current.finalize() {
        Ok(next) => Ok(next),
        Err(e) => Err(SignerError::Round(e)),
    }
}

/// A signer: its keys, where it and the hub are reached, the session that
/// was started last, and the rounds of its sessions.
pub struct Signer {
    operator_url: String,
    url: String,
    secret_key: SigningKey,
    public_key: Identity,
    session: Option<SigningSession>,
    rounds: RoundTable,
}

/// What a signer's nonce request leaves behind, given the seed that was
/// drawn for it. A session that has a round already is not entered again:
/// the request is refused and nothing changes. Otherwise the round is made;
/// on success the session is remembered, the round is kept under the session
/// id, and its public nonce is returned; on failure nothing changes.
pub open spec fn nonce_generated(
    pre: Signer,
    request: GenerateNonceRequest,
    seed: Seq<u8>,
    post: Signer,
    r: Result<Vec<u8>, SignerError>,
) -> bool {
    let id = request.session_id@;
    &&& post.same_keys(pre)
    &&& if pre.rounds().contains_key(id) {
        &&& r matches Err(e)
        &&& e == SignerError::Round(
            RoundError::InvalidTransition { phase: pre.rounds()[id].phase() },
        )
        &&& post.session() == pre.session()
        &&& post.rounds() == pre.rounds()
    } else {
        match generate_step(
            fresh_model(seed),
            request.key_agg_ctx@,
            request.signer_index,
            pre.secret(),
            message_bytes(request.message@),
        ) {
            Err(e) => {
                &&& r matches Err(x)
                &&& x == SignerError::Round(e)
                &&& post.session() == pre.session()
                &&& post.rounds() == pre.rounds()
            },
            Ok(m) => {
                &&& r matches Ok(nonce)
                &&& m.nonces[m.index as int] == Some(nonce@)
                &&& nonce@.len() == 66
                &&& post.session() matches Some(session)
                &&& session.session_id@ == request.session_id@
                &&& session.message@ == request.message@
                &&& session.key_agg_ctx@ == request.key_agg_ctx@
                &&& post.rounds().contains_key(id)
                &&& post.rounds()[id]@ == m
                &&& post.rounds().remove(id) == pre.rounds()
            },
        }
    }
}

/// Whether a round waits for the nonces of its peers.
pub open spec fn awaits_nonces(round: SignerRound) -> bool {
    round.phase() == RoundPhase::NonceReady || round.phase() == RoundPhase::NoncesCollected
}

/// What a delivery of peer nonces leaves behind. Without a session, or
/// without a round that waits for nonces under the session id, nothing
/// changes. Otherwise the round is taken up: on success the signed round is
/// kept in its place and its partial signature is returned; on failure the
/// round is gone.
pub open spec fn nonces_received(
    pre: Signer,
    request: ReceiveNoncesRequest,
    post: Signer,
    r: Result<ReceiveNoncesResponse, SignerError>,
) -> bool {
    let id = request.session_id@;
    &&& post.same_keys(pre)
    &&& post.session() == pre.session()
    &&& if pre.session() is None {
        &&& r matches Err(e)
        &&& e == SignerError::NoActiveSession
        &&& post.rounds() == pre.rounds()
    } else if !pre.rounds().contains_key(id) || !awaits_nonces(pre.rounds()[id]) {
        &&& r matches Err(e)
        &&& e == SignerError::RoundNotFound
        &&& post.rounds() == pre.rounds()
    } else {
        &&& post.rounds().remove(id) == pre.rounds().remove(id)
        &&& match collect_nonces_step(pre.rounds()[id]@, request.nonces@, pre.secret()) {
            Err(e) => {
                &&& r matches Err(x)
                &&& x == e
                &&& !post.rounds().contains_key(id)
            },
            Ok(m) => {
                &&& r matches Ok(response)
                &&& m.partial_signatures[m.index as int] == Some(response.partial_signature@)
                &&& response.partial_signature@.len() == 32
                &&& post.rounds().contains_key(id)
                &&& post.rounds()[id]@ == m
            },
        }
    }
}

/// What a delivery of peer partial signatures leaves behind. Without a
/// round that waits for partial signatures under the session id, nothing
/// changes. Otherwise the round is taken up and is gone afterwards: on
/// success it was finalized, and its final signature is returned.
pub open spec fn partial_signatures_received(
    pre: Signer,
    request: ReceivePartialSignaturesRequest,
    post: Signer,
    r: Result<ReceivePartialSignaturesResponse, SignerError>,
) -> bool {
    let id = request.session_id@;
    &&& post.same_keys(pre)
    &&& post.session() == pre.session()
    &&& if !pre.rounds().contains_key(id) || pre.rounds()[id].phase()
        != RoundPhase::PartialSigReady {
        &&& r matches Err(e)
        &&& e == SignerError::RoundNotFound
        &&& post.rounds() == pre.rounds()
    } else {
        &&& post.rounds() == pre.rounds().remove(id)
        &&& match collect_partial_signatures_step(
            pre.rounds()[id]@,
            request.partial_signatures@,
        ) {
            Err(e) => r matches Err(x) && x == e,
            Ok(m) => {
                &&& r matches Ok(response)
                &&& m.final_signature == Some(response.final_signature@)
                &&& response.final_signature@.len() == 64
            },
        }
    }
}

impl Signer {
    /// Where the hub is reached.
    pub closed spec fn operator_url(&self) -> Seq<char> {
        self.operator_url@
    }

    /// Where the signer is reached.
    pub closed spec fn url(&self) -> Seq<char> {
        self.url@
    }

    /// The signer's public identity.
    pub closed spec fn public_key(&self) -> Seq<u8> {
        self.public_key@
    }

    /// The signer's secret key.
    pub closed spec fn secret(&self) -> Seq<u8> {
        self.secret_key@
    }

    /// The session that was started last, if any.
    pub closed spec fn session(&self) -> Option<SigningSession> {
        self.session
    }

    /// The rounds of the sessions, by session id.
    pub closed spec fn rounds(&self) -> Map<Seq<char>, SignerRound> {
        self.rounds@
    }

    /// Whether the keys and the addresses are those of `before`.
    pub open spec fn same_keys(&self, before: Signer) -> bool {
        &&& self.operator_url() == before.operator_url()
        &&& self.url() == before.url()
        &&& self.public_key() == before.public_key()
        &&& self.secret() == before.secret()
    }

    /// What holds of every signer: its identity belongs to its secret key,
    /// and each kept round is well formed and has made its nonce.
    pub closed spec fn wf(&self) -> bool {
        &&& self.rounds.wf()
        &&& self.public_key@ == public_key_of_secret(self.secret_key@)
        &&& forall|id: Seq<char>| #[trigger]
            self.rounds@.contains_key(id) ==> self.rounds@[id].wf() && self.rounds@[id].phase()
                != RoundPhase::Fresh
    }

    /// The signer's identity belongs to its secret key, and every kept round
    /// is well formed and has made its nonce.
    pub proof fn lemma_wf(&self, id: Seq<char>)
        requires
            self.wf(),
        ensures
            self.public_key() == public_key_of_secret(self.secret()),
            self.rounds().contains_key(id) ==> self.rounds()[id].wf() && self.rounds()[id].phase()
                != RoundPhase::Fresh,
    {
    }

    /// A signer on the given port of this machine, with freshly drawn keys,
    /// no session and no round.
    pub fn new(operator_url: String, port: u16) -> (r: Signer)
        ensures
            r.wf(),
            r.operator_url() == operator_url@,
            r.url() == "http://127.0.0.1:"@ + decimal(port as nat),
            r.public_key() == public_key_of_secret(r.secret()),
            r.session() is None,
            r.rounds() == Map::<Seq<char>, SignerRound>::empty(),
    {
        Signer::with_key(operator_url, port, SigningKey::generate())
    }

    /// A signer on the given port of this machine with the given secret key,
    /// no session and no round.
    pub fn with_key(operator_url: String, port: u16, secret_key: SigningKey) -> (r: Signer)
        ensures
            r.wf(),
            r.operator_url() == operator_url@,
            r.url() == "http://127.0.0.1:"@ + decimal(port as nat),
            r.secret() == secret_key@,
            r.public_key() == public_key_of_secret(secret_key@),
            r.session() is None,
            r.rounds() == Map::<Seq<char>, SignerRound>::empty(),
    {
        let public_key = Identity::of_secret_key(&secret_key);
        Signer {
            operator_url,
            url: local_address("http://127.0.0.1:", port),
            secret_key,
            public_key,
            session: None,
            rounds: RoundTable::new(),
        }
    }

    /// The signer's public identity.
    pub fn identity(&self) -> (r: &Identity)
        ensures
            r@ == self.public_key(),
    {
        &self.public_key
    }

    /// Where the hub is reached.
    pub fn operator_address(&self) -> (r: &String)
        ensures
            r@ == self.operator_url(),
    {
        &self.operator_url
    }

    /// The registration that the signer sends to the hub: its address and
    /// its public identity.
    pub fn register(&self) -> (r: NodeRegistration)
        ensures
            r.address@ == self.url(),
            r.public_key@ == self.public_key(),
    {
        NodeRegistration { address: self.url.clone(), public_key: self.public_key.clone() }
    }

    /// Answers the hub's request for a nonce with the given seed.
    pub fn generate_nonce(&mut self, request: GenerateNonceRequest, seed: [u8; 32]) -> (r: Result<
        Vec<u8>,
        SignerError,
    >)
        requires
            old(self).wf(),
        ensures
            final(self).wf(),
            nonce_generated(*old(self), request, seed@, *final(self), r),
    {
        match self.rounds.get(&request.session_id) {
            Some(kept) => {
                return Err(
                    SignerError::Round(RoundError::InvalidTransition { phase: kept.current_phase() }),
                );
            },
            None => {},
        }
        let message = message_to_bytes(&request.message);
        let generated = SignerRound::fresh(seed).generate(
            &request.key_agg_ctx,
            request.signer_index,
            &self.secret_key,
            message,
        );
        match generated {
            Err(e) => Err(SignerError::Round(e)),
            Ok(round) => {
                let nonce = match round.public_nonce() {
                    Some(nonce) => bytes_copy(nonce),
                    None => Vec::new(),
                };
                let ghost before = self.rounds@;
                self.rounds.insert(request.session_id.clone(), round);
                self.session = Some(
                    SigningSession {
                        session_id: request.session_id,
                        message: request.message,
                        key_agg_ctx: request.key_agg_ctx,
                    },
                );
                assert(self.rounds@.remove(request.session_id@) =~= before);
                Ok(nonce)
            },
        }
    }

    /// Answers the hub's request for a nonce: draws a fresh seed, sets up
    /// the round of the session and returns its public nonce. A seed is
    /// never used for two rounds.
    pub fn handle_generate_nonce(&mut self, request: GenerateNonceRequest) -> (r: Result<
        Vec<u8>,
        SignerError,
    >)
        requires
            old(self).wf(),
        ensures
            final(self).wf(),
            exists|seed: Seq<u8>| #[trigger]
                nonce_generated(*old(self), request, seed, *final(self), r),
    {
        let seed = fresh_nonce_seed();
        self.generate_nonce(request, seed)
    }

    /// Takes in the nonces of all other signers and answers with the
    /// signer's partial signature.
    pub fn handle_receive_nonces(&mut self, request: ReceiveNoncesRequest) -> (r: Result<
        ReceiveNoncesResponse,
        SignerError,
    >)
        requires
            old(self).wf(),
        ensures
            final(self).wf(),
            nonces_received(*old(self), request, *final(self), r),
    {
        if self.session.is_none() {
            return Err(SignerError::NoActiveSession);
        }
        let waiting = match self.rounds.get(&request.session_id) {
            Some(round) => round.current_phase() == RoundPhase::NonceReady
                || round.current_phase() == RoundPhase::NoncesCollected,
            None => false,
        };
        if !waiting {
            return Err(SignerError::RoundNotFound);
        }
        let round = match self.rounds.remove(&request.session_id) {
            Some(round) => round,
            None => {
                return Err(SignerError::RoundNotFound);
            },
        };
        assert(self.rounds@.remove(request.session_id@) =~= self.rounds@);
        match collect_nonces(round, &request.nonces, &self.secret_key) {
            Err(e) => Err(e),
            Ok(next) => {
                let partial_signature = match next.partial_signature() {
                    Some(signature) => bytes_copy(signature),
                    None => Vec::new(),
                };
                let ghost before = self.rounds@;
                self.rounds.insert(request.session_id.clone(), next);
                assert(self.rounds@.remove(request.session_id@) =~= before);
                Ok(ReceiveNoncesResponse { partial_signature })
            },
        }
    }

    /// Takes in the partial signatures of all other signers and answers with
    /// the final signature as this signer computes it.
    pub fn handle_receive_partial_signatures(
        &mut self,
        request: ReceivePartialSignaturesRequest,
    ) -> (r: Result<ReceivePartialSignaturesResponse, SignerError>)
        requires
            old(self).wf(),
        ensures
            final(self).wf(),
            partial_signatures_received(*old(self), request, *final(self), r),
    {
        let waiting = match self.rounds.get(&request.session_id) {
            Some(round) => round.current_phase() == RoundPhase::PartialSigReady,
            None => false,
        };
        if !waiting {
            return Err(SignerError::RoundNotFound);
        }
        let round = match self.rounds.remove(&request.session_id) {
            Some(round) => round,
            None => {
                return Err(SignerError::RoundNotFound);
            },
        };
        match collect_partial_signatures(round, &request.partial_signatures) {
            Err(e) => Err(e),
            Ok(finalized) => {
                let final_signature = match finalized.signature() {
                    Some(signature) => bytes_copy(signature),
                    None => Vec::new(),
                };
                Ok(ReceivePartialSignaturesResponse { final_signature })
            },
        }
    }
}

/// What a signer tells the hub when it could not take in the nonces.
pub open spec fn nonces_failure_text(e: SignerError) -> Seq<char> {
    match e {
        SignerError::NoActiveSession => "No active session found"@,
        SignerError::RoundNotFound => "First round not found"@,
        SignerError::Round(RoundError::InvalidNonceFormat { index }) => "Invalid nonce format"@,
        SignerError::Round(RoundError::Rejected { index }) =>
            "Failed to receive nonce from index "@ + decimal(index as nat),
        SignerError::MissingContribution { index } => "Missing nonce from index "@ + decimal(
            index as nat,
        ),
        _ => "Failed to finalize first round"@,
    }
}

/// What a signer tells the hub when it could not take in the partial
/// signatures.
pub open spec fn partial_signatures_failure_text(e: SignerError) -> Seq<char> {
    match e {
        SignerError::RoundNotFound => "Second round not found"@,
        SignerError::Round(RoundError::InvalidPartialSignatureFormat { index }) =>
            "Failed to receive partial signature from index "@ + decimal(index as nat),
        SignerError::Round(RoundError::Rejected { index }) =>
            "Failed to receive partial signature from index "@ + decimal(index as nat),
        SignerError::MissingContribution { index } => "Missing partial signature from index "@
            + decimal(index as nat),
        _ => "Failed to finalize signature"@,
    }
}

impl SignerError {
    /// The failure to make a nonce, in words for the hub.
    pub fn describe_generate_nonce(&self) -> (r: CustomError)
        ensures
            r.0@ == "Failed to generate nonce"@,
    {
        CustomError("Failed to generate nonce".to_owned())
    }

    /// The failure to take in the nonces, in words for the hub. A peer whose
    /// contribution is at fault is named by its index.
    pub fn describe_receive_nonces(&self) -> (r: CustomError)
        ensures
            r.0@ == nonces_failure_text(*self),
    {
        match self {
            SignerError::NoActiveSession => CustomError("No active session found".to_owned()),
            SignerError::RoundNotFound => CustomError("First round not found".to_owned()),
            SignerError::Round(RoundError::InvalidNonceFormat { index }) => CustomError(
                "Invalid nonce format".to_owned(),
            ),
            SignerError::Round(RoundError::Rejected { index }) => CustomError(
                numbered("Failed to receive nonce from index ", *index),
            ),
            SignerError::MissingContribution { index } => CustomError(
                numbered("Missing nonce from index ", *index),
            ),
            _ => CustomError("Failed to finalize first round".to_owned()),
        }
    }

    /// The failure to take in the partial signatures, in words for the hub.
    /// A peer whose contribution is at fault is named by its index.
    pub fn describe_receive_partial_signatures(&self) -> (r: CustomError)
        ensures
            r.0@ == partial_signatures_failure_text(*self),
    {
        match self {
            SignerError::RoundNotFound => CustomError("Second round not found".to_owned()),
            SignerError::Round(RoundError::InvalidPartialSignatureFormat { index }) => CustomError(
                numbered("Failed to receive partial signature from index ", *index),
            ),
            SignerError::Round(RoundError::Rejected { index }) => CustomError(
                numbered("Failed to receive partial signature from index ", *index),
            ),
            SignerError::MissingContribution { index } => CustomError(
                numbered("Missing partial signature from index ", *index),
            ),
            _ => CustomError("Failed to finalize signature".to_owned()),
        }
    }
}

} // verus!
