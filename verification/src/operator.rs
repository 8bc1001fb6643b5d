//! The coordinating party of the hub-mediated topology: it keeps the
//! registry of signers and starts signing sessions among them.

use vstd::prelude::*;
use crate::barrier::untouched;
use crate::hub::{is_nonce_request, HubAction, HubPhase, HubSession};
use crate::registry::{
    record_identities,
    same_records,
    ParticipantRecord,
    RegistrationError,
    Registry,
    MAX_PARTICIPANTS,
};
use crate::session::{context_of, copy_session, create_session, AggregationError};
use crate::types::{NodeRegistration, SigningInitiateRequest, SigningSession};

verus! {

/// The coordinating party.
pub struct Operator {
    port: u16,
    signers: Registry,
    session: Option<SigningSession>,
}

/// What starting the signing of a message leaves behind: on success the
/// hub's state for the new session, which is remembered, and the nonce
/// request for each signer in the order of the indices; on failure nothing.
pub open spec fn signing_started(
    before: Operator,
    request: SigningInitiateRequest,
    after: Operator,
    r: Result<(HubSession, Vec<HubAction>), AggregationError>,
) -> bool {
    &&& after.spec_port() == before.spec_port()
    &&& after.signers() == before.signers()
    &&& match r {
        Ok((hub, actions)) => {
            &&& hub.wf()
            &&& hub.phase() == HubPhase::CollectingNonces
            &&& untouched(hub.nonces())
            &&& same_records(hub.participants(), after.signers())
            &&& hub.session().message == request.message
            &&& context_of(record_identities(after.signers())) == Ok::<Seq<u8>, AggregationError>(
                hub.session().key_agg_ctx@,
            )
            &&& after.session() matches Some(kept)
            &&& kept.session_id == hub.session().session_id
            &&& kept.message == hub.session().message
            &&& kept.key_agg_ctx@ == hub.session().key_agg_ctx@
            &&& actions@.len() == hub.participants().len()
            &&& forall|i: int|
                0 <= i < actions@.len() ==> is_nonce_request(
                    #[trigger] actions@[i],
                    hub.session(),
                    hub.participants()[i],
                )
        },
        Err(e) => {
            &&& context_of(record_identities(after.signers())) == Err::<Seq<u8>, AggregationError>(
                e,
            )
            &&& e == AggregationError::EmptyIdentitySet || e
                == AggregationError::KeysDoNotAggregate
            &&& after.session() == before.session()
        },
    }
}

/// Why no session was started.
#[derive(Debug, Clone, Copy, PartialEq, Eq, Structural)]
pub enum StartError {
    /// Not exactly the expected number of signers is registered.
    NotReady { registered: usize, expected: usize },
    /// No aggregation context could be built.
    Aggregation(AggregationError),
}

impl Operator {
    /// The port that the operator listens on.
    pub closed spec fn spec_port(&self) -> u16 {
        self.port
    }

    /// The registered signers, in the order of their indices.
    pub closed spec fn signers(&self) -> Seq<ParticipantRecord> {
        self.signers@
    }

    /// The session that was started last, if any.
    pub closed spec fn session(&self) -> Option<SigningSession> {
        self.session
    }

    /// What holds of every operator: its registry is in order.
    pub closed spec fn wf(&self) -> bool {
        &&& self.signers.wf()
        &&& self.signers.spec_capacity() == MAX_PARTICIPANTS
    }

    /// In every operator the signers stand at their indices, no identity is
    /// registered twice, and there are no more signers than one aggregation
    /// context can hold.
    pub proof fn lemma_wf(&self)
        requires
            self.wf(),
        ensures
            crate::registry::canonical_records(self.signers()),
            self.signers().len() <= MAX_PARTICIPANTS,
    {
        self.signers.lemma_wf();
    }

    /// An operator for the given port, with no signer and no session.
    pub fn new(port: u16) -> (r: Operator)
        ensures
            r.wf(),
            r.spec_port() == port,
            r.signers().len() == 0,
            r.session() is None,
    {
        Operator { port, signers: Registry::new(MAX_PARTICIPANTS), session: None }
    }

    /// The port that the operator listens on.
    pub fn port(&self) -> (r: u16)
        ensures
            r == self.spec_port(),
    {
        self.port
    }

    /// The number of registered signers.
    pub fn signer_count(&self) -> (r: usize)
        ensures
            r == self.signers().len(),
    {
        self.signers.len()
    }

    /// Registers a signer under the next index and returns that index. An
    /// identity that is registered already is refused.
    pub fn register_signer(&mut self, registration: NodeRegistration) -> (r: Result<
        usize,
        RegistrationError,
    >)
        requires
            old(self).wf(),
        ensures
            final(self).wf(),
            final(self).spec_port() == old(self).spec_port(),
            final(self).session() == old(self).session(),
            match r {
                Ok(index) => {
                    &&& index == old(self).signers().len()
                    &&& !record_identities(old(self).signers()).contains(
                        registration.public_key@,
                    )
                    &&& old(self).signers().len() < MAX_PARTICIPANTS
                    &&& final(self).signers() == old(self).signers().push(
                        ParticipantRecord {
                            index,
                            identity: registration.public_key,
                            address: registration.address,
                        },
                    )
                },
                Err(RegistrationError::DuplicateIdentity) => {
                    &&& record_identities(old(self).signers()).contains(registration.public_key@)
                    &&& final(self).signers() == old(self).signers()
                },
                Err(RegistrationError::RegistryFull) => {
                    &&& !record_identities(old(self).signers()).contains(
                        registration.public_key@,
                    )
                    &&& old(self).signers().len() >= MAX_PARTICIPANTS
                    &&& final(self).signers() == old(self).signers()
                },
            },
    {
        self.signers.register(registration.public_key, registration.address)
    }

    /// Starts the signing of a message among the registered signers, in the
    /// order of their indices: builds the aggregation context, makes the
    /// session under a fresh id, remembers it, and returns the hub's state
    /// for it together with the nonce request for each signer. Where no
    /// context can be built, nothing is asked of any signer and the operator
    /// is left as it was.
    pub fn sign_message(&mut self, request: SigningInitiateRequest) -> (r: Result<
        (HubSession, Vec<HubAction>),
        AggregationError,
    >)
        requires
            old(self).wf(),
        ensures
            final(self).wf(),
            signing_started(*old(self), request, *final(self), r),
    {
        proof {
            self.signers.lemma_wf();
        }
        let identities = self.signers.identities();
        match create_session(request.message, &identities) {
            Err(e) => Err(e),
            Ok(session) => {
                self.session = Some(copy_session(&session));
                let participants = self.signers.records();
                Ok(HubSession::begin(session, participants))
            },
        }
    }

    /// Starts the signing of a message once exactly `expected_signers` are
    /// registered: aggregation does not start before, and not with more.
    pub fn sign_message_among(
        &mut self,
        request: SigningInitiateRequest,
        expected_signers: usize,
    ) -> (r: Result<(HubSession, Vec<HubAction>), StartError>)
        requires
            old(self).wf(),
        ensures
            final(self).wf(),
            match r {
                Ok(started) => {
                    &&& old(self).signers().len() == expected_signers
                    &&& signing_started(
                        *old(self),
                        request,
                        *final(self),
                        Ok::<(HubSession, Vec<HubAction>), AggregationError>(started),
                    )
                },
                Err(StartError::NotReady { registered, expected }) => {
                    &&& registered == old(self).signers().len()
                    &&& expected == expected_signers
                    &&& registered != expected
                    &&& final(self).spec_port() == old(self).spec_port()
                    &&& final(self).signers() == old(self).signers()
                    &&& final(self).session() == old(self).session()
                },
                Err(StartError::Aggregation(e)) => {
                    &&& old(self).signers().len() == expected_signers
                    &&& signing_started(
                        *old(self),
                        request,
                        *final(self),
                        Err::<(HubSession, Vec<HubAction>), AggregationError>(e),
                    )
                },
            },
    {
        if !self.signers.is_ready(expected_signers) {
            return Err(
                StartError::NotReady { registered: self.signers.len(), expected: expected_signers },
            );
        }
        match self.sign_message(request) {
            Ok(started) => Ok(started),
            Err(e) => Err(StartError::Aggregation(e)),
        }
    }
}

} // verus!
