//! The requests and replies that cross the network between the coordinating
//! hub and the signers. Keys, contexts, nonces and signatures travel in their
//! serialized form.

use vstd::prelude::*;
use std::collections::HashMap;
use crate::identity::Identity;

verus! {

/// A signer's registration with the hub.
pub struct NodeRegistration {
    pub address: String,
    pub public_key: Identity,
}

/// A request to the hub to have a message signed.
#[derive(Debug)]
pub struct SigningInitiateRequest {
    pub message: String,
}

/// What identifies one signing session to all its participants.
#[derive(Debug)]
pub struct SigningSession {
    pub session_id: String,
    pub message: String,
    pub key_agg_ctx: Vec<u8>,
}

/// The hub's request to the signer at `signer_index` for its public nonce.
#[derive(Debug)]
pub struct GenerateNonceRequest {
    pub session_id: String,
    pub message: String,
    pub key_agg_ctx: Vec<u8>,
    pub signer_index: usize,
}

/// The hub's reply to the initiator of a signing session.
#[derive(Debug)]
pub struct SigningInitiateResponse {
    pub session_id: String,
    pub aggregated_pubkey: Vec<u8>,
    pub aggregated_signature: Vec<u8>,
    pub is_signature_valid: bool,
}

/// The public nonces of all other signers, by signer index.
#[derive(Debug)]
pub struct ReceiveNoncesRequest {
    pub session_id: String,
    pub nonces: HashMap<usize, Vec<u8>>,
}

/// A signer's partial signature.
#[derive(Debug)]
pub struct ReceiveNoncesResponse {
    pub partial_signature: Vec<u8>,
}

/// The partial signatures of all other signers, by signer index.
#[derive(Debug)]
pub struct ReceivePartialSignaturesRequest {
    pub session_id: String,
    pub partial_signatures: HashMap<usize, Vec<u8>>,
}

/// The final signature as one signer computed it.
#[derive(Debug)]
pub struct ReceivePartialSignaturesResponse {
    pub final_signature: Vec<u8>,
}

} // verus!
