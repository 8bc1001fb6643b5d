//! What a participant of the peer-to-peer topology has gathered so far.

use vstd::prelude::*;
use crate::identity::Identity;
use crate::round::SignerRound;

verus! {

/// What one participant has gathered: the identities of its peers, each
/// with the port of the sender that announced it, the nonces and partial
/// signatures that it has handed out, the addresses of the peers it is
/// connected to, and its own round once the identities of all peers are in.
/// The contributions of the peers are kept in the round, each under the
/// index of its sender.
pub struct SharedState {
    pub own_public_key: Identity,
    pub public_keys: Vec<Identity>,
    pub senders: Vec<u16>,
    pub nonces: Vec<Vec<u8>>,
    pub partial_signatures: Vec<Vec<u8>>,
    pub num_of_signers: usize,
    pub active_connections: Vec<String>,
    pub first_round: Option<SignerRound>,
}

/// The texts of a sequence of strings, in the same order.
pub open spec fn texts(s: Seq<String>) -> Seq<Seq<char>> {
    s.map_values(|t: String| t@)
}

impl SharedState {
    /// A state with nothing gathered, for a group of `num_of_signers`.
    pub fn new(own_public_key: Identity, num_of_signers: usize) -> (r: SharedState)
        ensures
            r.own_public_key == own_public_key,
            r.num_of_signers == num_of_signers,
            r.public_keys@.len() == 0,
            r.senders@.len() == 0,
            r.nonces@.len() == 0,
            r.partial_signatures@.len() == 0,
            r.active_connections@.len() == 0,
            r.first_round is None,
    {
        SharedState {
            own_public_key,
            public_keys: Vec::new(),
            senders: Vec::new(),
            nonces: Vec::new(),
            partial_signatures: Vec::new(),
            num_of_signers,
            active_connections: Vec::new(),
            first_round: None,
        }
    }

    /// Records the identity of a peer.
    pub fn add_public_key(&mut self, key: Identity)
        ensures
            final(self).public_keys@ == old(self).public_keys@.push(key),
            final(self).own_public_key == old(self).own_public_key,
            final(self).nonces == old(self).nonces,
            final(self).partial_signatures == old(self).partial_signatures,
            final(self).num_of_signers == old(self).num_of_signers,
            final(self).active_connections == old(self).active_connections,
            final(self).first_round == old(self).first_round,
            final(self).senders == old(self).senders,
    {
        self.public_keys.push(key);
    }

    /// Records a public nonce.
    pub fn add_nonce(&mut self, nonce: Vec<u8>)
        ensures
            final(self).nonces@ == old(self).nonces@.push(nonce),
            final(self).own_public_key == old(self).own_public_key,
            final(self).public_keys == old(self).public_keys,
            final(self).partial_signatures == old(self).partial_signatures,
            final(self).num_of_signers == old(self).num_of_signers,
            final(self).active_connections == old(self).active_connections,
            final(self).first_round == old(self).first_round,
            final(self).senders == old(self).senders,
    {
        self.nonces.push(nonce);
    }

    /// Records a partial signature.
    pub fn add_partial_signature(&mut self, sig: Vec<u8>)
        ensures
            final(self).partial_signatures@ == old(self).partial_signatures@.push(sig),
            final(self).own_public_key == old(self).own_public_key,
            final(self).public_keys == old(self).public_keys,
            final(self).nonces == old(self).nonces,
            final(self).num_of_signers == old(self).num_of_signers,
            final(self).active_connections == old(self).active_connections,
            final(self).first_round == old(self).first_round,
            final(self).senders == old(self).senders,
    {
        self.partial_signatures.push(sig);
    }

    /// Records the connection to the peer at `address`, unless a connection
    /// to that address is recorded already. Returns whether it was recorded.
    pub fn add_connection(&mut self, address: String) -> (r: bool)
        ensures
            r == !texts(old(self).active_connections@).contains(address@),
            r ==> final(self).active_connections@ == old(self).active_connections@.push(address),
            !r ==> final(self).active_connections@ == old(self).active_connections@,
            final(self).own_public_key == old(self).own_public_key,
            final(self).public_keys == old(self).public_keys,
            final(self).nonces == old(self).nonces,
            final(self).partial_signatures == old(self).partial_signatures,
            final(self).num_of_signers == old(self).num_of_signers,
            final(self).first_round == old(self).first_round,
            final(self).senders == old(self).senders,
    {
        let mut i: usize = 0;
        while i < self.active_connections.len()
            invariant
                i <= self.active_connections@.len(),
                self.active_connections == old(self).active_connections,
                forall|k: int| 0 <= k < i ==> self.active_connections@[k]@ != address@,
            decreases self.active_connections@.len() - i,
        {
            if self.active_connections[i] == address {
                assert(texts(self.active_connections@)[i as int] == address@);
                return false;
            }
            i += 1;
        }
        assert(!texts(self.active_connections@).contains(address@)) by {
            if texts(self.active_connections@).contains(address@) {
                let k = choose|k: int|
                    0 <= k < texts(self.active_connections@).len() && texts(
                        self.active_connections@,
                    )[k] == address@;
                assert(self.active_connections@[k]@ == address@);
            }
        }
        self.active_connections.push(address);
        true
    }

    /// Whether the identities of all peers are in: one less than there are
    /// signers.
    pub fn public_keys_received(&self) -> (r: bool)
        ensures
            r == (self.public_keys@.len() == self.num_of_signers - 1),
    {
        self.num_of_signers > 0 && self.public_keys.len() == self.num_of_signers - 1
    }

    /// Whether the nonces of all peers are in: one less than there are
    /// signers.
    pub fn nonces_received(&self) -> (r: bool)
        ensures
            r == (self.nonces@.len() == self.num_of_signers - 1),
    {
        self.num_of_signers > 0 && self.nonces.len() == self.num_of_signers - 1
    }

    /// Whether the partial signatures of all peers are in: one less than
    /// there are signers.
    pub fn partial_signatures_received(&self) -> (r: bool)
        ensures
            r == (self.partial_signatures@.len() == self.num_of_signers - 1),
    {
        self.num_of_signers > 0 && self.partial_signatures.len() == self.num_of_signers - 1
    }
}

} // verus!
