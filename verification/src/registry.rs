//! The participant registry: who takes part, under which index, and where
//! each participant is reached. Indices are given in the order of
//! registration, from zero.

use vstd::prelude::*;
use crate::identity::Identity;

verus! {

/// The largest number of participants that one aggregation context can hold.
pub const MAX_PARTICIPANTS: usize = 0xffff_ffff;

/// One registered participant. Nothing in a record changes once it is made.
pub struct ParticipantRecord {
    pub index: usize,
    pub identity: Identity,
    pub address: String,
}

/// Why a registration was turned down.
#[derive(Debug, Clone, Copy, PartialEq, Eq, Structural)]
pub enum RegistrationError {
    /// The identity is registered already.
    DuplicateIdentity,
    /// The registry holds as many participants as it was made for.
    RegistryFull,
}

/// The identities of a sequence of records, in the same order.
pub open spec fn record_identities(records: Seq<ParticipantRecord>) -> Seq<Seq<u8>> {
    records.map_values(|r: ParticipantRecord| r.identity@)
}

/// The addresses of a sequence of records, in the same order.
pub open spec fn record_addresses(records: Seq<ParticipantRecord>) -> Seq<Seq<char>> {
    records.map_values(|r: ParticipantRecord| r.address@)
}

/// Whether each record stands at its own index and no identity occurs twice.
pub open spec fn canonical_records(records: Seq<ParticipantRecord>) -> bool {
    &&& forall|i: int| 0 <= i < records.len() ==> (#[trigger] records[i]).index == i
    &&& record_identities(records).no_duplicates()
}

/// Whether two sequences of records name the same participants: the same
/// indices, identities and addresses, in the same order.
pub open spec fn same_records(a: Seq<ParticipantRecord>, b: Seq<ParticipantRecord>) -> bool {
    &&& a.len() == b.len()
    &&& forall|i: int|
        0 <= i < a.len() ==> {
            &&& (#[trigger] a[i]).index == b[i].index
            &&& a[i].identity@ == b[i].identity@
            &&& a[i].address@ == b[i].address@
        }
}

/// The registry of one coordinating hub.
pub struct Registry {
    records: Vec<ParticipantRecord>,
    capacity: usize,
}

impl View for Registry {
    type V = Seq<ParticipantRecord>;

    closed spec fn view(&self) -> Seq<ParticipantRecord> {
        self.records@
    }
}

impl Registry {
    /// The number of participants that the registry was made for.
    pub closed spec fn spec_capacity(&self) -> nat {
        self.capacity as nat
    }

    /// What holds of every registry that `new` made and `register` filled:
    /// records stand at their indices, no identity occurs twice, and the
    /// capacity is respected.
    pub closed spec fn wf(&self) -> bool {
        &&& canonical_records(self.records@)
        &&& self.records@.len() <= self.capacity
        &&& self.capacity <= MAX_PARTICIPANTS
    }

    /// What `wf` says, over the view.
    pub proof fn lemma_wf(&self)
        requires
            self.wf(),
        ensures
            canonical_records(self@),
            self@.len() <= self.spec_capacity(),
            self.spec_capacity() <= MAX_PARTICIPANTS,
    {
    }

    /// An empty registry for at most `capacity` participants, and never more
    /// than `MAX_PARTICIPANTS`.
    pub fn new(capacity: usize) -> (r: Registry)
        ensures
            r.wf(),
            r@.len() == 0,
            r.spec_capacity() == if capacity <= MAX_PARTICIPANTS {
                capacity
            } else {
                MAX_PARTICIPANTS
            },
    {
        let capacity = if capacity <= MAX_PARTICIPANTS {
            capacity
        } else {
            MAX_PARTICIPANTS
        };
        Registry { records: Vec::new(), capacity }
    }

    /// The number of registered participants.
    pub fn len(&self) -> (r: usize)
        ensures
            r == self@.len(),
    {
        self.records.len()
    }

    /// The number of participants that the registry was made for.
    pub fn capacity(&self) -> (r: usize)
        ensures
            r == self.spec_capacity(),
    {
        self.capacity
    }

    /// Whether exactly `expected` participants are registered: aggregation
    /// may start only then.
    pub fn is_ready(&self, expected: usize) -> (r: bool)
        ensures
            r == (self@.len() == expected),
    {
        self.records.len() == expected
    }

    /// The index under which `identity` is registered, if it is.
    pub fn index_of(&self, identity: &Identity) -> (r: Option<usize>)
        ensures
            match r {
                Some(i) => i < self@.len() && self@[i as int].identity@ == identity@,
                None => !record_identities(self@).contains(identity@),
            },
    {
        let mut i: usize = 0;
        while i < self.records.len()
            invariant
                i <= self.records@.len(),
                forall|k: int| 0 <= k < i ==> self.records@[k].identity@ != identity@,
            decreases self.records@.len() - i,
        {
            if self.records[i].identity.same_as(identity) {
                return Some(i);
            }
            i += 1;
        }
        assert(!record_identities(self@).contains(identity@)) by {
            if record_identities(self@).contains(identity@) {
                let k = choose|k: int|
                    0 <= k < record_identities(self@).len() && record_identities(self@)[k]
                        == identity@;
                assert(self.records@[k].identity@ == identity@);
            }
        }
        None
    }

    /// Registers a participant under the next index. An identity that is
    /// registered already is refused, and so is any identity once the
    /// registry is full; a refusal changes nothing.
    pub fn register(&mut self, identity: Identity, address: String) -> (r: Result<
        usize,
        RegistrationError,
    >)
        requires
            old(self).wf(),
        ensures
            final(self).wf(),
            final(self).spec_capacity() == old(self).spec_capacity(),
            match r {
                Ok(index) => {
                    &&& index == old(self)@.len()
                    &&& !record_identities(old(self)@).contains(identity@)
                    &&& old(self)@.len() < old(self).spec_capacity()
                    &&& final(self)@ == old(self)@.push(
                        ParticipantRecord { index, identity, address },
                    )
                },
                Err(RegistrationError::DuplicateIdentity) => {
                    &&& record_identities(old(self)@).contains(identity@)
                    &&& final(self)@ == old(self)@
                },
                Err(RegistrationError::RegistryFull) => {
                    &&& !record_identities(old(self)@).contains(identity@)
                    &&& old(self)@.len() >= old(self).spec_capacity()
                    &&& final(self)@ == old(self)@
                },
            },
    {
        if self.index_of(&identity).is_some() {
            assert(record_identities(self@).contains(identity@)) by {
                let i = self.index_of_witness(identity@);
                assert(record_identities(self@)[i] == identity@);
            }
            return Err(RegistrationError::DuplicateIdentity);
        }
        if self.records.len() >= self.capacity {
            return Err(RegistrationError::RegistryFull);
        }
        let index = self.records.len();
        let ghost before = self.records@;
        let record = ParticipantRecord { index, identity, address };
        self.records.push(record);
        proof {
            let after = self.records@;
            assert(record_identities(after) =~= record_identities(before).push(identity@));
            assert forall|i: int, j: int|
                0 <= i < record_identities(after).len() && 0 <= j < record_identities(
                    after,
                ).len() && i != j implies record_identities(after)[i] != record_identities(
                after,
            )[j] by {
                if i < before.len() && j < before.len() {
                    assert(record_identities(before)[i] != record_identities(before)[j]);
                } else if i < before.len() {
                    assert(record_identities(before)[i] != identity@);
                } else {
                    assert(record_identities(before)[j] != identity@);
                }
            }
        }
        Ok(index)
    }

    /// An index at which `identity` stands, where there is one.
    proof fn index_of_witness(&self, identity: Seq<u8>) -> (i: int)
        requires
            exists|k: int| 0 <= k < self@.len() && self@[k].identity@ == identity,
        ensures
            0 <= i < self@.len(),
            self@[i].identity@ == identity,
    {
        choose|k: int| 0 <= k < self@.len() && self@[k].identity@ == identity
    }

    /// The participant registered under `index`.
    pub fn get(&self, index: usize) -> (r: Option<&ParticipantRecord>)
        ensures
            match r {
                Some(record) => index < self@.len() && *record == self@[index as int],
                None => index >= self@.len(),
            },
    {
        if index < self.records.len() {
            Some(&self.records[index])
        } else {
            None
        }
    }

    /// The registered identities, in the order of their indices.
    pub fn identities(&self) -> (r: Vec<Identity>)
        ensures
            crate::identity::identity_views(r@) == record_identities(self@),
    {
        let mut out: Vec<Identity> = Vec::new();
        let mut i: usize = 0;
        while i < self.records.len()
            invariant
                i <= self.records@.len(),
                out@.len() == i,
                forall|k: int| 0 <= k < i ==> out@[k]@ == self.records@[k].identity@,
            decreases self.records@.len() - i,
        {
            out.push(self.records[i].identity.clone());
            i += 1;
        }
        assert(crate::identity::identity_views(out@) =~= record_identities(self@));
        out
    }

    /// A copy of the records, in the order of their indices.
    pub fn records(&self) -> (r: Vec<ParticipantRecord>)
        ensures
            same_records(r@, self@),
    {
        let mut out: Vec<ParticipantRecord> = Vec::new();
        let mut i: usize = 0;
        while i < self.records.len()
            invariant
                i <= self.records@.len(),
                out@.len() == i,
                forall|k: int|
                    0 <= k < i ==> {
                        &&& (#[trigger] out@[k]).index == self.records@[k].index
                        &&& out@[k].identity@ == self.records@[k].identity@
                        &&& out@[k].address@ == self.records@[k].address@
                    },
            decreases self.records@.len() - i,
        {
            out.push(
                ParticipantRecord {
                    index: self.records[i].index,
                    identity: self.records[i].identity.clone(),
                    address: self.records[i].address.clone(),
                },
            );
            i += 1;
        }
        out
    }

    /// The registered participants as pairs of index and address, in the
    /// order of their indices.
    pub fn snapshot(&self) -> (r: Vec<(usize, String)>)
        ensures
            r@.len() == self@.len(),
            forall|i: int|
                0 <= i < r@.len() ==> (#[trigger] r@[i]).0 == i && r@[i].1@ == self@[i].address@,
    {
        let mut out: Vec<(usize, String)> = Vec::new();
        let mut i: usize = 0;
        while i < self.records.len()
            invariant
                i <= self.records@.len(),
                out@.len() == i,
                forall|k: int|
                    0 <= k < i ==> (#[trigger] out@[k]).0 == k && out@[k].1@
                        == self.records@[k].address@,
            decreases self.records@.len() - i,
        {
            out.push((i, self.records[i].address.clone()));
            i += 1;
        }
        out
    }
}

} // verus!
