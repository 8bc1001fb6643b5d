//! The barrier of one round: a slot for each participant's contribution,
//! released once every slot is filled. Both topologies collect public nonces
//! and partial signatures through it.

use vstd::prelude::*;
use vstd::set_lib::*;
use std::collections::HashMap;
use crate::bytes::{bytes_copy, bytes_eq};

verus! {

broadcast use vstd::std_specs::hash::group_hash_axioms;

/// Why a contribution was turned down.
#[derive(Debug, Clone, Copy, PartialEq, Eq, Structural)]
pub enum ContributionError {
    /// The index names no participant of the round.
    OutOfRange,
    /// The participant has already contributed something else.
    Inconsistent,
}

/// The indices of the filled slots.
pub open spec fn filled(slots: Seq<Option<Seq<u8>>>) -> Set<int> {
    Set::new(|i: int| 0 <= i < slots.len() && slots[i] is Some)
}

/// Whether every slot is filled.
pub open spec fn complete(slots: Seq<Option<Seq<u8>>>) -> bool {
    forall|i: int| 0 <= i < slots.len() ==> (#[trigger] slots[i]) is Some
}

/// Whether `slots` holds nothing yet.
pub open spec fn untouched(slots: Seq<Option<Seq<u8>>>) -> bool {
    forall|i: int| 0 <= i < slots.len() ==> (#[trigger] slots[i]) is None
}

/// The contributions of everyone but `own`, by index.
pub open spec fn peer_contributions(slots: Seq<Option<Seq<u8>>>, own: int) -> Map<int, Seq<u8>> {
    Map::new(|i: int| filled(slots).contains(i) && i != own, |i: int| slots[i]->0)
}

/// The contributions of a complete round, in the order of the indices.
pub open spec fn collected(slots: Seq<Option<Seq<u8>>>) -> Seq<Seq<u8>> {
    Seq::new(slots.len(), |i: int| slots[i]->0)
}

/// Whether `listed` names the empty slots of `slots`, each once, in
/// ascending order.
pub open spec fn lists_holdouts(listed: Seq<usize>, slots: Seq<Option<Seq<u8>>>) -> bool {
    &&& forall|k: int|
        0 <= k < listed.len() ==> (#[trigger] listed[k]) < slots.len() && slots[listed[k] as int]
            is None
    &&& forall|i: int|
        0 <= i < slots.len() && (#[trigger] slots[i]) is None ==> exists|k: int|
            0 <= k < listed.len() && listed[k] == i
    &&& forall|k: int, l: int| 0 <= k < l < listed.len() ==> listed[k] < listed[l]
}

/// Whether the map `carried` holds exactly the contributions `expected`.
pub open spec fn carries(carried: Map<usize, Vec<u8>>, expected: Map<int, Seq<u8>>) -> bool {
    &&& forall|i: int|
        expected.contains_key(i) <==> 0 <= i <= usize::MAX && carried.contains_key(i as usize)
    &&& forall|i: usize| carried.contains_key(i) ==> carried[i]@ == expected[i as int]
}

/// The filled slots of a sequence of slots form a finite set, with at most
/// one index per slot.
pub proof fn lemma_filled_finite(slots: Seq<Option<Seq<u8>>>)
    ensures
        filled(slots).finite(),
        filled(slots).len() <= slots.len(),
{
    let all = set_int_range(0, slots.len() as int);
    lemma_int_range(0, slots.len() as int);
    assert(filled(slots).subset_of(all));
    lemma_len_subset(filled(slots), all);
}

/// A round is complete exactly when as many slots are filled as there are
/// participants.
pub proof fn lemma_complete_count(slots: Seq<Option<Seq<u8>>>)
    ensures
        complete(slots) <==> filled(slots).len() == slots.len(),
{
    let all = set_int_range(0, slots.len() as int);
    lemma_int_range(0, slots.len() as int);
    lemma_filled_finite(slots);
    if complete(slots) {
        assert(filled(slots) =~= all);
    } else {
        let i = choose|i: int| 0 <= i < slots.len() && !((#[trigger] slots[i]) is Some);
        assert(filled(slots).subset_of(all.remove(i)));
        lemma_len_subset(filled(slots), all.remove(i));
    }
}

/// In a complete round of `n` participants, the contributions of the peers
/// of any one participant are exactly `n - 1`, one for each other index.
pub proof fn lemma_complete_peers(slots: Seq<Option<Seq<u8>>>, own: int)
    requires
        complete(slots),
        0 <= own < slots.len(),
    ensures
        peer_contributions(slots, own).dom().finite(),
        peer_contributions(slots, own).dom().len() == slots.len() - 1,
        forall|i: int|
            0 <= i < slots.len() && i != own ==> #[trigger] peer_contributions(
                slots,
                own,
            ).contains_key(i),
{
    lemma_complete_count(slots);
    lemma_filled_finite(slots);
    assert(peer_contributions(slots, own).dom() =~= filled(slots).remove(own));
}

/// What is sent to a participant when a barrier of `n` participants is
/// released carries exactly `n - 1` contributions: one from each of the
/// others, and none of its own.
pub proof fn lemma_delivery_size(
    carried: Map<usize, Vec<u8>>,
    slots: Seq<Option<Seq<u8>>>,
    own: usize,
)
    requires
        complete(slots),
        own < slots.len(),
        slots.len() <= usize::MAX,
        carries(carried, peer_contributions(slots, own as int)),
    ensures
        carried.dom().finite(),
        carried.dom().len() == slots.len() - 1,
        !carried.contains_key(own),
        forall|i: usize| i < slots.len() && i != own ==> #[trigger] carried.contains_key(i),
{
    let expected = peer_contributions(slots, own as int);
    lemma_complete_peers(slots, own as int);
    let f = |i: int| i as usize;
    assert forall|k: usize| expected.dom().map(f).contains(k) <==> carried.dom().contains(k) by {
        if expected.dom().map(f).contains(k) {
            let i = choose|i: int| expected.dom().contains(i) && f(i) == k;
            assert(expected.contains_key(i));
            assert(carried.contains_key(i as usize));
        }
        if carried.dom().contains(k) {
            assert(carried[k]@ == expected[k as int]);
            assert(expected.contains_key(k as int) <==> carried.contains_key((k as int) as usize));
            assert(expected.dom().contains(k as int) && f(k as int) == k);
        }
    }
    assert(expected.dom().map(f) =~= carried.dom());
    assert forall|a: int, b: int|
        expected.dom().contains(a) && expected.dom().contains(b) && #[trigger] f(a) == #[trigger] f(
            b,
        ) implies a == b by {
        assert(0 <= a < slots.len() && 0 <= b < slots.len());
    }
    lemma_map_size(expected.dom(), carried.dom(), f);
    assert(!expected.contains_key(own as int));
    assert forall|i: usize| i < slots.len() && i != own implies #[trigger] carried.contains_key(
        i,
    ) by {
        assert(expected.contains_key(i as int));
    }
}

/// The slots of one round, one for each participant.
pub struct Barrier {
    slots: Vec<Option<Vec<u8>>>,
}

/// What a slot holds, as a byte sequence.
pub open spec fn slot_view(slot: Option<Vec<u8>>) -> Option<Seq<u8>> {
    match slot {
        Some(v) => Some(v@),
        None => None,
    }
}

impl View for Barrier {
    type V = Seq<Option<Seq<u8>>>;

    closed spec fn view(&self) -> Seq<Option<Seq<u8>>> {
        self.slots@.map_values(|s: Option<Vec<u8>>| slot_view(s))
    }
}

impl Barrier {
    /// A barrier of `n` empty slots.
    pub fn new(n: usize) -> (r: Barrier)
        ensures
            r@.len() == n,
            forall|i: int| 0 <= i < n ==> r@[i] is None,
    {
        let mut slots: Vec<Option<Vec<u8>>> = Vec::new();
        let mut i: usize = 0;
        while i < n
            invariant
                i <= n,
                slots@.len() == i,
                forall|k: int| 0 <= k < i ==> slots@[k] is None,
            decreases n - i,
        {
            slots.push(None);
            i += 1;
        }
        Barrier { slots }
    }

    /// The number of participants.
    pub fn size(&self) -> (r: usize)
        ensures
            r == self@.len(),
    {
        self.slots.len()
    }

    /// The contribution of the participant at `index`, if it has arrived.
    pub fn get(&self, index: usize) -> (r: Option<&Vec<u8>>)
        ensures
            match r {
                Some(v) => index < self@.len() && self@[index as int] == Some(v@),
                None => index >= self@.len() || self@[index as int] is None,
            },
    {
        if index >= self.slots.len() {
            return None;
        }
        match &self.slots[index] {
            Some(v) => Some(v),
            None => None,
        }
    }

    /// Records the contribution of the participant at `index`. Recording the
    /// same bytes again changes nothing; different bytes for a filled slot are
    /// refused, and so is an index beyond the last participant.
    pub fn deliver(&mut self, index: usize, value: Vec<u8>) -> (r: Result<(), ContributionError>)
        ensures
            match r {
                Ok(()) => {
                    &&& index < old(self)@.len()
                    &&& old(self)@[index as int] is None || old(self)@[index as int] == Some(
                        value@,
                    )
                    &&& final(self)@ == old(self)@.update(index as int, Some(value@))
                },
                Err(ContributionError::OutOfRange) => {
                    &&& index >= old(self)@.len()
                    &&& final(self)@ == old(self)@
                },
                Err(ContributionError::Inconsistent) => {
                    &&& index < old(self)@.len()
                    &&& old(self)@[index as int] is Some
                    &&& old(self)@[index as int] != Some(value@)
                    &&& final(self)@ == old(self)@
                },
            },
    {
        if index >= self.slots.len() {
            return Err(ContributionError::OutOfRange);
        }
        let same = match &self.slots[index] {
            Some(present) => Some(bytes_eq(present, &value)),
            None => None,
        };
        match same {
            Some(false) => Err(ContributionError::Inconsistent),
            Some(true) => {
                assert(self@ =~= old(self)@.update(index as int, Some(value@)));
                Ok(())
            },
            None => {
                self.slots.set(index, Some(value));
                assert(self@ =~= old(self)@.update(index as int, Some(value@)));
                Ok(())
            },
        }
    }

    /// Whether every participant has contributed.
    pub fn is_complete(&self) -> (r: bool)
        ensures
            r == complete(self@),
    {
        let mut i: usize = 0;
        while i < self.slots.len()
            invariant
                i <= self.slots@.len(),
                forall|k: int| 0 <= k < i ==> (#[trigger] self@[k]) is Some,
            decreases self.slots@.len() - i,
        {
            if self.slots[i].is_none() {
                assert(self@[i as int] is None);
                return false;
            }
            i += 1;
        }
        true
    }

    /// The indices of the participants that have not contributed yet, in
    /// ascending order.
    pub fn holdouts(&self) -> (r: Vec<usize>)
        ensures
            lists_holdouts(r@, self@),
            r@.len() == 0 <==> complete(self@),
    {
        let mut out: Vec<usize> = Vec::new();
        let mut i: usize = 0;
        while i < self.slots.len()
            invariant
                i <= self.slots@.len(),
                forall|k: int|
                    0 <= k < out@.len() ==> out@[k] < i && self@[out@[k] as int] is None,
                forall|j: int|
                    0 <= j < i && self@[j] is None ==> exists|k: int|
                        0 <= k < out@.len() && out@[k] == j,
                forall|k: int, l: int| 0 <= k < l < out@.len() ==> out@[k] < out@[l],
            decreases self.slots@.len() - i,
        {
            if self.slots[i].is_none() {
                let ghost before = out@;
                out.push(i);
                assert(forall|k: int| 0 <= k < before.len() ==> out@[k] == before[k]);
                assert(out@[before.len() as int] == i);
            }
            i += 1;
        }
        proof {
            if out@.len() == 0 {
                assert forall|j: int| 0 <= j < self@.len() implies (#[trigger] self@[j]) is Some by {
                    if self@[j] is None {
                        let k = choose|k: int| 0 <= k < out@.len() && out@[k] == j;
                    }
                }
            } else {
                assert(self@[out@[0] as int] is None);
            }
        }
        out
    }

    /// The contributions of a complete round, in the order of the indices.
    pub fn collect(&self) -> (r: Vec<Vec<u8>>)
        requires
            complete(self@),
        ensures
            r@.len() == self@.len(),
            forall|i: int| 0 <= i < r@.len() ==> (#[trigger] r@[i])@ == collected(self@)[i],
    {
        let mut out: Vec<Vec<u8>> = Vec::new();
        let mut i: usize = 0;
        while i < self.slots.len()
            invariant
                complete(self@),
                i <= self.slots@.len(),
                out@.len() == i,
                forall|k: int| 0 <= k < i ==> (#[trigger] out@[k])@ == collected(self@)[k],
            decreases self.slots@.len() - i,
        {
            assert(self@[i as int] is Some);
            match &self.slots[i] {
                Some(v) => {
                    out.push(bytes_copy(v));
                },
                None => {},
            }
            i += 1;
        }
        out
    }

    /// The contributions of everyone but the participant at `own`, by index:
    /// what is sent to that participant when the barrier is released.
    pub fn others(&self, own: usize) -> (r: HashMap<usize, Vec<u8>>)
        ensures
            carries(r@, peer_contributions(self@, own as int)),
    {
        let mut out: HashMap<usize, Vec<u8>> = HashMap::new();
        let mut i: usize = 0;
        while i < self.slots.len()
            invariant
                i <= self.slots@.len(),
                forall|j: usize|
                    out@.contains_key(j) <==> j < i && j != own && self@[j as int] is Some,
                forall|j: usize| out@.contains_key(j) ==> Some(out@[j]@) == self@[j as int],
            decreases self.slots@.len() - i,
        {
            if i != own {
                match &self.slots[i] {
                    Some(v) => {
                        out.insert(i, bytes_copy(v));
                    },
                    None => {},
                }
            }
            i += 1;
        }
        out
    }
}

} // verus!
