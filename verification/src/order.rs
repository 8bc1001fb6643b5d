//! The canonical order of identities: ascending by encoding. Participants
//! that know the same identities, in whatever order they learnt them, arrive
//! at the same ordered list, and so at the same aggregation context.

use vstd::prelude::*;
use vstd::relations::*;
use vstd::seq_lib::*;
use crate::bytes::{lemma_lex_total_ordering, lex_order};
use crate::identity::{identity_views, Identity};

verus! {

/// The identities of `ids` in canonical order.
pub open spec fn canonical_order(ids: Seq<Seq<u8>>) -> Seq<Seq<u8>> {
    ids.sort_by(lex_order())
}

/// Whether `ids` is in canonical order.
pub open spec fn canonically_ordered(ids: Seq<Seq<u8>>) -> bool {
    sorted_by(ids, lex_order())
}

/// The canonical order of `ids` is ordered and holds each identity as often
/// as `ids` does.
pub proof fn lemma_canonical_order_sorts(ids: Seq<Seq<u8>>)
    ensures
        canonically_ordered(canonical_order(ids)),
        canonical_order(ids).to_multiset() == ids.to_multiset(),
        canonical_order(ids).len() == ids.len(),
{
    lemma_lex_total_ordering();
    ids.lemma_sort_by_ensures(lex_order());
    canonical_order(ids).to_multiset_ensures();
    ids.to_multiset_ensures();
}

/// Two lists of the same identities have the same canonical order, however
/// each list was arranged: sorting is independent of the order of arrival.
pub proof fn lemma_canonical_order_deterministic(a: Seq<Seq<u8>>, b: Seq<Seq<u8>>)
    requires
        a.to_multiset() == b.to_multiset(),
    ensures
        canonical_order(a) == canonical_order(b),
{
    lemma_lex_total_ordering();
    lemma_canonical_order_sorts(a);
    lemma_canonical_order_sorts(b);
    lemma_sorted_unique(canonical_order(a), canonical_order(b), lex_order());
}

/// A list in canonical order is its own canonical order.
pub proof fn lemma_canonical_order_idempotent(a: Seq<Seq<u8>>)
    ensures
        canonical_order(canonical_order(a)) == canonical_order(a),
{
    lemma_canonical_order_sorts(a);
    lemma_canonical_order_deterministic(canonical_order(a), a);
}

/// The only ordered arrangement of the identities of `ids` is their canonical
/// order.
pub proof fn lemma_ordered_is_canonical(ids: Seq<Seq<u8>>, ordered: Seq<Seq<u8>>)
    requires
        canonically_ordered(ordered),
        ordered.to_multiset() == ids.to_multiset(),
    ensures
        ordered == canonical_order(ids),
{
    lemma_lex_total_ordering();
    lemma_canonical_order_sorts(ids);
    lemma_sorted_unique(ordered, canonical_order(ids), lex_order());
}

/// Sorts identities into canonical order.
pub fn sort_identities(ids: &Vec<Identity>) -> (r: Vec<Identity>)
    ensures
        identity_views(r@) == canonical_order(identity_views(ids@)),
{
    let mut out: Vec<Identity> = Vec::new();
    let mut i: usize = 0;
    assert(identity_views(ids@.take(0)) =~= identity_views(out@));
    while i < ids.len()
        invariant
            i <= ids@.len(),
            canonically_ordered(identity_views(out@)),
            identity_views(out@).to_multiset() == identity_views(ids@.take(i as int)).to_multiset(),
        decreases ids@.len() - i,
    {
        let x = ids[i].clone();
        let mut j: usize = 0;
        while j < out.len() && out[j].precedes(&x)
            invariant
                j <= out@.len(),
                forall|k: int| 0 <= k < j ==> crate::bytes::lex_le(out@[k]@, x@),
            decreases out@.len() - j,
        {
            j += 1;
        }
        let ghost before = identity_views(out@);
        let ghost key = x@;
        proof {
            if j < out@.len() {
                crate::bytes::lemma_lex_total(out@[j as int]@, key);
                assert(crate::bytes::lex_le(key, before[j as int]));
            }
        }
        out.insert(j, x);
        proof {
            let after = identity_views(out@);
            assert(after =~= before.insert(j as int, key));
            assert forall|a: int, b: int| 0 <= a < b < after.len() implies #[trigger] lex_order()(
                after[a],
                after[b],
            ) by {
                if b < j {
                    assert(lex_order()(before[a], before[b]));
                } else if b == j {
                    assert(crate::bytes::lex_le(before[a], key));
                } else if a < j {
                    assert(lex_order()(before[a], before[b - 1]));
                } else if a == j {
                    if b - 1 > j {
                        assert(lex_order()(before[j as int], before[b - 1]));
                        crate::bytes::lemma_lex_transitive(key, before[j as int], before[b - 1]);
                    }
                } else {
                    assert(lex_order()(before[a - 1], before[b - 1]));
                }
            }
            assert(ids@.take(i + 1) =~= ids@.take(i as int).push(ids@[i as int]));
            let seen = identity_views(ids@.take(i as int));
            assert(identity_views(ids@.take(i + 1)) =~= seen.push(key));
            to_multiset_build(seen, key);
            to_multiset_insert(before, j as int, key);
        }
        i += 1;
    }
    proof {
        assert(ids@.take(ids@.len() as int) =~= ids@);
        lemma_ordered_is_canonical(identity_views(ids@), identity_views(out@));
    }
    out
}

} // verus!
