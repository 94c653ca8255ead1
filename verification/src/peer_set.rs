//! Listing the peers held in a map.
use std::collections::HashMap;
use vstd::prelude::*;

use crate::model::PeerId;

verus! {

broadcast use vstd::std_specs::hash::group_hash_axioms;

/// Whether `x` is a peer of `peers` that is not `skip`.
pub open spec fn listed(peers: Set<PeerId>, skip: Option<PeerId>, x: PeerId) -> bool {
    peers.contains(x) && skip != Some(x)
}

/// The identifiers of `peers`, each once, in the map's own order, leaving
/// out `skip` when it is given.
pub(crate) fn peer_ids<S>(peers: &HashMap<PeerId, S>, skip: Option<PeerId>) -> (out: Vec<PeerId>)
    ensures
        forall|x: PeerId| out@.contains(x) <==> listed(peers@.dom(), skip, x),
        out@.no_duplicates(),
{
    let mut out: Vec<PeerId> = Vec::new();
    for k in iter: peers.keys()
        invariant_except_break
            forall|i: int|
                0 <= i < out@.len() ==> exists|j: int|
                    0 <= j < iter.index() && *iter.seq()[j] == #[trigger] out@[i],
        invariant
            iter.seq().unref().to_set() == peers@.dom(),
            iter.seq().no_duplicates(),
            forall|x: PeerId| out@.contains(x) ==> listed(peers@.dom(), skip, x),
            forall|j: int|
                0 <= j < iter.index() && skip != Some(*iter.seq()[j]) ==> out@.contains(
                    *iter.seq()[j],
                ),
            out@.no_duplicates(),
        ensures
            forall|x: PeerId| out@.contains(x) <==> listed(peers@.dom(), skip, x),
            out@.no_duplicates(),
    {
        let ghost i = iter.index();
        let ghost old_out = out@;
        assert(iter.seq().unref()[i] == *k);
        let keep = match skip {
            Some(s) => *k != s,
            None => true,
        };
        if keep {
            proof {
                if old_out.contains(*k) {
                    let t = choose|t: int| 0 <= t < old_out.len() && old_out[t] == *k;
                    let j = choose|j: int| 0 <= j < i && *iter.seq()[j] == old_out[t];
                    assert(iter.seq()[j] == iter.seq()[i]);
                }
            }
            out.push(*k);
            assert(iter.seq().unref().contains(*k));
            assert(peers@.dom().contains(*k));
            assert forall|j: int|
                0 <= j < i + 1 && skip != Some(*iter.seq()[j]) implies out@.contains(
                *iter.seq()[j],
            ) by {
                if j < i {
                    let t = choose|t: int| 0 <= t < old_out.len() && old_out[t] == *iter.seq()[j];
                    assert(out@[t] == old_out[t]);
                } else {
                    assert(out@[out@.len() - 1] == *k);
                }
            }
            assert forall|i2: int|
                0 <= i2 < out@.len() implies exists|j: int|
                0 <= j < i + 1 && *iter.seq()[j] == #[trigger] out@[i2] by {
                if i2 < old_out.len() {
                    assert(out@[i2] == old_out[i2]);
                } else {
                    assert(*iter.seq()[i] == out@[i2]);
                }
            }
            assert forall|x: PeerId| out@.contains(x) implies listed(peers@.dom(), skip, x) by {
                let t = choose|t: int| 0 <= t < out@.len() && out@[t] == x;
                if t < old_out.len() {
                    assert(old_out[t] == x);
                    assert(old_out.contains(x));
                }
            }
        }
        assert forall|x: PeerId| listed(peers@.dom(), skip, x) implies exists|j: int|
            0 <= j < iter.seq().len() && *iter.seq()[j] == x by {
            assert(iter.seq().unref().contains(x));
        }
    }
    out
}

} // verus!
