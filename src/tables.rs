use vstd::prelude::*;

use std::sync::Arc;

use crate::peer::{Admission, Peer};

verus! {

/// The identity of a peer: its 32-byte public key, compared byte by byte.
pub type PeerKey = [u8; 32];

/// The concurrent table of admitted peers.
pub type PeerTable = papaya::HashMap<PeerKey, Arc<Peer>, ahash::RandomState>;

/// The concurrent table of the last rendezvous hint sent for an ordered pair.
pub type UniteTable = papaya::HashMap<(PeerKey, PeerKey), u64>;

#[verifier::external_type_specification]
#[verifier::external_body]
#[verifier::reject_recursive_types(K)]
#[verifier::reject_recursive_types(V)]
#[verifier::reject_recursive_types(S)]
pub struct ExPapayaHashMap<K, V, S>(papaya::HashMap<K, V, S>);

#[verifier::external_type_specification]
#[verifier::external_body]
pub struct ExAhashRandomState(ahash::RandomState);

/// Relies on ahash's `RandomState::new`: a randomly keyed hasher builder.
pub assume_specification[ ahash::RandomState::new ]() -> ahash::RandomState;

/// What a peer table holds: for each key, the admission of its peer.
pub uninterp spec fn peer_table(m: PeerTable) -> Map<PeerKey, Admission>;

/// What a rendezvous table holds.
pub uninterp spec fn unite_table(m: UniteTable) -> Map<(PeerKey, PeerKey), u64>;

/// Relies on papaya's `HashMap::with_capacity_and_hasher`: a new, empty map.
#[verifier::external_body]
pub(crate) fn peer_table_new(capacity: usize, hasher: ahash::RandomState) -> (r: PeerTable)
    ensures
        peer_table(r).dom().is_empty(),
{
    papaya::HashMap::with_capacity_and_hasher(capacity, hasher)
}

/// Relies on papaya's `HashMap::len`: the number of entries. Callers hold
/// the map exclusively while they change it, so the count is exact.
#[verifier::external_body]
pub(crate) fn peer_table_len(m: &PeerTable) -> (r: usize)
    ensures
        r == peer_table(*m).len(),
{
    m.len()
}

/// Relies on papaya's `HashMapRef::get`: the value stored under `k`.
#[verifier::external_body]
pub(crate) fn peer_table_get(m: &PeerTable, k: &PeerKey) -> (r: Option<Arc<Peer>>)
    ensures
        r is Some == peer_table(*m).contains_key(*k),
        r is Some ==> (*r->Some_0).admission() == peer_table(*m)[*k],
{
    m.pin().get(k).cloned()
}

/// Relies on papaya's `HashMapRef::get_or_insert`: the value already under
/// `k`, or else `v`, which is then stored under `k`.
#[verifier::external_body]
pub(crate) fn peer_table_get_or_insert(m: &mut PeerTable, k: PeerKey, v: Arc<Peer>) -> (r: Arc<Peer>)
    ensures
        peer_table(*old(m)).contains_key(k) ==> peer_table(*final(m)) == peer_table(*old(m))
            && (*r).admission() == peer_table(*old(m))[k],
        !peer_table(*old(m)).contains_key(k) ==> peer_table(*final(m)) == peer_table(
            *old(m),
        ).insert(k, (*v).admission()) && (*r).admission() == (*v).admission(),
{
    m.pin().get_or_insert(k, v).clone()
}

/// Relies on papaya's `HashMapRef::iter`: each entry of the map once, in an
/// order that depends on the hasher's keys.
#[verifier::external_body]
pub(crate) fn peer_table_entries(m: &PeerTable) -> (r: Vec<(PeerKey, Arc<Peer>)>)
    ensures
        r@.len() == peer_table(*m).len(),
        forall|i: int|
            0 <= i < r@.len() ==> peer_table(*m).contains_key(#[trigger] r@[i].0) && (*r@[i].1).admission()
                == peer_table(*m)[r@[i].0],
        forall|i: int, j: int| 0 <= i < j < r@.len() ==> r@[i].0 != r@[j].0,
{
    m.pin().iter().map(|(k, v)| (*k, v.clone())).collect()
}

/// Relies on papaya's `HashMap::new`: a new, empty map.
#[verifier::external_body]
pub(crate) fn unite_table_new() -> (r: UniteTable)
    ensures
        unite_table(r).dom().is_empty(),
{
    papaya::HashMap::new()
}

/// Relies on papaya's `HashMapRef::get`: the time stored under `k`.
#[verifier::external_body]
pub(crate) fn unite_table_get(m: &UniteTable, k: &(PeerKey, PeerKey)) -> (r: Option<u64>)
    ensures
        r == (if unite_table(*m).contains_key(*k) {
            Some(unite_table(*m)[*k])
        } else {
            None::<u64>
        }),
{
    m.pin().get(k).copied()
}

/// Relies on papaya's `HashMapRef::insert`: stores `v` under `k`, replacing
/// what was there.
#[verifier::external_body]
pub(crate) fn unite_table_insert(m: &mut UniteTable, k: (PeerKey, PeerKey), v: u64)
    ensures
        unite_table(*final(m)) == unite_table(*old(m)).insert(k, v),
{
    m.pin().insert(k, v);
}

} // verus!
