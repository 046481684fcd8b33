//! Properties that relate several calls, or hold of every input.
use vstd::prelude::*;

use crate::endpoint::{endpoint_bytes, TransportProt, ENDPOINT_LEN};
use crate::hello::{candidates, hello_age, last_time, stale, LastHello};
use crate::peer::Admission;
use crate::registry::{admission_step, symmetric, unite_step, PeersError};
use crate::tables::PeerKey;

verus! {

/// Admitting the same key twice gives the same peer, and the second
/// admission leaves the table as the first left it: the table grows by one
/// for a new key, by nothing for a known one.
pub proof fn lemma_admission_idempotent(
    table: Map<PeerKey, Admission>,
    pk: PeerKey,
    max_peers: u64,
    first: Result<Admission, PeersError>,
    second: Result<Admission, PeersError>,
)
    requires
        table.dom().finite(),
    ensures
        ({
            let (r1, t1) = admission_step(table, pk, max_peers, first);
            let (r2, t2) = admission_step(t1, pk, max_peers, second);
            r1 is Ok ==> {
                &&& r2 == r1
                &&& t2 == t1
                &&& t1.len() == table.len() + (if table.contains_key(pk) { 0int } else { 1int })
            }
        }),
{
}

/// With `max_peers` peers in the table, a new key is refused with
/// `CapacityExceeded(max_peers)`, and a known key still gets its peer.
pub proof fn lemma_capacity_bound(
    table: Map<PeerKey, Admission>,
    pk: PeerKey,
    max_peers: u64,
    built: Result<Admission, PeersError>,
)
    requires
        table.dom().finite(),
        table.len() == max_peers,
    ensures
        !table.contains_key(pk) ==> admission_step(table, pk, max_peers, built) == (
            Err::<Admission, PeersError>(PeersError::CapacityExceeded(max_peers)),
            table,
        ),
        table.contains_key(pk) ==> admission_step(table, pk, max_peers, built) == (
            Ok::<Admission, PeersError>(table[pk]),
            table,
        ),
{
}

/// Admission never takes the table past `max_peers`.
pub proof fn lemma_capacity_kept(
    table: Map<PeerKey, Admission>,
    pk: PeerKey,
    max_peers: u64,
    built: Result<Admission, PeersError>,
)
    requires
        table.dom().finite(),
        table.len() <= max_peers,
    ensures
        admission_step(table, pk, max_peers, built).1.len() <= max_peers,
{
}

/// A peer once admitted keeps its proof-of-work verdict and session keys
/// through every later admission.
pub proof fn lemma_admission_write_once(
    table: Map<PeerKey, Admission>,
    pk: PeerKey,
    max_peers: u64,
    built: Result<Admission, PeersError>,
    other: PeerKey,
)
    requires
        table.contains_key(other),
    ensures
        admission_step(table, pk, max_peers, built).1.contains_key(other),
        admission_step(table, pk, max_peers, built).1[other] == table[other],
{
}

/// A record stamped `h.time` decides staleness by its own time alone, and
/// is never stale at that time.
pub proof fn lemma_newest_hello_decides(h: LastHello, now: u64, timeout: u64)
    ensures
        stale(last_time(Some(h)), now, timeout) == stale(h.time, now, timeout),
        !stale(last_time(Some(h)), h.time, timeout),
{
}

/// A clock that went back before the last HELLO gives age zero, so the peer
/// is not stale.
pub proof fn lemma_clock_regression(last: u64, now: u64, timeout: u64)
    requires
        now < last,
    ensures
        hello_age(last, now) == 0,
        !stale(last, now, timeout),
{
}

/// After a HELLO over UDP the candidates are the advertised endpoints
/// followed by the encoded source address.
pub proof fn lemma_candidates_udp(h: LastHello)
    requires
        h.prot == TransportProt::UDP,
    ensures
        candidates(Some(h)).len() == h.endpoints@.len() + ENDPOINT_LEN,
        candidates(Some(h)).subrange(0, h.endpoints@.len() as int) == h.endpoints@,
        candidates(Some(h)).subrange(h.endpoints@.len() as int, candidates(Some(h)).len() as int)
            == endpoint_bytes(h.src),
{
    let c = candidates(Some(h));
    assert(c.subrange(0, h.endpoints@.len() as int) =~= h.endpoints@);
    assert(c.subrange(h.endpoints@.len() as int, c.len() as int) =~= endpoint_bytes(h.src));
}

/// After a HELLO over TCP the candidates are the advertised endpoints as
/// they came.
pub proof fn lemma_candidates_tcp(h: LastHello)
    requires
        h.prot == TransportProt::TCP,
    ensures
        candidates(Some(h)) == h.endpoints@,
{
}

/// Without a HELLO the candidates are the single byte zero.
pub proof fn lemma_candidates_none()
    ensures
        candidates(None) == seq![0u8],
{
}

/// A negative interval never sends a hint, a zero interval always does, and
/// neither changes the table.
pub proof fn lemma_unite_modes(
    table: Map<(PeerKey, PeerKey), u64>,
    sender: PeerKey,
    recipient: PeerKey,
    now: u64,
    interval: i32,
)
    ensures
        interval < 0 ==> unite_step(table, sender, recipient, now, interval) == (false, table),
        interval == 0 ==> unite_step(table, sender, recipient, now, interval) == (true, table),
{
}

/// With a positive interval, a hint sent for `(a, b)` at `t0` blocks a hint
/// for either order of the pair until `interval` seconds have passed, and
/// allows one from then on.
pub proof fn lemma_unite_window(
    table: Map<(PeerKey, PeerKey), u64>,
    a: PeerKey,
    b: PeerKey,
    t0: u64,
    t1: u64,
    interval: i32,
)
    requires
        interval > 0,
        unite_step(table, a, b, t0, interval).0,
        t0 <= t1,
    ensures
        ({
            let after = unite_step(table, a, b, t0, interval).1;
            &&& t1 < t0 + interval * 1000 ==> !unite_step(after, b, a, t1, interval).0
                && !unite_step(after, a, b, t1, interval).0
            &&& t1 >= t0 + interval * 1000 ==> unite_step(after, b, a, t1, interval).0
                && unite_step(after, a, b, t1, interval).0
        }),
{
}

/// Every decision keeps a symmetric table symmetric.
pub proof fn lemma_unite_symmetric(
    table: Map<(PeerKey, PeerKey), u64>,
    sender: PeerKey,
    recipient: PeerKey,
    now: u64,
    interval: i32,
)
    requires
        symmetric(table),
    ensures
        symmetric(unite_step(table, sender, recipient, now, interval).1),
{
    let t = unite_step(table, sender, recipient, now, interval).1;
    assert forall|x: PeerKey, y: PeerKey| #[trigger] t.contains_key((x, y)) implies t.contains_key(
        (y, x),
    ) && t[(x, y)] == t[(y, x)] by {
        if t != table && (x, y) != (sender, recipient) && (x, y) != (recipient, sender) {
            assert(table.contains_key((x, y)));
            assert(table.contains_key((y, x)));
        }
    }
}

} // verus!
