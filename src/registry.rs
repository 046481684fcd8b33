use vstd::prelude::*;

use std::sync::Arc;

use crate::peer::{Admission, Peer, SessionKeys};
use crate::tables::{
    peer_table, peer_table_entries, peer_table_get, peer_table_get_or_insert, peer_table_len, peer_table_new,
    unite_table, unite_table_get, unite_table_insert, unite_table_new, PeerKey, PeerTable,
    UniteTable,
};
use crate::hello::hello_age;

verus! {

/// A failure reported by the crypto adapter (key conversion or key
/// exchange), identified by the adapter's code.
#[derive(Clone, Copy, Debug, PartialEq, Eq, Structural)]
pub struct CryptoError {
    pub code: u32,
}

#[derive(Clone, Copy, Debug, PartialEq, Eq, Structural)]
pub enum PeersError {
    /// The table already holds the configured maximum of peers.
    CapacityExceeded(u64),
    /// Key conversion or key exchange failed.
    CryptoError(CryptoError),
    /// Sessions are enabled but the local agreement public key is missing.
    AgreementPkNotPresent,
    /// Sessions are enabled but the local agreement secret key is missing.
    AgreementSkNotPresent,
}

/// What admission needs from the node's configuration.
#[derive(Clone, Copy, Debug)]
pub struct AdmissionConfig {
    pub max_peers: u64,
    /// Whether messages are authenticated and encrypted, so that admitted
    /// peers with a valid proof of work get session keys.
    pub arm_messages: bool,
    pub agreement_pk: Option<[u8; 32]>,
    pub agreement_sk: Option<[u8; 32]>,
}

/// The admission of a new peer, given the outcomes of the crypto adapter:
/// the proof-of-work verdict, the conversion of the peer's key to its
/// agreement key, and the key exchange (whose pair is read as `(rx, tx)`).
/// Keys are derived only when sessions are enabled and the proof of work is
/// valid; the checks come in the order conversion, local public key, local
/// secret key, exchange, and the first failure is the error.
pub open spec fn built_admission(
    cfg: AdmissionConfig,
    valid_pow: bool,
    converted: Result<PeerKey, CryptoError>,
    exchanged: Result<([u8; 32], [u8; 32]), CryptoError>,
) -> Result<Admission, PeersError> {
    if !(cfg.arm_messages && valid_pow) {
        Ok((valid_pow, None))
    } else {
        match converted {
            Err(e) => Err(PeersError::CryptoError(e)),
            Ok(_) => if cfg.agreement_pk is None {
                Err(PeersError::AgreementPkNotPresent)
            } else if cfg.agreement_sk is None {
                Err(PeersError::AgreementSkNotPresent)
            } else {
                match exchanged {
                    Err(e) => Err(PeersError::CryptoError(e)),
                    Ok(keys) => Ok((valid_pow, Some(SessionKeys { tx: keys.1, rx: keys.0 }))),
                }
            },
        }
    }
}

/// One admission against a table: a known key gets its peer back unchanged;
/// an unknown key is refused when the table is full, and otherwise gets
/// `built`, which on success is added to the table.
pub open spec fn admission_step(
    table: Map<PeerKey, Admission>,
    pk: PeerKey,
    max_peers: u64,
    built: Result<Admission, PeersError>,
) -> (Result<Admission, PeersError>, Map<PeerKey, Admission>) {
    if table.contains_key(pk) {
        (Ok(table[pk]), table)
    } else if table.len() >= max_peers {
        (Err(PeersError::CapacityExceeded(max_peers)), table)
    } else {
        match built {
            Ok(a) => (Ok(a), table.insert(pk, a)),
            Err(e) => (Err(e), table),
        }
    }
}

/// The adapter's outcomes `valid_pow`, `converted` and `exchanged` are what
/// the three adapter functions returned for `pk`, for those of them that
/// admission calls.
pub open spec fn adapter_outcomes<V, C, K>(
    validate_pow: V,
    convert_pk: C,
    exchange: K,
    cfg: AdmissionConfig,
    pk: PeerKey,
    valid_pow: bool,
    converted: Result<PeerKey, CryptoError>,
    exchanged: Result<([u8; 32], [u8; 32]), CryptoError>,
) -> bool where
    V: Fn(PeerKey) -> bool,
    C: Fn(PeerKey) -> Result<PeerKey, CryptoError>,
    K: Fn([u8; 32], [u8; 32], PeerKey) -> Result<([u8; 32], [u8; 32]), CryptoError>,
 {
    &&& validate_pow.ensures((pk,), valid_pow)
    &&& cfg.arm_messages && valid_pow ==> convert_pk.ensures((pk,), converted)
    &&& (cfg.arm_messages && valid_pow && converted is Ok && cfg.agreement_pk is Some
        && cfg.agreement_sk is Some) ==> exchange.ensures(
        (cfg.agreement_pk->Some_0, cfg.agreement_sk->Some_0, converted->Ok_0),
        exchanged,
    )
}

/// The admission part of a registry result.
pub open spec fn result_admission(r: Result<Arc<Peer>, PeersError>) -> Result<Admission, PeersError> {
    match r {
        Ok(p) => Ok((*p).admission()),
        Err(e) => Err(e),
    }
}

/// A call of `get_or_insert_peer` on `before` that returned `result` and
/// left `after` is one admission step, where the adapter outcomes are those
/// that the adapter functions gave, if admission came to call them.
pub open spec fn admitted_as<V, C, K>(
    validate_pow: V,
    convert_pk: C,
    exchange: K,
    cfg: AdmissionConfig,
    pk: PeerKey,
    before: Map<PeerKey, Admission>,
    result: Result<Admission, PeersError>,
    after: Map<PeerKey, Admission>,
    valid_pow: bool,
    converted: Result<PeerKey, CryptoError>,
    exchanged: Result<([u8; 32], [u8; 32]), CryptoError>,
) -> bool where
    V: Fn(PeerKey) -> bool,
    C: Fn(PeerKey) -> Result<PeerKey, CryptoError>,
    K: Fn([u8; 32], [u8; 32], PeerKey) -> Result<([u8; 32], [u8; 32]), CryptoError>,
 {
    &&& !before.contains_key(pk) && before.len() < cfg.max_peers ==> adapter_outcomes(
        validate_pow,
        convert_pk,
        exchange,
        cfg,
        pk,
        valid_pow,
        converted,
        exchanged,
    )
    &&& (result, after) == admission_step(
        before,
        pk,
        cfg.max_peers,
        built_admission(cfg, valid_pow, converted, exchanged),
    )
}

/// How old the last hint is still too recent for another one, with
/// `interval` in seconds and times in milliseconds; a clock that went
/// backwards gives age zero.
pub open spec fn too_soon(last: u64, now: u64, interval: i32) -> bool {
    hello_age(last, now) < interval * 1000
}

/// One rendezvous decision for `(sender, recipient)`: never with a negative
/// interval, always with a zero one; otherwise unless the last hint for the
/// pair is too recent, and a hint sent is recorded for both orders of the
/// pair.
pub open spec fn unite_step(
    table: Map<(PeerKey, PeerKey), u64>,
    sender: PeerKey,
    recipient: PeerKey,
    now: u64,
    interval: i32,
) -> (bool, Map<(PeerKey, PeerKey), u64>) {
    if interval < 0 {
        (false, table)
    } else if interval == 0 {
        (true, table)
    } else if table.contains_key((sender, recipient)) && too_soon(
        table[(sender, recipient)],
        now,
        interval,
    ) {
        (false, table)
    } else {
        (true, table.insert((sender, recipient), now).insert((recipient, sender), now))
    }
}

/// A rendezvous table holds the same time for both orders of each pair.
pub open spec fn symmetric(table: Map<(PeerKey, PeerKey), u64>) -> bool {
    forall|a: PeerKey, b: PeerKey|
        #[trigger] table.contains_key((a, b)) ==> table.contains_key((b, a)) && table[(a, b)]
            == table[(b, a)]
}

/// Most peers the peer table allocates room for up front; a larger maximum
/// lets the table grow as peers come.
pub const PREALLOC_LIMIT: u64 = 65536;

/// The registry: admitted peers, and the last rendezvous hint per pair.
/// Calls that change a table take the registry exclusively, so each is one
/// step; the peers it hands out are shared, and their HELLO records may be
/// replaced from any thread.
pub struct PeersList {
    peers: PeerTable,
    unite_attempts: UniteTable,
}

impl PeersList {
    /// The admitted peers.
    pub closed spec fn peers_view(&self) -> Map<PeerKey, Admission> {
        peer_table(self.peers)
    }

    /// When the last hint was sent, per ordered pair.
    pub closed spec fn unites_view(&self) -> Map<(PeerKey, PeerKey), u64> {
        unite_table(self.unite_attempts)
    }

    pub open spec fn wf(&self) -> bool {
        &&& self.peers_view().dom().finite()
        &&& symmetric(self.unites_view())
    }

    /// An empty registry, sized for `max_peers` peers.
    pub fn new(max_peers: u64) -> (r: PeersList)
        ensures
            r.wf(),
            r.peers_view() == Map::<PeerKey, Admission>::empty(),
            r.unites_view() == Map::<(PeerKey, PeerKey), u64>::empty(),
    {
        let hint: u64 = if max_peers < PREALLOC_LIMIT { max_peers } else { PREALLOC_LIMIT };
        let peers = peer_table_new(hint as usize, ahash::RandomState::new());
        let unite_attempts = unite_table_new();
        let r = PeersList { peers, unite_attempts };
        assert(r.peers_view() =~= Map::<PeerKey, Admission>::empty());
        assert(r.unites_view() =~= Map::<(PeerKey, PeerKey), u64>::empty());
        r
    }

    /// The number of admitted peers.
    pub fn len(&self) -> (r: usize)
        ensures
            r == self.peers_view().len(),
    {
        peer_table_len(&self.peers)
    }

    /// Every admitted peer with its key, each once, in no fixed order.
    pub fn entries(&self) -> (r: Vec<(PeerKey, Arc<Peer>)>)
        ensures
            r@.len() == self.peers_view().len(),
            forall|i: int|
                0 <= i < r@.len() ==> self.peers_view().contains_key(#[trigger] r@[i].0)
                    && (*r@[i].1).admission() == self.peers_view()[r@[i].0],
            forall|i: int, j: int| 0 <= i < j < r@.len() ==> r@[i].0 != r@[j].0,
    {
        peer_table_entries(&self.peers)
    }

    /// The peer admitted under `pk`, if any.
    pub fn get_peer(&self, pk: &PeerKey) -> (r: Option<Arc<Peer>>)
        ensures
            r is Some == self.peers_view().contains_key(*pk),
            r is Some ==> (*r->Some_0).admission() == self.peers_view()[*pk],
    {
        peer_table_get(&self.peers, pk)
    }

    /// The peer under `pk`, admitting it first if it is new. A known peer is
    /// returned as it is, even when the table is full: admission is final.
    /// A new peer is refused when the table is full; otherwise its proof of
    /// work is checked with `validate_pow` and, when sessions are enabled and
    /// the proof is valid, its key is converted with `convert_pk` and session
    /// keys are agreed with `exchange` (local public key, local secret key,
    /// peer's agreement key). A failure leaves the table unchanged.
    pub fn get_or_insert_peer<V, C, K>(
        &mut self,
        pk: &PeerKey,
        cfg: &AdmissionConfig,
        validate_pow: V,
        convert_pk: C,
        exchange: K,
    ) -> (r: Result<Arc<Peer>, PeersError>) where
        V: Fn(PeerKey) -> bool,
        C: Fn(PeerKey) -> Result<PeerKey, CryptoError>,
        K: Fn([u8; 32], [u8; 32], PeerKey) -> Result<([u8; 32], [u8; 32]), CryptoError>,

        requires
            old(self).wf(),
            forall|k: PeerKey| validate_pow.requires((k,)),
            forall|k: PeerKey| convert_pk.requires((k,)),
            forall|a: [u8; 32], b: [u8; 32], k: PeerKey| exchange.requires((a, b, k)),
        ensures
            final(self).wf(),
            final(self).unites_view() == old(self).unites_view(),
            exists|
                valid_pow: bool,
                converted: Result<PeerKey, CryptoError>,
                exchanged: Result<([u8; 32], [u8; 32]), CryptoError>,
            |
                admitted_as(
                    validate_pow,
                    convert_pk,
                    exchange,
                    *cfg,
                    *pk,
                    old(self).peers_view(),
                    result_admission(r),
                    final(self).peers_view(),
                    valid_pow,
                    converted,
                    exchanged,
                ),
    {
        let ghost table = self.peers_view();
        let existing = peer_table_get(&self.peers, pk);
        match existing {
            Some(peer) => {
                let r = Ok(peer);
                assert(admitted_as(validate_pow, convert_pk, exchange, *cfg, *pk, table, result_admission(r), self.peers_view(), true, Ok(*pk), Ok((*pk, *pk))));
                return r;
            },
            None => {},
        }
        if peer_table_len(&self.peers) as u64 >= cfg.max_peers {
            let r = Err(PeersError::CapacityExceeded(cfg.max_peers));
            assert(admitted_as(validate_pow, convert_pk, exchange, *cfg, *pk, table, result_admission(r), self.peers_view(), true, Ok(*pk), Ok((*pk, *pk))));
            return r;
        }
        let valid_pow = validate_pow(*pk);
        let ghost mut converted: Result<PeerKey, CryptoError> = Ok(*pk);
        let ghost mut exchanged: Result<([u8; 32], [u8; 32]), CryptoError> = Ok((*pk, *pk));
        let session_keys = if cfg.arm_messages && valid_pow {
            let agreement = convert_pk(*pk);
            proof {
                converted = agreement;
            }
            let agreement_pk = match agreement {
                Ok(k) => k,
                Err(e) => {
                    let r = Err(PeersError::CryptoError(e));
                    assert(admitted_as(validate_pow, convert_pk, exchange, *cfg, *pk, table, result_admission(r), self.peers_view(), valid_pow, converted, exchanged));
                    return r;
                },
            };
            let local_pk = match cfg.agreement_pk {
                Some(k) => k,
                None => {
                    let r = Err(PeersError::AgreementPkNotPresent);
                    assert(admitted_as(validate_pow, convert_pk, exchange, *cfg, *pk, table, result_admission(r), self.peers_view(), valid_pow, converted, exchanged));
                    return r;
                },
            };
            let local_sk = match cfg.agreement_sk {
                Some(k) => k,
                None => {
                    let r = Err(PeersError::AgreementSkNotPresent);
                    assert(admitted_as(validate_pow, convert_pk, exchange, *cfg, *pk, table, result_admission(r), self.peers_view(), valid_pow, converted, exchanged));
                    return r;
                },
            };
            let keys = exchange(local_pk, local_sk, agreement_pk);
            proof {
                exchanged = keys;
            }
            match keys {
                Ok(pair) => Some(SessionKeys::new(pair)),
                Err(e) => {
                    let r = Err(PeersError::CryptoError(e));
                    assert(admitted_as(validate_pow, convert_pk, exchange, *cfg, *pk, table, result_admission(r), self.peers_view(), valid_pow, converted, exchanged));
                    return r;
                },
            }
        } else {
            None
        };
        let peer = Arc::new(Peer::new(valid_pow, session_keys));
        let r = peer_table_get_or_insert(&mut self.peers, *pk, peer);
        assert(built_admission(*cfg, valid_pow, converted, exchanged) == Ok::<Admission, PeersError>((valid_pow, session_keys)));
        let r = Ok(r);
        assert(admitted_as(validate_pow, convert_pk, exchange, *cfg, *pk, table, result_admission(r), self.peers_view(), valid_pow, converted, exchanged));
        r
    }

    /// Whether to send a rendezvous hint from `sender` to `recipient` at
    /// `time`, recording it when one is sent.
    pub fn send_unites(
        &mut self,
        sender: &PeerKey,
        recipient: &PeerKey,
        time: u64,
        send_unites: i32,
    ) -> (r: bool)
        requires
            old(self).wf(),
        ensures
            final(self).wf(),
            (r, final(self).unites_view()) == unite_step(
                old(self).unites_view(),
                *sender,
                *recipient,
                time,
                send_unites,
            ),
            final(self).peers_view() == old(self).peers_view(),
    {
        if send_unites < 0 {
            return false;
        }
        if send_unites == 0 {
            return true;
        }
        let key = (*sender, *recipient);
        let swapped_key = (*recipient, *sender);
        let window: u64 = (send_unites as u64) * 1000;
        match unite_table_get(&self.unite_attempts, &key) {
            Some(last_time) => {
                let age: u64 = if time < last_time { 0 } else { time - last_time };
                if age < window {
                    return false;
                }
            },
            None => {},
        }
        unite_table_insert(&mut self.unite_attempts, key, time);
        unite_table_insert(&mut self.unite_attempts, swapped_key, time);
        proof {
            let t = self.unites_view();
            assert forall|a: PeerKey, b: PeerKey| #[trigger] t.contains_key((a, b)) implies t.contains_key((b, a)) && t[(a, b)] == t[(b, a)] by {
                let o = old(self).unites_view();
                if (a, b) == key || (a, b) == swapped_key {
                } else {
                    assert(o.contains_key((a, b)));
                    assert(o.contains_key((b, a)));
                }
            }
        }
        true
    }
}

} // verus!
