use vstd::prelude::*;

use std::sync::Arc;

use arc_swap::ArcSwapOption;

use crate::endpoint::{SocketAddress, TransportProt};
use crate::hello::{
    candidates, endpoint_of, endpoints_listed, hello_contact_candidates, hello_endpoints_of,
    hello_is_stale, last_time, source_of, stale, LastHello,
};

verus! {

/// The swappable HELLO record of one peer. `ArcSwapOption`'s strategy
/// parameter names a type that arc_swap does not export, so the cell is held
/// here, opaque to proofs, and reached only through the three functions below.
#[verifier::external_body]
pub struct HelloCell {
    cell: ArcSwapOption<LastHello>,
}

/// Relies on `ArcSwapAny::empty`: a cell that holds no record yet.
#[verifier::external_body]
fn hello_cell_empty() -> HelloCell {
    HelloCell { cell: ArcSwapOption::empty() }
}

/// Relies on `ArcSwapAny::store`: publishes `h` as the cell's record in one
/// swap. Other threads may store too, so nothing is said of later loads.
#[verifier::external_body]
fn hello_cell_store(c: &HelloCell, h: LastHello) {
    c.cell.store(Some(Arc::new(h)))
}

/// Relies on `ArcSwapAny::load_full`: the record stored at some moment of the
/// call, whole; which one depends on concurrent stores.
#[verifier::external_body]
fn hello_cell_load(c: &HelloCell) -> Option<Arc<LastHello>> {
    c.cell.load_full()
}

/// The pair of symmetric keys agreed with one peer: `tx` encrypts what is
/// sent to it, `rx` decrypts what comes from it.
#[derive(Clone, Copy, Debug)]
pub struct SessionKeys {
    pub tx: [u8; 32],
    pub rx: [u8; 32],
}

impl SessionKeys {
    /// Takes the key exchange's pair as `(rx, tx)`.
    pub fn new(keys: ([u8; 32], [u8; 32])) -> (r: SessionKeys)
        ensures
            r.rx == keys.0,
            r.tx == keys.1,
    {
        SessionKeys { tx: keys.1, rx: keys.0 }
    }
}

/// What admission fixed of a peer, for good: whether its proof of work was
/// valid, and its session keys if any.
pub type Admission = (bool, Option<SessionKeys>);

/// One admitted peer. `valid_pow` and `session_keys` are set when the peer is
/// built and never change; only the HELLO record is replaced.
pub struct Peer {
    valid_pow: bool,
    session_keys: Option<SessionKeys>,
    last_hello_ptr: HelloCell,
}

impl Peer {
    /// The write-once part of the peer.
    pub closed spec fn admission(&self) -> Admission {
        (self.valid_pow, self.session_keys)
    }

    /// A peer with the given admission verdict and keys, and no HELLO yet.
    pub fn new(valid_pow: bool, session_keys: Option<SessionKeys>) -> (r: Peer)
        ensures
            r.admission() == (valid_pow, session_keys),
    {
        Peer { valid_pow, session_keys, last_hello_ptr: hello_cell_empty() }
    }

    pub fn has_invalid_pow(&self) -> (r: bool)
        ensures
            r == !self.admission().0,
    {
        !self.valid_pow
    }

    pub fn tx_key(&self) -> (r: Option<[u8; 32]>)
        ensures
            r == (match self.admission().1 {
                Some(k) => Some(k.tx),
                None => None::<[u8; 32]>,
            }),
    {
        match &self.session_keys {
            Some(k) => Some(k.tx),
            None => None,
        }
    }

    pub fn rx_key(&self) -> (r: Option<[u8; 32]>)
        ensures
            r == (match self.admission().1 {
                Some(k) => Some(k.rx),
                None => None::<[u8; 32]>,
            }),
    {
        match &self.session_keys {
            Some(k) => Some(k.rx),
            None => None,
        }
    }

    /// Replaces the HELLO record with one built from the arguments. The peer
    /// is taken by shared reference: its admission stays as it was.
    pub fn hello_tx(
        &self,
        time: u64,
        src: SocketAddress,
        prot: TransportProt,
        endpoints: &[u8],
    ) {
        hello_cell_store(&self.last_hello_ptr, LastHello::new(time, src, prot, endpoints));
    }

    /// The current HELLO record, if any.
    pub fn last_hello(&self) -> Option<Arc<LastHello>> {
        hello_cell_load(&self.last_hello_ptr)
    }

    /// Whether the peer is stale at `time` by the record read during the
    /// call. Whatever that record is, a clock that went backwards never makes
    /// the peer stale: staleness needs `time` itself to exceed the timeout.
    pub fn is_stale(&self, time: u64, hello_timeout: u64) -> (r: bool)
        ensures
            exists|h: Option<LastHello>| r == stale(last_time(h), time, hello_timeout),
            r ==> time as int > hello_timeout as int * 1000,
    {
        let current = self.last_hello();
        match current {
            Some(h) => {
                let r = hello_is_stale(Some(&*h), time, hello_timeout);
                assert(r == stale(last_time(Some(*h)), time, hello_timeout));
                r
            },
            None => {
                let r = hello_is_stale(None, time, hello_timeout);
                assert(r == stale(last_time(None), time, hello_timeout));
                r
            },
        }
    }

    /// The rendezvous payload built from the record read during the call.
    pub fn contact_candidates(&self) -> (r: Vec<u8>)
        ensures
            exists|h: Option<LastHello>| r@ == candidates(h),
    {
        let current = self.last_hello();
        match current {
            Some(h) => {
                let r = hello_contact_candidates(Some(&*h));
                assert(r@ == candidates(Some(*h)));
                r
            },
            None => {
                let r = hello_contact_candidates(None);
                assert(r@ == candidates(None));
                r
            },
        }
    }

    /// The endpoints the peer advertised in the record read during the call;
    /// none before any HELLO.
    pub fn hello_endpoints(&self) -> (r: Vec<SocketAddress>)
        ensures
            exists|h: Option<LastHello>| endpoints_listed(r@, h),
    {
        let current = self.last_hello();
        match current {
            Some(h) => {
                let r = hello_endpoints_of(Some(&*h));
                assert(endpoints_listed(r@, Some(*h)));
                r
            },
            None => {
                let r = hello_endpoints_of(None);
                assert(endpoints_listed(r@, None));
                r
            },
        }
    }

    /// The transport and observed source of the record read during the
    /// call, if any.
    pub fn endpoint(&self) -> (r: Option<(TransportProt, SocketAddress)>)
        ensures
            exists|h: Option<LastHello>| r == source_of(h),
    {
        let current = self.last_hello();
        match current {
            Some(h) => {
                let r = endpoint_of(Some(&*h));
                assert(r == source_of(Some(*h)));
                r
            },
            None => {
                let r = endpoint_of(None);
                assert(r == source_of(None));
                r
            },
        }
    }
}

} // verus!
