use vstd::prelude::*;

use crate::endpoint::{
    decode_endpoints, decodes, encode_endpoint, endpoint_bytes, SocketAddress, TransportProt,
};

verus! {

/// The most recent liveness evidence of one peer. Never changed in place: a
/// newer HELLO replaces the whole record.
#[derive(Debug)]
pub struct LastHello {
    pub time: u64,
    pub src: SocketAddress,
    pub prot: TransportProt,
    pub endpoints: Vec<u8>,
}

impl LastHello {
    pub fn new(time: u64, src: SocketAddress, prot: TransportProt, endpoints: &[u8]) -> (r: LastHello)
        ensures
            r.time == time,
            r.src == src,
            r.prot == prot,
            r.endpoints@ == endpoints@,
    {
        LastHello { time, src, prot, endpoints: copy_bytes(endpoints) }
    }
}

fn copy_bytes(s: &[u8]) -> (r: Vec<u8>)
    ensures
        r@ == s@,
{
    let mut r: Vec<u8> = Vec::with_capacity(s.len());
    let mut i: usize = 0;
    while i < s.len()
        invariant
            0 <= i <= s@.len(),
            r@ == s@.subrange(0, i as int),
        decreases s@.len() - i,
    {
        r.push(s[i]);
        assert(s@.subrange(0, i as int + 1) =~= s@.subrange(0, i as int).push(s@[i as int]));
        i = i + 1;
    }
    assert(s@.subrange(0, s@.len() as int) =~= s@);
    r
}

/// The record behind an optional reference.
pub open spec fn record(h: Option<&LastHello>) -> Option<LastHello> {
    match h {
        Some(h) => Some(*h),
        None => None,
    }
}

/// Time of the last HELLO, `0` when none was recorded.
pub open spec fn last_time(h: Option<LastHello>) -> u64 {
    match h {
        Some(h) => h.time,
        None => 0,
    }
}

/// Age of the evidence at `now`; a clock that went backwards gives age zero.
pub open spec fn hello_age(last: u64, now: u64) -> int {
    if now < last { 0 } else { now - last }
}

/// Stale: older than `timeout` seconds, with times counted in milliseconds.
pub open spec fn stale(last: u64, now: u64, timeout: u64) -> bool {
    hello_age(last, now) > timeout * 1000
}

/// What is told to a third party about how to reach the peer: nothing (a
/// single zero byte) before any HELLO; the advertised endpoints after a
/// HELLO over TCP; after one over UDP the advertised endpoints followed by
/// the observed source address.
pub open spec fn candidates(h: Option<LastHello>) -> Seq<u8> {
    match h {
        None => seq![0u8],
        Some(h) => if h.prot == TransportProt::UDP {
            h.endpoints@ + endpoint_bytes(h.src)
        } else {
            h.endpoints@
        },
    }
}

/// Whether a peer whose current record is `hello` is stale at `time`.
pub fn hello_is_stale(hello: Option<&LastHello>, time: u64, hello_timeout: u64) -> (r: bool)
    ensures
        r == stale(last_time(record(hello)), time, hello_timeout),
        time < last_time(record(hello)) ==> !r,
{
    let mut last: u64 = match hello {
        Some(h) => h.time,
        None => 0,
    };
    if time < last {
        last = time;
    }
    let age = time - last;
    if hello_timeout > u64::MAX / 1000 {
        false
    } else {
        age > hello_timeout * 1000
    }
}

/// The rendezvous payload for a peer whose current record is `hello`.
pub fn hello_contact_candidates(hello: Option<&LastHello>) -> (r: Vec<u8>)
    ensures
        r@ == candidates(record(hello)),
{
    match hello {
        None => vec![0u8],
        Some(h) => {
            if h.prot == TransportProt::UDP {
                let mut buf = h.endpoints.clone();
                encode_endpoint(&h.src, &mut buf);
                buf
            } else {
                h.endpoints.clone()
            }
        },
    }
}

/// `list` is what a peer whose current record is `h` advertised: nothing
/// before any HELLO, else the endpoints written in the record.
pub open spec fn endpoints_listed(list: Seq<SocketAddress>, h: Option<LastHello>) -> bool {
    match h {
        None => list.len() == 0,
        Some(h) => decodes(list, h.endpoints@),
    }
}

/// The transport and observed source of a record.
pub open spec fn source_of(h: Option<LastHello>) -> Option<(TransportProt, SocketAddress)> {
    match h {
        None => None,
        Some(h) => Some((h.prot, h.src)),
    }
}

/// The advertised endpoints of a peer whose current record is `hello`.
pub fn hello_endpoints_of(hello: Option<&LastHello>) -> (r: Vec<SocketAddress>)
    ensures
        endpoints_listed(r@, record(hello)),
{
    match hello {
        Some(h) => decode_endpoints(h.endpoints.as_slice()),
        None => Vec::new(),
    }
}

/// The transport and observed source of the record `hello`, if any.
pub fn endpoint_of(hello: Option<&LastHello>) -> (r: Option<(TransportProt, SocketAddress)>)
    ensures
        r == source_of(record(hello)),
{
    match hello {
        Some(h) => Some((h.prot, h.src)),
        None => None,
    }
}

} // verus!
