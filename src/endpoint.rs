use vstd::prelude::*;

verus! {

/// Encoded length of one endpoint: sixteen address bytes, then the port.
pub const ENDPOINT_LEN: usize = 18;

/// A transport-level socket address. IPv4 addresses are held in their
/// IPv4-mapped IPv6 form (`::ffff:a.b.c.d`).
#[derive(Clone, Copy, Debug)]
pub struct SocketAddress {
    pub ip: [u8; 16],
    pub port: u16,
}

/// The transport a HELLO arrived over.
#[derive(Clone, Copy, Debug, PartialEq, Eq, Structural)]
pub enum TransportProt {
    TCP,
    UDP,
}

impl TransportProt {
    /// Lower-case name of the transport, as used in `<prot>://<addr>` text.
    pub fn name(&self) -> (r: &'static str)
        ensures
            r@ == (if *self == TransportProt::TCP { "tcp"@ } else { "udp"@ }),
    {
        proof {
            reveal_strlit("tcp");
            reveal_strlit("udp");
        }
        match self {
            TransportProt::TCP => "tcp",
            TransportProt::UDP => "udp",
        }
    }
}

impl SocketAddress {
    /// An IPv4 address with its port, stored IPv4-mapped.
    pub fn from_v4(octets: [u8; 4], port: u16) -> (r: SocketAddress)
        ensures
            r.ip@ == seq![0u8, 0, 0, 0, 0, 0, 0, 0, 0, 0, 0xffu8, 0xffu8] + octets@,
            r.port == port,
    {
        let r = SocketAddress {
            ip: [0, 0, 0, 0, 0, 0, 0, 0, 0, 0, 0xff, 0xff, octets[0], octets[1], octets[2], octets[3]],
            port,
        };
        assert(r.ip@ =~= seq![0u8, 0, 0, 0, 0, 0, 0, 0, 0, 0, 0xffu8, 0xffu8] + octets@);
        r
    }

    /// An IPv6 address with its port.
    pub fn from_v6(ip: [u8; 16], port: u16) -> (r: SocketAddress)
        ensures
            r.ip == ip,
            r.port == port,
    {
        SocketAddress { ip, port }
    }
}

/// The wire form of one endpoint: the sixteen address bytes, then the port
/// in network byte order.
pub open spec fn endpoint_bytes(a: SocketAddress) -> Seq<u8> {
    a.ip@ + seq![(a.port / 256) as u8, (a.port % 256) as u8]
}

/// Appends the wire form of `a` to `buf`.
pub fn encode_endpoint(a: &SocketAddress, buf: &mut Vec<u8>)
    ensures
        final(buf)@ == old(buf)@ + endpoint_bytes(*a),
        final(buf)@.len() == old(buf)@.len() + ENDPOINT_LEN,
{
    let ghost start = buf@;
    let mut i: usize = 0;
    while i < 16
        invariant
            0 <= i <= 16,
            buf@ == start + a.ip@.subrange(0, i as int),
        decreases 16 - i,
    {
        buf.push(a.ip[i]);
        assert(a.ip@.subrange(0, i as int + 1) =~= a.ip@.subrange(0, i as int).push(a.ip@[i as int]));
        i = i + 1;
    }
    buf.push((a.port / 256) as u8);
    buf.push((a.port % 256) as u8);
    assert(a.ip@.subrange(0, 16) =~= a.ip@);
    assert(buf@ =~= start + endpoint_bytes(*a));
}

/// Reads the endpoint whose wire form starts at `start`.
pub fn decode_endpoint(bytes: &[u8], start: usize) -> (r: SocketAddress)
    requires
        start + ENDPOINT_LEN <= bytes@.len(),
    ensures
        endpoint_bytes(r) == bytes@.subrange(start as int, start + ENDPOINT_LEN),
{
    let len = bytes.len();
    let mut ip: [u8; 16] = [0u8; 16];
    let mut i: usize = 0;
    while i < 16
        invariant
            0 <= i <= 16,
            len == bytes@.len(),
            start + ENDPOINT_LEN <= bytes@.len(),
            forall|j: int| 0 <= j < i ==> ip@[j] == bytes@[start + j],
        decreases 16 - i,
    {
        ip[i] = bytes[start + i];
        i = i + 1;
    }
    let hi = bytes[start + 16];
    let lo = bytes[start + 17];
    let port: u16 = (hi as u16) * 256 + (lo as u16);
    let r = SocketAddress { ip, port };
    assert(endpoint_bytes(r) =~= bytes@.subrange(start as int, start + ENDPOINT_LEN));
    r
}

/// `list` is the endpoints written whole in `bytes`, in order.
pub open spec fn decodes(list: Seq<SocketAddress>, bytes: Seq<u8>) -> bool {
    &&& list.len() == bytes.len() / (ENDPOINT_LEN as nat)
    &&& forall|i: int|
        0 <= i < list.len() ==> endpoint_bytes(#[trigger] list[i]) == bytes.subrange(
            i * ENDPOINT_LEN,
            i * ENDPOINT_LEN + ENDPOINT_LEN,
        )
}

/// Splits an endpoint list into its endpoints; bytes after the last whole
/// endpoint are ignored.
pub fn decode_endpoints(bytes: &[u8]) -> (r: Vec<SocketAddress>)
    ensures
        decodes(r@, bytes@),
{
    let n = bytes.len() / ENDPOINT_LEN;
    let mut r: Vec<SocketAddress> = Vec::new();
    let mut k: usize = 0;
    while k < n
        invariant
            0 <= k <= n,
            n == bytes@.len() / (ENDPOINT_LEN as nat),
            bytes@.len() <= usize::MAX,
            r@.len() == k,
            forall|i: int|
                0 <= i < k ==> endpoint_bytes(#[trigger] r@[i]) == bytes@.subrange(
                    i * ENDPOINT_LEN,
                    i * ENDPOINT_LEN + ENDPOINT_LEN,
                ),
        decreases n - k,
    {
        assert(k * ENDPOINT_LEN + ENDPOINT_LEN <= bytes@.len()) by (nonlinear_arith)
            requires
                k < n,
                n == bytes@.len() / 18nat,
        ;
        let a = decode_endpoint(bytes, k * ENDPOINT_LEN);
        r.push(a);
        k = k + 1;
    }
    r
}

} // verus!
