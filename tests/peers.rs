use drasyl_sp_peers::{
    decode_endpoints, encode_endpoint, endpoint_of, hello_contact_candidates, hello_endpoints_of,
    hello_is_stale, AdmissionConfig,
    CryptoError, LastHello, Peer, PeersError, PeersList, SessionKeys, SocketAddress,
    TransportProt, ENDPOINT_LEN,
};

fn key(b: u8) -> [u8; 32] {
    [b; 32]
}

fn cfg(max_peers: u64, arm: bool) -> AdmissionConfig {
    AdmissionConfig {
        max_peers,
        arm_messages: arm,
        agreement_pk: Some([7u8; 32]),
        agreement_sk: Some([8u8; 32]),
    }
}

fn valid(_k: [u8; 32]) -> bool {
    true
}

fn invalid(_k: [u8; 32]) -> bool {
    false
}

fn convert(k: [u8; 32]) -> Result<[u8; 32], CryptoError> {
    let mut out = k;
    out[0] = out[0].wrapping_add(1);
    Ok(out)
}

fn exchange(
    _pk: [u8; 32],
    _sk: [u8; 32],
    peer: [u8; 32],
) -> Result<([u8; 32], [u8; 32]), CryptoError> {
    Ok(([peer[0]; 32], [peer[0].wrapping_add(100); 32]))
}

fn admit_one(list: &mut PeersList, k: [u8; 32], c: &AdmissionConfig) -> Result<std::sync::Arc<Peer>, PeersError> {
    list.get_or_insert_peer(&k, c, valid, convert, exchange)
}

fn v4(a: u8, b: u8, c: u8, d: u8, port: u16) -> SocketAddress {
    SocketAddress::from_v4([a, b, c, d], port)
}

#[test]
fn new_registry_is_empty() {
    let list = PeersList::new(4);
    assert_eq!(list.len(), 0);
    assert!(list.get_peer(&key(1)).is_none());
    assert!(list.entries().is_empty());
}

#[test]
fn admission_is_idempotent() {
    let mut list = PeersList::new(4);
    let c = cfg(4, true);
    let first = admit_one(&mut list, key(1), &c).unwrap();
    assert_eq!(list.len(), 1);
    for _ in 0..5 {
        let again = list
            .get_or_insert_peer(&key(1), &c, invalid, convert, exchange)
            .unwrap();
        assert!(std::sync::Arc::ptr_eq(&first, &again));
        assert!(!again.has_invalid_pow());
    }
    assert_eq!(list.len(), 1);
    let got = list.get_peer(&key(1)).unwrap();
    assert!(std::sync::Arc::ptr_eq(&first, &got));
}

#[test]
fn capacity_bound_refuses_new_keys_only() {
    let mut list = PeersList::new(2);
    let c = cfg(2, false);
    admit_one(&mut list, key(1), &c).unwrap();
    admit_one(&mut list, key(2), &c).unwrap();
    assert_eq!(admit_one(&mut list, key(3), &c).err(), Some(PeersError::CapacityExceeded(2)));
    assert_eq!(list.len(), 2);
    assert!(admit_one(&mut list, key(1), &c).is_ok());
    assert!(admit_one(&mut list, key(2), &c).is_ok());
    assert_eq!(list.entries().len(), 2);
}

#[test]
fn capacity_zero_refuses_everything() {
    let mut list = PeersList::new(0);
    let c = cfg(0, false);
    assert_eq!(admit_one(&mut list, key(1), &c).err(), Some(PeersError::CapacityExceeded(0)));
}

#[test]
fn session_keys_are_read_as_rx_then_tx() {
    let mut list = PeersList::new(4);
    let peer = admit_one(&mut list, key(5), &cfg(4, true)).unwrap();
    // the converted key starts with 6; the exchange returns ([6; 32], [106; 32])
    assert_eq!(peer.rx_key(), Some([6u8; 32]));
    assert_eq!(peer.tx_key(), Some([106u8; 32]));
}

#[test]
fn no_session_keys_without_arming_or_valid_pow() {
    let mut list = PeersList::new(4);
    let unarmed = admit_one(&mut list, key(1), &cfg(4, false)).unwrap();
    assert_eq!(unarmed.tx_key(), None);
    assert!(!unarmed.has_invalid_pow());
    let weak = list
        .get_or_insert_peer(&key(2), &cfg(4, true), invalid, convert, exchange)
        .unwrap();
    assert!(weak.has_invalid_pow());
    assert_eq!(weak.rx_key(), None);
}

#[test]
fn crypto_failures_leave_table_unchanged() {
    let mut list = PeersList::new(4);
    let c = cfg(4, true);
    let r = list.get_or_insert_peer(&key(1), &c, valid, |_k: [u8; 32]| Err(CryptoError { code: 3 }), exchange);
    assert_eq!(r.err(), Some(PeersError::CryptoError(CryptoError { code: 3 })));
    let r = list.get_or_insert_peer(&key(1), &c, valid, convert, |_a: [u8; 32], _b: [u8; 32], _c: [u8; 32]| {
        Err(CryptoError { code: 9 })
    });
    assert_eq!(r.err(), Some(PeersError::CryptoError(CryptoError { code: 9 })));
    assert_eq!(list.len(), 0);
}

#[test]
fn missing_local_keys_are_reported() {
    let mut list = PeersList::new(4);
    let mut c = cfg(4, true);
    c.agreement_pk = None;
    assert_eq!(admit_one(&mut list, key(1), &c).err(), Some(PeersError::AgreementPkNotPresent));
    c.agreement_pk = Some([1u8; 32]);
    c.agreement_sk = None;
    assert_eq!(admit_one(&mut list, key(1), &c).err(), Some(PeersError::AgreementSkNotPresent));
    c.agreement_pk = None;
    assert_eq!(admit_one(&mut list, key(1), &c).err(), Some(PeersError::AgreementPkNotPresent));
    assert_eq!(list.len(), 0);
    // without valid proof of work no keys are needed
    let ok = list.get_or_insert_peer(&key(1), &c, invalid, convert, exchange);
    assert!(ok.is_ok());
}

#[test]
fn write_once_fields_survive_hellos() {
    let peer = Peer::new(true, Some(SessionKeys::new(([1u8; 32], [2u8; 32]))));
    peer.hello_tx(10, v4(1, 2, 3, 4, 5), TransportProt::UDP, &[1, 2, 3]);
    peer.hello_tx(20, v4(1, 2, 3, 4, 6), TransportProt::TCP, &[]);
    assert!(!peer.has_invalid_pow());
    assert_eq!(peer.rx_key(), Some([1u8; 32]));
    assert_eq!(peer.tx_key(), Some([2u8; 32]));
}

#[test]
fn fresh_peer_has_sentinel_candidates() {
    let peer = Peer::new(true, None);
    assert_eq!(peer.contact_candidates(), vec![0u8]);
    assert!(peer.endpoint().is_none());
    assert!(peer.hello_endpoints().is_empty());
    assert_eq!(hello_contact_candidates(None), vec![0u8]);
}

#[test]
fn udp_candidates_append_observed_source() {
    let peer = Peer::new(true, None);
    let advertised: Vec<u8> = (0..ENDPOINT_LEN as u8).collect();
    peer.hello_tx(1000, v4(192, 168, 1, 2, 0x1234), TransportProt::UDP, &advertised);
    let c = peer.contact_candidates();
    assert_eq!(c.len(), advertised.len() + ENDPOINT_LEN);
    assert_eq!(&c[..advertised.len()], advertised.as_slice());
    assert_eq!(
        &c[advertised.len()..],
        &[0, 0, 0, 0, 0, 0, 0, 0, 0, 0, 0xff, 0xff, 192, 168, 1, 2, 0x12, 0x34]
    );
    let (prot, src) = peer.endpoint().unwrap();
    assert_eq!(prot, TransportProt::UDP);
    assert_eq!(src.port, 0x1234);
}

#[test]
fn tcp_candidates_are_advertised_endpoints() {
    let peer = Peer::new(true, None);
    let advertised = vec![9u8, 8, 7, 6];
    peer.hello_tx(1000, v4(10, 0, 0, 1, 22527), TransportProt::TCP, &advertised);
    assert_eq!(peer.contact_candidates(), advertised);
}

#[test]
fn udp_candidates_with_no_advertised_endpoints() {
    let h = LastHello::new(5, v4(1, 1, 1, 1, 1), TransportProt::UDP, &[]);
    assert_eq!(
        hello_contact_candidates(Some(&h)),
        vec![0, 0, 0, 0, 0, 0, 0, 0, 0, 0, 0xff, 0xff, 1, 1, 1, 1, 0, 1]
    );
}

#[test]
fn staleness_by_timeout_in_seconds() {
    let peer = Peer::new(true, None);
    // no hello: last time counts as zero
    assert!(!peer.is_stale(30_000, 30));
    assert!(peer.is_stale(30_001, 30));
    peer.hello_tx(10_000, v4(1, 2, 3, 4, 5), TransportProt::UDP, &[]);
    assert!(!peer.is_stale(40_000, 30));
    assert!(peer.is_stale(40_001, 30));
}

#[test]
fn hello_overwrite_uses_newest_time() {
    let peer = Peer::new(true, None);
    peer.hello_tx(1_000, v4(1, 2, 3, 4, 5), TransportProt::UDP, &[]);
    peer.hello_tx(100_000, v4(1, 2, 3, 4, 5), TransportProt::UDP, &[]);
    assert!(!peer.is_stale(100_000, 5));
    assert!(!peer.is_stale(105_000, 5));
    assert!(peer.is_stale(105_001, 5));
}

#[test]
fn clock_regression_is_not_stale() {
    let peer = Peer::new(true, None);
    peer.hello_tx(u64::MAX, v4(1, 2, 3, 4, 5), TransportProt::UDP, &[]);
    assert!(!peer.is_stale(0, 0));
    assert!(!peer.is_stale(5, 0));
    let h = LastHello::new(50, v4(1, 2, 3, 4, 5), TransportProt::TCP, &[]);
    assert!(!hello_is_stale(Some(&h), 10, 0));
}

#[test]
fn huge_timeout_never_stale() {
    assert!(!hello_is_stale(None, u64::MAX, u64::MAX));
    assert!(!hello_is_stale(None, u64::MAX, u64::MAX / 1000 + 1));
    assert!(hello_is_stale(None, u64::MAX, u64::MAX / 1000 - 1));
}

#[test]
fn unite_negative_interval_never_sends() {
    let mut list = PeersList::new(4);
    assert!(!list.send_unites(&key(1), &key(2), 0, -1));
    assert!(!list.send_unites(&key(1), &key(2), 100_000, -1));
}

#[test]
fn unite_zero_interval_always_sends() {
    let mut list = PeersList::new(4);
    for t in 0..4u64 {
        assert!(list.send_unites(&key(1), &key(2), t, 0));
    }
}

#[test]
fn unite_interval_throttles() {
    let mut list = PeersList::new(4);
    assert!(list.send_unites(&key(1), &key(2), 10_000, 5));
    assert!(!list.send_unites(&key(1), &key(2), 13_000, 5));
    assert!(list.send_unites(&key(1), &key(2), 15_000, 5));
    assert!(!list.send_unites(&key(1), &key(2), 19_999, 5));
    assert!(list.send_unites(&key(1), &key(2), 20_000, 5));
}

#[test]
fn unite_throttle_is_shared_by_both_orders() {
    let mut list = PeersList::new(4);
    assert!(list.send_unites(&key(1), &key(2), 10_000, 5));
    assert!(!list.send_unites(&key(2), &key(1), 13_000, 5));
    assert!(list.send_unites(&key(2), &key(1), 15_000, 5));
    assert!(!list.send_unites(&key(1), &key(2), 16_000, 5));
    // another pair is not affected
    assert!(list.send_unites(&key(1), &key(3), 16_000, 5));
}

#[test]
fn unite_clock_regression_counts_as_too_soon() {
    let mut list = PeersList::new(4);
    assert!(list.send_unites(&key(1), &key(2), 10_000, 1));
    assert!(!list.send_unites(&key(1), &key(2), 5_000, 1));
}

#[test]
fn unite_large_interval() {
    let mut list = PeersList::new(4);
    assert!(list.send_unites(&key(1), &key(2), 0, i32::MAX));
    assert!(!list.send_unites(&key(1), &key(2), 2_147_483_646_999, i32::MAX));
    assert!(list.send_unites(&key(1), &key(2), 2_147_483_647_000, i32::MAX));
}

#[test]
fn endpoint_encoding_exact() {
    let mut buf = vec![0xaau8];
    encode_endpoint(&SocketAddress::from_v6([1u8; 16], 443), &mut buf);
    assert_eq!(buf.len(), 1 + ENDPOINT_LEN);
    assert_eq!(buf[0], 0xaa);
    assert_eq!(&buf[1..17], &[1u8; 16]);
    assert_eq!(&buf[17..], &[1, 187]);
}

#[test]
fn endpoint_list_decoding() {
    let mut buf = Vec::new();
    encode_endpoint(&v4(10, 0, 0, 1, 80), &mut buf);
    encode_endpoint(&SocketAddress::from_v6([2u8; 16], 65535), &mut buf);
    buf.push(7);
    let list = decode_endpoints(&buf);
    assert_eq!(list.len(), 2);
    assert_eq!(list[0].ip[12..], [10, 0, 0, 1]);
    assert_eq!(list[0].port, 80);
    assert_eq!(list[1].ip, [2u8; 16]);
    assert_eq!(list[1].port, 65535);
    let peer = Peer::new(false, None);
    peer.hello_tx(1, v4(1, 1, 1, 1, 1), TransportProt::UDP, &buf);
    assert_eq!(peer.hello_endpoints().len(), 2);
}

#[test]
fn transport_names() {
    assert_eq!(TransportProt::TCP.name(), "tcp");
    assert_eq!(TransportProt::UDP.name(), "udp");
}

#[test]
fn endpoints_of_a_record() {
    assert!(hello_endpoints_of(None).is_empty());
    let mut buf = Vec::new();
    encode_endpoint(&v4(10, 0, 0, 2, 4433), &mut buf);
    let h = LastHello::new(3, v4(1, 2, 3, 4, 5), TransportProt::TCP, &buf);
    let list = hello_endpoints_of(Some(&h));
    assert_eq!(list.len(), 1);
    assert_eq!(list[0].ip[12..], [10, 0, 0, 2]);
    assert_eq!(list[0].port, 4433);
}

#[test]
fn source_of_a_record() {
    assert!(endpoint_of(None).is_none());
    let h = LastHello::new(3, v4(1, 2, 3, 4, 5), TransportProt::TCP, &[]);
    let (prot, src) = endpoint_of(Some(&h)).unwrap();
    assert_eq!(prot, TransportProt::TCP);
    assert_eq!(src.ip[12..], [1, 2, 3, 4]);
    assert_eq!(src.port, 5);
    let peer = Peer::new(true, None);
    peer.hello_tx(7, v4(9, 9, 9, 9, 99), TransportProt::UDP, &[]);
    let (prot, src) = peer.endpoint().unwrap();
    assert_eq!(prot, TransportProt::UDP);
    assert_eq!(src.port, 99);
}

#[test]
fn unbounded_registry_admits() {
    let mut list = PeersList::new(u64::MAX);
    let c = cfg(u64::MAX, false);
    for b in 0..3u8 {
        admit_one(&mut list, key(b), &c).unwrap();
    }
    let entries = list.entries();
    assert_eq!(entries.len(), 3);
    let mut keys: Vec<[u8; 32]> = entries.iter().map(|(k, _)| *k).collect();
    keys.sort();
    keys.dedup();
    assert_eq!(keys.len(), 3);
}
