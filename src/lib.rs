//! Peer registry and rendezvous throttling of a super peer: the table of
//! admitted peers, their write-once admission state, their latest liveness
//! evidence, and the decision of when to tell two peers to connect directly.

pub mod endpoint;
pub mod hello;
pub mod laws;
pub mod peer;
pub mod registry;
pub mod tables;

pub use endpoint::{
    decode_endpoint, decode_endpoints, encode_endpoint, SocketAddress, TransportProt, ENDPOINT_LEN,
};
pub use hello::{
    endpoint_of, hello_contact_candidates, hello_endpoints_of, hello_is_stale, LastHello,
};
pub use peer::{Admission, Peer, SessionKeys};
pub use registry::{AdmissionConfig, CryptoError, PeersError, PeersList};
pub use tables::PeerKey;
