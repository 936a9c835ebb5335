//! The Flashblocks command-line options, the node's fixed parameters, and
//! the settings the Flashblocks service starts its p2p node with.
use crate::addr::{any_ip4_tcp_parts, multiaddr_parts, tcp_port_of};
use crate::builder::{default_listen_addr, listen_addrs_take_peer, NodeBuilder, NodeSettings};
use crate::identity::keypair_peer_id;
use vstd::prelude::*;

verus! {

/// Most connections the node keeps established at once.
pub const DEFAULT_MAX_PEER_COUNT: u32 = 200;

/// Protocol version the node announces to its peers.
pub const PROTOCOL_VERSION: &'static str = "1.0.0";

/// Agent version the node announces to its peers.
pub const DEFAULT_AGENT_VERSION: &'static str = "rollup-boost/1.0.0";

/// Name of the stream protocol that carries Flashblocks payloads.
pub const FLASHBLOCKS_STREAM_PROTOCOL: &'static str = "/flashblocks/1.0.0";

/// Seconds between two pings of a peer.
pub const PING_INTERVAL_SECS: u64 = 10;

/// Seconds a transport upgrade may take.
pub const TRANSPORT_TIMEOUT_SECS: u64 = 20;

/// Seconds before an idle connection is closed: never, in effect.
pub const IDLE_CONNECTION_TIMEOUT_SECS: u64 = u64::MAX;

/// How many received payloads wait for the service at most.
pub const PAYLOAD_CHANNEL_CAPACITY: usize = 100;

/// The Flashblocks command-line options.
#[derive(Clone, Debug)]
pub struct FlashblocksArgs {
    /// Enable Flashblocks client
    pub flashblocks: bool,
    /// Flashblocks p2p port
    pub flashblocks_p2p_port: u16,
    /// Comma-separated list of multiaddrs of known Flashblocks peers
    pub flashblocks_known_peers: String,
    /// Flashblocks WebSocket host for outbound connections
    pub flashblocks_host: String,
    /// Flashblocks WebSocket port for outbound connections
    pub flashblocks_port: u16,
}

/// The default list of known peers.
pub open spec fn default_known_peers_text() -> Seq<char> {
    "/ip4/127.0.0.1/tcp/9001/p2p/12D3KooW9sn2ZidTANAmQB1paiKBPGkF5DVusZXxaZCapbW94G44"@
}

/// The default host for outbound connections.
pub open spec fn default_host_text() -> Seq<char> {
    "127.0.0.1"@
}

impl Default for FlashblocksArgs {
    /// The options when none is given on the command line or in the
    /// environment.
    fn default() -> (args: Self)
        ensures
            !args.flashblocks,
            args.flashblocks_p2p_port == 9000,
            args.flashblocks_known_peers@ == default_known_peers_text(),
            args.flashblocks_host@ == default_host_text(),
            args.flashblocks_port == 1112,
    {
        FlashblocksArgs {
            flashblocks: false,
            flashblocks_p2p_port: 9000,
            flashblocks_known_peers: String::from_str(
                "/ip4/127.0.0.1/tcp/9001/p2p/12D3KooW9sn2ZidTANAmQB1paiKBPGkF5DVusZXxaZCapbW94G44",
            ),
            flashblocks_host: String::from_str("127.0.0.1"),
            flashblocks_port: 1112,
        }
    }
}

/// The Flashblocks service's p2p side.
pub struct Flashblocks {}

impl Flashblocks {
    /// The settings of the node the service starts: a fresh key pair, the
    /// only listen address `/ip4/0.0.0.0/tcp/<p2p_port>`, no known peer.
    pub fn node_settings(p2p_port: u16) -> (s: NodeSettings)
        ensures
            s@.peer_id == keypair_peer_id(s@.keypair),
            s@.listen_addrs.len() == 1,
            default_listen_addr(Some(p2p_port), s@.listen_addrs[0]),
            multiaddr_parts(s@.listen_addrs[0]) == any_ip4_tcp_parts(p2p_port),
            tcp_port_of(multiaddr_parts(s@.listen_addrs[0])) == p2p_port,
            listen_addrs_take_peer(s@),
            s@.known_peers.len() == 0,
    {
        NodeBuilder::new().with_port(p2p_port).into_settings()
    }
}

} // verus!
