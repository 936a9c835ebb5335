//! Building a node: the builder that collects its options, and the
//! settings the node is started with once the defaults are filled in.
use crate::addr::{
    any_ip4_tcp_addr, any_ip4_tcp_parts, any_ip4_tcp_text, known_peer_routes, multiaddr_parts,
    parsed_multiaddr, route_of, tcp_port_of, lemma_any_ip4_tcp_parts_port, with_peer_all, with_peer_parts, all_take_peer, KnownPeerError,
};
use crate::identity::{generate_ed25519, keypair_peer_id, new_cancellation_token, peer_id_of};
use vstd::prelude::*;

verus! {

/// What a builder holds: each option as it was last set.
pub struct NodeBuilderView {
    pub port: Option<u16>,
    pub listen_addrs: Seq<libp2p::Multiaddr>,
    pub keypair: Option<libp2p::identity::Keypair>,
    pub known_peers: Seq<libp2p::Multiaddr>,
    pub cancellation_token: Option<tokio_util::sync::CancellationToken>,
}

/// Collects the options of a node before it is built.
pub struct NodeBuilder {
    port: Option<u16>,
    listen_addrs: Vec<libp2p::Multiaddr>,
    keypair: Option<libp2p::identity::Keypair>,
    known_peers: Vec<libp2p::Multiaddr>,
    cancellation_token: Option<tokio_util::sync::CancellationToken>,
}

impl View for NodeBuilder {
    type V = NodeBuilderView;

    closed spec fn view(&self) -> NodeBuilderView {
        NodeBuilderView {
            port: self.port,
            listen_addrs: self.listen_addrs@,
            keypair: self.keypair,
            known_peers: self.known_peers@,
            cancellation_token: self.cancellation_token,
        }
    }
}

/// The builder with no option set.
pub open spec fn empty_builder_view() -> NodeBuilderView {
    NodeBuilderView {
        port: None,
        listen_addrs: Seq::empty(),
        keypair: None,
        known_peers: Seq::empty(),
        cancellation_token: None,
    }
}

impl Default for NodeBuilder {
    fn default() -> (b: Self)
        ensures
            b@ == empty_builder_view(),
    {
        Self::new()
    }
}

impl NodeBuilder {
    /// A builder with no option set.
    pub fn new() -> (b: Self)
        ensures
            b@ == empty_builder_view(),
    {
        let b = NodeBuilder {
            port: None,
            listen_addrs: Vec::new(),
            keypair: None,
            known_peers: Vec::new(),
            cancellation_token: None,
        };
        assert(b@ =~= empty_builder_view());
        b
    }

    /// Sets the TCP port of the default listen address.
    pub fn with_port(self, port: u16) -> (b: Self)
        ensures
            b@ == (NodeBuilderView { port: Some(port), ..self@ }),
    {
        let mut b = self;
        b.port = Some(port);
        b
    }

    /// Adds an address to listen on, after those already given.
    pub fn with_listen_addr(self, addr: libp2p::Multiaddr) -> (b: Self)
        ensures
            b@ == (NodeBuilderView { listen_addrs: self@.listen_addrs.push(addr), ..self@ }),
    {
        let mut b = self;
        b.listen_addrs.push(addr);
        b
    }

    /// Sets the key pair the node's identity comes from.
    pub fn with_keypair(self, keypair: libp2p::identity::Keypair) -> (b: Self)
        ensures
            b@ == (NodeBuilderView { keypair: Some(keypair), ..self@ }),
    {
        let mut b = self;
        b.keypair = Some(keypair);
        b
    }

    /// Adds the address of a known peer, after those already given.
    pub fn with_known_peer(self, address: libp2p::Multiaddr) -> (b: Self)
        ensures
            b@ == (NodeBuilderView { known_peers: self@.known_peers.push(address), ..self@ }),
    {
        let mut b = self;
        b.known_peers.push(address);
        b
    }

    /// Adds the addresses of several known peers, in order, after those
    /// already given.
    pub fn with_known_peers(self, addresses: Vec<libp2p::Multiaddr>) -> (b: Self)
        ensures
            b@ == (NodeBuilderView { known_peers: self@.known_peers + addresses@, ..self@ }),
    {
        let mut b = self;
        let mut addresses = addresses;
        b.known_peers.append(&mut addresses);
        b
    }

    /// Sets the token whose cancellation shuts the node down.
    pub fn with_cancellation_token(self, cancellation_token: tokio_util::sync::CancellationToken) -> (b:
        Self)
        ensures
            b@ == (NodeBuilderView { cancellation_token: Some(cancellation_token), ..self@ }),
    {
        let mut b = self;
        b.cancellation_token = Some(cancellation_token);
        b
    }

    /// Fills in the defaults: a fresh Ed25519 key pair when none was set,
    /// the peer id of the key pair, `/ip4/0.0.0.0/tcp/<port>` as the only
    /// listen address when none was given (port 0 when no port was set),
    /// and a fresh cancellation token when none was set.
    pub fn into_settings(self) -> (s: NodeSettings)
        ensures
            self@.keypair matches Some(k) ==> s@.keypair == k,
            s@.peer_id == keypair_peer_id(s@.keypair),
            self@.listen_addrs.len() > 0 ==> s@.listen_addrs == self@.listen_addrs,
            self@.listen_addrs.len() == 0 ==> s@.listen_addrs.len() == 1 && default_listen_addr(
                self@.port,
                s@.listen_addrs[0],
            ) && listen_addrs_take_peer(s@),
            self@.listen_addrs.len() == 0 ==> (self@.port matches Some(p) ==> multiaddr_parts(
                s@.listen_addrs[0],
            ) == any_ip4_tcp_parts(p) && tcp_port_of(multiaddr_parts(s@.listen_addrs[0])) == p),
            self@.listen_addrs.len() == 0 && self@.port is None ==> multiaddr_parts(
                s@.listen_addrs[0],
            ) == any_ip4_tcp_parts(0u16) && tcp_port_of(multiaddr_parts(s@.listen_addrs[0])) == 0,
            s@.known_peers == self@.known_peers,
            self@.cancellation_token matches Some(t) ==> s@.cancellation_token == t,
    {
        let NodeBuilder { port, listen_addrs, keypair, known_peers, cancellation_token } = self;
        let keypair = match keypair {
            Some(k) => k,
            None => generate_ed25519(),
        };
        let peer_id = peer_id_of(&keypair);
        let mut listen_addrs = listen_addrs;
        if listen_addrs.len() == 0 {
            let port: u16 = match port {
                Some(p) => p,
                None => 0,
            };
            listen_addrs.push(any_ip4_tcp_addr(port));
        }
        let cancellation_token = match cancellation_token {
            Some(t) => t,
            None => new_cancellation_token(),
        };
        proof {
            match port {
                Some(p) => lemma_any_ip4_tcp_parts_port(p),
                None => lemma_any_ip4_tcp_parts_port(0u16),
            }
        }
        NodeSettings { peer_id, keypair, listen_addrs, known_peers, cancellation_token }
    }
}

/// `addr` is `/ip4/0.0.0.0/tcp/<port>`, as parsed from its text, with the
/// port set on the builder or 0.
pub open spec fn default_listen_addr(port: Option<u16>, addr: libp2p::Multiaddr) -> bool {
    let p: u16 = match port {
        Some(p) => p,
        None => 0,
    };
    &&& parsed_multiaddr(any_ip4_tcp_text(p as nat)) == Some(addr)
    &&& multiaddr_parts(addr) == any_ip4_tcp_parts(p)
}

/// What a node is started with, as the contracts see it.
pub struct NodeSettingsView {
    pub peer_id: libp2p::PeerId,
    pub keypair: libp2p::identity::Keypair,
    pub listen_addrs: Seq<libp2p::Multiaddr>,
    pub known_peers: Seq<libp2p::Multiaddr>,
    pub cancellation_token: tokio_util::sync::CancellationToken,
}

/// What a node is started with. Its peer id is always the one that
/// belongs to its key pair.
pub struct NodeSettings {
    peer_id: libp2p::PeerId,
    keypair: libp2p::identity::Keypair,
    listen_addrs: Vec<libp2p::Multiaddr>,
    known_peers: Vec<libp2p::Multiaddr>,
    cancellation_token: tokio_util::sync::CancellationToken,
}

impl View for NodeSettings {
    type V = NodeSettingsView;

    closed spec fn view(&self) -> NodeSettingsView {
        NodeSettingsView {
            peer_id: self.peer_id,
            keypair: self.keypair,
            listen_addrs: self.listen_addrs@,
            known_peers: self.known_peers@,
            cancellation_token: self.cancellation_token,
        }
    }
}

/// Every listen address can take the node's peer id: none ends in another
/// peer id.
pub open spec fn listen_addrs_take_peer(s: NodeSettingsView) -> bool {
    forall|i: int|
        0 <= i < s.listen_addrs.len() ==> (#[trigger] with_peer_parts(
            multiaddr_parts(s.listen_addrs[i]),
            s.peer_id,
        )) is Some
}

impl NodeSettings {
    /// The peer id belongs to the key pair.
    #[verifier::type_invariant]
    spec fn peer_id_matches_keypair(self) -> bool {
        self.peer_id == keypair_peer_id(self.keypair)
    }

    /// The node's peer id, the one that belongs to its key pair.
    pub fn peer_id(&self) -> (peer: libp2p::PeerId)
        ensures
            peer == self@.peer_id,
            peer == keypair_peer_id(self@.keypair),
    {
        proof {
            use_type_invariant(self);
        }
        self.peer_id
    }

    /// The node's key pair.
    pub fn keypair(&self) -> (keypair: &libp2p::identity::Keypair)
        ensures
            *keypair == self@.keypair,
    {
        &self.keypair
    }

    /// The addresses the node listens on.
    pub fn listen_addrs(&self) -> (addrs: &[libp2p::Multiaddr])
        ensures
            addrs@ == self@.listen_addrs,
    {
        self.listen_addrs.as_slice()
    }

    /// The addresses of the peers the node knows of from the start.
    pub fn known_peers(&self) -> (addrs: &[libp2p::Multiaddr])
        ensures
            addrs@ == self@.known_peers,
    {
        self.known_peers.as_slice()
    }

    /// The token whose cancellation shuts the node down.
    pub fn cancellation_token(&self) -> (token: &tokio_util::sync::CancellationToken)
        ensures
            *token == self@.cancellation_token,
    {
        &self.cancellation_token
    }

    /// The multiaddresses that this node is listening on, with the peer ID
    /// included.
    pub fn multiaddrs(&self) -> (addrs: Vec<libp2p::Multiaddr>)
        requires
            listen_addrs_take_peer(self@),
        ensures
            addrs.len() == self@.listen_addrs.len(),
            forall|i: int|
                0 <= i < self@.listen_addrs.len() ==> with_peer_parts(
                    multiaddr_parts(self@.listen_addrs[i]),
                    self@.peer_id,
                ) == Some(multiaddr_parts(#[trigger] addrs[i])),
    {
        with_peer_all(&self.listen_addrs, self.peer_id)
    }

    /// `multiaddrs` where every listen address can take the peer id, and
    /// `None` where one ends in another peer id.
    pub fn checked_multiaddrs(&self) -> (addrs: Option<Vec<libp2p::Multiaddr>>)
        ensures
            addrs is Some <==> listen_addrs_take_peer(self@),
            addrs matches Some(v) ==> v.len() == self@.listen_addrs.len() && forall|i: int|
                0 <= i < self@.listen_addrs.len() ==> with_peer_parts(
                    multiaddr_parts(self@.listen_addrs[i]),
                    self@.peer_id,
                ) == Some(multiaddr_parts(#[trigger] v[i])),
    {
        if all_take_peer(&self.listen_addrs, self.peer_id) {
            Some(self.multiaddrs())
        } else {
            None
        }
    }

    /// The known peers, each split into its peer id and the address it is
    /// reached at; an error where one has no trailing peer id.
    pub fn known_peer_routes(&self) -> (res: Result<
        Vec<(libp2p::PeerId, libp2p::Multiaddr)>,
        KnownPeerError,
    >)
        ensures
            res is Ok <==> forall|i: int|
                0 <= i < self@.known_peers.len() ==> (#[trigger] route_of(
                    multiaddr_parts(self@.known_peers[i]),
                )) is Some,
            res matches Err(e) ==> e == KnownPeerError::NoPeerId,
            res matches Ok(routes) ==> routes.len() == self@.known_peers.len() && forall|i: int|
                0 <= i < self@.known_peers.len() ==> route_of(multiaddr_parts(self@.known_peers[i]))
                    == Some(((#[trigger] routes[i]).0, multiaddr_parts(routes[i].1))),
    {
        known_peer_routes(&self.known_peers)
    }
}

} // verus!
