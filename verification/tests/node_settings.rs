use libp2p::identity::Keypair;
use libp2p::multiaddr::Protocol;
use libp2p::{Multiaddr, PeerId};
use rollup_boost::addr::{any_ip4_tcp_addr, any_ip4_tcp_addr_text, decimal_text, known_peer_routes, KnownPeerError};
use rollup_boost::builder::NodeBuilder;
use rollup_boost::flashblocks::Flashblocks;
use rollup_boost::identity::peer_id_of;

fn addr(text: &str) -> Multiaddr {
    text.parse().unwrap()
}

fn peer() -> PeerId {
    Keypair::generate_ed25519().public().to_peer_id()
}

#[test]
fn decimal_text_of_ports() {
    assert_eq!(decimal_text(0), "0");
    assert_eq!(decimal_text(7), "7");
    assert_eq!(decimal_text(10), "10");
    assert_eq!(decimal_text(9000), "9000");
    assert_eq!(decimal_text(65535), "65535");
}

#[test]
fn any_ip4_tcp_address_text_and_bytes() {
    assert_eq!(any_ip4_tcp_addr_text(9000), "/ip4/0.0.0.0/tcp/9000");
    let a = any_ip4_tcp_addr(9000);
    assert_eq!(a, addr("/ip4/0.0.0.0/tcp/9000"));
    assert_eq!(a.to_vec(), vec![4u8, 0, 0, 0, 0, 6, 0x23, 0x28]);
    assert_eq!(any_ip4_tcp_addr(0).to_string(), "/ip4/0.0.0.0/tcp/0");
}

#[test]
fn default_listen_address_uses_port_zero() {
    let s = NodeBuilder::new().into_settings();
    assert_eq!(s.listen_addrs(), &[addr("/ip4/0.0.0.0/tcp/0")][..]);
    assert!(s.known_peers().is_empty());
}

#[test]
fn default_listen_address_uses_the_port() {
    let s = NodeBuilder::new().with_port(4242).into_settings();
    assert_eq!(s.listen_addrs(), &[addr("/ip4/0.0.0.0/tcp/4242")][..]);
}

#[test]
fn given_listen_addresses_are_kept_and_port_ignored() {
    let s = NodeBuilder::new()
        .with_port(4242)
        .with_listen_addr(addr("/ip4/127.0.0.1/tcp/9000"))
        .with_listen_addr(addr("/ip4/127.0.0.1/tcp/9001"))
        .into_settings();
    assert_eq!(
        s.listen_addrs(),
        &[addr("/ip4/127.0.0.1/tcp/9000"), addr("/ip4/127.0.0.1/tcp/9001")][..]
    );
}

#[test]
fn given_keypair_gives_the_peer_id() {
    let kp = Keypair::generate_ed25519();
    let expected = kp.public().to_peer_id();
    let s = NodeBuilder::new().with_keypair(kp).into_settings();
    assert_eq!(s.peer_id(), expected);
    assert_eq!(peer_id_of(s.keypair()), expected);
}

#[test]
fn generated_keypairs_differ() {
    let a = NodeBuilder::new().into_settings();
    let b = NodeBuilder::default().into_settings();
    assert_ne!(a.peer_id(), b.peer_id());
    assert_eq!(a.peer_id(), a.keypair().public().to_peer_id());
}

#[test]
fn known_peers_keep_their_order() {
    let p1 = peer();
    let p2 = peer();
    let a1 = addr("/ip4/10.0.0.1/tcp/1").with(Protocol::P2p(p1));
    let a2 = addr("/ip4/10.0.0.2/tcp/2").with(Protocol::P2p(p2));
    let a3 = addr("/ip4/10.0.0.3/tcp/3");
    let s = NodeBuilder::new()
        .with_known_peer(a1.clone())
        .with_known_peers(vec![a2.clone(), a3.clone()])
        .into_settings();
    assert_eq!(s.known_peers(), &[a1, a2, a3][..]);
}

#[test]
fn multiaddrs_append_the_peer_id() {
    let s = NodeBuilder::new()
        .with_listen_addr(addr("/ip4/127.0.0.1/tcp/9000"))
        .into_settings();
    let id = s.peer_id();
    let m = s.multiaddrs();
    assert_eq!(m, vec![addr("/ip4/127.0.0.1/tcp/9000").with(Protocol::P2p(id))]);
    assert_eq!(m[0].to_string(), format!("/ip4/127.0.0.1/tcp/9000/p2p/{id}"));
}

#[test]
fn multiaddrs_keep_an_address_that_already_has_the_peer_id() {
    let kp = Keypair::generate_ed25519();
    let id = kp.public().to_peer_id();
    let own = addr("/ip4/127.0.0.1/tcp/9000").with(Protocol::P2p(id));
    let s = NodeBuilder::new()
        .with_keypair(kp)
        .with_listen_addr(own.clone())
        .into_settings();
    assert_eq!(s.multiaddrs(), vec![own]);
}

#[test]
fn checked_multiaddrs_refuses_another_peer_id() {
    let other = addr("/ip4/127.0.0.1/tcp/9000").with(Protocol::P2p(peer()));
    let s = NodeBuilder::new()
        .with_listen_addr(addr("/ip4/127.0.0.1/tcp/9001"))
        .with_listen_addr(other)
        .into_settings();
    assert!(s.checked_multiaddrs().is_none());
    let ok = NodeBuilder::new().with_port(9000).into_settings();
    let m = ok.checked_multiaddrs().unwrap();
    assert_eq!(m, vec![addr("/ip4/0.0.0.0/tcp/9000").with(Protocol::P2p(ok.peer_id()))]);
}

#[test]
fn known_peer_is_split_into_peer_id_and_address() {
    let p = peer();
    let known = vec![addr("/ip4/127.0.0.1/tcp/9001").with(Protocol::P2p(p))];
    let routes = known_peer_routes(&known).unwrap();
    assert_eq!(routes, vec![(p, addr("/ip4/127.0.0.1/tcp/9001"))]);
    assert_eq!(known[0], addr("/ip4/127.0.0.1/tcp/9001").with(Protocol::P2p(p)));
}

#[test]
fn known_peer_without_peer_id_is_refused() {
    let p = peer();
    let known = vec![
        addr("/ip4/127.0.0.1/tcp/9001").with(Protocol::P2p(p)),
        addr("/ip4/127.0.0.1/tcp/9002"),
    ];
    assert_eq!(known_peer_routes(&known), Err(KnownPeerError::NoPeerId));
    let s = NodeBuilder::new().with_known_peers(known).into_settings();
    assert_eq!(s.known_peer_routes(), Err(KnownPeerError::NoPeerId));
    assert_eq!(known_peer_routes(&vec![Multiaddr::empty()]), Err(KnownPeerError::NoPeerId));
}

#[test]
fn no_known_peers_give_no_routes() {
    assert_eq!(known_peer_routes(&vec![]), Ok(vec![]));
}

#[test]
fn published_addresses_route_back_to_the_node() {
    let node1 = NodeBuilder::new()
        .with_listen_addr(addr("/ip4/127.0.0.1/tcp/9000"))
        .into_settings();
    let node2 = NodeBuilder::new()
        .with_known_peers(node1.multiaddrs())
        .with_listen_addr(addr("/ip4/127.0.0.1/tcp/9001"))
        .into_settings();
    let routes = node2.known_peer_routes().unwrap();
    assert_eq!(routes, vec![(node1.peer_id(), addr("/ip4/127.0.0.1/tcp/9000"))]);
}

#[test]
fn flashblocks_node_listens_on_its_port() {
    let s = Flashblocks::node_settings(9000);
    assert_eq!(s.listen_addrs(), &[addr("/ip4/0.0.0.0/tcp/9000")][..]);
    assert!(s.known_peers().is_empty());
    assert_eq!(s.multiaddrs().len(), 1);
}
