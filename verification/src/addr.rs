//! Multiaddresses as the node uses them: the default listen address,
//! appending the node's own peer id, and splitting a known peer's address
//! into the peer id and the address it is reached at.
use vstd::prelude::*;

verus! {

/// The address type of the p2p layer, opaque to the verifier.
#[verifier::external_type_specification]
#[verifier::external_body]
pub struct ExMultiaddr(libp2p::Multiaddr);

/// The identity of a peer, opaque to the verifier.
#[verifier::external_type_specification]
#[verifier::external_body]
pub struct ExPeerId(libp2p::PeerId);

/// One component of a multiaddress, as the contracts see it.
pub enum AddrPart {
    /// A `/p2p/<peer id>` component.
    Peer(libp2p::PeerId),
    /// Any other component, given by its binary encoding.
    Other(Seq<u8>),
}

/// The components of a multiaddress, first to last.
pub uninterp spec fn multiaddr_parts(addr: libp2p::Multiaddr) -> Seq<AddrPart>;

/// What parsing a text with `Multiaddr::from_str` gives, `None` for an error.
pub uninterp spec fn parsed_multiaddr(text: Seq<char>) -> Option<libp2p::Multiaddr>;

/// `Multiaddr::clone` copies the address: the copy has the same components.
pub assume_specification[ <libp2p::Multiaddr as Clone>::clone ](addr: &libp2p::Multiaddr) -> (res:
    libp2p::Multiaddr)
    ensures
        multiaddr_parts(res) == multiaddr_parts(*addr),
;

// ---------------------------------------------------------------------------
// Specifications
// ---------------------------------------------------------------------------

/// Whether the address ends in a `/p2p/<peer id>` component.
pub open spec fn ends_with_peer(parts: Seq<AddrPart>) -> bool {
    parts.len() > 0 && parts.last() is Peer
}

/// `Multiaddr::with_p2p` on components: an address that already ends in
/// this peer id is kept, one that ends in another peer id is refused
/// (`None`), any other gets the peer id appended.
pub open spec fn with_peer_parts(parts: Seq<AddrPart>, peer: libp2p::PeerId) -> Option<
    Seq<AddrPart>,
> {
    if ends_with_peer(parts) {
        if parts.last() == AddrPart::Peer(peer) {
            Some(parts)
        } else {
            None
        }
    } else {
        Some(parts.push(AddrPart::Peer(peer)))
    }
}

/// How a known peer's address is taken apart: its last component must be
/// a peer id, which is split off from the rest of the address.
pub open spec fn route_of(parts: Seq<AddrPart>) -> Option<(libp2p::PeerId, Seq<AddrPart>)> {
    if ends_with_peer(parts) {
        Some((parts.last()->Peer_0, parts.drop_last()))
    } else {
        None
    }
}

/// The character of a decimal digit.
pub open spec fn digit_char(d: nat) -> char {
    if d == 0 {
        '0'
    } else if d == 1 {
        '1'
    } else if d == 2 {
        '2'
    } else if d == 3 {
        '3'
    } else if d == 4 {
        '4'
    } else if d == 5 {
        '5'
    } else if d == 6 {
        '6'
    } else if d == 7 {
        '7'
    } else if d == 8 {
        '8'
    } else {
        '9'
    }
}

/// The decimal text of a number, without leading zeros.
pub open spec fn decimal(n: nat) -> Seq<char>
    decreases n,
{
    if n < 10 {
        seq![digit_char(n)]
    } else {
        decimal(n / 10).push(digit_char(n % 10))
    }
}

/// The number a text of decimal digits stands for, read in base 10 with
/// each character's code less that of `'0'` as its digit.
pub open spec fn decimal_value(text: Seq<char>) -> int
    decreases text.len(),
{
    if text.len() == 0 {
        0
    } else {
        decimal_value(text.drop_last()) * 10 + ((text.last() as u32) - ('0' as u32))
    }
}

/// Whether every character of the text is one of `'0'` to `'9'`.
pub open spec fn all_decimal_digits(text: Seq<char>) -> bool {
    forall|i: int| 0 <= i < text.len() ==> '0' <= #[trigger] text[i] <= '9'
}

/// The character of digit `d` is the one whose code is that of `'0'`
/// plus `d`.
pub proof fn lemma_digit_char_code(d: nat)
    requires
        d < 10,
    ensures
        digit_char(d) as u32 == ('0' as u32) + d,
        '0' <= digit_char(d) <= '9',
{
}

/// The decimal text of a number is made of digits only, and read back in
/// base 10 it gives the number; so different numbers have different texts.
pub proof fn lemma_decimal_reads_back(n: nat)
    ensures
        decimal_value(decimal(n)) == n,
        all_decimal_digits(decimal(n)),
        decimal(n).len() >= 1,
    decreases n,
{
    if n < 10 {
        lemma_digit_char_code(n);
        assert(decimal(n).drop_last() =~= Seq::<char>::empty());
        assert(decimal_value(Seq::<char>::empty()) == 0);
        assert(decimal_value(decimal(n)) == 0 * 10 + (digit_char(n) as u32 - '0' as u32));
    } else {
        lemma_decimal_reads_back(n / 10);
        lemma_digit_char_code(n % 10);
        let t = decimal(n);
        assert(t.drop_last() =~= decimal(n / 10));
        assert((n / 10) * 10 + n % 10 == n) by (nonlinear_arith);
        assert(decimal_value(t) == decimal_value(decimal(n / 10)) * 10 + (digit_char(n % 10) as u32
            - '0' as u32));
        assert forall|i: int| 0 <= i < t.len() implies '0' <= #[trigger] t[i] <= '9' by {
            if i < t.len() - 1 {
                assert(t[i] == decimal(n / 10)[i]);
            }
        }
    }
}

/// Different numbers have different decimal texts.
pub proof fn lemma_decimal_injective(m: nat, n: nat)
    requires
        decimal(m) == decimal(n),
    ensures
        m == n,
{
    lemma_decimal_reads_back(m);
    lemma_decimal_reads_back(n);
}

/// The TCP port written in the last of two components, code 6 then the
/// port in big-endian order.
pub open spec fn tcp_port_of(parts: Seq<AddrPart>) -> int {
    let enc = parts[1]->Other_0;
    enc[1] as int * 256 + enc[2] as int
}

/// `/ip4/0.0.0.0/tcp/<port>` has two components, the IPv4 one and the TCP
/// one, and the TCP component carries the port itself.
pub proof fn lemma_any_ip4_tcp_parts_port(port: u16)
    ensures
        any_ip4_tcp_parts(port).len() == 2,
        any_ip4_tcp_parts(port)[0] == AddrPart::Other(seq![4u8, 0u8, 0u8, 0u8, 0u8]),
        any_ip4_tcp_parts(port)[1] is Other,
        any_ip4_tcp_parts(port)[1]->Other_0.len() == 3,
        any_ip4_tcp_parts(port)[1]->Other_0[0] == 6u8,
        tcp_port_of(any_ip4_tcp_parts(port)) == port,
{
    let hi = (port / 256) as u8;
    let lo = (port % 256) as u8;
    assert(hi as int == port / 256);
    assert(lo as int == port % 256);
    assert((port / 256) * 256 + port % 256 == port) by (nonlinear_arith);
}

/// The text `/ip4/0.0.0.0/tcp/<port>`.
pub open spec fn any_ip4_tcp_text(port: nat) -> Seq<char> {
    seq!['/', 'i', 'p', '4', '/', '0', '.', '0', '.', '0', '.', '0', '/', 't', 'c', 'p', '/']
        + decimal(port)
}

/// The components of `/ip4/0.0.0.0/tcp/<port>`: protocol code 4 with the
/// four zero octets, then protocol code 6 with the port in big-endian order.
pub open spec fn any_ip4_tcp_parts(port: u16) -> Seq<AddrPart> {
    seq![
        AddrPart::Other(seq![4u8, 0u8, 0u8, 0u8, 0u8]),
        AddrPart::Other(seq![6u8, (port / 256) as u8, (port % 256) as u8]),
    ]
}

// ---------------------------------------------------------------------------
// Calls into the multiaddr crate
// ---------------------------------------------------------------------------

/// The last component of an address, as `Multiaddr::pop` hands it out.
pub enum LastPart {
    Peer(libp2p::PeerId),
    Other,
}

/// `Multiaddr::pop`: removes the last component and returns it, or returns
/// nothing and leaves an empty address unchanged. A `/p2p/..` component is
/// handed out with its peer id; which other protocol it was is not kept.
#[verifier::external_body]
fn pop_part(addr: &mut libp2p::Multiaddr) -> (last: Option<LastPart>)
    ensures
        multiaddr_parts(*old(addr)).len() == 0 ==> last is None && multiaddr_parts(*final(addr))
            == multiaddr_parts(*old(addr)),
        multiaddr_parts(*old(addr)).len() > 0 ==> multiaddr_parts(*final(addr)) == multiaddr_parts(
            *old(addr),
        ).drop_last() && match last {
            Some(LastPart::Peer(p)) => multiaddr_parts(*old(addr)).last() == AddrPart::Peer(p),
            Some(LastPart::Other) => multiaddr_parts(*old(addr)).last() is Other,
            None => false,
        },
{
    match addr.pop() {
        Some(multiaddr::Protocol::P2p(peer)) => Some(LastPart::Peer(peer)),
        Some(_) => Some(LastPart::Other),
        None => None,
    }
}

/// `Multiaddr::with_p2p`: appends the peer id unless the address already
/// ends in it; an address that ends in another peer id is handed back
/// unchanged as the error. Peer ids are compared with `PeerId`'s derived
/// `==`, which compares the multihash code and digest, that is, the value.
#[verifier::external_body]
fn with_p2p(addr: libp2p::Multiaddr, peer: libp2p::PeerId) -> (res: Result<
    libp2p::Multiaddr,
    libp2p::Multiaddr,
>)
    ensures
        res is Ok <==> with_peer_parts(multiaddr_parts(addr), peer) is Some,
        res matches Ok(a) ==> with_peer_parts(multiaddr_parts(addr), peer) == Some(
            multiaddr_parts(a),
        ),
        res matches Err(a) ==> multiaddr_parts(a) == multiaddr_parts(addr),
{
    addr.with_p2p(peer)
}

/// `Multiaddr::from_str`. Its result is named by `parsed_multiaddr`; for
/// `/ip4/0.0.0.0/tcp/<port>` with a port that fits in `u16` the parse
/// succeeds with the IPv4 and TCP components.
#[verifier::external_body]
fn parse_multiaddr(text: &str) -> (res: Option<libp2p::Multiaddr>)
    ensures
        res == parsed_multiaddr(text@),
        forall|port: u16|
            #[trigger] any_ip4_tcp_text(port as nat) == text@ ==> res is Some && multiaddr_parts(
                res->Some_0,
            ) == any_ip4_tcp_parts(port),
{
    text.parse::<libp2p::Multiaddr>().ok()
}

// ---------------------------------------------------------------------------
// Verified address logic
// ---------------------------------------------------------------------------

fn digit_text(d: u16) -> (s: &'static str)
    requires
        d < 10,
    ensures
        s@ == seq![digit_char(d as nat)],
{
    if d == 0 {
        proof {
            reveal_strlit("0");
        }
        "0"
    } else if d == 1 {
        proof {
            reveal_strlit("1");
        }
        "1"
    } else if d == 2 {
        proof {
            reveal_strlit("2");
        }
        "2"
    } else if d == 3 {
        proof {
            reveal_strlit("3");
        }
        "3"
    } else if d == 4 {
        proof {
            reveal_strlit("4");
        }
        "4"
    } else if d == 5 {
        proof {
            reveal_strlit("5");
        }
        "5"
    } else if d == 6 {
        proof {
            reveal_strlit("6");
        }
        "6"
    } else if d == 7 {
        proof {
            reveal_strlit("7");
        }
        "7"
    } else if d == 8 {
        proof {
            reveal_strlit("8");
        }
        "8"
    } else {
        proof {
            reveal_strlit("9");
        }
        "9"
    }
}

/// The decimal text of a port number.
pub fn decimal_text(n: u16) -> (s: String)
    ensures
        s@ == decimal(n as nat),
        all_decimal_digits(s@),
        decimal_value(s@) == n,
    decreases n,
{
    proof {
        lemma_decimal_reads_back(n as nat);
    }
    if n < 10 {
        String::from_str(digit_text(n))
    } else {
        let mut s = decimal_text(n / 10);
        s.append(digit_text(n % 10));
        s
    }
}

/// The text `/ip4/0.0.0.0/tcp/<port>` of the address the node listens on
/// when it is given no listen address.
pub fn any_ip4_tcp_addr_text(port: u16) -> (s: String)
    ensures
        s@ == any_ip4_tcp_text(port as nat),
{
    let prefix = "/ip4/0.0.0.0/tcp/";
    proof {
        reveal_strlit("/ip4/0.0.0.0/tcp/");
    }
    let s = String::from_str(prefix);
    let digits = decimal_text(port);
    let s = s.concat(digits.as_str());
    proof {
        assert(s@ =~= any_ip4_tcp_text(port as nat));
    }
    s
}

/// The address `/ip4/0.0.0.0/tcp/<port>`: every IPv4 interface, the given
/// TCP port.
pub fn any_ip4_tcp_addr(port: u16) -> (addr: libp2p::Multiaddr)
    ensures
        parsed_multiaddr(any_ip4_tcp_text(port as nat)) == Some(addr),
        multiaddr_parts(addr) == any_ip4_tcp_parts(port),
{
    let text = any_ip4_tcp_addr_text(port);
    let parsed = parse_multiaddr(text.as_str());
    assert(any_ip4_tcp_text(port as nat) == text@);
    parsed.unwrap()
}

/// The address with the peer id appended, as `with_p2p` gives it; the
/// caller rules out an address that ends in another peer id.
pub fn with_peer(addr: &libp2p::Multiaddr, peer: libp2p::PeerId) -> (res: libp2p::Multiaddr)
    requires
        with_peer_parts(multiaddr_parts(*addr), peer) is Some,
    ensures
        with_peer_parts(multiaddr_parts(*addr), peer) == Some(multiaddr_parts(res)),
{
    match with_p2p(addr.clone(), peer) {
        Ok(a) => a,
        Err(a) => {
            assert(false);
            a
        },
    }
}

/// Every address with the peer id appended, in order.
pub fn with_peer_all(addrs: &Vec<libp2p::Multiaddr>, peer: libp2p::PeerId) -> (res: Vec<
    libp2p::Multiaddr,
>)
    requires
        forall|i: int|
            0 <= i < addrs.len() ==> (#[trigger] with_peer_parts(
                multiaddr_parts(addrs[i]),
                peer,
            )) is Some,
    ensures
        res.len() == addrs.len(),
        forall|i: int|
            0 <= i < addrs.len() ==> with_peer_parts(multiaddr_parts(addrs[i]), peer) == Some(
                multiaddr_parts(#[trigger] res[i]),
            ),
{
    let mut res: Vec<libp2p::Multiaddr> = Vec::new();
    let mut i: usize = 0;
    while i < addrs.len()
        invariant
            i <= addrs.len(),
            res.len() == i,
            forall|j: int|
                0 <= j < addrs.len() ==> (#[trigger] with_peer_parts(
                    multiaddr_parts(addrs[j]),
                    peer,
                )) is Some,
            forall|j: int|
                0 <= j < i ==> with_peer_parts(multiaddr_parts(addrs[j]), peer) == Some(
                    multiaddr_parts(#[trigger] res[j]),
                ),
        decreases addrs.len() - i,
    {
        let a = with_peer(&addrs[i], peer);
        res.push(a);
        i = i + 1;
    }
    res
}

/// Whether every address can take the peer id, that is, none ends in
/// another peer id.
pub fn all_take_peer(addrs: &Vec<libp2p::Multiaddr>, peer: libp2p::PeerId) -> (ok: bool)
    ensures
        ok <==> forall|i: int|
            0 <= i < addrs.len() ==> (#[trigger] with_peer_parts(
                multiaddr_parts(addrs[i]),
                peer,
            )) is Some,
{
    let mut i: usize = 0;
    while i < addrs.len()
        invariant
            i <= addrs.len(),
            forall|j: int|
                0 <= j < i ==> (#[trigger] with_peer_parts(multiaddr_parts(addrs[j]), peer)) is Some,
        decreases addrs.len() - i,
    {
        if with_p2p(addrs[i].clone(), peer).is_err() {
            return false;
        }
        i = i + 1;
    }
    true
}

/// Why a known peer's address cannot be used.
#[derive(Debug, PartialEq, Eq, Structural)]
pub enum KnownPeerError {
    /// The address does not end in a `/p2p/<peer id>` component.
    NoPeerId,
}

/// Splits each known peer's address into its peer id and the address it
/// is reached at, in order; fails on the first address without a trailing
/// peer id.
pub fn known_peer_routes(known_peers: &Vec<libp2p::Multiaddr>) -> (res: Result<
    Vec<(libp2p::PeerId, libp2p::Multiaddr)>,
    KnownPeerError,
>)
    ensures
        res is Ok <==> forall|i: int|
            0 <= i < known_peers.len() ==> (#[trigger] route_of(multiaddr_parts(known_peers[i])))
                is Some,
        res matches Err(e) ==> e == KnownPeerError::NoPeerId,
        res matches Ok(routes) ==> routes.len() == known_peers.len() && forall|i: int|
            0 <= i < known_peers.len() ==> route_of(multiaddr_parts(known_peers[i])) == Some(
                ((#[trigger] routes[i]).0, multiaddr_parts(routes[i].1)),
            ),
{
    let mut routes: Vec<(libp2p::PeerId, libp2p::Multiaddr)> = Vec::new();
    let mut i: usize = 0;
    while i < known_peers.len()
        invariant
            i <= known_peers.len(),
            routes.len() == i,
            forall|j: int|
                0 <= j < i ==> route_of(multiaddr_parts(known_peers[j])) == Some(
                    ((#[trigger] routes[j]).0, multiaddr_parts(routes[j].1)),
                ),
        decreases known_peers.len() - i,
    {
        let mut address = known_peers[i].clone();
        match pop_part(&mut address) {
            Some(LastPart::Peer(peer)) => {
                routes.push((peer, address));
            },
            _ => {
                assert(route_of(multiaddr_parts(known_peers[i as int])) is None);
                return Err(KnownPeerError::NoPeerId);
            },
        }
        i = i + 1;
    }
    proof {
        assert forall|j: int| 0 <= j < known_peers.len() implies (#[trigger] route_of(
            multiaddr_parts(known_peers[j]),
        )) is Some by {
            assert(route_of(multiaddr_parts(known_peers[j])) == Some(
                (routes[j].0, multiaddr_parts(routes[j].1)),
            ));
        }
    }
    Ok(routes)
}

} // verus!
