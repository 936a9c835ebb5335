//! The node's key pair and the peer id derived from it, and the token that
//! tells the node to shut down.
use vstd::prelude::*;

verus! {

/// A node's key pair, opaque to the verifier.
#[verifier::external_type_specification]
#[verifier::external_body]
pub struct ExKeypair(libp2p::identity::Keypair);

/// The public half of a key pair, opaque to the verifier.
#[verifier::external_type_specification]
#[verifier::external_body]
pub struct ExPublicKey(libp2p::identity::PublicKey);

/// The token that signals the node to shut down, opaque to the verifier.
#[verifier::external_type_specification]
#[verifier::external_body]
pub struct ExCancellationToken(tokio_util::sync::CancellationToken);

/// The public key of a key pair, as `Keypair::public` returns it.
pub uninterp spec fn keypair_public(keypair: libp2p::identity::Keypair) -> libp2p::identity::PublicKey;

/// The peer id of a public key, as `PublicKey::to_peer_id` returns it.
pub uninterp spec fn public_key_peer_id(key: libp2p::identity::PublicKey) -> libp2p::PeerId;

/// The peer id that belongs to a key pair.
pub open spec fn keypair_peer_id(keypair: libp2p::identity::Keypair) -> libp2p::PeerId {
    public_key_peer_id(keypair_public(keypair))
}

/// `Keypair::generate_ed25519`: a fresh random Ed25519 key pair. Nothing is
/// stated of which key comes out.
#[verifier::external_body]
pub(crate) fn generate_ed25519() -> libp2p::identity::Keypair {
    libp2p::identity::Keypair::generate_ed25519()
}

/// `Keypair::public`: the public key of the pair.
#[verifier::external_body]
fn public_key(keypair: &libp2p::identity::Keypair) -> (key: libp2p::identity::PublicKey)
    ensures
        key == keypair_public(*keypair),
{
    keypair.public()
}

/// `PublicKey::to_peer_id`: the peer id of the key.
#[verifier::external_body]
fn to_peer_id(key: &libp2p::identity::PublicKey) -> (peer: libp2p::PeerId)
    ensures
        peer == public_key_peer_id(*key),
{
    key.to_peer_id()
}

/// The peer id of a key pair.
pub fn peer_id_of(keypair: &libp2p::identity::Keypair) -> (peer: libp2p::PeerId)
    ensures
        peer == keypair_peer_id(*keypair),
{
    to_peer_id(&public_key(keypair))
}

/// `CancellationToken::default`: a fresh token that nothing has cancelled.
/// Nothing is stated of the token.
#[verifier::external_body]
pub(crate) fn new_cancellation_token() -> tokio_util::sync::CancellationToken {
    tokio_util::sync::CancellationToken::default()
}

} // verus!
