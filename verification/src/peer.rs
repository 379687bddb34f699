//! Peer identifiers and the addresses derived from them.
//!
//! Both types come from outside this crate and are opaque here: a value is
//! carried through, compared in contracts, and handed back to the transport.

use libp2p_identity::PeerId;
use multiaddr::Multiaddr;
use vstd::prelude::*;

verus! {

/// `libp2p_identity::PeerId`, the identifier of a peer. Nothing is known of
/// what a value holds.
#[verifier::external_type_specification]
#[verifier::external_body]
pub struct ExPeerId(PeerId);

/// `multiaddr::Multiaddr`, a network address. Nothing is known of what a
/// value holds.
#[verifier::external_type_specification]
#[verifier::external_body]
pub struct ExMultiaddr(Multiaddr);

/// The address made of the single component `/p2p/<peer>`: what
/// `Multiaddr::from_iter` gives for the one component
/// `multiaddr::Protocol::P2p(peer)`.
pub uninterp spec fn p2p_address(peer: PeerId) -> Multiaddr;

/// What the `Debug` impl of `PeerId` prints for `peer`.
pub uninterp spec fn peer_debug_text(peer: PeerId) -> Seq<char>;

/// Calls `Multiaddr::from_iter`, through `collect`, on the one component
/// `multiaddr::Protocol::P2p(peer)`. That function writes each component
/// into an empty buffer, so the address depends on the peer identifier
/// alone; the contract claims that and no more.
#[verifier::external_body]
pub(crate) fn peer_address(peer: PeerId) -> (address: Multiaddr)
    ensures
        address == p2p_address(peer),
{
    std::iter::once(multiaddr::Protocol::P2p(peer)).collect()
}

/// Calls the `Debug` impl of `PeerId`, through `format!`. It prints the
/// base-58 text of the identifier's bytes inside `PeerId(..)`, so the text
/// depends on the identifier alone; the contract claims that and no more.
#[verifier::external_body]
pub(crate) fn peer_debug(peer: &PeerId) -> (text: String)
    ensures
        text@ == peer_debug_text(*peer),
{
    format!("{:?}", peer)
}

} // verus!
