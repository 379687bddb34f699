//! Keeping the reserved peers of both protocols in step with the peers that
//! are connected.
//!
//! A peer that connects is added to the reserved set of each protocol, one
//! that disconnects is removed from each. The two commands of an update are
//! independent: each is run, whatever became of the other.

use crate::naming::{canonical_name, Protocol, ProtocolNaming};
use libp2p_identity::PeerId;
use multiaddr::Multiaddr;
use vstd::prelude::*;

verus! {

/// A change to the reserved peers of one protocol.
#[derive(Debug, PartialEq, Eq)]
pub enum ReservedSetChange {
    /// Add the peer at this address.
    Add(Multiaddr),
    /// Remove this peer.
    Remove(PeerId),
}

/// One change, to be made to the reserved peers of both protocols.
#[derive(Debug, PartialEq, Eq)]
pub struct ReservedSetUpdate {
    /// The change.
    pub change: ReservedSetChange,
    /// The name under which the authentication protocol is changed.
    pub authentication_name: String,
    /// The name under which the block synchronisation protocol is changed.
    pub block_sync_name: String,
}

/// An update, with the names as sequences of characters.
pub struct ReservedSetUpdateView {
    pub change: ReservedSetChange,
    pub authentication_name: Seq<char>,
    pub block_sync_name: Seq<char>,
}

impl View for ReservedSetUpdate {
    type V = ReservedSetUpdateView;

    open spec fn view(&self) -> ReservedSetUpdateView {
        ReservedSetUpdateView {
            change: self.change,
            authentication_name: self.authentication_name@,
            block_sync_name: self.block_sync_name@,
        }
    }
}

/// The update that makes `change` under the canonical name of each protocol.
pub open spec fn update_of(chain_prefix: Seq<char>, change: ReservedSetChange) -> ReservedSetUpdateView {
    ReservedSetUpdateView {
        change,
        authentication_name: canonical_name(chain_prefix, Protocol::Authentication),
        block_sync_name: canonical_name(chain_prefix, Protocol::BlockSync),
    }
}

impl ReservedSetUpdate {
    /// The update that makes `change` for both protocols.
    pub fn new(naming: &ProtocolNaming, change: ReservedSetChange) -> (update: Self)
        ensures
            update@ == update_of(naming.chain_prefix(), change),
    {
        ReservedSetUpdate {
            change,
            authentication_name: naming.protocol_name(&Protocol::Authentication),
            block_sync_name: naming.protocol_name(&Protocol::BlockSync),
        }
    }

    /// The update for a peer that connected at `address`.
    pub fn peer_connected(naming: &ProtocolNaming, address: Multiaddr) -> (update: Self)
        ensures
            update@ == update_of(naming.chain_prefix(), ReservedSetChange::Add(address)),
    {
        Self::new(naming, ReservedSetChange::Add(address))
    }

    /// The update for a peer that disconnected.
    pub fn peer_disconnected(naming: &ProtocolNaming, peer: PeerId) -> (update: Self)
        ensures
            update@ == update_of(naming.chain_prefix(), ReservedSetChange::Remove(peer)),
    {
        Self::new(naming, ReservedSetChange::Remove(peer))
    }

    /// Runs the change for the authentication protocol and then for the block
    /// synchronisation protocol, and returns what each run gave, in that
    /// order. The second run is made whatever the first one returned.
    pub fn apply<R>(&self, perform: impl Fn(&String, &ReservedSetChange) -> R) -> (outcomes: (R, R))
        requires
            call_requires(perform, (&self.authentication_name, &self.change)),
            call_requires(perform, (&self.block_sync_name, &self.change)),
        ensures
            call_ensures(perform, (&self.authentication_name, &self.change), outcomes.0),
            call_ensures(perform, (&self.block_sync_name, &self.change), outcomes.1),
    {
        let authentication = perform(&self.authentication_name, &self.change);
        let block_sync = perform(&self.block_sync_name, &self.change);
        (authentication, block_sync)
    }
}

} // verus!
