//! The network as the layers above see it: a source of logical events and
//! of senders.

use crate::event::NetworkEventStream;
use crate::naming::{canonical_name, Protocol, ProtocolNaming};
use crate::sender::{opened_sender, SenderError, SubstrateNetworkSender};
use libp2p_identity::PeerId;
use vstd::prelude::*;

verus! {

/// Handles to the transport `N` and to the syncing service `S`, together
/// with the naming scheme of the chain.
pub struct SubstrateNetwork<N, S> {
    network: N,
    sync_network: S,
    naming: ProtocolNaming,
}

impl<N, S> SubstrateNetwork<N, S> {
    /// The transport, as in contracts.
    pub closed spec fn transport(&self) -> N {
        self.network
    }

    /// The syncing service, as in contracts.
    pub closed spec fn syncing(&self) -> S {
        self.sync_network
    }

    /// The prefix of the chain whose names the network uses.
    pub closed spec fn chain_prefix(&self) -> Seq<char> {
        self.naming.chain_prefix()
    }

    /// Wraps the two services and the naming scheme.
    pub fn new(network: N, sync_network: S, naming: ProtocolNaming) -> (wrapper: Self)
        ensures
            wrapper.transport() == network,
            wrapper.syncing() == sync_network,
            wrapper.chain_prefix() == naming.chain_prefix(),
    {
        SubstrateNetwork { network, sync_network, naming }
    }

    /// The transport.
    pub fn network(&self) -> (network: &N)
        ensures
            *network == self.transport(),
    {
        &self.network
    }

    /// The syncing service.
    pub fn sync_network(&self) -> (sync_network: &S)
        ensures
            *sync_network == self.syncing(),
    {
        &self.sync_network
    }

    /// The naming scheme.
    pub fn naming(&self) -> (naming: &ProtocolNaming)
        ensures
            naming.chain_prefix() == self.chain_prefix(),
    {
        &self.naming
    }

    /// A new stream of events, which resolves names as this network does.
    /// Every call gives a stream of its own.
    pub fn event_stream(&self) -> (stream: NetworkEventStream)
        ensures
            stream.chain_prefix() == self.chain_prefix(),
    {
        NetworkEventStream::new(self.naming.clone())
    }

    /// A sender to `peer_id` for `protocol`. The channel is opened by `open`,
    /// which gets the transport, the peer and the canonical name of the
    /// protocol; if it fails, no sender can be made.
    pub fn sender<C, E>(
        &self,
        peer_id: PeerId,
        protocol: Protocol,
        open: impl FnOnce(&N, PeerId, String) -> Result<C, E>,
    ) -> (sender: Result<SubstrateNetworkSender<C>, SenderError>)
        requires
            forall|name: String|
                name@ == canonical_name(self.chain_prefix(), protocol) ==> call_requires(
                    open,
                    (&self.transport(), peer_id, name),
                ),
        ensures
            exists|name: String, opened: Result<C, E>|
                {
                    &&& name@ == canonical_name(self.chain_prefix(), protocol)
                    &&& #[trigger] call_ensures(open, (&self.transport(), peer_id, name), opened)
                    &&& match opened_sender(peer_id, protocol, opened) {
                        Ok(made) => sender matches Ok(sender) && sender@ == made,
                        Err(error) => sender == Err::<SubstrateNetworkSender<C>, SenderError>(
                            error,
                        ),
                    }
                },
    {
        let name = self.naming.protocol_name(&protocol);
        let opened = open(&self.network, peer_id, name);
        let sender = SubstrateNetworkSender::from_opened(peer_id, protocol, opened);
        proof {
            assert(call_ensures(open, (&self.transport(), peer_id, name), opened));
        }
        sender
    }
}

} // verus!
