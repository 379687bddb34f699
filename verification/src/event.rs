//! One stream of logical events out of two sources.
//!
//! The transport reports, under raw protocol names, the substreams that open
//! and close and the notifications that arrive; the syncing service reports
//! the peers that connect and disconnect. Whoever drives the stream polls
//! both sources and hands each item to [`NetworkEventStream::step`], which
//! says what to do with it: yield a logical event, update the reserved
//! peers, poll again, or stop.

use crate::naming::{resolve, Protocol, ProtocolNaming};
use crate::peer::{p2p_address, peer_address};
use crate::reserved::{update_of, ReservedSetChange, ReservedSetUpdate, ReservedSetUpdateView};
use libp2p_identity::PeerId;
use vstd::prelude::*;

verus! {

/// What the transport reports.
#[derive(Debug, PartialEq, Eq)]
pub enum SubstrateEvent {
    /// A substream was opened with `remote` under the name `protocol`.
    NotificationStreamOpened { remote: PeerId, protocol: String },
    /// The substream with `remote` under the name `protocol` was closed.
    NotificationStreamClosed { remote: PeerId, protocol: String },
    /// Notifications arrived from `remote`, each under a protocol name.
    NotificationsReceived { remote: PeerId, messages: Vec<(String, Vec<u8>)> },
    /// An event of the transport that concerns no protocol.
    Dht,
}

/// What the syncing service reports.
#[derive(Debug, PartialEq, Eq)]
pub enum SyncEvent {
    /// A peer connected.
    PeerConnected(PeerId),
    /// A peer disconnected.
    PeerDisconnected(PeerId),
}

/// What one poll of the two sources gave.
#[derive(Debug, PartialEq, Eq)]
pub enum Polled {
    /// The transport had an event.
    Network(SubstrateEvent),
    /// The syncing service had an event.
    Sync(SyncEvent),
    /// Both sources have ended.
    Exhausted,
}

/// A logical event.
#[derive(Debug, PartialEq, Eq)]
pub enum Event {
    /// A substream of the protocol was opened with the peer.
    StreamOpened(PeerId, Protocol),
    /// The substream of the protocol with the peer was closed.
    StreamClosed(PeerId, Protocol),
    /// Messages arrived from the peer, each for a protocol.
    Messages(PeerId, Vec<(Protocol, Vec<u8>)>),
}

/// What to do after a poll.
#[derive(Debug, PartialEq, Eq)]
pub enum Step {
    /// Hand the event to the consumer.
    Yield(Event),
    /// Apply the update to the reserved peers, then poll again.
    Reserve(ReservedSetUpdate),
    /// Poll again.
    Skip,
    /// The stream has ended.
    Finished,
}

/// A transport event, with names and payloads as sequences.
pub enum SubstrateEventView {
    NotificationStreamOpened { remote: PeerId, protocol: Seq<char> },
    NotificationStreamClosed { remote: PeerId, protocol: Seq<char> },
    NotificationsReceived { remote: PeerId, messages: Seq<(Seq<char>, Seq<u8>)> },
    Dht,
}

/// A polled item, with names and payloads as sequences.
pub enum PolledView {
    Network(SubstrateEventView),
    Sync(SyncEvent),
    Exhausted,
}

/// A logical event, with payloads as sequences.
pub enum EventView {
    StreamOpened(PeerId, Protocol),
    StreamClosed(PeerId, Protocol),
    Messages(PeerId, Seq<(Protocol, Seq<u8>)>),
}

/// A step, with names and payloads as sequences.
pub enum StepView {
    Yield(EventView),
    Reserve(ReservedSetUpdateView),
    Skip,
    Finished,
}

/// The notifications of a batch, each as its name and its payload.
pub open spec fn raw_messages(messages: Seq<(String, Vec<u8>)>) -> Seq<(Seq<char>, Seq<u8>)> {
    messages.map_values(|message: (String, Vec<u8>)| (message.0@, message.1@))
}

/// The messages of an event, each as its protocol and its payload.
pub open spec fn protocol_messages(messages: Seq<(Protocol, Vec<u8>)>) -> Seq<(Protocol, Seq<u8>)> {
    messages.map_values(|message: (Protocol, Vec<u8>)| (message.0, message.1@))
}

impl View for SubstrateEvent {
    type V = SubstrateEventView;

    open spec fn view(&self) -> SubstrateEventView {
        match *self {
            SubstrateEvent::NotificationStreamOpened { remote, protocol } => {
                SubstrateEventView::NotificationStreamOpened { remote, protocol: protocol@ }
            },
            SubstrateEvent::NotificationStreamClosed { remote, protocol } => {
                SubstrateEventView::NotificationStreamClosed { remote, protocol: protocol@ }
            },
            SubstrateEvent::NotificationsReceived { remote, messages } => {
                SubstrateEventView::NotificationsReceived {
                    remote,
                    messages: raw_messages(messages@),
                }
            },
            SubstrateEvent::Dht => SubstrateEventView::Dht,
        }
    }
}

impl View for Polled {
    type V = PolledView;

    open spec fn view(&self) -> PolledView {
        match *self {
            Polled::Network(event) => PolledView::Network(event@),
            Polled::Sync(event) => PolledView::Sync(event),
            Polled::Exhausted => PolledView::Exhausted,
        }
    }
}

impl View for Event {
    type V = EventView;

    open spec fn view(&self) -> EventView {
        match *self {
            Event::StreamOpened(peer, protocol) => EventView::StreamOpened(peer, protocol),
            Event::StreamClosed(peer, protocol) => EventView::StreamClosed(peer, protocol),
            Event::Messages(peer, messages) => EventView::Messages(
                peer,
                protocol_messages(messages@),
            ),
        }
    }
}

impl View for Step {
    type V = StepView;

    open spec fn view(&self) -> StepView {
        match *self {
            Step::Yield(event) => StepView::Yield(event@),
            Step::Reserve(update) => StepView::Reserve(update@),
            Step::Skip => StepView::Skip,
            Step::Finished => StepView::Finished,
        }
    }
}

/// The protocol and the payload of a notification, if its name stands for a
/// protocol.
pub open spec fn resolve_message(chain_prefix: Seq<char>, message: (Seq<char>, Seq<u8>)) -> Option<
    (Protocol, Seq<u8>),
> {
    match resolve(chain_prefix, message.0) {
        Some(protocol) => Some((protocol, message.1)),
        None => None,
    }
}

/// The notifications whose names stand for a protocol, in the order in which
/// they arrived, each under its protocol.
pub open spec fn resolve_messages(chain_prefix: Seq<char>, messages: Seq<(Seq<char>, Seq<u8>)>) -> Seq<
    (Protocol, Seq<u8>),
> {
    messages.filter_map(|message: (Seq<char>, Seq<u8>)| resolve_message(chain_prefix, message))
}

/// The step after an event about a substream under the name `protocol`: the
/// event that `make` builds if the name stands for a protocol, and another
/// poll if it does not.
pub open spec fn substream_step(
    chain_prefix: Seq<char>,
    protocol: Seq<char>,
    make: spec_fn(Protocol) -> EventView,
) -> StepView {
    match resolve(chain_prefix, protocol) {
        Some(protocol) => StepView::Yield(make(protocol)),
        None => StepView::Skip,
    }
}

/// The step after an event of the transport.
pub open spec fn network_step(chain_prefix: Seq<char>, event: SubstrateEventView) -> StepView {
    match event {
        SubstrateEventView::NotificationStreamOpened { remote, protocol } => substream_step(
            chain_prefix,
            protocol,
            |protocol: Protocol| EventView::StreamOpened(remote, protocol),
        ),
        SubstrateEventView::NotificationStreamClosed { remote, protocol } => substream_step(
            chain_prefix,
            protocol,
            |protocol: Protocol| EventView::StreamClosed(remote, protocol),
        ),
        SubstrateEventView::NotificationsReceived { remote, messages } => StepView::Yield(
            EventView::Messages(remote, resolve_messages(chain_prefix, messages)),
        ),
        SubstrateEventView::Dht => StepView::Skip,
    }
}

/// The step after an event of the syncing service.
pub open spec fn sync_step(chain_prefix: Seq<char>, event: SyncEvent) -> StepView {
    match event {
        SyncEvent::PeerConnected(remote) => StepView::Reserve(
            update_of(chain_prefix, ReservedSetChange::Add(p2p_address(remote))),
        ),
        SyncEvent::PeerDisconnected(remote) => StepView::Reserve(
            update_of(chain_prefix, ReservedSetChange::Remove(remote)),
        ),
    }
}

/// The step after a poll.
pub open spec fn next_step(chain_prefix: Seq<char>, polled: PolledView) -> StepView {
    match polled {
        PolledView::Network(event) => network_step(chain_prefix, event),
        PolledView::Sync(event) => sync_step(chain_prefix, event),
        PolledView::Exhausted => StepView::Finished,
    }
}

/// Turns what the two sources report into logical events and updates of
/// the reserved peers. It keeps nothing between two polls.
pub struct NetworkEventStream {
    naming: ProtocolNaming,
}

impl NetworkEventStream {
    /// The prefix of the chain whose names the stream resolves.
    pub closed spec fn chain_prefix(&self) -> Seq<char> {
        self.naming.chain_prefix()
    }

    /// A stream that resolves names with `naming`.
    pub fn new(naming: ProtocolNaming) -> (stream: Self)
        ensures
            stream.chain_prefix() == naming.chain_prefix(),
    {
        NetworkEventStream { naming }
    }

    /// The naming scheme of the stream.
    pub fn naming(&self) -> (naming: &ProtocolNaming)
        ensures
            naming.chain_prefix() == self.chain_prefix(),
    {
        &self.naming
    }

    /// Keeps the notifications whose names stand for a protocol, in their
    /// order, and puts each under its protocol. A batch of which nothing is
    /// kept gives an empty list.
    pub fn resolve_messages(&self, messages: Vec<(String, Vec<u8>)>) -> (resolved: Vec<
        (Protocol, Vec<u8>),
    >)
        ensures
            protocol_messages(resolved@) == resolve_messages(
                self.chain_prefix(),
                raw_messages(messages@),
            ),
    {
        let ghost raw = raw_messages(messages@);
        let ghost keep = |message: (Seq<char>, Seq<u8>)|
            resolve_message(self.chain_prefix(), message);
        let mut resolved: Vec<(Protocol, Vec<u8>)> = Vec::new();
        for message in iter: messages.into_iter()
            invariant
                raw == raw_messages(iter.seq()),
                keep == |message: (Seq<char>, Seq<u8>)|
                    resolve_message(self.chain_prefix(), message),
                protocol_messages(resolved@) == raw.take(iter.index() as int).filter_map(keep),
        {
            proof {
                raw.lemma_filter_map_take_succ(keep, iter.index() as int);
            }
            let (name, data) = message;
            match self.naming.to_protocol(name.as_str()) {
                Some(protocol) => {
                    resolved.push((protocol, data));
                },
                None => {},
            }
        }
        proof {
            assert(raw.take(raw.len() as int) =~= raw);
        }
        resolved
    }

    /// The step after an event of the transport.
    pub fn on_network_event(&self, event: SubstrateEvent) -> (step: Step)
        ensures
            step@ == network_step(self.chain_prefix(), event@),
            !(step is Finished),
    {
        match event {
            SubstrateEvent::NotificationStreamOpened { remote, protocol } => {
                match self.naming.to_protocol(protocol.as_str()) {
                    Some(protocol) => Step::Yield(Event::StreamOpened(remote, protocol)),
                    None => Step::Skip,
                }
            },
            SubstrateEvent::NotificationStreamClosed { remote, protocol } => {
                match self.naming.to_protocol(protocol.as_str()) {
                    Some(protocol) => Step::Yield(Event::StreamClosed(remote, protocol)),
                    None => Step::Skip,
                }
            },
            SubstrateEvent::NotificationsReceived { remote, messages } => {
                Step::Yield(Event::Messages(remote, self.resolve_messages(messages)))
            },
            SubstrateEvent::Dht => Step::Skip,
        }
    }

    /// The step after an event of the syncing service: the reserved peers of
    /// both protocols are updated, and no logical event is yielded.
    pub fn on_sync_event(&self, event: SyncEvent) -> (step: Step)
        ensures
            step@ == sync_step(self.chain_prefix(), event),
            step is Reserve,
    {
        match event {
            SyncEvent::PeerConnected(remote) => {
                let address = peer_address(remote);
                Step::Reserve(ReservedSetUpdate::peer_connected(&self.naming, address))
            },
            SyncEvent::PeerDisconnected(remote) => {
                Step::Reserve(ReservedSetUpdate::peer_disconnected(&self.naming, remote))
            },
        }
    }

    /// The step after a poll. The stream ends exactly when both sources have
    /// ended.
    pub fn step(&self, polled: Polled) -> (step: Step)
        ensures
            step@ == next_step(self.chain_prefix(), polled@),
            step is Finished <==> polled is Exhausted,
    {
        match polled {
            Polled::Network(event) => self.on_network_event(event),
            Polled::Sync(event) => self.on_sync_event(event),
            Polled::Exhausted => Step::Finished,
        }
    }
}

/// A batch of one notification resolves to that notification under its
/// protocol, with its payload untouched, or to nothing if its name stands for
/// no protocol.
pub proof fn lemma_single_message_resolves(chain_prefix: Seq<char>, message: (Seq<char>, Seq<u8>))
    ensures
        resolve_messages(chain_prefix, seq![message]) == match resolve(chain_prefix, message.0) {
            Some(protocol) => seq![(protocol, message.1)],
            None => Seq::<(Protocol, Seq<u8>)>::empty(),
        },
{
    Seq::lemma_filter_map_singleton(
        message,
        |message: (Seq<char>, Seq<u8>)| resolve_message(chain_prefix, message),
    );
}

/// Resolving keeps the order of arrival: a batch in two parts resolves to
/// what the first part resolves to, followed by what the second resolves to.
pub proof fn lemma_messages_resolve_in_order(
    chain_prefix: Seq<char>,
    first: Seq<(Seq<char>, Seq<u8>)>,
    second: Seq<(Seq<char>, Seq<u8>)>,
)
    ensures
        resolve_messages(chain_prefix, first + second) == resolve_messages(chain_prefix, first)
            + resolve_messages(chain_prefix, second),
    decreases second.len(),
{
    if second.len() == 0 {
        assert(first + second =~= first);
    } else {
        lemma_messages_resolve_in_order(chain_prefix, first, second.drop_last());
        assert((first + second).drop_last() =~= first + second.drop_last());
        assert((first + second).last() == second.last());
    }
}

/// While either source yields an item the stream goes on: it ends only on
/// the poll that finds both sources ended.
pub proof fn lemma_stream_ends_only_when_exhausted(chain_prefix: Seq<char>, polled: PolledView)
    ensures
        next_step(chain_prefix, polled) is Finished <==> polled is Exhausted,
{
}

/// A peer that connects is added to the reserved peers of both protocols,
/// at the address derived from its identifier and under the canonical names.
pub proof fn lemma_connected_peer_is_reserved(chain_prefix: Seq<char>, remote: PeerId)
    ensures
        next_step(chain_prefix, PolledView::Sync(SyncEvent::PeerConnected(remote)))
            == StepView::Reserve(
            update_of(chain_prefix, ReservedSetChange::Add(p2p_address(remote))),
        ),
{
}

/// A peer that disconnects is removed from the reserved peers of both
/// protocols, under the canonical names.
pub proof fn lemma_disconnected_peer_is_released(chain_prefix: Seq<char>, remote: PeerId)
    ensures
        next_step(chain_prefix, PolledView::Sync(SyncEvent::PeerDisconnected(remote)))
            == StepView::Reserve(update_of(chain_prefix, ReservedSetChange::Remove(remote))),
{
}

} // verus!
