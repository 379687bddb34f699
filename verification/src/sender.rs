//! Sending to one peer over one protocol.
//!
//! A sender belongs to a peer and holds the channel that the transport
//! opened to it. A send waits until the channel is ready and then pushes the
//! payload; either stage can find the connection lost, and each says so with
//! an error of its own.

use crate::naming::{protocol_label, Protocol};
use crate::peer::{peer_debug, peer_debug_text};
use libp2p_identity::PeerId;
use vstd::prelude::*;

verus! {

/// Why a sender could not be made, or a send did not go through.
#[derive(Debug, PartialEq, Eq)]
pub enum SenderError {
    /// No substream of the protocol is open to the peer.
    CannotCreateSender(PeerId, Protocol),
    /// The connection was lost while waiting for the channel to be ready.
    LostConnectionToPeer(PeerId),
    /// The connection was lost after the channel was ready.
    LostConnectionToPeerReady(PeerId),
}

/// The text that describes `error`.
pub open spec fn error_message(error: SenderError) -> Seq<char> {
    match error {
        SenderError::CannotCreateSender(peer_id, protocol) => "Can not create sender to peer "@
            + peer_debug_text(peer_id) + " with protocol "@ + protocol_label(protocol),
        SenderError::LostConnectionToPeer(peer_id) => "Lost connection to peer "@
            + peer_debug_text(peer_id) + " while preparing sender"@,
        SenderError::LostConnectionToPeerReady(peer_id) => "Lost connection to peer "@
            + peer_debug_text(peer_id) + " after sender was ready"@,
    }
}

impl SenderError {
    /// Describes the error in words.
    pub fn message(&self) -> (text: String)
        ensures
            text@ == error_message(*self),
    {
        match self {
            SenderError::CannotCreateSender(peer_id, protocol) => {
                let mut text = "Can not create sender to peer ".to_owned();
                text.append(peer_debug(peer_id).as_str());
                text.append(" with protocol ");
                text.append(protocol.label());
                text
            },
            SenderError::LostConnectionToPeer(peer_id) => {
                let mut text = "Lost connection to peer ".to_owned();
                text.append(peer_debug(peer_id).as_str());
                text.append(" while preparing sender");
                text
            },
            SenderError::LostConnectionToPeerReady(peer_id) => {
                let mut text = "Lost connection to peer ".to_owned();
                text.append(peer_debug(peer_id).as_str());
                text.append(" after sender was ready");
                text
            },
        }
    }
}

/// What opening a channel to `peer_id` for `protocol` comes to: a sender
/// that holds the channel, or the error that none could be made.
pub open spec fn opened_sender<C, E>(peer_id: PeerId, protocol: Protocol, opened: Result<C, E>) -> Result<
    (C, PeerId),
    SenderError,
> {
    match opened {
        Ok(channel) => Ok((channel, peer_id)),
        Err(_) => Err(SenderError::CannotCreateSender(peer_id, protocol)),
    }
}

/// What waiting for the channel to `peer_id` comes to: the ready channel, or
/// the error that the connection was lost while waiting.
pub open spec fn readiness<R, E>(peer_id: PeerId, waited: Result<R, E>) -> Result<R, SenderError> {
    match waited {
        Ok(ready) => Ok(ready),
        Err(_) => Err(SenderError::LostConnectionToPeer(peer_id)),
    }
}

/// What pushing into the ready channel to `peer_id` comes to: success, or
/// the error that the connection was lost after the channel was ready.
pub open spec fn delivery<E>(peer_id: PeerId, pushed: Result<(), E>) -> Result<(), SenderError> {
    match pushed {
        Ok(_) => Ok(()),
        Err(_) => Err(SenderError::LostConnectionToPeerReady(peer_id)),
    }
}

/// A sender to one peer over the channel `C`.
pub struct SubstrateNetworkSender<C> {
    notification_sender: C,
    peer_id: PeerId,
}

impl<C> View for SubstrateNetworkSender<C> {
    type V = (C, PeerId);

    closed spec fn view(&self) -> (C, PeerId) {
        (self.notification_sender, self.peer_id)
    }
}

impl<C> SubstrateNetworkSender<C> {
    /// A sender to `peer_id` over `notification_sender`.
    pub fn new(notification_sender: C, peer_id: PeerId) -> (sender: Self)
        ensures
            sender@ == (notification_sender, peer_id),
    {
        SubstrateNetworkSender { notification_sender, peer_id }
    }

    /// Makes a sender of what opening a channel gave.
    pub fn from_opened<E>(peer_id: PeerId, protocol: Protocol, opened: Result<C, E>) -> (sender:
        Result<Self, SenderError>)
        ensures
            match opened_sender(peer_id, protocol, opened) {
                Ok(made) => sender matches Ok(sender) && sender@ == made,
                Err(error) => sender == Err::<Self, SenderError>(error),
            },
    {
        match opened {
            Ok(notification_sender) => Ok(Self::new(notification_sender, peer_id)),
            Err(_) => Err(SenderError::CannotCreateSender(peer_id, protocol)),
        }
    }

    /// The peer that this sender sends to.
    pub fn peer_id(&self) -> (peer_id: PeerId)
        ensures
            peer_id == self@.1,
    {
        self.peer_id
    }

    /// The channel that this sender sends over.
    pub fn notification_sender(&self) -> (channel: &C)
        ensures
            *channel == self@.0,
    {
        &self.notification_sender
    }

    /// The first stage of a send: takes what waiting for the channel gave and
    /// hands on the ready channel.
    pub fn on_ready<R, E>(&self, waited: Result<R, E>) -> (ready: Result<R, SenderError>)
        ensures
            ready == readiness(self@.1, waited),
    {
        match waited {
            Ok(ready) => Ok(ready),
            Err(_) => Err(SenderError::LostConnectionToPeer(self.peer_id)),
        }
    }

    /// The second stage of a send: takes what pushing the payload gave.
    pub fn on_sent<E>(&self, pushed: Result<(), E>) -> (sent: Result<(), SenderError>)
        ensures
            sent == delivery(self@.1, pushed),
    {
        match pushed {
            Ok(_) => Ok(()),
            Err(_) => Err(SenderError::LostConnectionToPeerReady(self.peer_id)),
        }
    }
}

/// A send that fails while waiting and one that fails at the push report
/// different errors, whatever the peers and the underlying failures, and
/// neither can be taken for the error of a sender that could not be made.
pub proof fn lemma_send_failures_are_told_apart<R, E, F>(
    peer_id: PeerId,
    other: PeerId,
    protocol: Protocol,
    waiting: E,
    pushing: F,
)
    ensures
        readiness::<R, E>(peer_id, Err(waiting)) == Err::<R, SenderError>(
            SenderError::LostConnectionToPeer(peer_id),
        ),
        delivery::<F>(other, Err(pushing)) == Err::<(), SenderError>(
            SenderError::LostConnectionToPeerReady(other),
        ),
        SenderError::LostConnectionToPeer(peer_id) != SenderError::LostConnectionToPeerReady(other),
        SenderError::CannotCreateSender(peer_id, protocol) != SenderError::LostConnectionToPeer(
            other,
        ),
        SenderError::CannotCreateSender(peer_id, protocol)
            != SenderError::LostConnectionToPeerReady(other),
{
}

} // verus!
