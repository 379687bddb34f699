//! Protocol naming, event handling and sender bookkeeping for a gossip
//! network that runs over named notification substreams.

pub mod event;
pub mod naming;
pub mod network;
pub mod peer;
pub mod reserved;
pub mod sender;
