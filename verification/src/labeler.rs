//! A message labeled with the peer it arrived from and the peer it is
//! destined for: the unit of work of the translation layer.

use crate::osc::Message;
use crate::peer::Peer;
use std::sync::Arc;
use vstd::prelude::*;

verus! {

/// A message together with the receiving peer and the intended destination
/// peer for this hop.
pub struct LabeledMessage {
    pub message: Message,
    pub peer_recv: Arc<Peer>,
    pub peer_send: Arc<Peer>,
}

impl LabeledMessage {
    /// Labels a message with its source and destination peers.
    pub fn new(peer_recv: Arc<Peer>, peer_send: Arc<Peer>, message: Message) -> (r: Self)
        ensures
            r.message == message,
            r.peer_recv == peer_recv,
            r.peer_send == peer_send,
    {
        Self { message, peer_recv, peer_send }
    }
}

/// Relies on `std::sync::Arc::clone`: the returned handle refers to the same
/// shared peer value as the argument.
#[verifier::external_body]
pub fn share_peer(a: &Arc<Peer>) -> (r: Arc<Peer>)
    ensures
        r == *a,
{
    Arc::clone(a)
}

} // verus!
