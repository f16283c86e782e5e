//! The per-direction relay step: a received packet is flattened, and each
//! message in order becomes a plan — count it (dryrun), forward it
//! unchanged, or label it for the extension dispatcher. The caller receives
//! the packets, executes the plans and sends the results.

use crate::config::Options;
use crate::labeler::{share_peer, LabeledMessage};
use crate::osc::{flatten_packet, Message, Packet};
use crate::peer::Peer;
use std::sync::Arc;
use vstd::prelude::*;

verus! {

broadcast use vstd::seq::group_seq_axioms;

/// What to do with one flattened message.
pub enum MessagePlan {
    /// Dryrun: count the message, send nothing.
    Count,
    /// Forward the message unchanged to the destination peer.
    Forward(Message),
    /// Run the message through the extension dispatcher, then send.
    Extend(LabeledMessage),
}

/// The plan for one message: dryrun counts it and sends nothing; with the
/// translation layer enabled it is labeled for the dispatcher; otherwise it
/// is forwarded unchanged.
pub open spec fn spec_plan(
    options: Options,
    peer_recv: Arc<Peer>,
    peer_send: Arc<Peer>,
    m: Message,
) -> MessagePlan {
    if options.dryrun {
        MessagePlan::Count
    } else if options.extend {
        MessagePlan::Extend(LabeledMessage { message: m, peer_recv, peer_send })
    } else {
        MessagePlan::Forward(m)
    }
}

/// With dryrun set, the plan for every message is to count it: nothing is
/// ever forwarded, whatever the message.
pub proof fn lemma_dryrun_counts_only(
    options: Options,
    peer_recv: Arc<Peer>,
    peer_send: Arc<Peer>,
    m: Message,
)
    requires
        options.dryrun,
    ensures
        spec_plan(options, peer_recv, peer_send, m) is Count,
{
}

/// Flattens a packet and plans each contained message in order, as
/// `spec_plan` states message by message.
pub fn packet_sorter(
    options: &Options,
    peer_recv: &Arc<Peer>,
    peer_send: &Arc<Peer>,
    packet: Packet,
) -> (plans: Vec<MessagePlan>)
    ensures
        plans@.len() == flatten_packet(packet).len(),
        forall|i: int|
            0 <= i < plans@.len() ==> plans@[i] == spec_plan(
                *options,
                *peer_recv,
                *peer_send,
                flatten_packet(packet)[i],
            ),
        options.dryrun ==> forall|i: int| 0 <= i < plans@.len() ==> plans@[i] is Count,
{
    let ghost msgs_spec = flatten_packet(packet);
    let mut msgs = packet.into_msgs();
    let mut plans: Vec<MessagePlan> = Vec::new();
    let ghost k: int = 0;
    assert(msgs@.skip(0) =~= msgs_spec);
    while msgs.len() > 0
        invariant
            0 <= k <= msgs_spec.len(),
            msgs@ == msgs_spec.skip(k),
            plans@.len() == k,
            forall|i: int|
                0 <= i < k ==> plans@[i] == spec_plan(
                    *options,
                    *peer_recv,
                    *peer_send,
                    msgs_spec[i],
                ),
        decreases msgs@.len(),
    {
        let m = msgs.remove(0);
        assert(m == msgs_spec[k]);
        assert(msgs@ =~= msgs_spec.skip(k + 1));
        if options.dryrun {
            plans.push(MessagePlan::Count);
        } else if options.extend {
            let labeled = LabeledMessage::new(share_peer(peer_recv), share_peer(peer_send), m);
            plans.push(MessagePlan::Extend(labeled));
        } else {
            plans.push(MessagePlan::Forward(m));
        }
        proof {
            k = k + 1;
        }
    }
    assert(msgs_spec.skip(k) =~= Seq::<Message>::empty());
    plans
}

} // verus!
