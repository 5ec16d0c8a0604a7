//! The transport contract's laws, stated over the same spec functions the
//! task contracts use and proved once for all inputs.

use vstd::prelude::*;

use crate::events::EventModel;
use crate::events::events_of;
use crate::events::event_of;
use crate::message::MessageModel;
use crate::message::PacketModel;
use crate::message::packet_of;
use crate::socket::in_memory_supports;
use crate::socket::recv_queue_step;
use crate::socket::recv_result;
use crate::systems::lemma_sendable_prefix_at;
use crate::systems::lemma_sendable_prefix_props;
use crate::systems::sendable_prefix_len;
use crate::systems::sent_packets;

verus! {

/// Order preservation, no loss, no duplication. When every pending message
/// bears a supported requirement, the packets one send pass hands the
/// backend — `sent_packets`, as the send task's contract states — are one
/// per message in enqueue order, and the events one receive pass publishes
/// for them — `events_of`, as the receive task's contract states — are one
/// per message, in the same order, with destination and payload preserved
/// byte for byte.
pub proof fn lemma_pipeline_preserves_order(pending: Seq<MessageModel>)
    requires
        forall|i: int| 0 <= i < pending.len() ==> in_memory_supports(pending[i].delivery),
    ensures
        sendable_prefix_len(pending) == pending.len(),
        sent_packets(pending).len() == pending.len(),
        events_of(sent_packets(pending)).len() == pending.len(),
        forall|i: int|
            0 <= i < pending.len() ==> events_of(sent_packets(pending))[i]
                == (EventModel::Message {
                address: pending[i].destination,
                payload: pending[i].payload,
            }),
{
    lemma_sendable_prefix_at(pending, pending.len() as int);
    assert(pending.take(pending.len() as int) =~= pending);
    assert forall|i: int| 0 <= i < pending.len() implies events_of(sent_packets(pending))[i]
        == (EventModel::Message {
        address: pending[i].destination,
        payload: pending[i].payload,
    }) by {
        assert(sent_packets(pending)[i] == packet_of(pending[i]));
        assert(events_of(sent_packets(pending))[i] == event_of(sent_packets(pending)[i]));
    }
}

/// An unsupported requirement is fatal, deterministically. If any pending
/// message bears a requirement the in-memory backend does not honor, the
/// sendable prefix stops strictly short of the batch, exactly at the first
/// such message — so a send pass on a ready tick, whose contract reports an
/// error if and only if the prefix is short, must report that message's
/// requirement and may not drop it silently.
pub proof fn lemma_unsupported_requirement_is_fatal(pending: Seq<MessageModel>, i: int)
    requires
        0 <= i < pending.len(),
        !in_memory_supports(pending[i].delivery),
    ensures
        sendable_prefix_len(pending) < pending.len(),
        !in_memory_supports(pending[sendable_prefix_len(pending) as int].delivery),
        forall|j: int|
            0 <= j < sendable_prefix_len(pending) ==> in_memory_supports(pending[j].delivery),
{
    lemma_sendable_prefix_props(pending);
}

/// The packet queue after any number of `recv` calls.
pub open spec fn recv_queue_after(q: Seq<PacketModel>, n: nat) -> Seq<PacketModel>
    decreases n,
{
    if n == 0 {
        q
    } else {
        recv_queue_step(recv_queue_after(q, (n - 1) as nat))
    }
}

/// Idempotent empty drain: on an empty backend queue, any number of `recv`
/// calls leaves the queue exactly as it was, and the next call — like every
/// one before it — reports empty.
pub proof fn lemma_empty_recv_idempotent(q: Seq<PacketModel>, n: nat)
    requires
        q.len() == 0,
    ensures
        recv_queue_after(q, n) == q,
        recv_result(recv_queue_after(q, n)) is None,
    decreases n,
{
    if n > 0 {
        lemma_empty_recv_idempotent(q, (n - 1) as nat);
    }
}

} // verus!
