//! The two per-tick tasks of the transport core. The send task drains the
//! transport queue — gated by the simulation clock — translates each message
//! into a backend packet and hands it to the backend socket; a delivery
//! requirement the backend does not honor is a fatal contract violation,
//! surfaced as a typed error, never a silent drop or downgrade. The receive
//! task polls the backend until it is empty and republishes every packet as
//! an ordered event.

use vstd::prelude::*;

use crate::events::EventChannel;
use crate::events::NetworkSimulationEvent;
use crate::events::events_of;
use crate::message::Message;
use crate::message::MessageModel;
use crate::message::Packet;
use crate::message::PacketModel;
use crate::message::packet_of;
use crate::requirements::DeliveryRequirement;
use crate::socket::InMemorySocketResource;
use crate::socket::SocketEvent;
use crate::socket::in_memory_supports;
use crate::timing::NetworkSimulationTime;
use crate::transport::TransportResource;

verus! {

/// The error of a send cycle: the backend was asked for a guarantee it does
/// not give. This is a programmer or configuration error, deterministic by
/// construction; nothing is retried and nothing is downgraded.
#[derive(Clone, Copy, Debug, PartialEq, Eq, Structural)]
pub enum SendError {
    /// The active backend does not honor this delivery requirement.
    UnsupportedDelivery(DeliveryRequirement),
}

/// How many leading messages of a pending batch the in-memory backend
/// honors: the length of the longest prefix whose delivery requirements are
/// all supported.
pub open spec fn sendable_prefix_len(msgs: Seq<MessageModel>) -> nat
    decreases msgs.len(),
{
    if msgs.len() == 0 {
        0
    } else if !in_memory_supports(msgs[0].delivery) {
        0
    } else {
        1 + sendable_prefix_len(msgs.drop_first())
    }
}

/// The packets one send pass hands the backend for a pending batch: one per
/// message of the sendable prefix, in insertion order.
pub open spec fn sent_packets(msgs: Seq<MessageModel>) -> Seq<PacketModel> {
    msgs.take(sendable_prefix_len(msgs) as int).map_values(|m: MessageModel| packet_of(m))
}

/// The sendable prefix is exactly the run of supported requirements: it ends
/// at the first unsupported one, or takes the whole batch if there is none.
pub proof fn lemma_sendable_prefix_at(msgs: Seq<MessageModel>, k: int)
    requires
        0 <= k <= msgs.len(),
        forall|j: int| 0 <= j < k ==> in_memory_supports(msgs[j].delivery),
        k < msgs.len() ==> !in_memory_supports(msgs[k].delivery),
    ensures
        sendable_prefix_len(msgs) == k,
    decreases msgs.len(),
{
    if msgs.len() == 0 {
    } else if k == 0 {
    } else {
        assert(in_memory_supports(msgs[0].delivery));
        assert forall|j: int| 0 <= j < k - 1 implies in_memory_supports(
            msgs.drop_first()[j].delivery,
        ) by {
            assert(msgs.drop_first()[j] == msgs[j + 1]);
        }
        if k - 1 < msgs.drop_first().len() {
            assert(msgs.drop_first()[k - 1] == msgs[k]);
        }
        lemma_sendable_prefix_at(msgs.drop_first(), k - 1);
    }
}

/// What the sendable prefix guarantees: it is within the batch, every
/// message in it is supported, and the message right after it — if the
/// prefix does not take the whole batch — is not.
pub proof fn lemma_sendable_prefix_props(msgs: Seq<MessageModel>)
    ensures
        sendable_prefix_len(msgs) <= msgs.len(),
        forall|j: int|
            0 <= j < sendable_prefix_len(msgs) ==> in_memory_supports(msgs[j].delivery),
        sendable_prefix_len(msgs) < msgs.len() ==> !in_memory_supports(
            msgs[sendable_prefix_len(msgs) as int].delivery,
        ),
    decreases msgs.len(),
{
    if msgs.len() == 0 {
    } else if !in_memory_supports(msgs[0].delivery) {
    } else {
        lemma_sendable_prefix_props(msgs.drop_first());
        assert forall|j: int| 0 <= j < sendable_prefix_len(msgs) implies in_memory_supports(
            msgs[j].delivery,
        ) by {
            if j > 0 {
                assert(msgs.drop_first()[j - 1] == msgs[j]);
            }
        }
        if sendable_prefix_len(msgs) < msgs.len() {
            assert(msgs.drop_first()[sendable_prefix_len(msgs) - 1] == msgs[sendable_prefix_len(
                msgs,
            ) as int]);
        }
    }
}

/// The send task: one pass per tick, after the clock gate has been updated.
pub struct InMemoryNetworkSendSystem;

impl InMemoryNetworkSendSystem {
    /// One send pass. If the clock gate says the tick is not ready, nothing
    /// is drained and nothing is sent. Otherwise the whole pending batch is
    /// drained in insertion order; each message whose delivery requirement
    /// the in-memory backend honors becomes exactly one packet on the
    /// backend socket. At the first message whose requirement the backend
    /// does not honor, the pass stops: that message and every later one are
    /// returned to the transport queue in order, and the violation is
    /// reported as a fatal error naming the requirement.
    pub fn run(
        transport: &mut TransportResource,
        socket: &mut InMemorySocketResource,
        sim_time: &NetworkSimulationTime,
    ) -> (r: Result<(), SendError>)
        ensures
            !sim_time@ ==> final(transport)@ == old(transport)@ && final(socket)@ == old(socket)@
                && r is Ok,
            sim_time@ ==> ({
                let pending = old(transport)@;
                let k = sendable_prefix_len(pending) as int;
                &&& final(socket)@ == old(socket)@ + sent_packets(pending)
                &&& final(transport)@ == pending.skip(k)
                &&& (k == pending.len() <==> r is Ok)
                &&& (k < pending.len() ==> r == Result::<(), SendError>::Err(
                    SendError::UnsupportedDelivery(pending[k].delivery),
                ))
            }),
    {
        let ready = sim_time.should_send_message_now();
        if !ready {
            return Result::Ok(());
        }
        let mut msgs = transport.drain_messages_to_send(true);
        let ghost pending = old(transport)@;
        proof {
            assert(msgs@.map_values(|m: Message| m@) == pending);
            assert forall|j: int| 0 <= j < pending.len() implies #[trigger] pending[j]
                == msgs@[j]@ by {
                assert(msgs@.map_values(|m: Message| m@)[j] == msgs@[j]@);
            }
        }

        // First pass: how many leading messages does the backend honor?
        let mut k: usize = 0;
        while k < msgs.len()
            invariant
                0 <= k <= msgs@.len(),
                msgs@.map_values(|m: Message| m@) == pending,
                forall|j: int| 0 <= j < pending.len() ==> #[trigger] pending[j] == msgs@[j]@,
                forall|j: int| 0 <= j < k ==> in_memory_supports(pending[j].delivery),
            ensures
                0 <= k <= msgs@.len(),
                forall|j: int| 0 <= j < k ==> in_memory_supports(pending[j].delivery),
                k < msgs@.len() ==> !in_memory_supports(pending[k as int].delivery),
            decreases msgs@.len() - k,
        {
            let d = msgs[k].delivery;
            if !InMemorySocketResource::honors(d) {
                break ;
            }
            k = k + 1;
        }
        proof {
            lemma_sendable_prefix_at(pending, k as int);
            assert(msgs@.map_values(|m: Message| m@) =~= pending.skip(0));
            assert(socket@ =~= old(socket)@ + pending.take(0).map_values(
                |m: MessageModel| packet_of(m),
            ));
        }

        // Second pass: translate and send the honored prefix, front first.
        let mut i: usize = 0;
        while i < k
            invariant
                0 <= i <= k <= pending.len(),
                sendable_prefix_len(pending) == k as int,
                msgs@.map_values(|m: Message| m@) == pending.skip(i as int),
                socket@ == old(socket)@ + pending.take(i as int).map_values(
                    |m: MessageModel| packet_of(m),
                ),
                transport@.len() == 0,
            decreases k - i,
        {
            let ghost msgs_before = msgs@;
            proof {
                assert(msgs_before.map_values(|m: Message| m@).len() == msgs_before.len());
                assert(pending.skip(i as int).len() == pending.len() - i);
            }
            let m = msgs.remove(0);
            proof {
                assert(msgs_before.map_values(|m: Message| m@)[0] == msgs_before[0]@);
                assert(pending.skip(i as int)[0] == pending[i as int]);
                assert(m@ == pending[i as int]);
            }
            let Message { destination, payload, delivery: _ } = m;
            socket.send(Packet { destination, payload });
            proof {
                assert(msgs@ =~= msgs_before.drop_first());
                assert forall|j: int| 0 <= j < msgs@.len() implies msgs@.map_values(
                    |m: Message| m@,
                )[j] == #[trigger] pending.skip(i + 1)[j] by {
                    assert(msgs@[j] == msgs_before[j + 1]);
                    assert(msgs_before.map_values(|m: Message| m@)[j + 1] == msgs_before[j + 1]@);
                    assert(pending.skip(i as int)[j + 1] == pending[i + 1 + j]);
                    assert(pending.skip(i + 1)[j] == pending[i + 1 + j]);
                }
                assert(msgs@.map_values(|m: Message| m@) =~= pending.skip(i + 1));
                assert(pending.take(i + 1).map_values(|m: MessageModel| packet_of(m))
                    =~= pending.take(i as int).map_values(|m: MessageModel| packet_of(m)).push(
                    packet_of(pending[i as int]),
                ));
            }
            i = i + 1;
        }
        proof {
            assert(socket@ == old(socket)@ + sent_packets(pending));
        }

        if msgs.len() > 0 {
            let err_delivery = msgs[0].delivery;
            proof {
                assert(msgs@.map_values(|m: Message| m@)[0] == msgs@[0]@);
                assert(msgs@[0]@ == pending.skip(k as int)[0]);
                assert(pending.skip(k as int)[0] == pending[k as int]);
            }
            transport.append_batch(msgs);
            proof {
                assert(transport@ =~= pending.skip(k as int));
            }
            Result::Err(SendError::UnsupportedDelivery(err_delivery))
        } else {
            proof {
                assert(transport@ =~= pending.skip(k as int));
            }
            Result::Ok(())
        }
    }
}

/// The receive task: one pass per tick, after the backend's own polling step.
pub struct InMemoryNetworkRecvSystem;

impl InMemoryNetworkRecvSystem {
    /// One receive pass: polls the backend socket until it reports empty and
    /// republishes each received packet as one `Message` event on the event
    /// channel, preserving the backend's emission order; payload bytes are
    /// not filtered or transformed.
    pub fn run(socket: &mut InMemorySocketResource, channel: &mut EventChannel)
        ensures
            final(socket)@.len() == 0,
            final(channel)@ == old(channel)@ + events_of(old(socket)@),
    {
        let ghost inbound = old(socket)@;
        let ghost mut taken: int = 0;
        while socket.len() > 0
            invariant
                0 <= taken <= inbound.len(),
                socket@ == inbound.skip(taken),
                channel@ == old(channel)@ + events_of(inbound.take(taken)),
            decreases inbound.len() - taken,
        {
            match socket.recv() {
                Option::Some(SocketEvent::Packet(packet)) => {
                    let Packet { destination, payload } = packet;
                    channel.single_write(NetworkSimulationEvent::Message(destination, payload));
                    proof {
                        assert(inbound.skip(taken)[0] == inbound[taken]);
                        taken = taken + 1;
                        assert(socket@ =~= inbound.skip(taken));
                        assert(channel@ =~= old(channel)@ + events_of(inbound.take(taken)));
                    }
                },
                Option::None => {
                    proof {
                        assert(false);
                    }
                },
            }
        }
        proof {
            assert(taken == inbound.len());
            assert(inbound.take(taken) =~= inbound);
        }
    }
}

} // verus!
