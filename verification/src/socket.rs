//! The in-memory reference backend: a strict FIFO of packets held in process
//! memory, standing in for a real network socket. Every send is visible to
//! `recv` in send order, deterministically, with no loss, latency or
//! reordering — it is the reference other backends are validated against.

use std::collections::VecDeque;

use vstd::prelude::*;

use crate::message::Packet;
use crate::message::PacketModel;
use crate::requirements::DeliveryRequirement;

verus! {

/// One inbound occurrence the backend socket reports when polled.
pub enum SocketEvent {
    /// A packet arrived.
    Packet(Packet),
}

impl View for SocketEvent {
    type V = PacketModel;

    open spec fn view(&self) -> PacketModel {
        match self {
            SocketEvent::Packet(p) => p@,
        }
    }
}

/// Whether the in-memory backend honors a delivery requirement. It honors
/// `Unreliable` alone: held in one process's memory it can give no guarantee
/// beyond fire-and-forget, and pretending otherwise would downgrade silently.
pub open spec fn in_memory_supports(d: DeliveryRequirement) -> bool {
    d is Unreliable
}

/// What one `recv` does to the packet queue: an empty queue is left exactly
/// as it is, otherwise the head leaves.
pub open spec fn recv_queue_step(q: Seq<PacketModel>) -> Seq<PacketModel> {
    if q.len() == 0 {
        q
    } else {
        q.drop_first()
    }
}

/// What one `recv` returns for a packet queue: the head, if there is one.
pub open spec fn recv_result(q: Seq<PacketModel>) -> Option<PacketModel> {
    if q.len() == 0 {
        Option::None
    } else {
        Option::Some(q[0])
    }
}

/// The backend socket of the in-memory transport: an unbounded FIFO queue of
/// packets. Send appends at the tail; receive pops the head.
pub struct InMemorySocketResource {
    packets: VecDeque<Packet>,
}

impl View for InMemorySocketResource {
    type V = Seq<PacketModel>;

    closed spec fn view(&self) -> Seq<PacketModel> {
        self.packets@.map_values(|p: Packet| p@)
    }
}

impl Default for InMemorySocketResource {
    fn default() -> (r: Self)
        ensures
            r@.len() == 0,
    {
        InMemorySocketResource { packets: VecDeque::new() }
    }
}

impl InMemorySocketResource {
    /// Creates an empty in-memory socket.
    pub fn new() -> (r: Self)
        ensures
            r@.len() == 0,
    {
        InMemorySocketResource { packets: VecDeque::new() }
    }

    /// How many packets are queued.
    pub fn len(&self) -> (r: usize)
        ensures
            r == self@.len(),
    {
        self.packets.len()
    }

    /// Whether this backend honors the given delivery requirement.
    pub fn honors(d: DeliveryRequirement) -> (r: bool)
        ensures
            r == in_memory_supports(d),
    {
        match d {
            DeliveryRequirement::Unreliable => true,
            _ => false,
        }
    }

    /// Appends a packet at the tail of the queue; always succeeds.
    pub fn send(&mut self, packet: Packet)
        ensures
            final(self)@ == old(self)@.push(packet@),
    {
        self.packets.push_back(packet);
        proof {
            assert(self@ =~= old(self)@.push(packet@));
        }
    }

    /// Pops the head of the queue, or reports that it is empty; never blocks,
    /// and an empty queue is left exactly as it was.
    pub fn recv(&mut self) -> (r: Option<SocketEvent>)
        ensures
            final(self)@ == recv_queue_step(old(self)@),
            r is Some <==> recv_result(old(self)@) is Some,
            r matches Some(ev) ==> recv_result(old(self)@) == Option::Some(ev@),
    {
        match self.packets.pop_front() {
            Option::None => Option::None,
            Option::Some(p) => {
                proof {
                    assert(self@ =~= old(self)@.drop_first());
                }
                Option::Some(SocketEvent::Packet(p))
            },
        }
    }
}

} // verus!
