//! Inbound packets surface to the application as ordered events on a shared
//! channel. The channel is append-only within a tick; every registered
//! reader keeps its own cursor and sees every event exactly once, in
//! publication order.

use vstd::prelude::*;

use crate::message::Endpoint;
use crate::message::PacketModel;
use crate::payload::bytes_clone;
use crate::payload::bytes_to_vec;
use crate::payload::bytes_view;

verus! {

/// An application-visible network event.
pub enum NetworkSimulationEvent {
    /// A message arrived, with the endpoint it concerns and its payload.
    Message(Endpoint, bytes::Bytes),
}

/// Mathematical model of a network event.
#[verifier::ext_equal]
pub ghost enum EventModel {
    Message { address: Endpoint, payload: Seq<u8> },
}

impl View for NetworkSimulationEvent {
    type V = EventModel;

    open spec fn view(&self) -> EventModel {
        match self {
            NetworkSimulationEvent::Message(address, payload) => EventModel::Message {
                address: *address,
                payload: bytes_view(*payload),
            },
        }
    }
}

/// The event a received packet is republished as: same endpoint, same bytes.
pub open spec fn event_of(p: PacketModel) -> EventModel {
    EventModel::Message { address: p.destination, payload: p.payload }
}

/// The events a whole queue of packets is republished as, in queue order.
pub open spec fn events_of(ps: Seq<PacketModel>) -> Seq<EventModel> {
    ps.map_values(|p: PacketModel| event_of(p))
}

impl NetworkSimulationEvent {
    /// The endpoint this event concerns.
    pub fn address(&self) -> (r: Endpoint)
        ensures
            self@ matches EventModel::Message { address, .. } && r == address,
    {
        match self {
            NetworkSimulationEvent::Message(address, _) => *address,
        }
    }

    /// Copies the payload out as a plain vector of bytes.
    pub fn payload_to_vec(&self) -> (r: Vec<u8>)
        ensures
            self@ matches EventModel::Message { payload, .. } && r@ == payload,
    {
        match self {
            NetworkSimulationEvent::Message(_, payload) => bytes_to_vec(payload),
        }
    }

    /// An event with the same endpoint and the same bytes.
    pub fn duplicate(&self) -> (r: NetworkSimulationEvent)
        ensures
            r@ == self@,
    {
        match self {
            NetworkSimulationEvent::Message(address, payload) => NetworkSimulationEvent::Message(
                *address,
                bytes_clone(payload),
            ),
        }
    }
}

/// A reader's cursor into the event channel: the count of events it has
/// already seen.
pub struct ReaderId {
    cursor: usize,
}

impl View for ReaderId {
    type V = int;

    closed spec fn view(&self) -> int {
        self.cursor as int
    }
}

/// The ordered, append-only channel of network events. One writer per tick
/// appends; any number of readers drain independently through their own
/// [`ReaderId`] cursors.
pub struct EventChannel {
    events: Vec<NetworkSimulationEvent>,
}

impl View for EventChannel {
    type V = Seq<EventModel>;

    closed spec fn view(&self) -> Seq<EventModel> {
        self.events@.map_values(|e: NetworkSimulationEvent| e@)
    }
}

impl Default for EventChannel {
    fn default() -> (r: Self)
        ensures
            r@.len() == 0,
    {
        EventChannel { events: Vec::new() }
    }
}

impl EventChannel {
    /// Creates an empty channel.
    pub fn new() -> (r: Self)
        ensures
            r@.len() == 0,
    {
        EventChannel { events: Vec::new() }
    }

    /// How many events have been published over the channel's lifetime.
    pub fn len(&self) -> (r: usize)
        ensures
            r == self@.len(),
    {
        self.events.len()
    }

    /// Appends one event; every event published earlier keeps its place.
    pub fn single_write(&mut self, event: NetworkSimulationEvent)
        ensures
            final(self)@ == old(self)@.push(event@),
    {
        self.events.push(event);
        proof {
            assert(self@ =~= old(self)@.push(event@));
        }
    }

    /// Registers a reader that will see every event published from now on.
    pub fn register_reader(&self) -> (r: ReaderId)
        ensures
            r@ == self@.len(),
    {
        ReaderId { cursor: self.events.len() }
    }

    /// Hands the reader every event it has not seen yet, in publication
    /// order, and advances its cursor past them; each event is seen exactly
    /// once per reader. A reader of another, longer channel gets nothing
    /// and keeps its place.
    pub fn read(&self, reader: &mut ReaderId) -> (r: Vec<NetworkSimulationEvent>)
        ensures
            old(reader)@ <= self@.len() ==> final(reader)@ == self@.len()
                && r@.map_values(|e: NetworkSimulationEvent| e@) == self@.skip(old(reader)@),
            old(reader)@ > self@.len() ==> final(reader)@ == old(reader)@ && r@.len() == 0,
    {
        if reader.cursor > self.events.len() {
            return Vec::new();
        }
        let mut out: Vec<NetworkSimulationEvent> = Vec::new();
        let mut i: usize = reader.cursor;
        while i < self.events.len()
            invariant
                0 <= old(reader)@ <= i <= self.events.len(),
                self@.len() == self.events@.len(),
                out@.len() == i - old(reader)@,
                out@.map_values(|e: NetworkSimulationEvent| e@) =~= self@.subrange(
                    old(reader)@,
                    i as int,
                ),
            decreases self.events@.len() - i,
        {
            let ev = self.events[i].duplicate();
            let ghost out_before = out@;
            out.push(ev);
            proof {
                assert(self@[i as int] == self.events@[i as int]@);
                assert forall|j: int| 0 <= j < out@.len() implies out@.map_values(
                    |e: NetworkSimulationEvent| e@,
                )[j] == #[trigger] self@.subrange(old(reader)@, i + 1)[j] by {
                    if j < out_before.len() {
                        assert(out@[j] == out_before[j]);
                        assert(out_before.map_values(|e: NetworkSimulationEvent| e@)[j]
                            == out_before[j]@);
                        assert(self@.subrange(old(reader)@, i as int)[j] == self@[old(reader)@ + j]);
                    } else {
                        assert(out@[j] == ev);
                    }
                    assert(self@.subrange(old(reader)@, i + 1)[j] == self@[old(reader)@ + j]);
                }
                assert(out@.map_values(|e: NetworkSimulationEvent| e@) =~= self@.subrange(
                    old(reader)@,
                    i + 1,
                ));
            }
            i = i + 1;
        }
        reader.cursor = self.events.len();
        proof {
            assert(self@.subrange(old(reader)@, self@.len() as int) =~= self@.skip(old(reader)@));
        }
        out
    }
}

} // verus!
