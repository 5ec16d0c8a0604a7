//! Messages are what the application enqueues; packets are the backend-native
//! wire unit a message is translated into. Each type carries a mathematical
//! model (its view) over which all contracts are stated.

use vstd::prelude::*;

use crate::payload::bytes_clone;
use crate::payload::bytes_from_vec;
use crate::payload::bytes_to_vec;
use crate::payload::bytes_view;
use crate::requirements::DeliveryRequirement;

verus! {

/// A process-local endpoint address: a host number and a port.
#[derive(Clone, Copy, Debug, PartialEq, Eq, Structural)]
pub struct Endpoint {
    pub host: u32,
    pub port: u16,
}

/// One outbound message: where it goes, the bytes it carries, and the
/// delivery guarantee it demands. Created by the application, consumed
/// exactly once by the send task, never mutated in between.
pub struct Message {
    pub destination: Endpoint,
    pub payload: bytes::Bytes,
    pub delivery: DeliveryRequirement,
}

/// Mathematical model of a [`Message`]: the payload as a byte sequence.
#[verifier::ext_equal]
pub ghost struct MessageModel {
    pub destination: Endpoint,
    pub payload: Seq<u8>,
    pub delivery: DeliveryRequirement,
}

impl View for Message {
    type V = MessageModel;

    open spec fn view(&self) -> MessageModel {
        MessageModel {
            destination: self.destination,
            payload: bytes_view(self.payload),
            delivery: self.delivery,
        }
    }
}

impl Message {
    /// Builds a message from plain parts.
    pub fn from_parts(
        destination: Endpoint,
        payload: Vec<u8>,
        delivery: DeliveryRequirement,
    ) -> (r: Message)
        ensures
            r@ == (MessageModel { destination, payload: payload@, delivery }),
    {
        Message { destination, payload: bytes_from_vec(payload), delivery }
    }

    /// Copies the payload out as a plain vector of bytes.
    pub fn payload_to_vec(&self) -> (r: Vec<u8>)
        ensures
            r@ == self@.payload,
    {
        bytes_to_vec(&self.payload)
    }
}

/// The backend-native wire unit: produced one for one from a message by the
/// send task, opaque to everything above the backend socket.
pub struct Packet {
    pub destination: Endpoint,
    pub payload: bytes::Bytes,
}

/// Mathematical model of a [`Packet`].
#[verifier::ext_equal]
pub ghost struct PacketModel {
    pub destination: Endpoint,
    pub payload: Seq<u8>,
}

impl View for Packet {
    type V = PacketModel;

    open spec fn view(&self) -> PacketModel {
        PacketModel { destination: self.destination, payload: bytes_view(self.payload) }
    }
}

/// The packet a message translates into: same destination, same bytes; the
/// delivery requirement is the backend's concern and does not travel.
pub open spec fn packet_of(m: MessageModel) -> PacketModel {
    PacketModel { destination: m.destination, payload: m.payload }
}

impl Packet {
    /// Copies the payload out as a plain vector of bytes.
    pub fn payload_to_vec(&self) -> (r: Vec<u8>)
        ensures
            r@ == self@.payload,
    {
        bytes_to_vec(&self.payload)
    }

    /// A packet holding the same destination and the same bytes.
    pub fn duplicate(&self) -> (r: Packet)
        ensures
            r@ == self@,
    {
        Packet { destination: self.destination, payload: bytes_clone(&self.payload) }
    }
}

} // verus!
