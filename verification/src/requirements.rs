use vstd::prelude::*;

verus! {

/// The delivery guarantee an outbound message demands of the transport.
///
/// The enumeration is closed: a backend declares which variants it honors,
/// and asking it to send a message with a variant it does not honor is a
/// contract violation, never a silent downgrade.
#[derive(Clone, Copy, Debug, PartialEq, Eq, Structural)]
pub enum DeliveryRequirement {
    /// Fire-and-forget: no ordering and no retry guarantee.
    Unreliable,
    /// No retry guarantee, but packets that arrive out of date are dropped.
    UnreliableSequenced,
    /// Every packet arrives, in no particular order.
    Reliable,
    /// Every packet arrives; packets that arrive out of date are dropped.
    ReliableSequenced,
    /// Every packet arrives, in the order it was sent.
    ReliableOrdered,
}

} // verus!
