//! The simulation clock gate. The clock itself is an external collaborator;
//! the transport core only consumes its yes/no answer to "should messages be
//! sent on this tick". This resource carries that answer between the
//! collaborator that updates it and the send task that reads it.

use vstd::prelude::*;

verus! {

/// The per-tick answer of the simulation clock: whether the send task should
/// flush pending messages on this tick.
pub struct NetworkSimulationTime {
    send_on_this_tick: bool,
}

impl View for NetworkSimulationTime {
    type V = bool;

    closed spec fn view(&self) -> bool {
        self.send_on_this_tick
    }
}

impl Default for NetworkSimulationTime {
    fn default() -> (r: Self)
        ensures
            r@ == true,
    {
        NetworkSimulationTime { send_on_this_tick: true }
    }
}

impl NetworkSimulationTime {
    /// A clock gate that lets every tick send until told otherwise.
    pub fn new() -> (r: Self)
        ensures
            r@ == true,
    {
        NetworkSimulationTime { send_on_this_tick: true }
    }

    /// Records the clock's decision for the coming tick.
    pub fn set_ready(&mut self, ready: bool)
        ensures
            final(self)@ == ready,
    {
        self.send_on_this_tick = ready;
    }

    /// Whether the send task should flush pending messages on this tick.
    pub fn should_send_message_now(&self) -> (r: bool)
        ensures
            r == self@,
    {
        self.send_on_this_tick
    }
}

} // verus!
