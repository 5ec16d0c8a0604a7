//! The transport resource: the process-wide queue of outbound messages
//! awaiting send, and the single mutation point application code uses to get
//! a message on the wire. Application code only appends; once per tick the
//! send task drains the queue, gated by the simulation clock.

use vstd::prelude::*;

use crate::message::Message;
use crate::message::MessageModel;

verus! {

/// The ordered queue of pending outbound messages. Insertion order is send
/// order.
pub struct TransportResource {
    pending: Vec<Message>,
}

impl View for TransportResource {
    type V = Seq<MessageModel>;

    closed spec fn view(&self) -> Seq<MessageModel> {
        self.pending@.map_values(|m: Message| m@)
    }
}

impl Default for TransportResource {
    fn default() -> (r: Self)
        ensures
            r@.len() == 0,
    {
        TransportResource { pending: Vec::new() }
    }
}

impl TransportResource {
    /// Creates an empty transport queue.
    pub fn new() -> (r: Self)
        ensures
            r@.len() == 0,
    {
        TransportResource { pending: Vec::new() }
    }

    /// How many messages are pending.
    pub fn len(&self) -> (r: usize)
        ensures
            r == self@.len(),
    {
        self.pending.len()
    }

    /// Appends one message at the back of the queue; never fails.
    pub fn enqueue(&mut self, message: Message)
        ensures
            final(self)@ == old(self)@.push(message@),
    {
        self.pending.push(message);
        proof {
            assert(self@ =~= old(self)@.push(message@));
        }
    }

    /// Appends a whole batch at the back of the queue, in the batch's order.
    pub fn append_batch(&mut self, batch: Vec<Message>)
        ensures
            final(self)@ == old(self)@ + batch@.map_values(|m: Message| m@),
    {
        let mut rest = batch;
        let ghost batch_model = rest@.map_values(|m: Message| m@);
        self.pending.append(&mut rest);
        proof {
            assert(self@ =~= old(self)@ + batch_model);
        }
    }

    /// Removes and returns the whole pending batch in insertion order when
    /// the tick is ready to send; when it is not, returns an empty batch and
    /// retains every pending message for a future tick.
    pub fn drain_messages_to_send(&mut self, ready: bool) -> (r: Vec<Message>)
        ensures
            ready ==> final(self)@.len() == 0 && r@.map_values(|m: Message| m@) == old(self)@,
            !ready ==> final(self)@ == old(self)@ && r@.len() == 0,
    {
        if ready {
            let mut drained: Vec<Message> = Vec::new();
            core::mem::swap(&mut drained, &mut self.pending);
            drained
        } else {
            Vec::new()
        }
    }
}

} // verus!
