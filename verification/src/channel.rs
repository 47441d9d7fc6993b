use vstd::prelude::*;

use crate::data::DataBlock;

verus! {

/// The delivery channel between the producer task and the consumer,
/// modelled as the sequence of batches it currently holds, oldest
/// first. Sends append and receives take the front, so a consumer that
/// drains it observes batches in exactly the order they were produced,
/// with no gaps and no duplicates. The bound of the real channel only
/// delays a send until the consumer catches up; what a send does to the
/// contents is the same, so the model keeps the sequence alone and the
/// runtime around the library enforces the backpressure.
#[derive(Debug)]
pub struct DeliveryChannel {
    pub queue: Vec<DataBlock>,
}

impl DeliveryChannel {
    pub fn new() -> (r: Self)
        ensures
            r.queue@ == Seq::<DataBlock>::empty(),
    {
        DeliveryChannel { queue: Vec::new() }
    }

    /// Producer side: the batch is accepted after every batch already
    /// in flight.
    pub fn send(&mut self, block: DataBlock)
        ensures
            final(self).queue@ == old(self).queue@.push(block),
    {
        self.queue.push(block);
    }

    /// Consumer side: receive the oldest undelivered batch, if any.
    pub fn recv(&mut self) -> (r: Option<DataBlock>)
        ensures
            old(self).queue@.len() == 0 ==> r is None && final(self).queue@ == old(self).queue@,
            old(self).queue@.len() > 0 ==> r == Some(old(self).queue@[0]) && final(self).queue@
                == old(self).queue@.remove(0),
    {
        if self.queue.len() == 0 {
            None
        } else {
            Some(self.queue.remove(0))
        }
    }

    pub fn len(&self) -> (r: usize)
        ensures
            r == self.queue@.len(),
    {
        self.queue.len()
    }
}

/// How many abort signals the bounded signal channel can hold. At most
/// one request ever needs to be delivered; duplicates are harmless.
pub const ABORT_CHANNEL_CAPACITY: u64 = 2;

/// Sender end of the abort-signal channel. Sending is fire-and-forget:
/// it never blocks the caller and never fails. A signal past the
/// channel's capacity is dropped, which loses nothing, since a single
/// delivered signal already ends the run.
#[derive(Debug, Clone, Copy, PartialEq, Eq, Structural)]
pub struct AbortSender {
    pub queued: u64,
}

impl AbortSender {
    pub fn new() -> (r: Self)
        ensures
            r.queued == 0,
    {
        AbortSender { queued: 0 }
    }

    /// Enqueue one cancellation signal; safe to call any number of
    /// times, before or after the execution has stopped.
    pub fn send_signal(&mut self)
        ensures
            final(self).queued == if old(self).queued < ABORT_CHANNEL_CAPACITY {
                (old(self).queued + 1) as u64
            } else {
                old(self).queued
            },
    {
        if self.queued < ABORT_CHANNEL_CAPACITY {
            self.queued = self.queued + 1;
        }
    }
}

/// The narrow cancellation capability handed to external callers: it
/// owns a sender for the abort-signal channel and nothing else, so a
/// holder can request termination without access to internal state.
#[derive(Debug, Clone, Copy, PartialEq, Eq, Structural)]
pub struct HttpQueryHandle {
    pub abort_sender: AbortSender,
}

impl HttpQueryHandle {
    /// Request cancellation. Detached and unacknowledged: callers
    /// observe the effect only by polling the execution status.
    pub fn abort(&mut self)
        ensures
            final(self).abort_sender.queued == if old(self).abort_sender.queued
                < ABORT_CHANNEL_CAPACITY {
                (old(self).abort_sender.queued + 1) as u64
            } else {
                old(self).abort_sender.queued
            },
    {
        self.abort_sender.send_signal();
    }
}

} // verus!
