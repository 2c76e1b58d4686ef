//! A model of the cancellable channel stream: a bounded producer/consumer
//! queue exposed to the transport layer as a pull sequence, paired with a
//! teardown notifier that fires exactly once per stream instance when the
//! consumer side goes away.
//!
//! The bounded capacity provides backpressure: a producer running ahead of
//! the consumer is stalled at the capacity instead of growing memory, and a
//! refused item is always handed back, never dropped silently.

use vstd::prelude::*;

verus! {

/// The bounded in-flight capacity of a cancellable stream's channel.
pub const STREAM_CAPACITY: usize = 4;

/// Why a send did not enqueue: the channel is at capacity (backpressure;
/// the producer must stall), or the consumer tore the stream down (a
/// terminal, non-retryable signal; the producer must stop). Either way the
/// item is handed back to the producer.
#[derive(Debug)]
pub enum SendRefused<T> {
    Full(T),
    Disconnected(T),
}

/// One cancellable stream instance: the bounded queue between producer and
/// consumer, whether the consumer side is still alive, and whether the
/// teardown notifier has fired.
#[derive(Debug)]
pub struct ClientCancellableStream<T> {
    pub queue: Vec<T>,
    pub capacity: usize,
    pub receiver_alive: bool,
    pub notified: bool,
}

impl<T> ClientCancellableStream<T> {
    /// The stream's invariant: the queue never outgrows the bounded
    /// capacity, and the notifier has fired exactly when the consumer side
    /// is gone.
    pub open spec fn wf(&self) -> bool {
        &&& self.queue@.len() <= self.capacity
        &&& self.capacity == STREAM_CAPACITY
        &&& (self.notified <==> !self.receiver_alive)
    }

    /// A fresh stream: empty queue at the bounded capacity, consumer alive,
    /// notifier not yet fired.
    pub fn new() -> (s: Self)
        ensures
            s.wf(),
            s.queue@.len() == 0,
            s.receiver_alive,
            !s.notified,
    {
        ClientCancellableStream {
            queue: Vec::new(),
            capacity: STREAM_CAPACITY,
            receiver_alive: true,
            notified: false,
        }
    }

    /// Producer side: attempts to enqueue one item. A consumer that went
    /// away refuses the item as `Disconnected`; a queue at capacity refuses
    /// it as `Full` and changes nothing (the producer stalls); otherwise the
    /// item is appended behind the items already in flight.
    pub fn try_send(&mut self, item: T) -> (r: Result<(), SendRefused<T>>)
        requires
            old(self).wf(),
        ensures
            final(self).wf(),
            !old(self).receiver_alive ==> (r matches Err(e)
                && e matches SendRefused::Disconnected(t) && t == item && *final(self) == *old(
                self,
            )),
            old(self).receiver_alive && old(self).queue@.len() >= old(self).capacity ==> (
            r matches Err(e) && e matches SendRefused::Full(t) && t == item && *final(self)
                == *old(self)),
            old(self).receiver_alive && old(self).queue@.len() < old(self).capacity ==> (r is Ok
                && final(self).queue@ == old(self).queue@.push(item) && final(self).capacity
                == old(self).capacity && final(self).receiver_alive && !final(self).notified),
    {
        if !self.receiver_alive {
            Err(SendRefused::Disconnected(item))
        } else if self.queue.len() >= self.capacity {
            Err(SendRefused::Full(item))
        } else {
            self.queue.push(item);
            Ok(())
        }
    }

    /// Consumer side: pulls the next item in arrival order, or nothing when
    /// the queue is momentarily empty.
    pub fn poll_next(&mut self) -> (r: Option<T>)
        requires
            old(self).wf(),
            old(self).receiver_alive,
        ensures
            final(self).wf(),
            final(self).receiver_alive,
            final(self).capacity == old(self).capacity,
            old(self).queue@.len() == 0 ==> (r is None && *final(self) == *old(self)),
            old(self).queue@.len() > 0 ==> (r matches Some(t) && t == old(self).queue@[0]
                && final(self).queue@ == old(self).queue@.drop_first()),
    {
        if self.queue.len() == 0 {
            None
        } else {
            let item = self.queue.remove(0);
            proof {
                assert(self.queue@ =~= old(self).queue@.drop_first());
            }
            Some(item)
        }
    }

    /// Consumer teardown: explicit cancellation or a transport-detected
    /// disconnect. The consumer side goes away and the notifier fires; the
    /// invariant guarantees it had not fired before, so this transition is
    /// the one and only firing for the instance.
    pub fn close(&mut self)
        requires
            old(self).wf(),
            old(self).receiver_alive,
        ensures
            final(self).wf(),
            !final(self).receiver_alive,
            final(self).notified,
            !old(self).notified,
            final(self).queue@ == old(self).queue@,
            final(self).capacity == old(self).capacity,
    {
        self.receiver_alive = false;
        self.notified = true;
    }
}

/// One teardown transition of a stream instance, as `close` performs it:
/// the consumer goes away and the notifier goes from unfired to fired.
pub open spec fn teardown<T>(
    pre: ClientCancellableStream<T>,
    post: ClientCancellableStream<T>,
) -> bool {
    &&& pre.wf()
    &&& post.wf()
    &&& pre.receiver_alive
    &&& !post.receiver_alive
    &&& !pre.notified
    &&& post.notified
}

/// While the consumer side is alive, the notifier has not fired: the
/// teardown removing the consumer is the first firing.
pub proof fn lemma_alive_means_unfired<T>(s: ClientCancellableStream<T>)
    requires
        s.wf(),
        s.receiver_alive,
    ensures
        !s.notified,
{
}

/// The notifier fires exactly once per stream instance: once a teardown has
/// happened, no state the instance can reach admits another, even when
/// several parties attempt teardown, because a teardown only departs from a
/// state whose consumer is alive and every state after one has the consumer
/// gone.
pub proof fn lemma_notifier_fires_once<T>(
    a: ClientCancellableStream<T>,
    b: ClientCancellableStream<T>,
    c: ClientCancellableStream<T>,
)
    requires
        teardown(a, b),
    ensures
        !teardown(b, c),
{
}

} // verus!
