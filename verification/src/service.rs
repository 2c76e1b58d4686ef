//! The message-service handlers: unary echo, client-streaming aggregation,
//! server-streaming event emission, and bidirectional relay. Handlers run
//! only after the decorator chain has validated the request; the streaming
//! handlers hand their items to a cancellable stream whose producer loop is
//! driven by the task layer outside the library.

use vstd::prelude::*;

use crate::error::Status;
use crate::text::dec_spec;
use crate::text::join_comma;
use crate::text::join_with_comma;
use crate::text::u64_to_string;

verus! {

/// A text message received from the client.
#[derive(Debug, Clone)]
pub struct TestMessage {
    pub content: String,
}

/// A text message sent to the client.
#[derive(Debug, Clone)]
pub struct ResponseMessage {
    pub content: String,
}

/// Configuration of the server-streaming emission: how many events to emit
/// and the delay between adjacent events, in milliseconds.
#[derive(Debug, Clone, Copy)]
pub struct EventConfigRequest {
    pub count: u32,
    pub delay: u32,
}

/// The contents of the well-formed items of an inbound stream, in arrival
/// order; items that arrived as transport errors contribute nothing.
pub open spec fn ok_contents(s: Seq<Result<TestMessage, Status>>) -> Seq<Seq<char>>
    decreases s.len(),
{
    if s.len() == 0 {
        Seq::empty()
    } else {
        ok_contents(s.drop_last()) + match s.last() {
            Ok(m) => seq![m.content@],
            Err(_) => Seq::<Seq<char>>::empty(),
        }
    }
}

/// The content of the N-th streamed event (1-based).
pub open spec fn event_content(n: nat) -> Seq<char> {
    "message: "@ + dec_spec(n)
}

/// The message-service handler. The shutdown notifier and the store handle
/// the original construction carries are owned by the unverified boundary
/// that drives these handlers.
pub struct TestMessageGreeter;

impl TestMessageGreeter {
    /// Unary echo: the response carries the request content unchanged.
    pub fn send_message(&self, request: TestMessage) -> (r: ResponseMessage)
        ensures
            r.content == request.content,
    {
        ResponseMessage { content: request.content }
    }

    /// Client-streaming aggregate: buffers the content of every well-formed
    /// inbound item in arrival order and answers with them joined by a
    /// comma; items that arrived as transport errors are skipped.
    pub fn stream_message(&self, messages: Vec<Result<TestMessage, Status>>) -> (r:
        ResponseMessage)
        ensures
            r.content@ == join_comma(ok_contents(messages@)),
    {
        let ghost all = messages@;
        let mut buffer: Vec<String> = Vec::new();
        let mut i: usize = 0;
        proof {
            assert(all.take(0) =~= Seq::<Result<TestMessage, Status>>::empty());
        }
        while i < messages.len()
            invariant
                i <= messages.len(),
                all == messages@,
                buffer.deep_view() == ok_contents(all.take(i as int)),
            decreases messages.len() - i,
        {
            proof {
                assert(all.take(i + 1).drop_last() =~= all.take(i as int));
                assert(all.take(i + 1).last() == all[i as int]);
            }
            match &messages[i] {
                Ok(message) => {
                    buffer.push(message.content.clone());
                },
                Err(_) => {},
            }
            proof {
                assert(buffer.deep_view() =~~= ok_contents(all.take(i + 1)));
            }
            i = i + 1;
        }
        proof {
            assert(all.take(messages.len() as int) =~= all);
        }
        let content = join_with_comma(&buffer);
        ResponseMessage { content }
    }

    /// The per-item decision of the bidirectional relay: a well-formed
    /// inbound item is echoed back unchanged; a transport error produces no
    /// outbound item.
    pub fn relay_response(&self, message: Result<TestMessage, Status>) -> (r: Option<
        ResponseMessage,
    >)
        ensures
            message matches Ok(m) ==> (r matches Some(resp) && resp.content == m.content),
            message is Err ==> r is None,
    {
        match message {
            Ok(m) => Some(ResponseMessage { content: m.content }),
            Err(_) => None,
        }
    }

    /// Bidirectional relay over a whole inbound stream: the outbound items
    /// are exactly the contents of the well-formed inbound items, in the
    /// same order.
    pub fn chat_message(&self, messages: Vec<Result<TestMessage, Status>>) -> (r: Vec<
        ResponseMessage,
    >)
        ensures
            r@.map_values(|m: ResponseMessage| m.content@) == ok_contents(messages@),
    {
        let ghost all = messages@;
        let mut out: Vec<ResponseMessage> = Vec::new();
        let mut i: usize = 0;
        proof {
            assert(all.take(0) =~= Seq::<Result<TestMessage, Status>>::empty());
            assert(out@.map_values(|m: ResponseMessage| m.content@) =~~= ok_contents(
                all.take(0),
            ));
        }
        while i < messages.len()
            invariant
                i <= messages.len(),
                all == messages@,
                out@.map_values(|m: ResponseMessage| m.content@) == ok_contents(
                    all.take(i as int),
                ),
            decreases messages.len() - i,
        {
            proof {
                assert(all.take(i + 1).drop_last() =~= all.take(i as int));
                assert(all.take(i + 1).last() == all[i as int]);
            }
            match &messages[i] {
                Ok(message) => {
                    out.push(ResponseMessage { content: message.content.clone() });
                },
                Err(_) => {},
            }
            proof {
                assert(out@.map_values(|m: ResponseMessage| m.content@) =~~= ok_contents(
                    all.take(i + 1),
                ));
            }
            i = i + 1;
        }
        proof {
            assert(all.take(messages.len() as int) =~= all);
        }
        out
    }
}

/// The background producer of the server-streaming handler, as a state
/// machine the task layer steps: how many events were sent, how many are
/// owed, the delay to sleep between adjacent events, and whether the
/// stream's cancellation signal was observed.
#[derive(Debug, Clone, Copy)]
pub struct EventProducer {
    pub sent: u32,
    pub count: u32,
    pub delay_millis: u32,
    pub cancelled: bool,
}

impl EventProducer {
    /// A producer for the configured emission; nothing sent yet.
    pub fn new(config: EventConfigRequest) -> (p: Self)
        ensures
            p.sent == 0,
            p.count == config.count,
            p.delay_millis == config.delay,
            !p.cancelled,
    {
        EventProducer { sent: 0, count: config.count, delay_millis: config.delay, cancelled: false }
    }

    /// Records that the producer observed the stream's cancellation signal:
    /// the consumer went away, or a send was refused as disconnected.
    pub fn observe_cancellation(&mut self)
        ensures
            final(self).cancelled,
            final(self).sent == old(self).sent,
            final(self).count == old(self).count,
            final(self).delay_millis == old(self).delay_millis,
    {
        self.cancelled = true;
    }

    /// One iteration of the producer loop: the next event to enqueue, or
    /// nothing when the emission is complete. Once cancellation was
    /// observed, no further event is ever produced.
    pub fn step(&mut self) -> (r: Option<ResponseMessage>)
        ensures
            old(self).cancelled ==> (r is None && *final(self) == *old(self)),
            !old(self).cancelled && old(self).sent >= old(self).count ==> (r is None
                && *final(self) == *old(self)),
            !old(self).cancelled && old(self).sent < old(self).count ==> (r matches Some(m)
                && m.content@ == event_content((old(self).sent + 1) as nat)
                && final(self).sent == old(self).sent + 1
                && final(self).count == old(self).count
                && final(self).delay_millis == old(self).delay_millis
                && !final(self).cancelled),
    {
        if self.cancelled || self.sent >= self.count {
            None
        } else {
            let next = self.sent + 1;
            let mut content = "message: ".to_owned();
            let rendered = u64_to_string(next as u64);
            content.append(rendered.as_str());
            self.sent = next;
            Some(ResponseMessage { content })
        }
    }
}

/// The full ordered emission of a configuration whose stream is never
/// cancelled: exactly `count` events, the N-th carrying `message: N`.
pub fn event_messages(config: EventConfigRequest) -> (v: Vec<ResponseMessage>)
    ensures
        v@.len() == config.count,
        forall|i: int|
            0 <= i < v@.len() ==> v@[i].content@ == event_content((i + 1) as nat),
{
    let mut producer = EventProducer::new(config);
    let mut v: Vec<ResponseMessage> = Vec::new();
    loop
        invariant
            !producer.cancelled,
            producer.count == config.count,
            producer.sent <= producer.count,
            v@.len() == producer.sent,
            forall|i: int|
                0 <= i < v@.len() ==> v@[i].content@ == event_content((i + 1) as nat),
        decreases producer.count - producer.sent,
    {
        match producer.step() {
            Some(m) => {
                v.push(m);
            },
            None => {
                return v;
            },
        }
    }
}

} // verus!
