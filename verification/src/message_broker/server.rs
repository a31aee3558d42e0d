//! The broker's side of the protocol. A producer sends a message followed by
//! the frame terminator and is answered `ok` and a terminator; a consumer sends
//! a request ending in the terminator and is answered `+`, the oldest message
//! and a terminator, or `-` and a terminator when no message waits.
use vstd::prelude::*;
use crate::message_broker::payload::{bytes_contents, bytes_to_vec};
use crate::message_broker::queue::MessageQueue;
use crate::message_broker::transport::{
    append_range, chunk_ends_frame, collect_step, ends_frame, received_well_formed, Received, FRAME_END,
};

verus! {

/// `o`, the first byte of the answer to a producer.
pub const ACK_FIRST: u8 = 111u8;

/// `k`, the second byte of the answer to a producer.
pub const ACK_SECOND: u8 = 107u8;

/// `+`: the first byte of an answer that carries a message.
pub const MESSAGE_FOLLOWS: u8 = 43u8;

/// `-`: the first byte of the answer when no message waits.
pub const QUEUE_EMPTY: u8 = 45u8;

/// What the broker does after a read on a producer's connection.
pub enum ProducerAction {
    /// The producer closed the connection: stop serving it.
    Close,
    /// The frame is not complete yet: read again.
    Wait,
    /// A frame ended: publish these bytes and answer with `ack_frame()`.
    Publish(Vec<u8>),
}

/// The state of one producer's connection: every byte received on it so far,
/// with the terminators of completed frames left out. It is never reset, so a
/// second frame on the same connection is published after the first one's
/// bytes.
pub struct ProducerConnection {
    value: Vec<u8>,
}

/// The answer to a producer once its message is published: `ok`, terminator.
pub open spec fn ack_bytes() -> Seq<u8> {
    seq![ACK_FIRST, ACK_SECOND, FRAME_END]
}

/// The answer to a consumer's request: `+`, the message and a terminator when
/// one waits; `-` and a terminator when none does.
pub open spec fn reply_frame(message: Option<Seq<u8>>) -> Seq<u8> {
    match message {
        Some(m) => seq![MESSAGE_FOLLOWS] + m + seq![FRAME_END],
        None => seq![QUEUE_EMPTY, FRAME_END],
    }
}

impl View for ProducerConnection {
    type V = Seq<u8>;

    closed spec fn view(&self) -> Seq<u8> {
        self.value@
    }
}

impl ProducerConnection {
    /// A connection on which nothing has arrived yet.
    pub fn new() -> (c: ProducerConnection)
        ensures
            c@ == Seq::<u8>::empty(),
    {
        ProducerConnection { value: Vec::new() }
    }

    /// Takes in one read from the producer's connection.
    pub fn step(&mut self, received: Received) -> (action: ProducerAction)
        requires
            received_well_formed(received),
        ensures
            match received {
                Received::Closed => action is Close && final(self)@ == old(self)@,
                Received::Chunk(c) => {
                    let (v, published) = collect_step(old(self)@, c@);
                    &&& final(self)@ == v
                    &&& match published {
                        Some(m) => action matches ProducerAction::Publish(p) && p@ == m,
                        None => action is Wait,
                    }
                },
            },
    {
        match received {
            Received::Closed => ProducerAction::Close,
            Received::Chunk(chunk) => {
                if chunk_ends_frame(&chunk) {
                    let n = chunk.len();
                    append_range(&mut self.value, &chunk, 0, n - 1);
                    assert(chunk@.subrange(0, n - 1) =~= chunk@.drop_last());
                    ProducerAction::Publish(self.value.clone())
                } else {
                    let n = chunk.len();
                    append_range(&mut self.value, &chunk, 0, n);
                    assert(chunk@.subrange(0, n as int) =~= chunk@);
                    ProducerAction::Wait
                }
            },
        }
    }
}

/// The answer to a producer whose message was published.
pub fn ack_frame() -> (f: Vec<u8>)
    ensures
        f@ == ack_bytes(),
{
    let mut f = Vec::new();
    f.push(ACK_FIRST);
    f.push(ACK_SECOND);
    f.push(FRAME_END);
    assert(f@ =~= ack_bytes());
    f
}

/// What the broker does after a read on a consumer's connection.
pub enum ConsumerAction {
    /// The consumer closed the connection: stop serving it.
    Close,
    /// The chunk does not end a request: read again.
    Ignore,
    /// A request ended: send these bytes.
    Reply(Vec<u8>),
}

/// Builds the answer to a consumer from the message taken for it, if any.
pub fn reply_to_consumer(message: Option<bytes::Bytes>) -> (f: Vec<u8>)
    ensures
        f@ == reply_frame(
            match message {
                Some(b) => Some(bytes_contents(b)),
                None => None,
            },
        ),
{
    let mut f = Vec::new();
    match message {
        Some(b) => {
            f.push(MESSAGE_FOLLOWS);
            let body = bytes_to_vec(&b);
            let n = body.len();
            append_range(&mut f, &body, 0, n);
            f.push(FRAME_END);
            assert(body@.subrange(0, n as int) =~= body@);
            assert(f@ =~= seq![MESSAGE_FOLLOWS] + bytes_contents(b) + seq![FRAME_END]);
        },
        None => {
            f.push(QUEUE_EMPTY);
            f.push(FRAME_END);
            assert(f@ =~= seq![QUEUE_EMPTY, FRAME_END]);
        },
    }
    f
}

/// The answer to a consumer's request when the queue holds `queue`.
pub open spec fn consumer_reply(queue: Seq<Seq<u8>>) -> Seq<u8> {
    if queue.len() == 0 {
        reply_frame(None)
    } else {
        reply_frame(Some(queue[0]))
    }
}

/// The queue after a consumer's request is served from `queue`.
pub open spec fn after_serving(queue: Seq<Seq<u8>>) -> Seq<Seq<u8>> {
    if queue.len() == 0 {
        queue
    } else {
        queue.drop_first()
    }
}

/// Takes in one read from a consumer's connection; a completed request takes
/// the oldest waiting message, if any, off the queue.
pub fn serve_consumer(received: Received, queue: &mut MessageQueue) -> (action: ConsumerAction)
    requires
        received_well_formed(received),
    ensures
        match received {
            Received::Closed => action is Close && final(queue)@ == old(queue)@,
            Received::Chunk(c) => if !ends_frame(c@) {
                action is Ignore && final(queue)@ == old(queue)@
            } else {
                &&& action matches ConsumerAction::Reply(f) && f@ == consumer_reply(old(queue)@)
                &&& final(queue)@ == after_serving(old(queue)@)
            },
        },
{
    match received {
        Received::Closed => ConsumerAction::Close,
        Received::Chunk(chunk) => {
            if !chunk_ends_frame(&chunk) {
                ConsumerAction::Ignore
            } else {
                let message = queue.pop_front();
                ConsumerAction::Reply(reply_to_consumer(message))
            }
        },
    }
}

} // verus!
