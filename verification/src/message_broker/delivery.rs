//! What the broker's protocol guarantees across calls: a framed message is
//! reassembled however the connection splits it, the queue hands messages out
//! in the order they were published, and a consumer decodes exactly what the
//! broker encodes.
use vstd::prelude::*;
use crate::message_broker::consumer::{reply_chunk_readable, reply_step, ReplyOutcome};
use crate::message_broker::server::{
    after_serving, ack_bytes, consumer_reply, reply_frame, ACK_FIRST, ACK_SECOND,
};
use crate::message_broker::transport::{collect_step, ends_frame, FRAME_END};

verus! {

/// Every chunk holds at least one byte.
pub open spec fn chunks_nonempty(chunks: Seq<Seq<u8>>) -> bool {
    forall|i: int| 0 <= i < chunks.len() ==> (#[trigger] chunks[i]).len() > 0
}

/// The bytes held and the frames completed, in order, after `chunks` arrive one
/// after another on a connection that holds `value` and is read up to
/// terminators (a producer's connection at the broker, or the broker's answer
/// at a producer).
pub open spec fn collect_run(value: Seq<u8>, chunks: Seq<Seq<u8>>) -> (Seq<u8>, Seq<Seq<u8>>)
    decreases chunks.len(),
{
    if chunks.len() == 0 {
        (value, Seq::empty())
    } else {
        let (v, completed) = collect_step(value, chunks[0]);
        let (w, rest) = collect_run(v, chunks.drop_first());
        (
            w,
            match completed {
                Some(m) => seq![m] + rest,
                None => rest,
            },
        )
    }
}

/// The answers to `n` consumer requests served one after another from a
/// queue that holds `queue`.
pub open spec fn serve_run(queue: Seq<Seq<u8>>, n: nat) -> Seq<Seq<u8>>
    decreases n,
{
    if n == 0 {
        Seq::empty()
    } else {
        seq![consumer_reply(queue)] + serve_run(after_serving(queue), (n - 1) as nat)
    }
}

proof fn lemma_collect_frame(value: Seq<u8>, chunks: Seq<Seq<u8>>, rest: Seq<u8>)
    requires
        chunks_nonempty(chunks),
        chunks.flatten() == rest.push(FRAME_END),
        !rest.contains(FRAME_END),
    ensures
        collect_run(value, chunks).1 == seq![value + rest],
    decreases chunks.len(),
{
    if chunks.len() == 0 {
        assert(rest.push(FRAME_END).len() > 0);
    } else {
        let c = chunks[0];
        let tail = chunks.drop_first();
        assert(chunks.flatten() == c + tail.flatten());
        assert(c.len() > 0);
        if tail.len() == 0 {
            assert(tail.flatten() =~= Seq::<u8>::empty());
            assert(c =~= rest.push(FRAME_END));
            assert(ends_frame(c));
            assert(c.drop_last() =~= rest);
            assert(collect_run(value + rest, tail).1 =~= Seq::<Seq<u8>>::empty());
            assert(collect_run(value, chunks).1 =~= seq![value + rest]);
        } else {
            assert(tail[0].len() > 0);
            assert(tail.flatten() == tail[0] + tail.drop_first().flatten());
            let n = c.len();
            assert(n <= rest.len()) by {
                assert((c + tail.flatten()).len() == rest.len() + 1);
            }
            assert(c[n - 1] == rest[n - 1]) by {
                assert((c + tail.flatten())[n - 1] == rest.push(FRAME_END)[n - 1]);
            }
            assert(c[n - 1] != FRAME_END) by {
                if c[n - 1] == FRAME_END {
                    assert(rest.contains(FRAME_END));
                }
            }
            assert(!ends_frame(c));
            let rest2 = rest.subrange(n as int, rest.len() as int);
            assert(tail.flatten() =~= rest2.push(FRAME_END)) by {
                assert forall|k: int| 0 <= k < tail.flatten().len() implies
                    tail.flatten()[k] == rest2.push(FRAME_END)[k] by {
                    assert((c + tail.flatten())[n + k] == rest.push(FRAME_END)[n + k]);
                }
            }
            assert(!rest2.contains(FRAME_END)) by {
                if rest2.contains(FRAME_END) {
                    let k = choose|k: int| 0 <= k < rest2.len() && rest2[k] == FRAME_END;
                    assert(rest[n + k] == FRAME_END);
                }
            }
            assert(c =~= rest.subrange(0, n as int)) by {
                assert forall|k: int| 0 <= k < n implies c[k] == rest[k] by {
                    assert((c + tail.flatten())[k] == rest.push(FRAME_END)[k]);
                }
            }
            lemma_collect_frame(value + c, tail, rest2);
            assert(value + c + rest2 =~= value + rest);
        }
    }
}

/// However a connection splits a frame into chunks, a connection read up to
/// terminators that starts empty completes exactly one frame, holding the
/// message, provided the message itself holds no terminator. This is what the
/// broker publishes for a producer's `message_frame(message)`.
pub proof fn law_frame_reassembled(message: Seq<u8>, chunks: Seq<Seq<u8>>)
    requires
        chunks_nonempty(chunks),
        chunks.flatten() == message.push(FRAME_END),
        !message.contains(FRAME_END),
    ensures
        collect_run(Seq::empty(), chunks).1 == seq![message],
{
    lemma_collect_frame(Seq::empty(), chunks, message);
    assert(Seq::<u8>::empty() + message =~= message);
}

/// However the broker's acknowledgement is split into chunks, a producer that
/// reads it completes exactly one answer: `ok`.
pub proof fn law_ack_reassembled(chunks: Seq<Seq<u8>>)
    requires
        chunks_nonempty(chunks),
        chunks.flatten() == ack_bytes(),
    ensures
        collect_run(Seq::empty(), chunks).1 == seq![ack_bytes().drop_last()],
{
    let ok = ack_bytes().drop_last();
    assert(ok.push(FRAME_END) =~= ack_bytes());
    assert(!ok.contains(FRAME_END)) by {
        if ok.contains(FRAME_END) {
            let k = choose|k: int| 0 <= k < ok.len() && ok[k] == FRAME_END;
        }
    }
    law_frame_reassembled(ok, chunks);
}

/// The queue hands messages out in the order they were published: requests
/// served from a queue holding `messages` are answered with each message in
/// turn, and the request after the last one with "no message".
pub proof fn law_first_in_first_out(messages: Seq<Seq<u8>>)
    ensures
        serve_run(messages, messages.len() + 1) == messages.map_values(
            |m: Seq<u8>| reply_frame(Some(m)),
        ).push(reply_frame(None)),
    decreases messages.len(),
{
    if messages.len() == 0 {
        assert(serve_run(after_serving(messages), 0) =~= Seq::<Seq<u8>>::empty());
        assert(serve_run(messages, 1) =~= seq![reply_frame(None)]);
        assert(messages.map_values(|m: Seq<u8>| reply_frame(Some(m))).push(reply_frame(None))
            =~= seq![reply_frame(None)]);
    } else {
        let tail = messages.drop_first();
        law_first_in_first_out(tail);
        assert(after_serving(messages) == tail);
        assert((messages.len() + 1 - 1) as nat == tail.len() + 1);
        assert(messages.map_values(|m: Seq<u8>| reply_frame(Some(m))).push(reply_frame(None))
            =~= seq![reply_frame(Some(messages[0]))] + tail.map_values(
            |m: Seq<u8>| reply_frame(Some(m)),
        ).push(reply_frame(None)));
    }
}

/// A consumer that receives the broker's answer in one chunk decodes exactly
/// what the broker encoded: the message, or "no message".
pub proof fn law_reply_decoded(message: Option<Seq<u8>>)
    ensures
        reply_chunk_readable(reply_frame(message)),
        reply_step(Seq::empty(), reply_frame(message)).1 == match message {
            Some(m) => ReplyOutcome::Message(m),
            None => ReplyOutcome::NoMessage,
        },
{
    let f = reply_frame(message);
    match message {
        Some(m) => {
            assert(f.subrange(1, f.len() - 1) =~= m);
            assert(Seq::<u8>::empty() + m =~= m);
        },
        None => {},
    }
}

/// A message that a producer frames, the broker reassembles from any split
/// into chunks and publishes to an empty queue, and then serves to the next
/// consumer's request, is decoded by that consumer (reading the answer in one
/// chunk) as exactly the message that was sent.
pub proof fn law_message_delivered(message: Seq<u8>, chunks: Seq<Seq<u8>>)
    requires
        chunks_nonempty(chunks),
        chunks.flatten() == message.push(FRAME_END),
        !message.contains(FRAME_END),
    ensures
        ({
            let published = collect_run(Seq::empty(), chunks).1;
            let queue = Seq::<Seq<u8>>::empty() + published;
            &&& queue == seq![message]
            &&& ends_frame(seq![FRAME_END])
            &&& reply_chunk_readable(consumer_reply(queue))
            &&& reply_step(Seq::empty(), consumer_reply(queue)).1 == ReplyOutcome::Message(message)
        }),
{
    law_frame_reassembled(message, chunks);
    let queue = Seq::<Seq<u8>>::empty() + seq![message];
    assert(queue =~= seq![message]);
    law_reply_decoded(Some(message));
}

/// A producer's message with no terminator in it, sent on a fresh connection
/// and split into chunks in any way, is published exactly once: publishing
/// what the connection completes turns the queue `queue` into `queue` with the
/// message at the back. The producer, reading the broker's acknowledgement split
/// in any way, then reads `ok`.
pub proof fn law_message_published_once(
    queue: Seq<Seq<u8>>,
    message: Seq<u8>,
    chunks: Seq<Seq<u8>>,
    ack_chunks: Seq<Seq<u8>>,
)
    requires
        chunks_nonempty(chunks),
        chunks.flatten() == message.push(FRAME_END),
        !message.contains(FRAME_END),
        chunks_nonempty(ack_chunks),
        ack_chunks.flatten() == ack_bytes(),
    ensures
        collect_run(Seq::empty(), chunks).1 == seq![message],
        queue + collect_run(Seq::empty(), chunks).1 == queue.push(message),
        collect_run(Seq::empty(), ack_chunks).1 == seq![seq![ACK_FIRST, ACK_SECOND]],
{
    law_frame_reassembled(message, chunks);
    assert(queue + seq![message] =~= queue.push(message));
    law_ack_reassembled(ack_chunks);
    assert(ack_bytes().drop_last() =~= seq![ACK_FIRST, ACK_SECOND]);
}

/// One operation on the broker's queue: a producer's completed message is
/// published, or a consumer's completed request is served.
pub enum QueueOp {
    Publish(Seq<u8>),
    Serve,
}

/// The messages published by `ops`, in order.
pub open spec fn published_by(ops: Seq<QueueOp>) -> Seq<Seq<u8>>
    decreases ops.len(),
{
    if ops.len() == 0 {
        Seq::empty()
    } else {
        let rest = published_by(ops.drop_first());
        match ops[0] {
            QueueOp::Publish(m) => seq![m] + rest,
            QueueOp::Serve => rest,
        }
    }
}

/// Running `ops` one after another on a queue that holds `queue`, as
/// `MessageQueue::publish` and `serve_consumer` do: the queue at the end, the
/// answer to each request in order (the oldest waiting message, or "no
/// message" when none waits), and the messages handed out in order.
pub open spec fn run_queue(queue: Seq<Seq<u8>>, ops: Seq<QueueOp>) -> (
    Seq<Seq<u8>>,
    Seq<Seq<u8>>,
    Seq<Seq<u8>>,
)
    decreases ops.len(),
{
    if ops.len() == 0 {
        (queue, Seq::empty(), Seq::empty())
    } else {
        match ops[0] {
            QueueOp::Publish(m) => run_queue(queue.push(m), ops.drop_first()),
            QueueOp::Serve => {
                let (last, replies, handed) = run_queue(after_serving(queue), ops.drop_first());
                (
                    last,
                    seq![consumer_reply(queue)] + replies,
                    if queue.len() == 0 {
                        handed
                    } else {
                        seq![queue[0]] + handed
                    },
                )
            },
        }
    }
}

/// However publishing and serving interleave, the queue is first in, first
/// out: the messages handed to requests, followed by those still waiting, are
/// exactly the messages that waited at the start followed by those published,
/// in order. So no message is handed out twice, none is lost, and none
/// overtakes another.
pub proof fn law_first_in_first_out_interleaved(queue: Seq<Seq<u8>>, ops: Seq<QueueOp>)
    ensures
        ({
            let (last, _replies, handed) = run_queue(queue, ops);
            handed + last == queue + published_by(ops)
        }),
    decreases ops.len(),
{
    if ops.len() == 0 {
        assert(Seq::<Seq<u8>>::empty() + queue =~= queue + Seq::<Seq<u8>>::empty());
    } else {
        let rest = ops.drop_first();
        match ops[0] {
            QueueOp::Publish(m) => {
                law_first_in_first_out_interleaved(queue.push(m), rest);
                assert(queue.push(m) + published_by(rest) =~= queue + (seq![m] + published_by(rest)));
            },
            QueueOp::Serve => {
                law_first_in_first_out_interleaved(after_serving(queue), rest);
                let (last, _r, handed) = run_queue(after_serving(queue), rest);
                if queue.len() == 0 {
                } else {
                    assert(seq![queue[0]] + handed + last =~= seq![queue[0]] + (handed + last));
                    assert(seq![queue[0]] + (queue.drop_first() + published_by(rest))
                        =~= queue + published_by(rest));
                }
            },
        }
    }
}

} // verus!
