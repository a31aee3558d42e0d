//! The broker that the standalone server runs. A producer's connection
//! carries one message, which ends when the producer closes the connection;
//! every chunk is answered with a greeting line. A consumer's connection is
//! handed the oldest waiting message, if any, and nothing else.
use vstd::prelude::*;
use crate::message_broker::payload::{bytes_contents, bytes_to_vec};
use crate::message_broker::queue::MessageQueue;
use crate::message_broker::transport::{append_range, received_well_formed, Received};

verus! {

/// The line sent back for every chunk a producer sends: `hello`, CR, LF.
pub open spec fn greeting_bytes() -> Seq<u8> {
    seq![104u8, 101u8, 108u8, 108u8, 111u8, 13u8, 10u8]
}

/// The line sent back for every chunk a producer sends.
pub fn greeting() -> (g: Vec<u8>)
    ensures
        g@ == greeting_bytes(),
{
    let mut g = Vec::new();
    g.push(104u8);
    g.push(101u8);
    g.push(108u8);
    g.push(108u8);
    g.push(111u8);
    g.push(13u8);
    g.push(10u8);
    assert(g@ =~= greeting_bytes());
    g
}

/// What the broker does after a read on a producer's connection.
pub enum UploadAction {
    /// The chunk was kept: send these bytes (the greeting) and read again.
    Reply(Vec<u8>),
    /// The producer closed the connection: publish these bytes.
    Publish(Vec<u8>),
}

/// The state of one producer's connection: every byte received on it so far.
pub struct UploadConnection {
    value: Vec<u8>,
}

impl View for UploadConnection {
    type V = Seq<u8>;

    closed spec fn view(&self) -> Seq<u8> {
        self.value@
    }
}

impl UploadConnection {
    /// A connection on which nothing has arrived yet.
    pub fn new() -> (c: UploadConnection)
        ensures
            c@ == Seq::<u8>::empty(),
    {
        UploadConnection { value: Vec::new() }
    }

    /// Takes in one read from the producer's connection.
    pub fn step(&mut self, received: Received) -> (action: UploadAction)
        requires
            received_well_formed(received),
        ensures
            match received {
                Received::Closed => {
                    &&& action matches UploadAction::Publish(m) && m@ == old(self)@
                    &&& final(self)@ == old(self)@
                },
                Received::Chunk(c) => {
                    &&& action matches UploadAction::Reply(g) && g@ == greeting_bytes()
                    &&& final(self)@ == old(self)@ + c@
                },
            },
    {
        match received {
            Received::Closed => UploadAction::Publish(self.value.clone()),
            Received::Chunk(chunk) => {
                let n = chunk.len();
                append_range(&mut self.value, &chunk, 0, n);
                assert(chunk@.subrange(0, n as int) =~= chunk@);
                UploadAction::Reply(greeting())
            },
        }
    }
}

/// The bytes a producer's connection holds after `chunks` arrive one after
/// another on a connection that holds `value`.
pub open spec fn upload_run(value: Seq<u8>, chunks: Seq<Seq<u8>>) -> Seq<u8>
    decreases chunks.len(),
{
    if chunks.len() == 0 {
        value
    } else {
        upload_run(value + chunks[0], chunks.drop_first())
    }
}

proof fn lemma_upload_run(value: Seq<u8>, chunks: Seq<Seq<u8>>)
    ensures
        upload_run(value, chunks) == value + chunks.flatten(),
    decreases chunks.len(),
{
    if chunks.len() == 0 {
        assert(value + chunks.flatten() =~= value);
    } else {
        lemma_upload_run(value + chunks[0], chunks.drop_first());
        assert(value + chunks[0] + chunks.drop_first().flatten() =~= value + chunks.flatten());
    }
}

/// What a producer's connection publishes when it closes is every byte it
/// received, in order, however the bytes were split into chunks.
pub proof fn law_upload_concatenates(chunks: Seq<Seq<u8>>)
    ensures
        upload_run(Seq::empty(), chunks) == chunks.flatten(),
{
    lemma_upload_run(Seq::empty(), chunks);
    assert(Seq::<u8>::empty() + chunks.flatten() =~= chunks.flatten());
}

/// Takes the oldest waiting message off the queue for a consumer and gives
/// the bytes to send it, or `None` when no message waits.
pub fn hand_out(queue: &mut MessageQueue) -> (m: Option<Vec<u8>>)
    ensures
        old(queue)@.len() == 0 ==> m is None && final(queue)@ == old(queue)@,
        old(queue)@.len() > 0 ==> (m matches Some(v) && v@ == old(queue)@[0])
            && final(queue)@ == old(queue)@.drop_first(),
{
    match queue.pop_front() {
        Some(b) => Some(bytes_to_vec(&b)),
        None => None,
    }
}

} // verus!
