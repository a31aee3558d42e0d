//! A producer's side of the protocol: it sends its message followed by a
//! terminator and reads the broker's answer up to the next terminator.
use vstd::prelude::*;
use crate::message_broker::transport::{
    append_range, chunk_ends_frame, collect_step, received_well_formed, Received, FRAME_END,
};

verus! {

/// Why publishing a message failed.
#[derive(Debug)]
pub enum ProduceError {
    /// The broker closed the connection before it answered.
    ConnectionDroppedByServer,
    /// Reading from or writing to the connection failed.
    IoError(std::io::Error),
}

impl From<std::io::Error> for ProduceError {
    fn from(err: std::io::Error) -> (r: ProduceError) {
        ProduceError::IoError(err)
    }
}

impl vstd::std_specs::convert::FromSpecImpl<std::io::Error> for ProduceError {
    open spec fn obeys_from_spec() -> bool {
        true
    }

    open spec fn from_spec(v: std::io::Error) -> ProduceError {
        ProduceError::IoError(v)
    }
}

/// The bytes a producer sends for `message`: the message, then a terminator.
pub fn message_frame(message: &Vec<u8>) -> (f: Vec<u8>)
    ensures
        f@ == message@.push(FRAME_END),
{
    let mut f = Vec::new();
    let n = message.len();
    append_range(&mut f, message, 0, n);
    f.push(FRAME_END);
    assert(message@.subrange(0, n as int) =~= message@);
    assert(f@ =~= message@.push(FRAME_END));
    f
}

/// What the producer does after a read of the broker's answer.
pub enum AckProgress {
    /// Read again.
    Waiting,
    /// Publishing is over; on success, with the broker's answer (its
    /// terminator left out).
    Done(Result<Vec<u8>, ProduceError>),
}

/// The producer's state while it reads the broker's answer: the bytes so far.
pub struct AckReader {
    value: Vec<u8>,
}

impl View for AckReader {
    type V = Seq<u8>;

    closed spec fn view(&self) -> Seq<u8> {
        self.value@
    }
}

impl AckReader {
    /// A reader that has received nothing yet.
    pub fn new() -> (r: AckReader)
        ensures
            r@ == Seq::<u8>::empty(),
    {
        AckReader { value: Vec::new() }
    }

    /// Takes in one read of the broker's answer.
    pub fn step(&mut self, received: Received) -> (p: AckProgress)
        requires
            received_well_formed(received),
        ensures
            match received {
                Received::Closed => {
                    &&& p matches AckProgress::Done(Err(ProduceError::ConnectionDroppedByServer))
                    &&& final(self)@ == old(self)@
                },
                Received::Chunk(c) => {
                    let (v, answer) = collect_step(old(self)@, c@);
                    &&& final(self)@ == v
                    &&& match answer {
                        Some(a) => p matches AckProgress::Done(Ok(r)) && r@ == a,
                        None => p is Waiting,
                    }
                },
            },
    {
        match received {
            Received::Closed => AckProgress::Done(Err(ProduceError::ConnectionDroppedByServer)),
            Received::Chunk(chunk) => {
                let n = chunk.len();
                if chunk_ends_frame(&chunk) {
                    append_range(&mut self.value, &chunk, 0, n - 1);
                    assert(chunk@.subrange(0, n - 1) =~= chunk@.drop_last());
                    AckProgress::Done(Ok(self.value.clone()))
                } else {
                    append_range(&mut self.value, &chunk, 0, n);
                    assert(chunk@.subrange(0, n as int) =~= chunk@);
                    AckProgress::Waiting
                }
            },
        }
    }
}

} // verus!
