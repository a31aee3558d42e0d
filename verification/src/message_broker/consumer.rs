//! A consumer's side of the protocol: it sends a terminator to ask for a
//! message and reads the broker's answer up to the next terminator.
use vstd::prelude::*;
use crate::message_broker::payload::{bytes_contents, bytes_from_vec};
use crate::message_broker::server::{MESSAGE_FOLLOWS, QUEUE_EMPTY};
use crate::message_broker::transport::{
    append_range, chunk_ends_frame, ends_frame, received_well_formed, Received, FRAME_END,
};

verus! {

/// Why taking a message failed.
#[derive(Debug)]
pub enum ConsumeError {
    /// The broker's answer began with neither `+` nor `-`.
    ProtocolError,
    /// Reading from or writing to the connection failed.
    IOError(std::io::Error),
}

impl From<std::io::Error> for ConsumeError {
    fn from(err: std::io::Error) -> (r: ConsumeError) {
        ConsumeError::IOError(err)
    }
}

impl vstd::std_specs::convert::FromSpecImpl<std::io::Error> for ConsumeError {
    open spec fn obeys_from_spec() -> bool {
        true
    }

    open spec fn from_spec(v: std::io::Error) -> ConsumeError {
        ConsumeError::IOError(v)
    }
}

/// The request a consumer sends: a lone terminator.
pub fn request_frame() -> (f: Vec<u8>)
    ensures
        f@ == seq![FRAME_END],
{
    let mut f = Vec::new();
    f.push(FRAME_END);
    f
}

/// What a read of the broker's answer leads to, by bytes.
pub enum ReplyOutcome {
    /// No terminator yet: read again.
    Pending,
    /// The answer carried these bytes.
    Message(Seq<u8>),
    /// The answer said that no message waits, or the broker closed the connection.
    NoMessage,
    /// The answer began with neither `+` nor `-`.
    Malformed,
}

/// The bytes held and the outcome after `chunk` arrives on a consumer's
/// connection that holds `value`. When the chunk ends a frame, its first and
/// last bytes are left out and its first byte decides the outcome; a chunk that
/// does not end a frame is kept whole.
pub open spec fn reply_step(value: Seq<u8>, chunk: Seq<u8>) -> (Seq<u8>, ReplyOutcome) {
    if ends_frame(chunk) {
        let v = value + chunk.subrange(1, chunk.len() - 1);
        if chunk[0] == MESSAGE_FOLLOWS {
            (v, ReplyOutcome::Message(v))
        } else if chunk[0] == QUEUE_EMPTY {
            (v, ReplyOutcome::NoMessage)
        } else {
            (v, ReplyOutcome::Malformed)
        }
    } else {
        (value + chunk, ReplyOutcome::Pending)
    }
}

/// A chunk that the reader can take in: one that ends a frame holds at least
/// one byte before the terminator.
pub open spec fn reply_chunk_readable(chunk: Seq<u8>) -> bool {
    chunk.len() > 0 && (ends_frame(chunk) ==> chunk.len() >= 2)
}

/// What the consumer does after a read of the broker's answer.
pub enum ReplyProgress {
    /// Read again.
    Waiting,
    /// Taking a message is over, with this result.
    Done(Result<Option<bytes::Bytes>, ConsumeError>),
}

/// The progress reports the outcome.
pub open spec fn progress_reports(p: ReplyProgress, o: ReplyOutcome) -> bool {
    match o {
        ReplyOutcome::Pending => p is Waiting,
        ReplyOutcome::Message(m) => p matches ReplyProgress::Done(Ok(Some(b))) && bytes_contents(b) == m,
        ReplyOutcome::NoMessage => p matches ReplyProgress::Done(Ok(None)),
        ReplyOutcome::Malformed => p matches ReplyProgress::Done(Err(ConsumeError::ProtocolError)),
    }
}

/// The consumer's state while it reads one answer: the bytes kept so far.
pub struct ReplyReader {
    value: Vec<u8>,
}

impl View for ReplyReader {
    type V = Seq<u8>;

    closed spec fn view(&self) -> Seq<u8> {
        self.value@
    }
}

impl ReplyReader {
    /// A reader that has received nothing yet.
    pub fn new() -> (r: ReplyReader)
        ensures
            r@ == Seq::<u8>::empty(),
    {
        ReplyReader { value: Vec::new() }
    }

    /// Takes in one read of the broker's answer.
    pub fn step(&mut self, received: Received) -> (p: ReplyProgress)
        requires
            received matches Received::Chunk(c) ==> reply_chunk_readable(c@),
        ensures
            match received {
                Received::Closed => {
                    &&& progress_reports(p, ReplyOutcome::NoMessage)
                    &&& final(self)@ == old(self)@
                },
                Received::Chunk(c) => {
                    let (v, o) = reply_step(old(self)@, c@);
                    &&& final(self)@ == v
                    &&& progress_reports(p, o)
                },
            },
    {
        match received {
            Received::Closed => ReplyProgress::Done(Ok(None)),
            Received::Chunk(chunk) => {
                let n = chunk.len();
                if chunk_ends_frame(&chunk) {
                    append_range(&mut self.value, &chunk, 1, n - 1);
                    if chunk[0] == MESSAGE_FOLLOWS {
                        let b = bytes_from_vec(self.value.clone());
                        ReplyProgress::Done(Ok(Some(b)))
                    } else if chunk[0] == QUEUE_EMPTY {
                        ReplyProgress::Done(Ok(None))
                    } else {
                        ReplyProgress::Done(Err(ConsumeError::ProtocolError))
                    }
                } else {
                    append_range(&mut self.value, &chunk, 0, n);
                    assert(chunk@.subrange(0, n as int) =~= chunk@);
                    ReplyProgress::Waiting
                }
            },
        }
    }
}

} // verus!
