use rust_es::message_broker::consumer::{request_frame, ConsumeError, ReplyProgress, ReplyReader};
use rust_es::message_broker::producer::{message_frame, AckProgress, AckReader, ProduceError};
use rust_es::message_broker::queue::MessageQueue;
use rust_es::message_broker::server::{
    ack_frame, reply_to_consumer, serve_consumer, ConsumerAction, ProducerAction, ProducerConnection,
};
use rust_es::message_broker::transport::{append_range, chunk_ends_frame, Received};

fn chunk(b: &[u8]) -> Received {
    Received::Chunk(b.to_vec())
}

fn publish_bytes(action: ProducerAction) -> Vec<u8> {
    match action {
        ProducerAction::Publish(m) => m,
        ProducerAction::Wait => panic!("expected a publication, got Wait"),
        ProducerAction::Close => panic!("expected a publication, got Close"),
    }
}

fn reply_bytes(action: ConsumerAction) -> Vec<u8> {
    match action {
        ConsumerAction::Reply(r) => r,
        ConsumerAction::Ignore => panic!("expected a reply, got Ignore"),
        ConsumerAction::Close => panic!("expected a reply, got Close"),
    }
}

fn decoded(p: ReplyProgress) -> Result<Option<Vec<u8>>, ConsumeError> {
    match p {
        ReplyProgress::Waiting => panic!("expected the answer to be complete"),
        ReplyProgress::Done(r) => r.map(|o| o.map(|b| b.to_vec())),
    }
}

#[test]
fn queue_is_first_in_first_out() {
    let mut q = MessageQueue::new();
    assert_eq!(q.len(), 0);
    q.publish(b"one".to_vec());
    q.publish(b"two".to_vec());
    q.push_back(bytes::Bytes::from(b"three".to_vec()));
    assert_eq!(q.len(), 3);
    assert_eq!(q.pop_front().unwrap().to_vec(), b"one".to_vec());
    assert_eq!(q.pop_front().unwrap().to_vec(), b"two".to_vec());
    assert_eq!(q.pop_front().unwrap().to_vec(), b"three".to_vec());
    assert!(q.pop_front().is_none());
    assert_eq!(q.len(), 0);
}

#[test]
fn chunk_ends_frame_checks_last_byte() {
    assert!(chunk_ends_frame(&vec![1, 2, 0]));
    assert!(!chunk_ends_frame(&vec![0, 2]));
    assert!(!chunk_ends_frame(&vec![]));
    let mut dst = vec![9u8];
    append_range(&mut dst, &vec![1, 2, 3, 4], 1, 3);
    assert_eq!(dst, vec![9, 2, 3]);
}

#[test]
fn producer_connection_publishes_a_frame_in_one_chunk() {
    let mut c = ProducerConnection::new();
    let m = publish_bytes(c.step(chunk(b"hello\0")));
    assert_eq!(m, b"hello".to_vec());
    assert!(matches!(c.step(Received::Closed), ProducerAction::Close));
}

#[test]
fn producer_connection_reassembles_a_split_frame() {
    let mut c = ProducerConnection::new();
    assert!(matches!(c.step(chunk(b"hel")), ProducerAction::Wait));
    assert!(matches!(c.step(chunk(b"l")), ProducerAction::Wait));
    let m = publish_bytes(c.step(chunk(b"o\0")));
    assert_eq!(m, b"hello".to_vec());
}

#[test]
fn producer_connection_keeps_earlier_frames() {
    // The bytes held are never reset, so a second frame is published after
    // the first one's bytes.
    let mut c = ProducerConnection::new();
    assert_eq!(publish_bytes(c.step(chunk(b"a\0"))), b"a".to_vec());
    assert_eq!(publish_bytes(c.step(chunk(b"b\0"))), b"ab".to_vec());
}

#[test]
fn ack_frame_is_ok_and_terminator() {
    assert_eq!(ack_frame(), b"ok\0".to_vec());
}

#[test]
fn consumer_served_from_empty_queue() {
    let mut q = MessageQueue::new();
    let r = reply_bytes(serve_consumer(chunk(b"\0"), &mut q));
    assert_eq!(r, b"-\0".to_vec());
    assert_eq!(q.len(), 0);
}

#[test]
fn consumer_served_oldest_message() {
    let mut q = MessageQueue::new();
    q.publish(b"first".to_vec());
    q.publish(b"second".to_vec());
    assert!(matches!(serve_consumer(chunk(b"x"), &mut q), ConsumerAction::Ignore));
    assert_eq!(q.len(), 2);
    let r = reply_bytes(serve_consumer(chunk(b"\0"), &mut q));
    assert_eq!(r, b"+first\0".to_vec());
    let r = reply_bytes(serve_consumer(chunk(b"again\0"), &mut q));
    assert_eq!(r, b"+second\0".to_vec());
    let r = reply_bytes(serve_consumer(chunk(b"\0"), &mut q));
    assert_eq!(r, b"-\0".to_vec());
    assert!(matches!(serve_consumer(Received::Closed, &mut q), ConsumerAction::Close));
}

#[test]
fn reply_to_consumer_frames_message() {
    assert_eq!(reply_to_consumer(Some(bytes::Bytes::from(b"abc".to_vec()))), b"+abc\0".to_vec());
    assert_eq!(reply_to_consumer(None), b"-\0".to_vec());
}

#[test]
fn consumer_request_is_a_terminator() {
    assert_eq!(request_frame(), vec![0u8]);
}

#[test]
fn reply_reader_decodes_message() {
    let mut r = ReplyReader::new();
    assert_eq!(decoded(r.step(chunk(b"+hello\0"))).unwrap(), Some(b"hello".to_vec()));
}

#[test]
fn reply_reader_decodes_no_message() {
    let mut r = ReplyReader::new();
    assert_eq!(decoded(r.step(chunk(b"-\0"))).unwrap(), None);
    let mut r = ReplyReader::new();
    assert_eq!(decoded(r.step(Received::Closed)).unwrap(), None);
}

#[test]
fn reply_reader_rejects_unknown_marker() {
    let mut r = ReplyReader::new();
    assert!(matches!(decoded(r.step(chunk(b"?x\0"))), Err(ConsumeError::ProtocolError)));
}

#[test]
fn reply_reader_decides_by_the_last_chunk() {
    // An answer split over two chunks is decided by the first byte of the
    // chunk that ends it, and that byte is left out of the message.
    let mut r = ReplyReader::new();
    assert!(matches!(r.step(chunk(b"+ab")), ReplyProgress::Waiting));
    assert!(matches!(decoded(r.step(chunk(b"c\0"))), Err(ConsumeError::ProtocolError)));
    let mut r = ReplyReader::new();
    assert!(matches!(r.step(chunk(b"xy")), ReplyProgress::Waiting));
    assert_eq!(decoded(r.step(chunk(b"+z\0"))).unwrap(), Some(b"xyz".to_vec()));
}

#[test]
fn consume_error_from_io_error() {
    let e: ConsumeError = std::io::Error::new(std::io::ErrorKind::Other, "boom").into();
    assert!(matches!(e, ConsumeError::IOError(_)));
}

#[test]
fn message_frame_appends_terminator() {
    assert_eq!(message_frame(&b"some message".to_vec()), b"some message\0".to_vec());
    assert_eq!(message_frame(&vec![]), vec![0u8]);
}

#[test]
fn ack_reader_reads_answer() {
    let mut r = AckReader::new();
    match r.step(chunk(b"ok\0")) {
        AckProgress::Done(Ok(a)) => assert_eq!(a, b"ok".to_vec()),
        _ => panic!("expected the answer"),
    }
}

#[test]
fn ack_reader_reassembles_split_answer() {
    let mut r = AckReader::new();
    assert!(matches!(r.step(chunk(b"o")), AckProgress::Waiting));
    match r.step(chunk(b"k\0")) {
        AckProgress::Done(Ok(a)) => assert_eq!(a, b"ok".to_vec()),
        _ => panic!("expected the answer"),
    }
}

#[test]
fn ack_reader_reports_dropped_connection() {
    let mut r = AckReader::new();
    assert!(matches!(
        r.step(Received::Closed),
        AckProgress::Done(Err(ProduceError::ConnectionDroppedByServer))
    ));
    let e: ProduceError = std::io::Error::new(std::io::ErrorKind::Other, "boom").into();
    assert!(matches!(e, ProduceError::IoError(_)));
}

#[test]
fn message_delivered_end_to_end() {
    let message = b"some message".to_vec();
    let frame = message_frame(&message);
    let mut conn = ProducerConnection::new();
    let mut queue = MessageQueue::new();
    let pieces: Vec<&[u8]> = vec![&frame[..3], &frame[3..4], &frame[4..]];
    let mut published = None;
    for p in pieces {
        match conn.step(chunk(p)) {
            ProducerAction::Publish(m) => published = Some(m),
            ProducerAction::Wait => {}
            ProducerAction::Close => panic!("unexpected close"),
        }
    }
    queue.publish(published.unwrap());
    let reply = reply_bytes(serve_consumer(Received::Chunk(request_frame()), &mut queue));
    let mut reader = ReplyReader::new();
    assert_eq!(decoded(reader.step(Received::Chunk(reply))).unwrap(), Some(message));
}

#[test]
fn interleaved_publish_and_serve_is_first_in_first_out() {
    let mut q = MessageQueue::new();
    q.publish(b"a".to_vec());
    assert_eq!(reply_bytes(serve_consumer(chunk(b"\0"), &mut q)), b"+a\0".to_vec());
    assert_eq!(reply_bytes(serve_consumer(chunk(b"\0"), &mut q)), b"-\0".to_vec());
    q.publish(b"b".to_vec());
    q.publish(b"c".to_vec());
    assert_eq!(reply_bytes(serve_consumer(chunk(b"\0"), &mut q)), b"+b\0".to_vec());
    q.publish(b"d".to_vec());
    assert_eq!(reply_bytes(serve_consumer(chunk(b"\0"), &mut q)), b"+c\0".to_vec());
    assert_eq!(reply_bytes(serve_consumer(chunk(b"\0"), &mut q)), b"+d\0".to_vec());
    assert_eq!(q.len(), 0);
}

#[test]
fn split_message_published_once_and_producer_reads_ok() {
    let mut q = MessageQueue::new();
    q.publish(b"older".to_vec());
    let mut conn = ProducerConnection::new();
    let mut published = Vec::new();
    for p in [&b"ne"[..], &b"w"[..], &b"\0"[..]] {
        if let ProducerAction::Publish(m) = conn.step(chunk(p)) {
            published.push(m);
        }
    }
    assert_eq!(published, vec![b"new".to_vec()]);
    q.publish(published.pop().unwrap());
    assert_eq!(q.len(), 2);
    let ack = ack_frame();
    let mut reader = AckReader::new();
    assert!(matches!(reader.step(chunk(&ack[..1])), AckProgress::Waiting));
    match reader.step(chunk(&ack[1..])) {
        AckProgress::Done(Ok(a)) => assert_eq!(a, b"ok".to_vec()),
        _ => panic!("expected the answer"),
    }
    assert_eq!(q.pop_front().unwrap().to_vec(), b"older".to_vec());
    assert_eq!(q.pop_front().unwrap().to_vec(), b"new".to_vec());
}
