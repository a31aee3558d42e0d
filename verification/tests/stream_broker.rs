use rust_es::message_broker::queue::MessageQueue;
use rust_es::message_broker::transport::Received;
use rust_es::stream_broker::{greeting, hand_out, UploadAction, UploadConnection};

#[test]
fn greeting_is_hello_line() {
    assert_eq!(greeting(), b"hello\r\n".to_vec());
}

#[test]
fn upload_greets_every_chunk_and_publishes_all_bytes_at_close() {
    let mut c = UploadConnection::new();
    for piece in [&b"some "[..], &b"mess"[..], &b"age"[..]] {
        match c.step(Received::Chunk(piece.to_vec())) {
            UploadAction::Reply(g) => assert_eq!(g, b"hello\r\n".to_vec()),
            UploadAction::Publish(_) => panic!("published before the close"),
        }
    }
    match c.step(Received::Closed) {
        UploadAction::Publish(m) => assert_eq!(m, b"some message".to_vec()),
        UploadAction::Reply(_) => panic!("expected a publication"),
    }
}

#[test]
fn upload_of_nothing_publishes_empty_message() {
    let mut c = UploadConnection::new();
    match c.step(Received::Closed) {
        UploadAction::Publish(m) => assert!(m.is_empty()),
        UploadAction::Reply(_) => panic!("expected a publication"),
    }
}

#[test]
fn hand_out_takes_oldest() {
    let mut q = MessageQueue::new();
    assert_eq!(hand_out(&mut q), None);
    q.publish(b"a".to_vec());
    q.publish(b"b".to_vec());
    assert_eq!(hand_out(&mut q), Some(b"a".to_vec()));
    assert_eq!(hand_out(&mut q), Some(b"b".to_vec()));
    assert_eq!(hand_out(&mut q), None);
}
