use jonect::server::utils::{JsonMessageConnectionReader, ReadError};

fn reader_with(bytes: &[u8]) -> JsonMessageConnectionReader {
    let mut reader = JsonMessageConnectionReader::new();
    reader.receive(bytes).unwrap_or(());
    reader
}

#[test]
fn reader_reports_connection_end() {
    let mut reader = JsonMessageConnectionReader::new();
    assert!(matches!(reader.receive(&[]), Err(ReadError::UnexpectedEnding)));
}

#[test]
fn reader_reads_length_at_front() {
    let mut reader = JsonMessageConnectionReader::new();
    assert!(reader.receive(&[0, 0, 1]).is_ok());
    assert_eq!(reader.message_len(), None);
    assert!(reader.receive(&[4, 9, 9]).is_ok());
    assert_eq!(reader.message_len(), Some(260));
    assert_eq!(reader.buffer_len(), 6);
}

#[test]
fn buffer_contains_a_message_when_the_frame_is_whole() {
    assert!(reader_with(&[0, 0, 0, 2, b'4', b'2']).buffer_contains_a_message());
    assert!(reader_with(&[0, 0, 0, 0]).buffer_contains_a_message());
    assert!(reader_with(&[0, 0, 0, 1, b'7', b'8']).buffer_contains_a_message());
    assert!(!reader_with(&[0, 0, 0, 3, b'4', b'2']).buffer_contains_a_message());
    assert!(!reader_with(&[0, 0]).buffer_contains_a_message());
    assert!(!JsonMessageConnectionReader::new().buffer_contains_a_message());
}

#[test]
fn parse_message_removes_header_and_body() {
    let mut reader = reader_with(&[0, 0, 0, 2, b'4', b'2']);
    let body = reader.parse_message();
    assert_eq!(&body[..], &b"42"[..]);
    assert_eq!(reader.buffer_len(), 0);
    assert!(!reader.buffer_contains_a_message());
}

#[test]
fn parse_message_leaves_the_next_message() {
    let mut reader = reader_with(&[0, 0, 0, 1, b'7', 0, 0, 0, 2, b'4']);
    let body = reader.parse_message();
    assert_eq!(&body[..], &b"7"[..]);
    assert_eq!(reader.message_len(), Some(2));
    assert!(!reader.buffer_contains_a_message());
    reader.receive(b"2").unwrap_or(());
    assert!(reader.buffer_contains_a_message());
    assert_eq!(&reader.parse_message()[..], &b"42"[..]);
    assert_eq!(reader.buffer_len(), 0);
}

#[test]
fn reader_takes_back_a_built_frame() {
    let frame = jonect::utils::frame_message("{\"a\":1}".to_string()).ok().unwrap();
    let mut reader = reader_with(&frame);
    assert!(reader.buffer_contains_a_message());
    assert_eq!(&reader.parse_message()[..], &b"{\"a\":1}"[..]);
}
