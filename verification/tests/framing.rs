use jonect::utils::{
    frame_message, read_message_len, ConnectionAction, ConnectionEvent, ConnectionInput,
    ConnectionTask, MessageReader, ReadError, WriteError,
};

#[test]
fn frame_message_prefixes_big_endian_length() {
    let frame = match frame_message("{\"a\":1}".to_string()) {
        Ok(f) => f,
        Err(_) => panic!("framing failed"),
    };
    assert_eq!(frame, vec![0, 0, 0, 7, b'{', b'"', b'a', b'"', b':', b'1', b'}']);
}

#[test]
fn frame_of_empty_text_is_only_a_header() {
    match frame_message(String::new()) {
        Ok(f) => assert_eq!(f, vec![0, 0, 0, 0]),
        Err(WriteError::MessageSize(_)) | Err(_) => panic!("framing failed"),
    }
}

#[test]
fn read_message_len_accepts_non_negative() {
    match read_message_len([0, 0, 1, 2]) {
        Ok(n) => assert_eq!(n, 258),
        Err(_) => panic!("length refused"),
    }
}

#[test]
fn read_message_len_refuses_negative() {
    match read_message_len([0xff, 0xff, 0xff, 0xfe]) {
        Err(ReadError::MessageSize(v)) => assert_eq!(v, -2),
        _ => panic!("negative length accepted"),
    }
}

#[test]
fn message_reader_reads_back_a_frame() {
    let frame = frame_message("hello".to_string()).ok().unwrap();
    let mut reader = MessageReader::new();
    let header = [frame[0], frame[1], frame[2], frame[3]];
    let len = reader.start_message(header).ok().unwrap();
    assert_eq!(len, 5);
    reader.receive(&frame[4..6]);
    assert_eq!(reader.remaining(), 3);
    reader.receive(&frame[6..]);
    assert_eq!(reader.remaining(), 0);
    let body = reader.finish().ok().unwrap();
    assert_eq!(body, b"hello".to_vec());
}

#[test]
fn message_reader_reports_early_end() {
    let mut reader = MessageReader::new();
    reader.start_message([0, 0, 0, 4]).ok().unwrap();
    reader.receive(b"ab");
    match reader.finish() {
        Err(ReadError::Io(e)) => assert_eq!(e.kind(), std::io::ErrorKind::UnexpectedEof),
        _ => panic!("short body accepted"),
    }
}

#[test]
fn connection_task_reports_until_first_error() {
    let mut task = ConnectionTask::new(7);
    assert_eq!(task.id(), 7);
    match task.step(ConnectionInput::Read(Ok("a"))) {
        ConnectionAction::Report(ConnectionEvent::Message(7, "a")) => (),
        _ => panic!("message not reported"),
    }
    assert!(task.reporting());
    match task.step(ConnectionInput::<&str>::Read(Err(ReadError::MessageSize(-1)))) {
        ConnectionAction::Report(ConnectionEvent::ReadError(7, ReadError::MessageSize(-1))) => (),
        _ => panic!("error not reported"),
    }
    assert!(!task.reporting());
    assert!(matches!(task.step(ConnectionInput::Read(Ok("b"))), ConnectionAction::Nothing));
    assert!(matches!(task.step(ConnectionInput::<&str>::Quit), ConnectionAction::Exit));
}

#[test]
fn connection_task_reports_write_error_once() {
    let mut task = ConnectionTask::new(1);
    let error = WriteError::MessageSize("x".to_string());
    match task.step(ConnectionInput::<u8>::WriteFailed(error)) {
        ConnectionAction::Report(ConnectionEvent::WriteError(1, WriteError::MessageSize(s))) => assert_eq!(s, "x"),
        _ => panic!("write error not reported"),
    }
    let error = WriteError::MessageSize("y".to_string());
    assert!(matches!(task.step(ConnectionInput::<u8>::WriteFailed(error)), ConnectionAction::Nothing));
}
