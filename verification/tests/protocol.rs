use jonect::client::{first_message, handle_connection_event, DataSpeedMeter, TestClientStep};
use jonect::server::device::data::DataConnectionEvent;
use jonect::server::device::protocol::{
    AudioFormat, AudioStreamInfo, ClientInfo, ClientMessage, PcmFormat, ServerInfo, ServerMessage,
};
use jonect::server::device::state::{ClientMessageAction, DataEventAction, DeviceEvent, DeviceState};
use jonect::utils::{ConnectionEvent, ReadError};

fn io_error() -> std::io::Error {
    std::io::Error::new(std::io::ErrorKind::Other, "test")
}

#[test]
fn server_info_has_protocol_version() {
    let info = ServerInfo::new("Test server");
    assert_eq!(info.version, "0.1");
    assert_eq!(info.id, "Test server");
}

#[test]
fn client_info_has_protocol_version() {
    let info = ClientInfo::new("phone");
    assert_eq!(info.version, "0.1");
    assert_eq!(info.id, "phone");
}

#[test]
fn audio_stream_info_keeps_format_and_port() {
    let format = AudioFormat::Pcm { format: PcmFormat::S16le, channels: 2, rate: 48000 };
    let info = AudioStreamInfo::new(format, 8082);
    assert_eq!(info.port, 8082);
    assert_eq!(info.port(), 8082);
    assert_eq!(*info.format(), AudioFormat::Pcm { format: PcmFormat::S16le, channels: 2, rate: 48000 });
}

#[test]
fn device_state_sends_server_info_first() {
    let (_state, message): (DeviceState<u32, u8>, ServerMessage) = DeviceState::new();
    match message {
        ServerMessage::ServerInfo(info) => {
            assert_eq!(info.id, "Test server");
            assert_eq!(info.version, "0.1");
        }
        _ => panic!("first message is not ServerInfo"),
    }
}

#[test]
fn device_state_answers_ping() {
    let (mut state, _) = DeviceState::<u32, u8>::new();
    match state.handle_client_message(ClientMessage::Ping) {
        ClientMessageAction::Send(ServerMessage::PingResponse) => (),
        _ => panic!("ping not answered"),
    }
}

#[test]
fn device_state_keeps_one_ping_outstanding() {
    let (mut state, _) = DeviceState::<u32, u8>::new();
    assert!(matches!(state.send_ping_message(10), Some(ServerMessage::Ping)));
    assert!(state.send_ping_message(20).is_none());
    match state.handle_client_message(ClientMessage::PingResponse) {
        ClientMessageAction::ReportPingTime(t) => assert_eq!(t, 10),
        _ => panic!("ping time not reported"),
    }
    assert!(matches!(state.handle_client_message(ClientMessage::PingResponse), ClientMessageAction::Nothing));
    assert!(matches!(state.send_ping_message(30), Some(ServerMessage::Ping)));
}

#[test]
fn device_state_starts_data_connection_on_client_info() {
    let (mut state, _) = DeviceState::<u32, u8>::new();
    match state.handle_client_message(ClientMessage::ClientInfo(ClientInfo::new("phone"))) {
        ClientMessageAction::StartDataConnection(info) => assert_eq!(info.id, "phone"),
        _ => panic!("data connection not started"),
    }
    assert_eq!(state.set_audio_out(1), None);
    assert_eq!(state.set_audio_out(2), Some(1));
    assert_eq!(state.quit(), Some(2));
}

#[test]
fn device_state_reports_play_error() {
    let (mut state, _) = DeviceState::<u32, u8>::new();
    match state.handle_client_message(ClientMessage::AudioStreamPlayError("no".to_string())) {
        ClientMessageAction::ReportPlayError(e) => assert_eq!(e, "no"),
        _ => panic!("play error not reported"),
    }
}

#[test]
fn device_state_offers_audio_stream_on_port() {
    let (mut state, _) = DeviceState::<u32, u8>::new();
    match state.handle_data_connection_message(DataConnectionEvent::<()>::PortNumber(8082)) {
        DataEventAction::Send(ServerMessage::PlayAudioStream(info)) => {
            assert_eq!(info.port, 8082);
            assert_eq!(
                *info.format(),
                AudioFormat::Pcm { format: PcmFormat::S16le, channels: 2, rate: 44100 }
            );
        }
        _ => panic!("stream not offered"),
    }
    let e = DataConnectionEvent::<()>::AcceptError(io_error());
    assert!(matches!(state.handle_data_connection_message(e), DataEventAction::ReportError));
    assert_eq!(state.quit(), None);
}

#[test]
fn device_event_from_data_connection_event() {
    let e: DeviceEvent<()> = DataConnectionEvent::PortNumber(1).into();
    assert!(matches!(e, DeviceEvent::DataConnection(DataConnectionEvent::PortNumber(1))));
}

#[test]
fn test_client_sends_client_info_first() {
    match first_message() {
        ClientMessage::ClientInfo(info) => {
            assert_eq!(info.id, "test");
            assert_eq!(info.version, "0.1");
        }
        _ => panic!("first message is not ClientInfo"),
    }
}

#[test]
fn test_client_answers_ping_and_opens_stream() {
    let ping = ConnectionEvent::Message(0, ServerMessage::Ping);
    assert!(matches!(handle_connection_event(&ping), TestClientStep::Reply(ClientMessage::PingResponse)));
    let format = AudioFormat::Pcm { format: PcmFormat::S16le, channels: 2, rate: 44100 };
    let play = ConnectionEvent::Message(0, ServerMessage::PlayAudioStream(AudioStreamInfo::new(format, 9000)));
    assert!(matches!(handle_connection_event(&play), TestClientStep::StartDataConnection { port: 9000 }));
    let info = ConnectionEvent::Message(0, ServerMessage::ServerInfo(ServerInfo::new("s")));
    assert!(matches!(handle_connection_event(&info), TestClientStep::Nothing));
    let error: ConnectionEvent<ServerMessage> = ConnectionEvent::ReadError(0, ReadError::MessageSize(-1));
    assert!(matches!(handle_connection_event(&error), TestClientStep::Quit));
}

#[test]
fn data_speed_meter_reports_each_second() {
    let mut meter = DataSpeedMeter::<u32>::new();
    assert!(meter.count_time().is_none());
    assert_eq!(meter.handle_read(100, 1, false), None);
    assert_eq!(meter.count_time(), Some(&1));
    assert_eq!(meter.handle_read(50, 2, false), None);
    assert_eq!(meter.counted_bytes(), 150);
    assert_eq!(meter.handle_read(25, 3, true), Some(175));
    assert_eq!(meter.counted_bytes(), 0);
    assert_eq!(meter.count_time(), Some(&3));
    assert_eq!(meter.handle_read(5, 4, true), Some(5));
}
