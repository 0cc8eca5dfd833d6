use jonect::logic::server::device::protocol::{ProtocolDeserializer, READ_BUFFER_SIZE};
use jonect::logic::server::device::{
    device_message_len, frame_device_message, AcceptDeviceAction, AcceptDeviceEvent,
    CreateListenerAction, CreateTcpListenerEvent, Device, DeviceConnectionError, DeviceError,
    DeviceManager, DeviceManagerEvent, DmLoopAction, DmTcpState, DmTcpStateManager,
    FromDeviceManagerToServerEvent,
};
use jonect::logic::server::{
    AsyncServer, AudioEvent, AudioServerCommand, AudioServerState, DMEvent, DMState, ServerAction,
    ServerEvent, ServerStatus,
};
use jonect::logic::Event;
use jonect::server::device::protocol::{ClientInfo, ClientMessage, ServerMessage};

type Loop = AsyncServer<&'static str, &'static str, &'static str, ()>;

fn started_loop(source: Option<String>) -> Loop {
    AsyncServer::new(
        AudioServerState::new("thread"),
        DMState::Running { handle: "dm", dm_sender: () },
        source,
    )
}

#[test]
fn server_status_closes_per_component() {
    let mut s = ServerStatus::new();
    assert!(!s.all_server_components_are_closed());
    s.set_audio_server_status_to_closed();
    assert!(!s.all_server_components_are_closed());
    s.set_device_manager_status_to_closed();
    assert!(s.all_server_components_are_closed());
    let mut t = ServerStatus::new();
    t.set_device_manager_status_to_closed();
    t.set_audio_server_status_to_closed();
    assert_eq!(s, t);
}

#[test]
fn audio_server_states() {
    let state: AudioServerState<&str, u8> = AudioServerState::new("t");
    assert!(!state.running());
    let (state, change) = state.handle_event(AudioEvent::AudioServerInit(1));
    assert!(state.running());
    assert!(change.notify_state_change);
    assert!(!change.send_request_quit);
    assert!(change.join_thread.is_none());
    let (state, change) = state.handle_event(AudioEvent::AudioServerClosed);
    assert!(state.closed());
    assert_eq!(change.join_thread, Some("t"));
}

#[test]
fn quit_before_init_is_sent_at_init() {
    let mut state: AudioServerState<&str, u8> = AudioServerState::new("t");
    assert!(!state.request_quit());
    let (mut state, change) = state.handle_event(AudioEvent::AudioServerInit(1));
    assert!(change.send_request_quit);
    assert!(state.request_quit());
}

#[test]
fn server_loop_starts_recording_and_reports_init() {
    let mut server = started_loop(Some("monitor".to_string()));
    let actions = server.handle_event(ServerEvent::AudioEvent(AudioEvent::AudioServerInit("sender")));
    assert_eq!(actions.len(), 1);
    assert!(matches!(actions[0], ServerAction::Requeue(ServerEvent::AudioServerStateChange)));
    let actions = server.handle_event(ServerEvent::AudioServerStateChange);
    assert_eq!(actions.len(), 2);
    match &actions[0] {
        ServerAction::ToAudioServer(AudioServerCommand::StartRecording { source_name }) => assert_eq!(source_name, "monitor"),
        _ => panic!("recording not started"),
    }
    assert!(matches!(actions[1], ServerAction::ToUi(Event::InitEnd)));
}

#[test]
fn server_loop_sends_test_message() {
    let mut server = started_loop(None);
    let actions = server.handle_event(ServerEvent::SendMessage);
    match &actions[..] {
        [ServerAction::ToUi(Event::Message(m))] => assert_eq!(m, "Test message"),
        _ => panic!("message not sent"),
    }
}

#[test]
fn server_loop_quits_after_both_components_close() {
    let mut server = started_loop(None);
    let actions = server.handle_event(ServerEvent::RequestQuit);
    assert_eq!(actions.len(), 2);
    assert!(matches!(actions[0], ServerAction::RequestDeviceManagerQuit));
    assert!(matches!(actions[1], ServerAction::Requeue(ServerEvent::QuitProgressCheck)));
    assert!(server.handle_event(ServerEvent::QuitProgressCheck).is_empty());
    // The audio server hands out its sender after the quit request.
    let actions = server.handle_event(ServerEvent::AudioEvent(AudioEvent::AudioServerInit("sender")));
    assert!(matches!(actions[0], ServerAction::ToAudioServer(AudioServerCommand::RequestQuit)));
    let actions = server.handle_event(ServerEvent::AudioEvent(AudioEvent::AudioServerClosed));
    assert!(matches!(actions[0], ServerAction::JoinAudioThread("thread")));
    let actions = server.handle_event(ServerEvent::AudioServerStateChange);
    assert!(matches!(actions[..], [ServerAction::Requeue(ServerEvent::QuitProgressCheck)]));
    assert!(server.handle_event(ServerEvent::QuitProgressCheck).is_empty());
    let actions = server.handle_event(ServerEvent::DMEvent(DMEvent::DMClosed));
    assert!(matches!(actions[0], ServerAction::AwaitDeviceManager("dm")));
    let actions = server.handle_event(ServerEvent::DMStateChange);
    assert!(matches!(actions[..], [ServerAction::Requeue(ServerEvent::QuitProgressCheck)]));
    let actions = server.handle_event(ServerEvent::QuitProgressCheck);
    assert!(matches!(actions[..], [ServerAction::Exit, ServerAction::ToUi(Event::CloseProgram)]));
}

#[test]
fn device_manager_error_closes_it() {
    let mut dm: DMState<u8, ()> = DMState::Running { handle: 1, dm_sender: () };
    let e = jonect::logic::server::device::DeviceManagerError::SocketListenerAcceptError(
        std::io::Error::new(std::io::ErrorKind::Other, "x"),
    );
    assert!(matches!(dm.handle_dm_event(DMEvent::DeviceManagerError(e)), jonect::logic::server::DMStateAction::ClosedAfterError(_)));
    assert!(dm.closed());
    assert!(!dm.request_quit());
    assert!(matches!(dm.handle_dm_event(DMEvent::DMClosed), jonect::logic::server::DMStateAction::Nothing));
}

#[test]
fn device_frames_carry_u32_length() {
    match frame_device_message(&vec![7, 8, 9]) {
        Ok(f) => assert_eq!(f, vec![0, 0, 0, 3, 7, 8, 9]),
        Err(_) => panic!("framing failed"),
    }
    assert!(matches!(device_message_len([0, 0, 0, 3]), Ok(3)));
    assert!(matches!(device_message_len([0x7f, 0xff, 0xff, 0xff]), Ok(0x7fff_ffff)));
    assert!(matches!(device_message_len([0x80, 0, 0, 0]), Err(DeviceConnectionError::MessageReceiveMessageSizeError)));
}

#[test]
fn device_handshake() {
    match Device::<u8>::first_server_message() {
        ServerMessage::ServerInfo(info) => assert_eq!(info.id, "Test server"),
        _ => panic!("handshake does not start with ServerInfo"),
    }
    let device = Device::new(5u8, Ok(ClientMessage::ClientInfo(ClientInfo::new("phone"))));
    match device {
        Ok(d) => {
            assert_eq!(d.device_id(), "phone");
            assert_eq!(d.info().version, "0.1");
        }
        Err(_) => panic!("device refused"),
    }
    assert!(matches!(Device::new(5u8, Ok(ClientMessage::Ping)), Err(DeviceError::UnknownFirstProtocolMessage)));
    let failed = Device::new(5u8, Err(DeviceConnectionError::MessageReceiveMessageSizeError));
    assert!(matches!(failed, Err(DeviceError::DeviceConnectionError(DeviceConnectionError::MessageReceiveMessageSizeError))));
}

#[test]
fn tcp_state_manager_goes_from_listener_to_accepting() {
    let mut m = DmTcpStateManager::new(1u8);
    match m.handle_create_tcp_listener_task_event(CreateTcpListenerEvent::ListenerCreated("listener")) {
        CreateListenerAction::StartAccepting { task, listener } => {
            assert_eq!(task, 1);
            assert_eq!(listener, "listener");
        }
        _ => panic!("accepting not started"),
    }
    m.accept_task_started(2);
    assert!(matches!(m.state, DmTcpState::AcceptNewConnections(2)));
    assert!(matches!(m.handle_accept_device_task_event(AcceptDeviceEvent::NewDevice("d")), AcceptDeviceAction::NewDevice("d")));
    assert!(matches!(m.handle_create_tcp_listener_task_event(CreateTcpListenerEvent::<u8>::ListenerCreated(0)), CreateListenerAction::StateMismatch));
    assert_eq!(m.wait_quit(), Some(2));
    assert!(m.closed());
    assert_eq!(m.wait_quit(), None);
}

#[test]
fn tcp_listener_failure_disables_tcp() {
    let mut m = DmTcpStateManager::new(1u8);
    let e = CreateTcpListenerEvent::<()>::ListenerCreationError(std::io::Error::new(std::io::ErrorKind::AddrInUse, "x"));
    match m.handle_create_tcp_listener_task_event(e) {
        CreateListenerAction::Disabled { task, event: FromDeviceManagerToServerEvent::TcpSupportDisabledBecauseOfError(_) } => assert_eq!(task, 1),
        _ => panic!("tcp support not disabled"),
    }
    assert!(m.closed());
    assert!(matches!(m.handle_accept_device_task_event(AcceptDeviceEvent::NewDevice(())), AcceptDeviceAction::StateMismatch));
}

#[test]
fn device_manager_keeps_one_device_per_id() {
    let mut dm: DeviceManager<u8, u8> = DeviceManager::new(1);
    if let DmLoopAction::CreateListener(CreateListenerAction::StartAccepting { .. }) =
        dm.handle_event::<()>(DeviceManagerEvent::CreateTcpListenerTaskEvent(CreateTcpListenerEvent::ListenerCreated(())))
    {
        dm.tcp_state_manager().accept_task_started(2);
    } else {
        panic!("accepting not started");
    }
    let d1 = Device::new(10u8, Ok(ClientMessage::ClientInfo(ClientInfo::new("a")))).ok().unwrap();
    match dm.handle_event::<()>(DeviceManagerEvent::AcceptDeviceTaskEvent(AcceptDeviceEvent::NewDevice(d1))) {
        DmLoopAction::DeviceAdded(info) => assert_eq!(info.id, "a"),
        _ => panic!("device not added"),
    }
    let d2 = Device::new(11u8, Ok(ClientMessage::ClientInfo(ClientInfo::new("a")))).ok().unwrap();
    assert!(matches!(dm.handle_event::<()>(DeviceManagerEvent::AcceptDeviceTaskEvent(AcceptDeviceEvent::NewDevice(d2))), DmLoopAction::DeviceAdded(_)));
    assert_eq!(dm.device_count(), 1);
    assert_eq!(dm.device("a").map(|d| d.device_id()), Some("a"));
    assert!(dm.device("b").is_none());
    assert!(matches!(dm.handle_event::<()>(DeviceManagerEvent::Message("m".to_string())), DmLoopAction::Nothing));
    assert!(matches!(dm.handle_event::<()>(DeviceManagerEvent::RequestQuit), DmLoopAction::Quit(Some(2))));
}

#[test]
fn protocol_deserializer_collects_within_size() {
    let mut d = ProtocolDeserializer::new();
    d.start(1500);
    assert_eq!(d.next_read_len(), READ_BUFFER_SIZE);
    let chunk = vec![1u8; 1024];
    assert!(d.append(&chunk));
    assert_eq!(d.next_read_len(), 476);
    assert!(d.append(&[2u8; 476]));
    assert_eq!(d.next_read_len(), 0);
    assert!(!d.append(&[]));
    assert_eq!(d.data().len(), 1500);
    assert_eq!(d.data()[1024], 2);
    d.start(3);
    assert!(d.data().is_empty());
}
