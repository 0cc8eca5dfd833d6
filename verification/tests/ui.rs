use jonect::server::audio::AudioEvent;
use jonect::server::device::{DeviceManagerEvent, TcpSupportError};
use jonect::server::message_router::{route, Route, RouterEvent, RouterMessage};
use jonect::server::ui::{
    accept_next_connection, handle_connection_event, handle_ui_event, QuitReason, UiConnectionStep,
    UiEvent, UiEventStep, UiProtocolFromServerToUi, UiProtocolFromUiToServer,
};
use jonect::ui::gtk_ui::app::{handle_button, str_equal};
use jonect::ui::gtk_ui::logic::{self as gui_logic, ServerConnectionStep};
use jonect::utils::{read_result_event, ConnectionEvent, ConnectionTaskStep, ReadError};

#[test]
fn buttons_send_their_messages() {
    assert_eq!(handle_button("test"), Some(UiProtocolFromUiToServer::NotificationTest));
    assert_eq!(handle_button("ping"), Some(UiProtocolFromUiToServer::RunDeviceConnectionPing));
    assert_eq!(handle_button("pin"), None);
    assert_eq!(handle_button(""), None);
    assert!(str_equal("ä", "ä"));
    assert!(!str_equal("a", "b"));
}

#[test]
fn ui_connection_events() {
    let e = ConnectionEvent::Message(0, UiProtocolFromUiToServer::NotificationTest);
    assert!(matches!(handle_connection_event(e), UiConnectionStep::PrintNotification));
    let e = ConnectionEvent::Message(0, UiProtocolFromUiToServer::RunDeviceConnectionPing);
    assert!(matches!(
        handle_connection_event(e),
        UiConnectionStep::SendToDeviceManager(DeviceManagerEvent::RunDeviceConnectionPing)
    ));
    let e = ConnectionEvent::ReadError(3, ReadError::MessageSize(-5));
    assert!(matches!(
        handle_connection_event(e),
        UiConnectionStep::Close(ConnectionEvent::ReadError(3, ReadError::MessageSize(-5)))
    ));
    assert!(accept_next_connection(&QuitReason::ConnectionError));
    assert!(!accept_next_connection(&QuitReason::QuitRequest));
}

#[test]
fn ui_events_are_reported() {
    let e = UiEvent::TcpSupportDisabledBecauseOfError(TcpSupportError::ListenerCreationError(
        std::io::Error::new(std::io::ErrorKind::AddrInUse, "x"),
    ));
    assert!(matches!(
        handle_ui_event(e),
        UiEventStep::ReportTcpSupportDisabled(TcpSupportError::ListenerCreationError(_))
    ));
}

#[test]
fn gui_connection_events() {
    let e = ConnectionEvent::Message(0, UiProtocolFromServerToUi::Message("hi".to_string()));
    match gui_logic::handle_connection_event(e) {
        ServerConnectionStep::ForwardToUi(UiProtocolFromServerToUi::Message(m)) => assert_eq!(m, "hi"),
        _ => panic!("message not forwarded"),
    }
    let e: ConnectionEvent<UiProtocolFromServerToUi> = ConnectionEvent::ReadError(0, ReadError::MessageSize(-1));
    assert!(matches!(gui_logic::handle_connection_event(e), ServerConnectionStep::Disconnected(_)));
    assert!(gui_logic::reconnect_after(&QuitReason::ConnectionError));
    assert!(!gui_logic::reconnect_after(&QuitReason::QuitRequest));
}

#[test]
fn router_delivers_to_named_component() {
    let m: RouterMessage<u8> = RouterMessage::AudioServer(AudioEvent::StartRecording { send_handle: 4, sample_rate: 44100 });
    assert!(matches!(route(m), Route::Audio(AudioEvent::StartRecording { send_handle: 4, sample_rate: 44100 })));
    let m: RouterMessage<u8> = RouterMessage::DeviceManager(DeviceManagerEvent::RunDeviceConnectionPing);
    assert!(matches!(route(m), Route::DeviceManager(DeviceManagerEvent::RunDeviceConnectionPing)));
    let m: RouterMessage<u8> = RouterMessage::Router(RouterEvent::SendQuitRequest);
    assert!(matches!(route(m), Route::Keep(RouterEvent::SendQuitRequest)));
    let m: RouterMessage<u8> = RouterMessage::Ui(UiEvent::TcpSupportDisabledBecauseOfError(
        TcpSupportError::AcceptError(std::io::Error::new(std::io::ErrorKind::Other, "x")),
    ));
    assert!(matches!(route(m), Route::Ui(_)));
}

#[test]
fn connection_events() {
    let (e, step) = read_result_event(7, Ok::<u8, ReadError>(1));
    assert!(matches!(e, ConnectionEvent::Message(7, 1)));
    assert_eq!(step, ConnectionTaskStep::Continue);
    assert!(!e.is_error());
    let (e, step) = read_result_event::<u8>(7, Err(ReadError::MessageSize(-1)));
    assert!(e.is_error());
    assert_eq!(step, ConnectionTaskStep::Stop);
    let json_error = serde_json::from_str::<u8>("x").err().unwrap();
    let e: ConnectionEvent<u8> = ConnectionEvent::WriteError(1, jonect::utils::WriteError::Serialize(json_error));
    assert!(e.is_error());
}
