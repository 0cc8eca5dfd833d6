use jonect::server::device::data::{DataConnection, DataConnectionEvent, IpAddress};
use jonect::server::device::{
    AcceptAction, DeviceManager, DeviceManagerEvent, DeviceManagerInternalEvent, DmEvent,
    DmEventAction, TcpSupportError,
};
use jonect::server::ui::UiEvent;

fn io_error() -> std::io::Error {
    std::io::Error::new(std::io::ErrorKind::Other, "test")
}

#[test]
fn accepted_connections_get_increasing_ids() {
    let mut dm: DeviceManager<&str> = DeviceManager::new();
    match dm.handle_tcp_listener_accept(Ok("a")) {
        AcceptAction::StartDevice { id, stream } => {
            assert_eq!(id, 0);
            assert_eq!(stream, "a");
            dm.add_connection(id, "task a");
        }
        _ => panic!("connection not started"),
    }
    match dm.handle_tcp_listener_accept(Ok("b")) {
        AcceptAction::StartDevice { id, .. } => {
            assert_eq!(id, 1);
            dm.add_connection(id, "task b");
        }
        _ => panic!("connection not started"),
    }
    assert_eq!(dm.connection(0), Some(&"task a"));
    assert_eq!(dm.connection(1), Some(&"task b"));
    assert_eq!(dm.connection(2), None);
}

#[test]
fn accept_error_disables_listener_and_informs_ui() {
    let mut dm: DeviceManager<u8> = DeviceManager::new();
    match dm.handle_tcp_listener_accept::<u8>(Err(io_error())) {
        AcceptAction::ReportToUi(UiEvent::TcpSupportDisabledBecauseOfError(TcpSupportError::AcceptError(e))) => {
            assert_eq!(e.kind(), std::io::ErrorKind::Other);
        }
        _ => panic!("error not reported"),
    }
    match dm.handle_tcp_listener_accept(Ok(7u8)) {
        AcceptAction::StartDevice { id, .. } => assert_eq!(id, 0),
        _ => panic!("id used by the error"),
    }
}

#[test]
fn dm_events_ping_and_remove() {
    let mut dm: DeviceManager<u8> = DeviceManager::new();
    if let AcceptAction::StartDevice { id, .. } = dm.handle_tcp_listener_accept(Ok(())) {
        dm.add_connection(id, 42);
    }
    let ping: DmEvent = DeviceManagerEvent::RunDeviceConnectionPing.into();
    assert!(matches!(dm.handle_dm_event(ping), DmEventAction::PingAll));
    let message: DmEvent = DeviceManagerEvent::Message("m".to_string()).into();
    assert!(matches!(dm.handle_dm_event(message), DmEventAction::Nothing));
    let remove: DmEvent = DeviceManagerInternalEvent::RemoveConnection(0).into();
    match dm.handle_dm_event(remove) {
        DmEventAction::QuitConnection(h) => assert_eq!(h, 42),
        _ => panic!("connection not removed"),
    }
    assert_eq!(dm.connection(0), None);
    assert_eq!(dm.remove_connection(0), None);
}

#[test]
fn remove_connection_hands_task_back() {
    let mut dm: DeviceManager<u8> = DeviceManager::new();
    if let AcceptAction::StartDevice { id, .. } = dm.handle_tcp_listener_accept(Ok(())) {
        dm.add_connection(id, 9);
    }
    assert_eq!(dm.remove_connection(0), Some(9));
    assert_eq!(dm.remove_connection(0), None);
}

#[test]
fn data_connection_accepts_only_the_device_address() {
    let a = IpAddress::V4([192, 168, 1, 2]);
    let b = IpAddress::V4([192, 168, 1, 3]);
    let c = IpAddress::V6([0; 16]);
    assert!(DataConnection::<u8>::accepts_peer(a, a));
    assert!(!DataConnection::<u8>::accepts_peer(a, b));
    assert!(!DataConnection::<u8>::accepts_peer(a, c));
    assert!(DataConnection::<u8>::accepts_peer(c, c));
}

#[test]
fn data_connection_keeps_send_connection() {
    let mut dc: DataConnection<u8> = DataConnection::new();
    match dc.handle_send_connection::<&str>(Err(io_error())) {
        DataConnectionEvent::SendConnectionError(_) => (),
        _ => panic!("error not reported"),
    }
    match dc.handle_send_connection(Ok((1u8, "handle"))) {
        DataConnectionEvent::NewConnection(h) => assert_eq!(h, "handle"),
        _ => panic!("connection not reported"),
    }
    match dc.handle_send_connection(Ok((2u8, "second"))) {
        DataConnectionEvent::NewConnection(_) => (),
        _ => panic!("connection not reported"),
    }
    assert_eq!(dc.quit(), Some(2));
}

#[test]
fn data_connection_port_events() {
    let (e, wait) = DataConnection::<u8>::port_number_event::<()>(Ok(8082));
    assert!(matches!(e, DataConnectionEvent::PortNumber(8082)));
    assert!(!wait);
    let (e, wait) = DataConnection::<u8>::port_number_event::<()>(Err(io_error()));
    assert!(matches!(e, DataConnectionEvent::GetPortNumberError(_)));
    assert!(wait);
}

#[test]
fn connection_ids_lists_each_kept_connection_once() {
    let mut dm: DeviceManager<u8> = DeviceManager::new();
    assert!(dm.connection_ids().is_empty());
    assert!(dm.tcp_listener_enabled());
    for task in [10u8, 11, 12] {
        if let AcceptAction::StartDevice { id, .. } = dm.handle_tcp_listener_accept(Ok(())) {
            dm.add_connection(id, task);
        }
    }
    assert_eq!(dm.remove_connection(1), Some(11));
    let mut ids = dm.connection_ids();
    ids.sort();
    assert_eq!(ids, vec![0, 2]);
}

#[test]
fn accept_error_turns_listener_off() {
    let mut dm: DeviceManager<u8> = DeviceManager::new();
    let _ = dm.handle_tcp_listener_accept::<u8>(Err(io_error()));
    assert!(!dm.tcp_listener_enabled());
}
