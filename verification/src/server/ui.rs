//! User interface communication protocol, and the decisions of the task that
//! serves the UI connection.
use crate::server::device::{DeviceManagerEvent, TcpSupportError};
use crate::utils::ConnectionEvent;
use vstd::prelude::*;

verus! {

/// Message from the server to the UI.
#[derive(Debug)]
pub enum UiProtocolFromServerToUi {
    Message(String),
}

/// Message from the UI to the server.
#[derive(Debug, PartialEq, Eq, Structural)]
pub enum UiProtocolFromUiToServer {
    NotificationTest,
    RunDeviceConnectionPing,
}

/// Events that other server components send to the UI connection task.
#[derive(Debug)]
pub enum UiEvent {
    TcpSupportDisabledBecauseOfError(TcpSupportError),
}

/// Why the handling of one UI connection ended.
#[derive(Debug, PartialEq, Eq, Structural)]
pub enum QuitReason {
    QuitRequest,
    ConnectionError,
}

/// What the UI connection task does with an event of the UI connection.
#[derive(Debug)]
pub enum UiConnectionStep {
    /// The UI asked for a notification test: print "UI notification".
    PrintNotification,
    /// Forward this event to the device manager.
    SendToDeviceManager(DeviceManagerEvent),
    /// The connection failed: report the error event and close the connection.
    Close(ConnectionEvent<UiProtocolFromUiToServer>),
}

/// What the UI connection task does with an event from the other server
/// components.
#[derive(Debug)]
pub enum UiEventStep {
    /// TCP support was disabled: print the error and wait for the next event.
    ReportTcpSupportDisabled(TcpSupportError),
}

/// Decides on an event of the UI connection: read and write errors close
/// the connection; a notification test is printed; a ping request goes to
/// the device manager.
pub fn handle_connection_event(event: ConnectionEvent<UiProtocolFromUiToServer>) -> (r:
    UiConnectionStep)
    ensures
        event is ReadError || event is WriteError ==> r == UiConnectionStep::Close(event),
        event matches ConnectionEvent::Message(_, UiProtocolFromUiToServer::NotificationTest) ==> r
            is PrintNotification,
        event matches ConnectionEvent::Message(_, UiProtocolFromUiToServer::RunDeviceConnectionPing)
            ==> r == UiConnectionStep::SendToDeviceManager(
            DeviceManagerEvent::RunDeviceConnectionPing,
        ),
{
    match event {
        ConnectionEvent::Message(_, UiProtocolFromUiToServer::NotificationTest) => {
            UiConnectionStep::PrintNotification
        },
        ConnectionEvent::Message(_, UiProtocolFromUiToServer::RunDeviceConnectionPing) => {
            UiConnectionStep::SendToDeviceManager(DeviceManagerEvent::RunDeviceConnectionPing)
        },
        e => UiConnectionStep::Close(e),
    }
}

/// Decides on an event from the other server components. The only event,
/// disabled TCP support, is printed and nothing is sent to the UI.
pub fn handle_ui_event(event: UiEvent) -> (r: UiEventStep)
    ensures
        event matches UiEvent::TcpSupportDisabledBecauseOfError(e) ==> r
            == UiEventStep::ReportTcpSupportDisabled(e),
{
    match event {
        UiEvent::TcpSupportDisabledBecauseOfError(e) => UiEventStep::ReportTcpSupportDisabled(e),
    }
}

/// After one UI connection ends, the task accepts the next connection
/// unless a quit was requested.
pub fn accept_next_connection(reason: &QuitReason) -> (r: bool)
    ensures
        r == (*reason == QuitReason::ConnectionError),
{
    match reason {
        QuitReason::QuitRequest => false,
        QuitReason::ConnectionError => true,
    }
}

} // verus!
