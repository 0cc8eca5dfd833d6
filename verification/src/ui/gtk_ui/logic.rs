//! The UI's connection to the server.
use crate::server::ui::{QuitReason, UiProtocolFromServerToUi};
use crate::utils::ConnectionEvent;
use vstd::prelude::*;

verus! {

/// What the UI's connection task does with an event of its connection.
#[derive(Debug)]
pub enum ServerConnectionStep {
    /// Hand this message to the UI thread.
    ForwardToUi(UiProtocolFromServerToUi),
    /// Print the error, tell the UI that the server disconnected, and close
    /// the connection.
    Disconnected(ConnectionEvent<UiProtocolFromServerToUi>),
}

/// Messages go to the UI; errors end the connection.
pub fn handle_connection_event(event: ConnectionEvent<UiProtocolFromServerToUi>) -> (r: ServerConnectionStep)
    ensures
        event matches ConnectionEvent::Message(_, m) ==> r == ServerConnectionStep::ForwardToUi(m),
        !(event is Message) ==> r == ServerConnectionStep::Disconnected(event),
{
    match event {
        ConnectionEvent::Message(_, m) => ServerConnectionStep::ForwardToUi(m),
        e => ServerConnectionStep::Disconnected(e),
    }
}

/// After a connection ends, the UI's connection task tries again (after a
/// pause) unless a quit was requested.
pub fn reconnect_after(reason: &QuitReason) -> (r: bool)
    ensures
        r == (*reason == QuitReason::ConnectionError),
{
    match reason {
        QuitReason::QuitRequest => false,
        QuitReason::ConnectionError => true,
    }
}

} // verus!
