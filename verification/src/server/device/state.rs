//! State of one connected device: the decisions that the device task makes
//! on client messages, ping ticks and data connection events.
use crate::server::device::data::DataConnectionEvent;
use crate::server::device::protocol::{
    AudioFormat, AudioStreamInfo, ClientInfo, ClientMessage, PcmFormat, ServerInfo, ServerMessage,
};
use vstd::prelude::*;

verus! {

/// Events that reach a device task besides client messages.
/// `H` is the audio send handle of the data connection.
#[derive(Debug)]
pub enum DeviceEvent<H> {
    Test,
    DataConnection(DataConnectionEvent<H>),
}

impl<H> From<DataConnectionEvent<H>> for DeviceEvent<H> {
    /// A data connection event, for the device task.
    fn from(event: DataConnectionEvent<H>) -> (r: Self) {
        DeviceEvent::DataConnection(event)
    }
}

impl<H> vstd::std_specs::convert::FromSpecImpl<DataConnectionEvent<H>> for DeviceEvent<H> {
    open spec fn obeys_from_spec() -> bool {
        true
    }

    open spec fn from_spec(event: DataConnectionEvent<H>) -> Self {
        DeviceEvent::DataConnection(event)
    }
}

/// The name that the server gives itself in `ServerInfo`.
pub open spec fn server_id() -> Seq<char> {
    "Test server"@
}

/// The audio stream that the server offers: 16-bit little endian PCM,
/// two channels, 44100 Hz.
pub open spec fn offered_audio_format() -> AudioFormat {
    AudioFormat::Pcm { format: PcmFormat::S16le, channels: 2, rate: 44100 }
}

/// What the device task does after a client message.
#[derive(Debug)]
pub enum ClientMessageAction<T> {
    /// Client information arrived: print it and start the data connection
    /// task for this device.
    StartDataConnection(ClientInfo),
    /// Send this message to the client.
    Send(ServerMessage),
    /// The ping sent at this time was answered: print the ping time.
    ReportPingTime(T),
    /// The client could not play the audio stream: print the error.
    ReportPlayError(String),
    /// Nothing to do.
    Nothing,
}

/// What the device task does after a data connection event.
#[derive(Debug)]
pub enum DataEventAction {
    /// Send this message to the client.
    Send(ServerMessage),
    /// Print the error event.
    ReportError,
}

/// The outstanding ping and the action after a client message, given the
/// time the outstanding ping was sent, if one is outstanding.
pub open spec fn client_message_step<T>(ping_sent_at: Option<T>, message: ClientMessage) -> (
    Option<T>,
    ClientMessageAction<T>,
) {
    match message {
        ClientMessage::ClientInfo(info) => (ping_sent_at, ClientMessageAction::StartDataConnection(info)),
        ClientMessage::Ping => (ping_sent_at, ClientMessageAction::Send(ServerMessage::PingResponse)),
        ClientMessage::PingResponse => (None, match ping_sent_at {
            Some(t) => ClientMessageAction::ReportPingTime(t),
            None => ClientMessageAction::Nothing,
        }),
        ClientMessage::AudioStreamPlayError(e) => (ping_sent_at, ClientMessageAction::ReportPlayError(e)),
    }
}

/// The outstanding ping and the message to send when the ping timer asks
/// for a ping at `now`.
pub open spec fn ping_step<T>(ping_sent_at: Option<T>, now: T) -> (Option<T>, Option<ServerMessage>) {
    match ping_sent_at {
        None => (Some(now), Some(ServerMessage::Ping)),
        Some(t) => (Some(t), None),
    }
}

/// Per-device state. `T` is the time at which a ping was sent, `A` the handle
/// of the data connection task.
pub struct DeviceState<T, A> {
    play_stream: bool,
    ping_state: Option<T>,
    audio_out: Option<A>,
}

impl<T, A> DeviceState<T, A> {
    /// When the unanswered ping was sent, if one is outstanding.
    pub closed spec fn ping_sent_at(&self) -> Option<T> {
        self.ping_state
    }

    /// The data connection task of this device, if one was started.
    pub closed spec fn spec_audio_out(&self) -> Option<A> {
        self.audio_out
    }

    /// A new device: no ping is outstanding and no data connection runs.
    /// The returned message is the first one the server sends to the
    /// client: `ServerMessage::ServerInfo` with the server's id.
    pub fn new() -> (r: (Self, ServerMessage))
        ensures
            r.0.ping_sent_at() is None,
            r.0.spec_audio_out() is None,
            r.1 matches ServerMessage::ServerInfo(info) && info.id@ == server_id() && info.version@
                == crate::server::device::protocol::protocol_version(),
    {
        let message = ServerMessage::ServerInfo(ServerInfo::new("Test server"));
        proof {
            reveal_strlit("Test server");
        }
        (DeviceState { play_stream: false, ping_state: None, audio_out: None }, message)
    }

    /// Handles one message from the client: client information starts the
    /// data connection, a ping is answered with a ping response, a ping
    /// response ends the outstanding ping, and a play error is reported.
    pub fn handle_client_message(&mut self, message: ClientMessage) -> (r: ClientMessageAction<T>)
        ensures
            final(self).spec_audio_out() == old(self).spec_audio_out(),
            message matches ClientMessage::ClientInfo(info) ==> (r
                == ClientMessageAction::<T>::StartDataConnection(info) && final(self).ping_sent_at()
                == old(self).ping_sent_at()),
            message matches ClientMessage::Ping ==> (r matches ClientMessageAction::Send(
                ServerMessage::PingResponse) && final(self).ping_sent_at() == old(self).ping_sent_at()),
            message matches ClientMessage::PingResponse ==> (final(self).ping_sent_at() is None && (
            match old(self).ping_sent_at() {
                Some(t) => r == ClientMessageAction::ReportPingTime(t),
                None => r is Nothing,
            })),
            message matches ClientMessage::AudioStreamPlayError(e) ==> (r
                == ClientMessageAction::<T>::ReportPlayError(e) && final(self).ping_sent_at() == old(self).ping_sent_at()),
            (final(self).ping_sent_at(), r) == client_message_step(old(self).ping_sent_at(), message),
    {
        match message {
            ClientMessage::ClientInfo(info) => ClientMessageAction::StartDataConnection(info),
            ClientMessage::Ping => ClientMessageAction::Send(ServerMessage::PingResponse),
            ClientMessage::PingResponse => {
                let sent = self.ping_state.take();
                match sent {
                    Some(t) => ClientMessageAction::ReportPingTime(t),
                    None => ClientMessageAction::Nothing,
                }
            },
            ClientMessage::AudioStreamPlayError(e) => ClientMessageAction::ReportPlayError(e),
        }
    }

    /// Keeps the data connection task started for `StartDataConnection`.
    /// A task started before is replaced and handed back.
    pub fn set_audio_out(&mut self, handle: A) -> (r: Option<A>)
        ensures
            r == old(self).spec_audio_out(),
            final(self).spec_audio_out() == Some(handle),
            final(self).ping_sent_at() == old(self).ping_sent_at(),
    {
        let previous = self.audio_out.take();
        self.audio_out = Some(handle);
        previous
    }

    /// A ping tick at time `now`: a ping is sent only when no earlier ping
    /// is unanswered, so at most one ping is outstanding.
    pub fn send_ping_message(&mut self, now: T) -> (r: Option<ServerMessage>)
        ensures
            final(self).spec_audio_out() == old(self).spec_audio_out(),
            old(self).ping_sent_at() is None ==> (r matches Some(ServerMessage::Ping)
                && final(self).ping_sent_at() == Some(now)),
            old(self).ping_sent_at() is Some ==> (r is None && final(self).ping_sent_at() == old(self).ping_sent_at()),
            (final(self).ping_sent_at(), r) == ping_step(old(self).ping_sent_at(), now),
    {
        if self.ping_state.is_none() {
            self.ping_state = Some(now);
            Some(ServerMessage::Ping)
        } else {
            None
        }
    }

    /// Handles an event of the data connection task: the port number is
    /// offered to the client in a `PlayAudioStream` message; errors are
    /// reported. A new connection must have been taken care of before.
    pub fn handle_data_connection_message<H>(&mut self, message: DataConnectionEvent<H>) -> (r:
        DataEventAction)
        requires
            !(message is NewConnection),
        ensures
            final(self).spec_audio_out() == old(self).spec_audio_out(),
            final(self).ping_sent_at() == old(self).ping_sent_at(),
            message matches DataConnectionEvent::PortNumber(port) ==> (r matches DataEventAction::Send(
                ServerMessage::PlayAudioStream(info),
            ) && info.spec_format() == offered_audio_format() && info.spec_port() == port),
            !(message is PortNumber) ==> r is ReportError,
    {
        match message {
            DataConnectionEvent::PortNumber(tcp_port) => {
                let format = AudioFormat::Pcm { format: PcmFormat::S16le, channels: 2, rate: 44100 };
                let info = AudioStreamInfo::new(format, tcp_port);
                DataEventAction::Send(ServerMessage::PlayAudioStream(info))
            },
            _ => DataEventAction::ReportError,
        }
    }

    /// On quit: the data connection task to close before the command
    /// connection, if one runs.
    pub fn quit(self) -> (r: Option<A>)
        ensures
            r == self.spec_audio_out(),
    {
        self.audio_out
    }
}


/// The ping protocol of a device connection, over every state and time: a
/// ping from the client is answered with a ping response and leaves the
/// server's own ping as it was; a ping is sent only when none is
/// outstanding, and then it is outstanding since `now`; while one is
/// outstanding no second one is sent; the client's response to a ping sent
/// at `now` reports `now` and ends it; a response with no ping outstanding
/// reports nothing.
pub proof fn law_ping_protocol<T>(ping_sent_at: Option<T>, now: T, later: T)
    ensures
        client_message_step(ping_sent_at, ClientMessage::Ping) == (ping_sent_at, ClientMessageAction::<T>::Send(
            ServerMessage::PingResponse,
        )),
        ping_step(ping_sent_at, now).1 is Some <==> ping_sent_at is None,
        ping_step(ping_sent_at, now).1 is Some ==> ping_step(ping_sent_at, now).1 == Some(ServerMessage::Ping),
        ping_step(ping_step(ping_sent_at, now).0, later).1 is None,
        ping_sent_at is None ==> client_message_step(ping_step(ping_sent_at, now).0, ClientMessage::PingResponse)
            == (None::<T>, ClientMessageAction::ReportPingTime(now)),
        ping_sent_at matches Some(t) ==> client_message_step(ping_step(ping_sent_at, now).0, ClientMessage::PingResponse)
            == (None::<T>, ClientMessageAction::ReportPingTime(t)),
        client_message_step(None::<T>, ClientMessage::PingResponse) == (None::<T>, ClientMessageAction::<T>::Nothing),
        forall|m: ClientMessage| !(m is PingResponse) ==> #[trigger] client_message_step(ping_sent_at, m).0 == ping_sent_at,
{
}

} // verus!
