//! The test client: it connects to the server, answers pings, opens the
//! audio data connection when the server offers a stream, and reports the
//! data rate of that stream.
use crate::server::device::protocol::{ClientInfo, ClientMessage, ServerMessage};
use crate::utils::ConnectionEvent;
use vstd::prelude::*;

verus! {

/// The id that the test client gives itself.
pub open spec fn test_client_id() -> Seq<char> {
    "test"@
}

/// The first message of the test client: its information.
pub fn first_message() -> (r: ClientMessage)
    ensures
        r matches ClientMessage::ClientInfo(info) && info.id@ == test_client_id()
            && info.version@ == crate::server::device::protocol::protocol_version(),
{
    proof {
        reveal_strlit("test");
    }
    ClientMessage::ClientInfo(ClientInfo::new("test"))
}

/// What the test client does with an event of its server connection.
#[derive(Debug)]
pub enum TestClientStep {
    /// Print the message; reply with this message, if any.
    Reply(ClientMessage),
    /// Print the message; connect to this port of the server's address
    /// for the audio data and measure the stream.
    StartDataConnection { port: u16 },
    /// Print the message.
    Nothing,
    /// Print the error and quit.
    Quit,
}

/// A ping is answered with a ping response; an offered audio stream opens
/// the data connection; any other message is only printed; an error ends
/// the client.
pub fn handle_connection_event(event: &ConnectionEvent<ServerMessage>) -> (r: TestClientStep)
    ensures
        (event is ReadError || event is WriteError) ==> r is Quit,
        event matches ConnectionEvent::Message(_, ServerMessage::Ping) ==> (r matches TestClientStep::Reply(
            ClientMessage::PingResponse,
        )),
        event matches ConnectionEvent::Message(_, ServerMessage::PlayAudioStream(info)) ==> r
            == (TestClientStep::StartDataConnection { port: info.spec_port() }),
        event matches ConnectionEvent::Message(_, m) && (m is ServerInfo || m is PingResponse) ==> r
            is Nothing,
{
    match event {
        ConnectionEvent::ReadError(_, _) | ConnectionEvent::WriteError(_, _) => TestClientStep::Quit,
        ConnectionEvent::Message(_, message) => match message {
            ServerMessage::Ping => TestClientStep::Reply(ClientMessage::PingResponse),
            ServerMessage::PlayAudioStream(info) => TestClientStep::StartDataConnection {
                port: info.port(),
            },
            _ => TestClientStep::Nothing,
        },
    }
}

/// Counts the bytes of the audio data connection and says when a second's
/// worth is to be reported. `T` is a point in time.
pub struct DataSpeedMeter<T> {
    bytes_per_second: u64,
    data_count_time: Option<T>,
}

impl<T> DataSpeedMeter<T> {
    /// Bytes counted since the last report.
    pub closed spec fn counted(&self) -> nat {
        self.bytes_per_second as nat
    }

    /// When counting started.
    pub closed spec fn since(&self) -> Option<T> {
        self.data_count_time
    }

    /// A meter that has counted nothing.
    pub fn new() -> (r: Self)
        ensures
            r.counted() == 0,
            r.since() is None,
    {
        DataSpeedMeter { bytes_per_second: 0, data_count_time: None }
    }

    /// Bytes counted since the last report.
    pub fn counted_bytes(&self) -> (n: u64)
        ensures
            n == self.counted(),
    {
        self.bytes_per_second
    }

    /// When counting started.
    pub fn count_time(&self) -> (r: Option<&T>)
        ensures
            r == match self.since() {
                Some(t) => Some(&t),
                None => None::<&T>,
            },
    {
        match &self.data_count_time {
            Some(t) => Some(t),
            None => None,
        }
    }

    /// Counts `size` bytes read at `now`. `second_passed` says whether a
    /// second or more has passed since counting started. When it has, the
    /// count is returned for reporting and counting starts again at `now`;
    /// the first read starts the counting.
    pub fn handle_read(&mut self, size: usize, now: T, second_passed: bool) -> (r: Option<u64>)
        requires
            old(self).counted() + size <= u64::MAX,
        ensures
            old(self).since() is None ==> (r is None && final(self).counted() == old(self).counted()
                + size && final(self).since() == Some(now)),
            old(self).since() is Some && second_passed ==> (r == Some((old(self).counted() + size) as u64)
                && final(self).counted() == 0 && final(self).since() == Some(now)),
            old(self).since() is Some && !second_passed ==> (r is None && final(self).counted()
                == old(self).counted() + size && final(self).since() == old(self).since()),
    {
        self.bytes_per_second = self.bytes_per_second + size as u64;
        match self.data_count_time {
            Some(_) => {
                if second_passed {
                    let count = self.bytes_per_second;
                    self.bytes_per_second = 0;
                    self.data_count_time = Some(now);
                    Some(count)
                } else {
                    None
                }
            },
            None => {
                self.data_count_time = Some(now);
                None
            },
        }
    }
}

} // verus!
