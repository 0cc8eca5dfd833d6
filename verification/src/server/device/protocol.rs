//! Multidevice command protocol
//!
//! # Data transfer protocol
//! 1. Send JSON message size as i32 (big endian).
//! 2. Send JSON message (UTF-8).
//!
//! # Protocol messages
//! 1. Server sends `ServerMessage::ServerInfo` message to the client.
//! 2. Client sends `ClientMessage::ClientInfo` message to the server.
//! 3. Client and server communicate with different protocol messages.
//!    There is no need to have a specific message sending order between
//!    the server and client because messages are processed as they
//!    are received.
//!
//! The JSON form of these types is written and read by the program around
//! the library, which gives them their serde derives.
use vstd::prelude::*;

verus! {

/// The protocol version that both sides announce.
pub open spec fn protocol_version() -> Seq<char> {
    "0.1"@
}

/// The version string of this protocol.
pub fn version_string() -> (s: String)
    ensures
        s@ == protocol_version(),
{
    "0.1".to_owned()
}

/// First message from the server.
#[derive(Debug)]
pub struct ServerInfo {
    pub version: String,
    pub id: String,
}

impl ServerInfo {
    /// Server information with this protocol's version and the given id.
    pub fn new(id: &str) -> (r: Self)
        ensures
            r.version@ == protocol_version(),
            r.id@ == id@,
    {
        ServerInfo { version: version_string(), id: id.to_owned() }
    }
}

/// Sample format of a PCM stream.
#[derive(Debug, PartialEq, Eq, Structural)]
pub enum PcmFormat {
    /// 16-bit little endian samples.
    S16le,
}

/// Format of an audio stream.
#[derive(Debug, PartialEq, Eq, Structural)]
pub enum AudioFormat {
    Pcm { format: PcmFormat, channels: u8, rate: u32 },
}

/// Where and in which format the client finds the audio stream.
#[derive(Debug, PartialEq, Eq, Structural)]
pub struct AudioStreamInfo {
    format: AudioFormat,
    pub port: u16,
}

impl AudioStreamInfo {
    /// Stream information of the given format and data port.
    pub fn new(format: AudioFormat, port: u16) -> (r: Self)
        ensures
            r.spec_format() == format,
            r.spec_port() == port,
    {
        AudioStreamInfo { format, port }
    }

    /// The stream's format.
    pub closed spec fn spec_format(&self) -> AudioFormat {
        self.format
    }

    /// The data port.
    pub closed spec fn spec_port(&self) -> u16 {
        self.port
    }

    /// The data port.
    pub fn port(&self) -> (p: u16)
        ensures
            p == self.spec_port(),
    {
        self.port
    }

    /// The stream's format.
    pub fn format(&self) -> (f: &AudioFormat)
        ensures
            *f == self.spec_format(),
    {
        &self.format
    }
}

/// Message from server to client.
#[derive(Debug)]
pub enum ServerMessage {
    ServerInfo(ServerInfo),
    /// Client should respond with `ClientMessage::PingResponse`
    /// when it receives this message.
    Ping,
    /// Server should send this when client sends `ClientMessage::Ping`.
    PingResponse,
    PlayAudioStream(AudioStreamInfo),
}

/// Message from client to server.
#[derive(Debug)]
pub enum ClientMessage {
    ClientInfo(ClientInfo),
    /// Ping request to the server. Server should respond with
    /// `ServerMessage::PingResponse`.
    Ping,
    /// Client sends this message to server when it receives `ServerMessage::Ping`.
    PingResponse,
    AudioStreamPlayError(String),
}

/// First message from the client.
#[derive(Debug)]
pub struct ClientInfo {
    pub version: String,
    pub id: String,
}

impl ClientInfo {
    /// Client information with this protocol's version and the given id.
    pub fn new(id: &str) -> (r: Self)
        ensures
            r.version@ == protocol_version(),
            r.id@ == id@,
    {
        ClientInfo { version: version_string(), id: id.to_owned() }
    }
}

} // verus!
