//! The recording stream: when to start, stop and drop it, and how recorded
//! audio is handed to the non-blocking TCP connection of the device.
//!
//! Audio that the socket does not take at once is kept in a buffer and
//! written before newer audio on the next read.
use crate::bytes_buffer::{
    bytes_mut_advance, bytes_mut_chunk, bytes_mut_clear, bytes_mut_contents,
    bytes_mut_extend_from_slice, bytes_mut_len, bytes_mut_new,
};
use bytes::BytesMut;
use vstd::prelude::*;

verus! {

/// Events of the recording stream.
#[derive(Debug, PartialEq, Eq, Structural)]
pub enum PARecordingStreamEvent {
    StateChange,
    Read(usize),
    Moved,
}

/// Events of a playback stream.
#[derive(Debug, PartialEq, Eq, Structural)]
pub enum PAPlaybackStreamEvent {
    DataOverflow,
    DataUnderflow,
    StateChange,
}

/// State of a PulseAudio stream.
#[derive(Debug, PartialEq, Eq, Structural)]
pub enum StreamState {
    Unconnected,
    Creating,
    Ready,
    Failed,
    Terminated,
}

/// Result of one non-blocking write to the device's TCP connection.
#[derive(Debug)]
pub enum WriteResult {
    /// This many bytes were written; never more than were offered.
    Written(usize),
    /// The socket takes no bytes now.
    WouldBlock,
    /// Writing failed with another error.
    Failed(std::io::Error),
}

/// What follows a change of the recording stream's state.
#[derive(Debug, PartialEq, Eq, Structural)]
pub enum StreamStateAction {
    /// Print that the stream failed.
    ReportFailed,
    /// The stream ended: drop it together with its send handle, and send
    /// `StreamManagerQuitReady` when a quit is under way.
    RecordingEnded { send_quit_ready: bool },
    /// Print the name of the recorded device.
    ReportReady,
    Nothing,
}

/// What follows an event of the recording stream.
#[derive(Debug, PartialEq, Eq, Structural)]
pub enum RecordingEventAction {
    /// Look up the stream's state and handle it.
    CheckState,
    /// Read the recorded data: peek and hand on fragments until the stream
    /// has none.
    ReadData,
    /// Print the device name that the stream moved to.
    ReportMoved,
    Nothing,
}

/// What the quit request asks of the stream manager's owner.
#[derive(Debug, PartialEq, Eq, Structural)]
pub enum QuitAction {
    /// Disconnect the recording stream; its end completes the quit.
    DisconnectStream,
    /// No stream: send `StreamManagerQuitReady` now.
    SendQuitReady,
}

/// One step of writing out the buffered audio.
#[derive(Debug)]
pub enum DrainStep {
    /// Some bytes were written; try the rest.
    Continue,
    /// The socket would block: stop draining and go on with the new data.
    Stop,
    /// Writing failed.
    Fail(std::io::Error),
}

/// The buffer after one non-blocking write of `data`, whose bytes follow
/// what `buffer` holds: the unwritten rest of `data` is appended.
pub open spec fn buffer_after_data_write(buffer: Seq<u8>, data: Seq<u8>, result: WriteResult) -> Seq<
    u8,
> {
    match result {
        WriteResult::Written(n) => buffer + data.skip(n as int),
        WriteResult::WouldBlock => buffer + data,
        WriteResult::Failed(_) => buffer,
    }
}

/// The bytes of `data` that one write put on the socket.
pub open spec fn data_sent(data: Seq<u8>, result: WriteResult) -> Seq<u8> {
    match result {
        WriteResult::Written(n) => data.take(n as int),
        _ => Seq::empty(),
    }
}

/// The recording stream and its buffer.
pub struct PAStreamManager {
    recording: bool,
    recording_buffer: BytesMut,
    enable_recording: bool,
    quit_requested: bool,
}

impl PAStreamManager {
    /// Whether a recording stream exists.
    pub closed spec fn spec_recording(&self) -> bool {
        self.recording
    }

    /// Recorded bytes that the socket has not taken yet.
    pub closed spec fn buffered(&self) -> Seq<u8> {
        bytes_mut_contents(self.recording_buffer)
    }

    /// Whether recorded data is sent on.
    pub closed spec fn recording_enabled(&self) -> bool {
        self.enable_recording
    }

    /// Whether a quit was requested.
    pub closed spec fn spec_quit_requested(&self) -> bool {
        self.quit_requested
    }

    /// The manager after a quit request.
    pub closed spec fn spec_after_quit_request(self) -> Self {
        PAStreamManager { quit_requested: true, ..self }
    }

    /// The manager after its stream reported `state`.
    pub closed spec fn spec_after_state(self, state: StreamState) -> Self {
        if state == StreamState::Terminated {
            PAStreamManager { recording: false, ..self }
        } else {
            self
        }
    }

    /// A stream manager without a stream.
    pub fn new() -> (r: Self)
        ensures
            !r.spec_recording(),
            r.buffered() == Seq::<u8>::empty(),
            r.recording_enabled(),
            !r.spec_quit_requested(),
    {
        PAStreamManager {
            recording: false,
            recording_buffer: bytes_mut_new(),
            enable_recording: true,
            quit_requested: false,
        }
    }

    /// A recording stream was created and connected (it replaces any
    /// earlier one): the buffer is emptied and recorded data is sent on.
    pub fn record_stream_started(&mut self)
        ensures
            final(self).spec_recording(),
            final(self).buffered() == Seq::<u8>::empty(),
            final(self).recording_enabled(),
            final(self).spec_quit_requested() == old(self).spec_quit_requested(),
    {
        bytes_mut_clear(&mut self.recording_buffer);
        self.recording = true;
        self.enable_recording = true;
    }

    /// Handles a new state of the recording stream. When it terminated the
    /// stream is dropped, and the quit is reported ready if one is under way.
    pub fn handle_recording_stream_state_change(&mut self, state: StreamState) -> (r:
        StreamStateAction)
        requires
            old(self).spec_recording(),
        ensures
            final(self).buffered() == old(self).buffered(),
            final(self).recording_enabled() == old(self).recording_enabled(),
            final(self).spec_quit_requested() == old(self).spec_quit_requested(),
            state == StreamState::Terminated ==> (!final(self).spec_recording() && r
                == StreamStateAction::RecordingEnded {
                send_quit_ready: old(self).spec_quit_requested(),
            }),
            state != StreamState::Terminated ==> final(self).spec_recording(),
            state == StreamState::Failed ==> r == StreamStateAction::ReportFailed,
            state == StreamState::Ready ==> r == StreamStateAction::ReportReady,
            (state == StreamState::Unconnected || state == StreamState::Creating) ==> r
                == StreamStateAction::Nothing,
    {
        match state {
            StreamState::Failed => StreamStateAction::ReportFailed,
            StreamState::Terminated => {
                self.recording = false;
                StreamStateAction::RecordingEnded { send_quit_ready: self.quit_requested }
            },
            StreamState::Ready => StreamStateAction::ReportReady,
            _ => StreamStateAction::Nothing,
        }
    }

    /// What an event of the recording stream asks for.
    pub open spec fn spec_handle_recording_stream_event(&self, event: PARecordingStreamEvent) -> RecordingEventAction {
        match event {
            PARecordingStreamEvent::StateChange => RecordingEventAction::CheckState,
            PARecordingStreamEvent::Read(_) => if self.recording_enabled() {
                RecordingEventAction::ReadData
            } else {
                RecordingEventAction::Nothing
            },
            PARecordingStreamEvent::Moved => if self.spec_recording() {
                RecordingEventAction::ReportMoved
            } else {
                RecordingEventAction::Nothing
            },
        }
    }

    /// Handles an event of the recording stream. Reading and state changes
    /// concern the stream, which must exist; data is read only while
    /// recording is enabled.
    pub fn handle_recording_stream_event(&self, event: PARecordingStreamEvent) -> (r:
        RecordingEventAction)
        requires
            !(event is Moved) ==> self.spec_recording(),
        ensures
            r == self.spec_handle_recording_stream_event(event),
            event == PARecordingStreamEvent::StateChange ==> r == RecordingEventAction::CheckState,
            event is Read ==> (r == if self.recording_enabled() {
                RecordingEventAction::ReadData
            } else {
                RecordingEventAction::Nothing
            }),
            event == PARecordingStreamEvent::Moved ==> (r == if self.spec_recording() {
                RecordingEventAction::ReportMoved
            } else {
                RecordingEventAction::Nothing
            }),
    {
        match event {
            PARecordingStreamEvent::StateChange => RecordingEventAction::CheckState,
            PARecordingStreamEvent::Read(_) => {
                if self.enable_recording {
                    RecordingEventAction::ReadData
                } else {
                    RecordingEventAction::Nothing
                }
            },
            PARecordingStreamEvent::Moved => {
                if self.recording {
                    RecordingEventAction::ReportMoved
                } else {
                    RecordingEventAction::Nothing
                }
            },
        }
    }

    /// How many bytes wait in the recording buffer.
    pub fn buffered_len(&self) -> (n: usize)
        ensures
            n == self.buffered().len(),
    {
        bytes_mut_len(&self.recording_buffer)
    }

    /// The buffered bytes to write before new data, if any.
    pub fn buffered_chunk(&self) -> (r: Option<Vec<u8>>)
        ensures
            self.buffered().len() == 0 ==> r is None,
            self.buffered().len() > 0 ==> (r matches Some(c) && c@ == self.buffered()),
    {
        if bytes_mut_len(&self.recording_buffer) > 0 {
            Some(bytes_mut_chunk(&self.recording_buffer))
        } else {
            None
        }
    }

    /// Handles the result of writing the buffered bytes: written bytes
    /// leave the front of the buffer and draining goes on; a blocking socket
    /// stops draining; another error ends the data handling with that error.
    pub fn drain_step(&mut self, result: WriteResult) -> (r: DrainStep)
        requires
            result matches WriteResult::Written(n) ==> n <= old(self).buffered().len(),
        ensures
            final(self).spec_recording() == old(self).spec_recording(),
            final(self).recording_enabled() == old(self).recording_enabled(),
            final(self).spec_quit_requested() == old(self).spec_quit_requested(),
            result matches WriteResult::Written(n) ==> (r is Continue && final(self).buffered()
                == old(self).buffered().skip(n as int) && old(self).buffered() == old(
                self).buffered().take(n as int) + final(self).buffered()),
            result is WouldBlock ==> (r is Stop && final(self).buffered() == old(self).buffered()),
            result matches WriteResult::Failed(e) ==> (r == DrainStep::Fail(e) && final(
                self).buffered() == old(self).buffered()),
    {
        match result {
            WriteResult::Written(count) => {
                bytes_mut_advance(&mut self.recording_buffer, count);
                proof {
                    let b = old(self).buffered();
                    assert(b =~= b.take(count as int) + b.skip(count as int));
                }
                DrainStep::Continue
            },
            WriteResult::WouldBlock => DrainStep::Stop,
            WriteResult::Failed(e) => DrainStep::Fail(e),
        }
    }

    /// Handles the result of writing newly recorded `data` after the
    /// buffer was drained: the bytes that the socket did not take are
    /// buffered; an error other than a blocking socket is returned.
    pub fn handle_data(&mut self, data: &[u8], result: WriteResult) -> (r: Result<(), std::io::Error>)
        requires
            old(self).buffered().len() + data@.len() <= isize::MAX,
            result matches WriteResult::Written(n) ==> n <= data@.len(),
        ensures
            final(self).spec_recording() == old(self).spec_recording(),
            final(self).recording_enabled() == old(self).recording_enabled(),
            final(self).spec_quit_requested() == old(self).spec_quit_requested(),
            final(self).buffered() == buffer_after_data_write(old(self).buffered(), data@, result),
            result matches WriteResult::Failed(e) ==> r == Err::<(), std::io::Error>(e),
            !(result is Failed) ==> r is Ok,
    {
        match result {
            WriteResult::Written(count) => {
                if count < data.len() {
                    let rest = vstd::slice::slice_subrange(data, count, data.len());
                    bytes_mut_extend_from_slice(&mut self.recording_buffer, rest);
                    assert(rest@ =~= data@.skip(count as int));
                } else {
                    assert(data@.skip(count as int) =~= Seq::<u8>::empty());
                    assert(old(self).buffered() + data@.skip(count as int) =~= old(self).buffered());
                }
                Ok(())
            },
            WriteResult::WouldBlock => {
                bytes_mut_extend_from_slice(&mut self.recording_buffer, data);
                Ok(())
            },
            WriteResult::Failed(e) => Err(e),
        }
    }

    /// Writing recorded data failed: recording is disabled. Returns whether
    /// the recording stream is to be disconnected (it is when one exists).
    pub fn recording_write_failed(&mut self) -> (r: bool)
        ensures
            !final(self).recording_enabled(),
            final(self).spec_recording() == old(self).spec_recording(),
            final(self).buffered() == old(self).buffered(),
            final(self).spec_quit_requested() == old(self).spec_quit_requested(),
            r == old(self).spec_recording(),
    {
        self.enable_recording = false;
        self.stop_recording()
    }

    /// Stopping the recording disconnects the stream, if one exists.
    pub fn stop_recording(&self) -> (r: bool)
        ensures
            r == self.spec_recording(),
    {
        self.recording
    }

    /// A quit request: the stream is disconnected, and its end completes
    /// the quit; without a stream the quit is ready at once.
    pub fn request_quit(&mut self) -> (r: QuitAction)
        ensures
            *final(self) == old(self).spec_after_quit_request(),
            final(self).spec_quit_requested(),
            final(self).spec_recording() == old(self).spec_recording(),
            final(self).buffered() == old(self).buffered(),
            final(self).recording_enabled() == old(self).recording_enabled(),
            r == if old(self).spec_recording() {
                QuitAction::DisconnectStream
            } else {
                QuitAction::SendQuitReady
            },
    {
        self.quit_requested = true;
        if self.recording {
            QuitAction::DisconnectStream
        } else {
            QuitAction::SendQuitReady
        }
    }
}

/// A quit completes through the stream: after a quit request a recording
/// stream is disconnected, and when it then terminates the stream manager
/// reports the quit ready; without a stream the quit is ready at once.
pub proof fn law_quit_completes(m: PAStreamManager)
    ensures
        m.spec_recording() ==> ({
            let asked = m.spec_after_quit_request();
            &&& asked.spec_recording()
            &&& asked.spec_quit_requested()
            &&& !asked.spec_after_state(StreamState::Terminated).spec_recording()
        }),
        m.spec_after_quit_request().spec_quit_requested(),
{
}

/// No audio is lost or reordered: when new data is written with nothing
/// buffered ahead of it, or the socket takes none of it, the bytes put on
/// the socket followed by the new buffer are the old buffer followed by the
/// data. (When buffered bytes remain after a blocking drain and the socket
/// then takes part of the new data, that part overtakes the buffer.)
pub proof fn lemma_data_write_keeps_order(buffer: Seq<u8>, data: Seq<u8>, result: WriteResult)
    requires
        buffer.len() == 0 || result is WouldBlock,
        result matches WriteResult::Written(n) ==> n <= data.len(),
        !(result is Failed),
    ensures
        data_sent(data, result) + buffer_after_data_write(buffer, data, result) == buffer + data,
{
    match result {
        WriteResult::Written(n) => {
            assert(data =~= data.take(n as int) + data.skip(n as int));
            assert(buffer + data.skip(n as int) =~= data.skip(n as int));
            assert(buffer + data =~= data);
        },
        _ => {
            assert(Seq::<u8>::empty() + (buffer + data) =~= buffer + data);
        },
    }
}


/// What a write of new data leaves in the buffer: a failed write leaves it
/// as it was; otherwise the buffer keeps its bytes first, and what the
/// socket did not take of the data follows them, so that what was sent
/// plus what the buffer gained is the data; a write that took all of the
/// data leaves the buffer as it was.
pub proof fn law_data_write_buffers_the_rest(buffer: Seq<u8>, data: Seq<u8>, result: WriteResult)
    requires
        result matches WriteResult::Written(n) ==> n <= data.len(),
    ensures
        result is Failed ==> buffer_after_data_write(buffer, data, result) == buffer,
        result is Failed || result is WouldBlock ==> data_sent(data, result).len() == 0,
        !(result is Failed) ==> ({
            let after = buffer_after_data_write(buffer, data, result);
            &&& after.take(buffer.len() as int) == buffer
            &&& data_sent(data, result) + after.skip(buffer.len() as int) == data
        }),
        result matches WriteResult::Written(n) ==> (n == data.len() ==> buffer_after_data_write(
            buffer,
            data,
            result,
        ) == buffer),
{
    match result {
        WriteResult::Written(n) => {
            let after = buffer + data.skip(n as int);
            assert(after.take(buffer.len() as int) =~= buffer);
            assert(after.skip(buffer.len() as int) =~= data.skip(n as int));
            assert(data.take(n as int) + data.skip(n as int) =~= data);
            if n == data.len() {
                assert(after =~= buffer);
            }
        },
        WriteResult::WouldBlock => {
            let after = buffer + data;
            assert(after.take(buffer.len() as int) =~= buffer);
            assert(after.skip(buffer.len() as int) =~= data);
            assert(Seq::<u8>::empty() + data =~= data);
        },
        WriteResult::Failed(_) => {},
    }
}

/// What a recording stream event asks for: a state change always asks for
/// the state to be checked; data is read only when a read is announced and
/// recording is enabled; a move is reported only while recording.
pub proof fn law_recording_stream_events(m: PAStreamManager, event: PARecordingStreamEvent)
    ensures
        m.spec_handle_recording_stream_event(event) is CheckState <==> event is StateChange,
        m.spec_handle_recording_stream_event(event) is ReadData <==> (event is Read && m.recording_enabled()),
        m.spec_handle_recording_stream_event(event) is ReportMoved <==> (event is Moved && m.spec_recording()),
        !m.recording_enabled() && event is Read ==> m.spec_handle_recording_stream_event(event) is Nothing,
{
}

} // verus!
