//! Message connections: events that a connection task reports, and the
//! frame format of the connection.
//!
//! Every message travels as one frame: the length of the JSON text as a
//! big-endian `i32`, then the JSON text (UTF-8).
use crate::byte_order::{be_value, u32_from_be_bytes, u32_to_be_bytes};
use crate::bytes_buffer::{bytes_mut_chunk, bytes_mut_clear, bytes_mut_contents, bytes_mut_extend_from_slice, bytes_mut_len, bytes_mut_new};
use crate::errors::unexpected_eof_error;
use bytes::BytesMut;
use vstd::prelude::*;
use vstd::string::StringSliceAdditionalSpecFns;

verus! {

/// Identifies one connection among those that a component holds.
pub type ConnectionId = u64;

/// What a connection task reports upward.
#[derive(Debug)]
pub enum ConnectionEvent<M> {
    ReadError(ConnectionId, ReadError),
    WriteError(ConnectionId, WriteError),
    Message(ConnectionId, M),
}

impl<M> ConnectionEvent<M> {
    /// True for the two error events.
    pub fn is_error(&self) -> (r: bool)
        ensures
            r == !(self is Message),
    {
        match self {
            ConnectionEvent::ReadError(_, _) | ConnectionEvent::WriteError(_, _) => true,
            ConnectionEvent::Message(_, _) => false,
        }
    }
}

/// Why reading a message failed.
#[derive(Debug)]
pub enum ReadError {
    Io(std::io::Error),
    Deserialize(serde_json::Error),
    /// Negative message size.
    MessageSize(i32),
}

/// Why writing a message failed.
#[derive(Debug)]
pub enum WriteError {
    Io(std::io::Error),
    Serialize(serde_json::Error),
    /// The JSON text is too long for the `i32` length field; it is handed back.
    MessageSize(String),
}

/// The UTF-8 bytes of a string.
pub open spec fn string_bytes(s: String) -> Seq<u8> {
    vstd::utf8::encode_utf8(s@)
}

/// `frame` is `payload` preceded by its length as four big-endian bytes.
pub open spec fn is_frame_of(frame: Seq<u8>, payload: Seq<u8>) -> bool {
    &&& frame.len() == 4 + payload.len()
    &&& be_value(frame.take(4)) == payload.len()
    &&& frame.skip(4) == payload
}

/// What a four-byte frame header says: the body length when the big-endian
/// `i32` it holds is not negative, else that negative value.
pub open spec fn spec_message_len(header: Seq<u8>) -> Result<nat, i32> {
    if be_value(header) <= i32::MAX {
        Ok(be_value(header) as nat)
    } else {
        Err((be_value(header) - 0x1_0000_0000) as i32)
    }
}

/// Builds the frame of one outgoing message: the length of the JSON text as
/// a big-endian `i32`, then the text. A text longer than `i32::MAX` bytes
/// cannot be framed and is handed back in the error.
pub fn frame_message(data: String) -> (r: Result<Vec<u8>, WriteError>)
    ensures
        string_bytes(data).len() <= i32::MAX ==> (r matches Ok(f) && is_frame_of(f@, string_bytes(data))),
        string_bytes(data).len() > i32::MAX ==> r == Err::<Vec<u8>, WriteError>(WriteError::MessageSize(data)),
{
    let len: usize = data.as_str().len();
    let data_len: i32 = match len.try_into() {
        Ok(l) => l,
        Err(_) => {
            return Err(WriteError::MessageSize(data));
        },
    };
    let header = u32_to_be_bytes(data_len as u32);
    let body = vstd::slice::slice_to_vec(data.as_str().as_bytes());
    let mut frame: Vec<u8> = Vec::new();
    frame.push(header[0]);
    frame.push(header[1]);
    frame.push(header[2]);
    frame.push(header[3]);
    let mut i: usize = 0;
    while i < body.len()
        invariant
            0 <= i <= body@.len(),
            frame@.len() == 4 + i,
            frame@.take(4) == header@,
            frame@.skip(4) == body@.take(i as int),
        decreases body@.len() - i,
    {
        frame.push(body[i]);
        assert(frame@.skip(4) =~= body@.take(i + 1));
        assert(frame@.take(4) =~= header@);
        i = i + 1;
    }
    assert(body@.take(body@.len() as int) =~= body@);
    Ok(frame)
}

/// Reads the length field of an incoming frame: the body length, or
/// `ReadError::MessageSize` with the value when it is negative.
pub fn read_message_len(header: [u8; 4]) -> (r: Result<usize, ReadError>)
    ensures
        spec_message_len(header@) matches Ok(n) ==> r == Ok::<usize, ReadError>(n as usize),
        spec_message_len(header@) matches Err(v) ==> r == Err::<usize, ReadError>(ReadError::MessageSize(v)),
{
    let v = u32_from_be_bytes(header);
    if v <= 0x7fff_ffffu32 {
        Ok(v as usize)
    } else {
        let negative: i32 = ((v - 0x8000_0000u32) as i32) + i32::MIN;
        Err(ReadError::MessageSize(negative))
    }
}

/// Collects the body of one incoming frame, as the connection task reads it
/// from the socket through a reader limited to the announced length.
pub struct MessageReader {
    buffer: BytesMut,
    message_len: Option<usize>,
}

impl MessageReader {
    /// The bytes of the current body received so far.
    pub closed spec fn received(&self) -> Seq<u8> {
        bytes_mut_contents(self.buffer)
    }

    /// The announced body length, while a body is being read.
    pub closed spec fn expected(&self) -> Option<nat> {
        match self.message_len {
            Some(n) => Some(n as nat),
            None => None,
        }
    }

    /// A body never outgrows the length its header announced.
    pub closed spec fn wf(&self) -> bool {
        match self.message_len {
            Some(n) => self.received().len() <= n <= i32::MAX,
            None => true,
        }
    }

    /// A reader between messages.
    pub fn new() -> (r: Self)
        ensures
            r.wf(),
            r.received() == Seq::<u8>::empty(),
            r.expected() is None,
    {
        MessageReader { buffer: bytes_mut_new(), message_len: None }
    }

    /// Starts a new message from its four header bytes. The body buffer is
    /// emptied; a negative length is refused and no body is expected then.
    pub fn start_message(&mut self, header: [u8; 4]) -> (r: Result<usize, ReadError>)
        requires
            old(self).wf(),
        ensures
            final(self).wf(),
            final(self).received() == Seq::<u8>::empty(),
            spec_message_len(header@) matches Ok(n) ==> (r == Ok::<usize, ReadError>(n as usize)
                && final(self).expected() == Some(n)),
            spec_message_len(header@) matches Err(v) ==> (r == Err::<usize, ReadError>(
                ReadError::MessageSize(v)) && final(self).expected() is None),
    {
        bytes_mut_clear(&mut self.buffer);
        let r = read_message_len(header);
        match r {
            Ok(n) => {
                self.message_len = Some(n);
            },
            Err(_) => {
                self.message_len = None;
            },
        }
        r
    }

    /// How many body bytes may still be read: the limit of the reader that
    /// the body is read through.
    pub fn remaining(&self) -> (n: usize)
        requires
            self.wf(),
            self.expected() is Some,
        ensures
            n == self.expected()->Some_0 - self.received().len(),
    {
        let len = bytes_mut_len(&self.buffer);
        match self.message_len {
            Some(m) => m - len,
            None => 0,
        }
    }

    /// Appends bytes read from the socket to the body.
    pub fn receive(&mut self, data: &[u8])
        requires
            old(self).wf(),
            old(self).expected() is Some,
            old(self).received().len() + data@.len() <= old(self).expected()->Some_0,
        ensures
            final(self).wf(),
            final(self).expected() == old(self).expected(),
            final(self).received() == old(self).received() + data@,
    {
        bytes_mut_extend_from_slice(&mut self.buffer, data);
    }

    /// The input has no more bytes for this body (the limited reader gave
    /// none): the body if it is complete, else an unexpected-end-of-file I/O
    /// error. No body is expected afterwards.
    pub fn finish(&mut self) -> (r: Result<Vec<u8>, ReadError>)
        requires
            old(self).wf(),
            old(self).expected() is Some,
        ensures
            final(self).wf(),
            final(self).expected() is None,
            final(self).received() == old(self).received(),
            old(self).received().len() == old(self).expected()->Some_0 ==> (r matches Ok(body)
                && body@ == old(self).received()),
            old(self).received().len() != old(self).expected()->Some_0 ==> (r matches Err(
                ReadError::Io(_))),
    {
        let len = bytes_mut_len(&self.buffer);
        let expected = match self.message_len {
            Some(m) => m,
            None => 0,
        };
        self.message_len = None;
        if len == expected {
            Ok(bytes_mut_chunk(&self.buffer))
        } else {
            Err(ReadError::Io(unexpected_eof_error()))
        }
    }
}

/// What the connection task does after one read attempt.
#[derive(Debug, PartialEq, Eq, Structural)]
pub enum ConnectionTaskStep {
    /// Read the next message.
    Continue,
    /// Stop reading; wait for the quit request.
    Stop,
}

/// The event that a read result is reported as, and whether reading goes
/// on: a message is reported and reading goes on; an error is reported and
/// reading stops.
pub fn read_result_event<M>(id: ConnectionId, result: Result<M, ReadError>) -> (r: (
    ConnectionEvent<M>,
    ConnectionTaskStep,
))
    ensures
        result matches Ok(m) ==> r == (ConnectionEvent::Message(id, m), ConnectionTaskStep::Continue),
        result matches Err(e) ==> r == (ConnectionEvent::<M>::ReadError(id, e), ConnectionTaskStep::Stop),
{
    match result {
        Ok(m) => (ConnectionEvent::Message(id, m), ConnectionTaskStep::Continue),
        Err(e) => (ConnectionEvent::ReadError(id, e), ConnectionTaskStep::Stop),
    }
}

/// What happens to a connection task: a read attempt ends, the writing
/// fails, or the owner asks the task to quit.
#[derive(Debug)]
pub enum ConnectionInput<M> {
    Read(Result<M, ReadError>),
    WriteFailed(WriteError),
    Quit,
}

/// What the connection task does with an input.
#[derive(Debug)]
pub enum ConnectionAction<M> {
    /// Send this event upward.
    Report(ConnectionEvent<M>),
    /// Nothing to report.
    Nothing,
    /// Return: the owner asked the task to quit.
    Exit,
}

/// The state and action after one input of a connection task with this id
/// that is, or is no longer, reporting: a read message is reported and
/// reporting goes on; the first error is reported and ends the reporting;
/// after it nothing is reported; a quit request ends the task.
pub open spec fn connection_step<M>(id: ConnectionId, reporting: bool, input: ConnectionInput<M>) -> (
    bool,
    ConnectionAction<M>,
) {
    match input {
        ConnectionInput::Quit => (reporting, ConnectionAction::Exit),
        ConnectionInput::Read(Ok(m)) => if reporting {
            (true, ConnectionAction::Report(ConnectionEvent::Message(id, m)))
        } else {
            (false, ConnectionAction::Nothing)
        },
        ConnectionInput::Read(Err(e)) => if reporting {
            (false, ConnectionAction::Report(ConnectionEvent::ReadError(id, e)))
        } else {
            (false, ConnectionAction::Nothing)
        },
        ConnectionInput::WriteFailed(e) => if reporting {
            (false, ConnectionAction::Report(ConnectionEvent::WriteError(id, e)))
        } else {
            (false, ConnectionAction::Nothing)
        },
    }
}

/// The decisions of one connection task: its id, and whether it still
/// reads and reports.
pub struct ConnectionTask {
    id: ConnectionId,
    reporting: bool,
}

impl ConnectionTask {
    /// The id that the task's events carry.
    pub closed spec fn spec_id(&self) -> ConnectionId {
        self.id
    }

    /// Whether the task still reads and reports.
    pub closed spec fn spec_reporting(&self) -> bool {
        self.reporting
    }

    /// A task that has reported nothing yet.
    pub fn new(id: ConnectionId) -> (r: Self)
        ensures
            r.spec_id() == id,
            r.spec_reporting(),
    {
        ConnectionTask { id, reporting: true }
    }

    /// The id that the task's events carry.
    pub fn id(&self) -> (r: ConnectionId)
        ensures
            r == self.spec_id(),
    {
        self.id
    }

    /// Whether the task still reads and reports; once it does not, it only
    /// waits for the quit request.
    pub fn reporting(&self) -> (r: bool)
        ensures
            r == self.spec_reporting(),
    {
        self.reporting
    }

    /// Handles one input.
    pub fn step<M>(&mut self, input: ConnectionInput<M>) -> (r: ConnectionAction<M>)
        ensures
            final(self).spec_id() == old(self).spec_id(),
            (final(self).spec_reporting(), r) == connection_step(
                old(self).spec_id(),
                old(self).spec_reporting(),
                input,
            ),
    {
        match input {
            ConnectionInput::Quit => ConnectionAction::Exit,
            ConnectionInput::Read(result) => {
                if !self.reporting {
                    return ConnectionAction::Nothing;
                }
                let (event, step) = read_result_event(self.id, result);
                if step == ConnectionTaskStep::Stop {
                    self.reporting = false;
                }
                ConnectionAction::Report(event)
            },
            ConnectionInput::WriteFailed(e) => {
                if !self.reporting {
                    return ConnectionAction::Nothing;
                }
                self.reporting = false;
                ConnectionAction::Report(ConnectionEvent::WriteError(self.id, e))
            },
        }
    }
}

/// The events that a connection task reports for these inputs, until it
/// quits.
pub open spec fn connection_run<M>(id: ConnectionId, reporting: bool, inputs: Seq<ConnectionInput<M>>) -> Seq<
    ConnectionEvent<M>,
>
    decreases inputs.len(),
{
    if inputs.len() == 0 {
        Seq::empty()
    } else {
        let (next, action) = connection_step(id, reporting, inputs[0]);
        match action {
            ConnectionAction::Exit => Seq::empty(),
            ConnectionAction::Report(e) => seq![e] + connection_run(id, next, inputs.drop_first()),
            ConnectionAction::Nothing => connection_run(id, next, inputs.drop_first()),
        }
    }
}

/// The messages among the inputs, in the order they were read.
pub open spec fn messages_read<M>(inputs: Seq<ConnectionInput<M>>) -> Seq<M>
    decreases inputs.len(),
{
    if inputs.len() == 0 {
        Seq::empty()
    } else {
        match inputs[0] {
            ConnectionInput::Read(Ok(m)) => seq![m] + messages_read(inputs.drop_first()),
            _ => messages_read(inputs.drop_first()),
        }
    }
}

/// The messages among the events, in order.
pub open spec fn messages_reported<M>(events: Seq<ConnectionEvent<M>>) -> Seq<M>
    decreases events.len(),
{
    if events.len() == 0 {
        Seq::empty()
    } else {
        match events[0] {
            ConnectionEvent::Message(_, m) => seq![m] + messages_reported(events.drop_first()),
            _ => messages_reported(events.drop_first()),
        }
    }
}

/// The connection id that an event carries.
pub open spec fn event_id<M>(event: ConnectionEvent<M>) -> ConnectionId {
    match event {
        ConnectionEvent::ReadError(id, _) => id,
        ConnectionEvent::WriteError(id, _) => id,
        ConnectionEvent::Message(id, _) => id,
    }
}

/// One step of a connection task, over every id and state: a quit request
/// ends the task whatever its state; a task that still reports passes a
/// read message upward with its id and goes on reporting; the first read or
/// write error is passed upward with the id and ends the reporting; a task
/// that stopped reporting reports nothing more; the id never changes what
/// is read.
pub proof fn law_connection_step<M>(id: ConnectionId, reporting: bool, input: ConnectionInput<M>)
    ensures
        input is Quit ==> connection_step(id, reporting, input).1 is Exit,
        input is Quit ==> connection_step(id, reporting, input).0 == reporting,
        !(input is Quit) ==> !(connection_step(id, reporting, input).1 is Exit),
        !reporting ==> !(connection_step(id, reporting, input).1 is Report),
        !reporting ==> !connection_step(id, reporting, input).0,
        reporting ==> (input matches ConnectionInput::Read(Ok(m)) ==> (connection_step(id, reporting, input).0
            && connection_step(id, reporting, input).1 == ConnectionAction::Report(
            ConnectionEvent::Message(id, m),
        ))),
        reporting ==> (input matches ConnectionInput::Read(Err(e)) ==> (!connection_step(id, reporting, input).0
            && connection_step(id, reporting, input).1 == ConnectionAction::<M>::Report(
            ConnectionEvent::ReadError(id, e),
        ))),
        reporting ==> (input matches ConnectionInput::WriteFailed(e) ==> (!connection_step(id, reporting, input).0
            && connection_step(id, reporting, input).1 == ConnectionAction::<M>::Report(
            ConnectionEvent::WriteError(id, e),
        ))),
{
}

/// A task that no longer reports stays silent.
proof fn lemma_silent_run<M>(id: ConnectionId, inputs: Seq<ConnectionInput<M>>)
    ensures
        connection_run(id, false, inputs) == Seq::<ConnectionEvent<M>>::empty(),
    decreases inputs.len(),
{
    if inputs.len() > 0 {
        lemma_silent_run(id, inputs.drop_first());
    }
}

/// Over a whole run of a connection task: every event carries the task's
/// id; an error is reported at most once and nothing is reported after it;
/// and the reported messages are the messages read, in the order they were
/// read, up to the point where the task stopped.
pub proof fn law_connection_run<M>(id: ConnectionId, inputs: Seq<ConnectionInput<M>>)
    ensures
        ({
            let events = connection_run(id, true, inputs);
            &&& forall|k: int| 0 <= k < events.len() ==> event_id(#[trigger] events[k]) == id
            &&& forall|k: int| 0 <= k < events.len() - 1 ==> #[trigger] events[k] is Message
            &&& messages_reported(events).is_prefix_of(messages_read(inputs))
        }),
    decreases inputs.len(),
{
    let events = connection_run(id, true, inputs);
    if inputs.len() > 0 {
        let rest = inputs.drop_first();
        law_connection_run(id, rest);
        lemma_silent_run(id, rest);
        let tail = connection_run(id, true, rest);
        match inputs[0] {
            ConnectionInput::Quit => {},
            ConnectionInput::Read(Ok(m)) => {
                let e = ConnectionEvent::Message(id, m);
                assert(events == seq![e] + tail);
                assert((seq![e] + tail).drop_first() =~= tail);
                assert(messages_reported(events) == seq![m] + messages_reported(tail));
                assert(messages_read(inputs) == seq![m] + messages_read(rest));
                assert forall|k: int| 0 <= k < events.len() implies event_id(#[trigger] events[k]) == id by {
                    if k > 0 {
                        assert(events[k] == tail[k - 1]);
                    }
                }
                assert forall|k: int| 0 <= k < events.len() - 1 implies #[trigger] events[k] is Message by {
                    if k > 0 {
                        assert(events[k] == tail[k - 1]);
                    }
                }
                assert(messages_reported(events).is_prefix_of(messages_read(inputs))) by {
                    let p = messages_reported(tail);
                    let w = messages_read(rest);
                    assert(p =~= w.subrange(0, p.len() as int));
                    assert(seq![m] + p =~= (seq![m] + w).subrange(0, p.len() + 1int));
                }
            },
            ConnectionInput::Read(Err(e)) => {
                let ev = ConnectionEvent::<M>::ReadError(id, e);
                assert(events =~= seq![ev]);
                assert(seq![ev].drop_first() =~= Seq::<ConnectionEvent<M>>::empty());
                assert(events[0] == ev);
                assert(messages_reported(events.drop_first()) =~= Seq::<M>::empty());
                assert(messages_reported(events) =~= Seq::<M>::empty());
            },
            ConnectionInput::WriteFailed(e) => {
                let ev = ConnectionEvent::<M>::WriteError(id, e);
                assert(events =~= seq![ev]);
                assert(seq![ev].drop_first() =~= Seq::<ConnectionEvent<M>>::empty());
                assert(events[0] == ev);
                assert(messages_reported(events.drop_first()) =~= Seq::<M>::empty());
                assert(messages_reported(events) =~= Seq::<M>::empty());
            },
        }
    }
}

/// A frame built by `frame_message` is read back by a `MessageReader`: its
/// header announces the length of the text and its body is the text.
pub proof fn lemma_frame_round_trip(frame: Seq<u8>, payload: Seq<u8>)
    requires
        is_frame_of(frame, payload),
        payload.len() <= i32::MAX,
    ensures
        spec_message_len(frame.take(4)) == Ok::<nat, i32>(payload.len()),
        frame.skip(4) == payload,
{
}

/// The frame of a payload is unique.
pub proof fn lemma_frame_unique(f1: Seq<u8>, f2: Seq<u8>, payload: Seq<u8>)
    requires
        is_frame_of(f1, payload),
        is_frame_of(f2, payload),
    ensures
        f1 == f2,
{
    crate::byte_order::lemma_be_value_injective(f1.take(4), f2.take(4));
    assert(f1 =~= f1.take(4) + f1.skip(4));
    assert(f2 =~= f2.take(4) + f2.skip(4));
}


/// What a frame header says: a length that fits in a non-negative `i32`
/// is the value of the four big-endian bytes; a header with the top bit set
/// is refused, carrying the negative `i32` that the bytes denote.
pub proof fn law_message_len(header: Seq<u8>)
    requires
        header.len() == 4,
    ensures
        spec_message_len(header) matches Ok(n) ==> (n == be_value(header) && n <= i32::MAX),
        spec_message_len(header) matches Err(v) ==> (v < 0 && v + 0x1_0000_0000 == be_value(header)),
        be_value(header) <= i32::MAX ==> spec_message_len(header) is Ok,
{
    crate::byte_order::lemma_be_value_bounds(header);
}

} // verus!
