//! A reader that collects a connection's bytes in a buffer and cuts
//! messages out of it. A message travels as a frame: its length as four
//! big-endian bytes, then that many bytes of JSON text.
use crate::byte_order::{be_value, u32_from_be_bytes};
use crate::bytes_buffer::{
    bytes_mut_advance, bytes_mut_byte_at, bytes_mut_contents, bytes_mut_extend_from_slice,
    bytes_mut_len, bytes_mut_new, bytes_mut_split_to,
};
use crate::utils::is_frame_of;
use bytes::BytesMut;
use vstd::prelude::*;

verus! {

/// Why reading a message failed.
#[derive(Debug)]
pub enum ReadError {
    Io(std::io::Error),
    Deserialize(serde_json::Error),
    /// The connection ended before a whole message was buffered.
    UnexpectedEnding,
}

/// Why writing a message failed.
#[derive(Debug)]
pub enum WriteError {
    Io(std::io::Error),
    Serialize(serde_json::Error),
}

/// Whether `buffer` starts with a whole frame: the four length bytes and at
/// least as many bytes after them as they announce.
pub open spec fn contains_message(buffer: Seq<u8>) -> bool {
    buffer.len() >= 4 && buffer.len() - 4 >= be_value(buffer.take(4))
}

/// The length that the frame at the front of `buffer` announces.
pub open spec fn announced_len(buffer: Seq<u8>) -> int {
    be_value(buffer.take(4))
}

/// The body of the frame at the front of `buffer`.
pub open spec fn message_body(buffer: Seq<u8>) -> Seq<u8> {
    buffer.take(4 + announced_len(buffer)).skip(4)
}

/// What follows the frame at the front of `buffer`.
pub open spec fn after_message(buffer: Seq<u8>) -> Seq<u8> {
    buffer.skip(4 + announced_len(buffer))
}

/// Collects a connection's bytes and cuts messages out of them.
pub struct JsonMessageConnectionReader {
    buffer: BytesMut,
}

impl JsonMessageConnectionReader {
    /// The bytes collected and not yet cut out.
    pub closed spec fn buffered(&self) -> Seq<u8> {
        bytes_mut_contents(self.buffer)
    }

    /// A reader with nothing collected.
    pub fn new() -> (r: Self)
        ensures
            r.buffered() == Seq::<u8>::empty(),
    {
        JsonMessageConnectionReader { buffer: bytes_mut_new() }
    }

    /// How many bytes are collected.
    pub fn buffer_len(&self) -> (n: usize)
        ensures
            n == self.buffered().len(),
    {
        bytes_mut_len(&self.buffer)
    }

    /// The length at the front of the buffer: its first four bytes as a
    /// big-endian number; none while fewer than four bytes are collected.
    pub fn message_len(&self) -> (r: Option<u32>)
        ensures
            self.buffered().len() >= 4 ==> r == Some(announced_len(self.buffered()) as u32),
            self.buffered().len() < 4 ==> r is None,
    {
        if bytes_mut_len(&self.buffer) < 4 {
            return None;
        }
        let header: [u8; 4] = [
            bytes_mut_byte_at(&self.buffer, 0),
            bytes_mut_byte_at(&self.buffer, 1),
            bytes_mut_byte_at(&self.buffer, 2),
            bytes_mut_byte_at(&self.buffer, 3),
        ];
        assert(header@ =~= self.buffered().take(4));
        Some(u32_from_be_bytes(header))
    }

    /// Whether the buffer holds a whole message: the length bytes and as
    /// many bytes after them as they announce.
    pub fn buffer_contains_a_message(&self) -> (r: bool)
        ensures
            r == contains_message(self.buffered()),
    {
        match self.message_len() {
            Some(len) => bytes_mut_len(&self.buffer) - 4 >= len as usize,
            None => false,
        }
    }

    /// Removes the message at the front of the buffer, its length bytes and
    /// its body, and returns the body for deserializing. The buffer must
    /// hold a whole message.
    pub fn parse_message(&mut self) -> (r: BytesMut)
        requires
            contains_message(old(self).buffered()),
        ensures
            bytes_mut_contents(r) == message_body(old(self).buffered()),
            final(self).buffered() == after_message(old(self).buffered()),
    {
        let n: usize = match self.message_len() {
            Some(l) => l as usize,
            None => 0,
        };
        let ghost b = self.buffered();
        bytes_mut_advance(&mut self.buffer, 4);
        let body = bytes_mut_split_to(&mut self.buffer, n);
        assert(b.skip(4).take(n as int) =~= b.take(4 + n).skip(4));
        assert(b.skip(4).skip(n as int) =~= b.skip(4 + n));
        body
    }

    /// Handles the bytes of one read from the connection: no bytes means
    /// the connection ended before a message was complete.
    pub fn receive(&mut self, data: &[u8]) -> (r: Result<(), ReadError>)
        requires
            old(self).buffered().len() + data@.len() <= isize::MAX,
        ensures
            data@.len() == 0 ==> (r matches Err(ReadError::UnexpectedEnding) && final(self).buffered()
                == old(self).buffered()),
            data@.len() > 0 ==> (r is Ok && final(self).buffered() == old(self).buffered() + data@),
    {
        if data.len() == 0 {
            return Err(ReadError::UnexpectedEnding);
        }
        bytes_mut_extend_from_slice(&mut self.buffer, data);
        Ok(())
    }
}

/// A frame built for a message, followed by any further bytes, is one whole
/// message for the reader: it cuts out exactly the message's text and
/// leaves the further bytes.
pub proof fn law_reader_takes_whole_frames(frame: Seq<u8>, payload: Seq<u8>, rest: Seq<u8>)
    requires
        is_frame_of(frame, payload),
    ensures
        contains_message(frame + rest),
        message_body(frame + rest) == payload,
        after_message(frame + rest) == rest,
{
    let b = frame + rest;
    assert(b.take(4) =~= frame.take(4));
    assert(b.take(4 + payload.len() as int).skip(4) =~= payload);
    assert(b.skip(4 + payload.len() as int) =~= rest);
}

/// Writes messages to a connection.
pub struct JsonMessageConnectionWriter;

} // verus!
