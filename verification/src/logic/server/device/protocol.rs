//! Multidevice command protocol
//!
//! 1. Send JSON message size as u32 (big endian).
//!    Message size max value is max value of i32.
//! 2. Send JSON message (UTF-8).
use vstd::prelude::*;

verus! {

/// Server information for the test client.
#[derive(Debug, PartialEq, Eq, Structural)]
pub struct ServerInfo {
    pub speaker_audio_stream_port: u16,
}

/// Why reading a message body failed.
#[derive(Debug)]
pub enum ProtocolDeserializerError {
    IoError(std::io::Error),
    DeserializerError(serde_json::Error),
}

/// The size of the buffer that a message body is read through.
pub const READ_BUFFER_SIZE: usize = 1024;

/// Collects the body of one message: at most the announced number of bytes,
/// read through a buffer of `READ_BUFFER_SIZE` bytes.
pub struct ProtocolDeserializer {
    data: Vec<u8>,
    remaining: u64,
}

impl ProtocolDeserializer {
    /// The bytes collected.
    pub closed spec fn collected(&self) -> Seq<u8> {
        self.data@
    }

    /// How many more bytes the limited reader gives.
    pub closed spec fn limit(&self) -> nat {
        self.remaining as nat
    }

    /// A deserializer with nothing collected.
    pub fn new() -> (r: Self)
        ensures
            r.collected() == Seq::<u8>::empty(),
            r.limit() == 0,
    {
        ProtocolDeserializer { data: Vec::new(), remaining: 0 }
    }

    /// Starts collecting a body of `message_size` bytes; earlier data is
    /// dropped.
    pub fn start(&mut self, message_size: u32)
        ensures
            final(self).collected() == Seq::<u8>::empty(),
            final(self).limit() == message_size,
    {
        self.data = Vec::new();
        self.remaining = message_size as u64;
    }

    /// The most bytes that the next read may give: the buffer size, or less
    /// when fewer bytes of the body remain.
    pub fn next_read_len(&self) -> (n: usize)
        ensures
            n as nat == if self.limit() < READ_BUFFER_SIZE {
                self.limit()
            } else {
                READ_BUFFER_SIZE as nat
            },
    {
        if self.remaining < 1024u64 {
            self.remaining as usize
        } else {
            READ_BUFFER_SIZE
        }
    }

    /// Appends the bytes of one read; a read of no bytes ends the body.
    /// Returns whether more bytes are to be read.
    pub fn append(&mut self, chunk: &[u8]) -> (more: bool)
        requires
            chunk@.len() <= old(self).limit(),
        ensures
            final(self).collected() == old(self).collected() + chunk@,
            final(self).limit() == old(self).limit() - chunk@.len(),
            more == (chunk@.len() > 0),
    {
        let mut i: usize = 0;
        let ghost start = self.data@;
        while i < chunk.len()
            invariant
                0 <= i <= chunk@.len(),
                self.data@ == start + chunk@.take(i as int),
                self.remaining == old(self).remaining,
                start == old(self).data@,
            decreases chunk@.len() - i,
        {
            self.data.push(chunk[i]);
            assert(self.data@ =~= start + chunk@.take(i + 1));
            i = i + 1;
        }
        assert(chunk@.take(chunk@.len() as int) =~= chunk@);
        self.remaining = self.remaining - chunk.len() as u64;
        chunk.len() > 0
    }

    /// The collected body, to deserialize.
    pub fn data(&self) -> (r: &Vec<u8>)
        ensures
            r@ == self.collected(),
    {
        &self.data
    }
}

/// However the reads fall, the collected body is the bytes read, in order,
/// and never longer than the announced size.
pub proof fn lemma_body_within_size(before: Seq<u8>, chunk: Seq<u8>, limit: nat, size: nat)
    requires
        before.len() + limit == size,
        chunk.len() <= limit,
    ensures
        (before + chunk).len() + (limit - chunk.len()) == size,
        (before + chunk).len() <= size,
{
}

} // verus!
