//! Audio side of the server: events for the audio manager and the
//! PulseAudio thread.
pub mod pulseaudio;

use vstd::prelude::*;

verus! {

/// Events for the audio manager. `H` is the handle through which recorded
/// audio is sent to a device.
#[derive(Debug)]
pub enum AudioEvent<H> {
    Message(String),
    StopRecording,
    StartRecording { send_handle: H, sample_rate: u32 },
}

} // verus!
