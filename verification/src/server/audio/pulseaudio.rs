//! The PulseAudio thread: its events, its connection state and its
//! recording stream.
pub mod state;
pub mod stream;

use crate::server::audio::AudioEvent;
use crate::server::audio::pulseaudio::state::{PAEvent, PAEventAction, PAState};
use crate::server::audio::pulseaudio::stream::QuitAction;
use vstd::prelude::*;

verus! {

/// Events handled by the PulseAudio thread. `H` is the audio send handle.
#[derive(Debug)]
pub enum AudioServerEvent<H> {
    AudioEvent(AudioEvent<H>),
    RequestQuit,
    PAEvent(PAEvent),
    PAQuitReady,
}

/// What the PulseAudio thread does with one of its events. `H` is the audio
/// send handle, `O` a pending PulseAudio operation.
#[derive(Debug)]
pub enum AudioThreadStep<H, O> {
    Nothing,
    /// Create and connect a recording stream that sends into this handle.
    StartStream { send_handle: H, sample_rate: u32, source_name: Option<String>, encode_opus: bool },
    /// Disconnect the recording stream.
    DisconnectStream,
    /// Carry out what the quit request asks for.
    Quit(QuitAction),
    /// Carry out what the PulseAudio event asks for.
    PA(PAEventAction<O>),
    /// PulseAudio has terminated: leave the event loop.
    ExitLoop,
}

/// Handles one event of the PulseAudio thread. A recording starts from the
/// configured source now if the context is ready, else once it is; a stop
/// disconnects the stream if there is one; a quit request goes to the
/// stream manager; `PAQuitReady` ends the thread's loop.
pub fn handle_audio_server_event<H, O>(
    pa_state: &mut PAState<H, O>,
    event: AudioServerEvent<H>,
    source_name: &Option<String>,
    encode_opus: bool,
) -> (r: AudioThreadStep<H, O>)
    requires
        event matches AudioServerEvent::PAEvent(PAEvent::RecordingStreamEvent(e)) ==> (!(e is Moved)
            ==> old(pa_state).streams().spec_recording()),
    ensures
        event matches AudioServerEvent::AudioEvent(AudioEvent::StartRecording { .. }) ==> (final(
            pa_state).ready() == old(pa_state).ready() && final(pa_state).operation() == old(
            pa_state).operation() && final(pa_state).streams() == old(pa_state).streams()),
        event matches AudioServerEvent::AudioEvent(AudioEvent::StartRecording { send_handle, sample_rate })
            ==> (if old(pa_state).ready() {
            r == (AudioThreadStep::<H, O>::StartStream {
                send_handle,
                sample_rate,
                source_name: *source_name,
                encode_opus,
            })
                && final(pa_state).waiting() == old(pa_state).waiting()
        } else {
            r is Nothing && final(pa_state).waiting() == old(pa_state).waiting().push(
                AudioServerEvent::AudioEvent(AudioEvent::StartRecording { send_handle, sample_rate }),
            )
        }),
        event matches AudioServerEvent::AudioEvent(AudioEvent::StopRecording) ==> (*final(pa_state)
            == *old(pa_state) && (if old(pa_state).streams().spec_recording() {
            r is DisconnectStream
        } else {
            r is Nothing
        })),
        event matches AudioServerEvent::AudioEvent(AudioEvent::Message(_)) ==> (r is Nothing
            && *final(pa_state) == *old(pa_state)),
        event is RequestQuit ==> (final(pa_state).ready() == old(pa_state).ready() && final(
            pa_state).waiting() == old(pa_state).waiting() && final(pa_state).operation() == old(
            pa_state).operation() && final(pa_state).streams() == old(
            pa_state).streams().spec_after_quit_request()),
        event is RequestQuit ==> (final(pa_state).streams().spec_quit_requested() && r
            == AudioThreadStep::<H, O>::Quit(if old(pa_state).streams().spec_recording() {
            QuitAction::DisconnectStream
        } else {
            QuitAction::SendQuitReady
        })),
        event matches AudioServerEvent::PAEvent(e) ==> r == AudioThreadStep::<H, O>::PA(
            old(pa_state).spec_pa_event_action(e),
        ),
        event matches AudioServerEvent::PAEvent(e) ==> (final(pa_state).ready() == old(
            pa_state).ready() && final(pa_state).waiting() == old(pa_state).waiting() && final(
            pa_state).streams() == old(pa_state).streams() && final(pa_state).operation() == (if e is OperationCompleted {
            None
        } else {
            old(pa_state).operation()
        })),
        event is PAQuitReady ==> (r is ExitLoop && *final(pa_state) == *old(pa_state)),
{
    match event {
        AudioServerEvent::AudioEvent(AudioEvent::StartRecording { send_handle, sample_rate }) => {
            let name = match source_name {
                Some(n) => Some(n.clone()),
                None => None,
            };
            match pa_state.start_recording(name, send_handle, encode_opus, sample_rate) {
                Some((h, source_name, encode_opus)) => AudioThreadStep::StartStream {
                    send_handle: h,
                    sample_rate,
                    source_name,
                    encode_opus,
                },
                None => AudioThreadStep::Nothing,
            }
        },
        AudioServerEvent::AudioEvent(AudioEvent::StopRecording) => {
            if pa_state.stop_recording() {
                AudioThreadStep::DisconnectStream
            } else {
                AudioThreadStep::Nothing
            }
        },
        AudioServerEvent::AudioEvent(AudioEvent::Message(_)) => AudioThreadStep::Nothing,
        AudioServerEvent::RequestQuit => AudioThreadStep::Quit(pa_state.request_quit()),
        AudioServerEvent::PAEvent(e) => AudioThreadStep::PA(pa_state.handle_pa_event(e)),
        AudioServerEvent::PAQuitReady => AudioThreadStep::ExitLoop,
    }
}

} // verus!
