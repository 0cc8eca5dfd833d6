//! Connection state of the PulseAudio thread: events wait until the
//! PulseAudio context is ready, and are then handled in the order they came.
use crate::server::audio::pulseaudio::stream::{
    PARecordingStreamEvent, PAStreamManager, QuitAction, RecordingEventAction,
};
use crate::server::audio::pulseaudio::AudioServerEvent;
use crate::server::audio::AudioEvent;
use std::collections::VecDeque;
use vstd::prelude::*;

verus! {

/// Events from PulseAudio callbacks to the PulseAudio thread.
#[derive(Debug)]
pub enum PAEvent {
    ContextStateChanged,
    SinkInfo { description: String, monitor_source: String },
    OperationCompleted,
    StreamManagerQuitReady,
    RecordingStreamEvent(PARecordingStreamEvent),
}

/// State of the PulseAudio context.
#[derive(Debug, PartialEq, Eq, Structural)]
pub enum ContextState {
    Unconnected,
    Connecting,
    Authorizing,
    SettingName,
    Ready,
    Failed,
    Terminated,
}

/// One result of listing the sinks.
#[derive(Debug)]
pub enum SinkListResult {
    Item { description: Option<String>, monitor_source_name: Option<String> },
    End,
    Error,
}

/// What follows a change of the context state. `H` is the audio send
/// handle carried by queued events.
#[derive(Debug)]
pub enum ContextAction<H> {
    /// The context became ready: send these waiting events again, in this
    /// order, then list the monitor sources.
    Ready(Vec<AudioServerEvent<H>>),
    /// Print that the context failed.
    ReportFailed,
    /// The context terminated: print it and send `PAQuitReady`.
    Terminated,
    Nothing,
}

/// What follows a PulseAudio event. `O` is a pending PulseAudio operation.
#[derive(Debug)]
pub enum PAEventAction<O> {
    /// Look up the context state and handle it.
    CheckContextState,
    /// Print a sink and its monitor source.
    PrintSinkInfo { description: String, monitor_source: String },
    /// The operation ended; this is the operation that was kept alive.
    OperationEnded(Option<O>),
    /// Handle this for the recording stream.
    Stream(RecordingEventAction),
    /// The stream manager finished quitting: disconnect the context.
    DisconnectContext,
}

/// The event that one result of listing the sinks is reported as: a sink
/// with a description and a monitor source is reported, the end of the list
/// completes the operation, anything else is dropped.
pub fn sink_list_event(result: SinkListResult) -> (r: Option<PAEvent>)
    ensures
        result matches SinkListResult::Item { description: Some(d), monitor_source_name: Some(m) }
            ==> r == Some(PAEvent::SinkInfo { description: d, monitor_source: m }),
        result matches SinkListResult::Item { description: None, .. } ==> r is None,
        result matches SinkListResult::Item { monitor_source_name: None, .. } ==> r is None,
        result is End ==> r == Some(PAEvent::OperationCompleted),
        result is Error ==> r is None,
{
    match result {
        SinkListResult::Item { description: Some(description), monitor_source_name: Some(monitor) } => {
            Some(PAEvent::SinkInfo { description, monitor_source: monitor })
        },
        SinkListResult::Item { .. } => None,
        SinkListResult::End => Some(PAEvent::OperationCompleted),
        SinkListResult::Error => None,
    }
}

/// The PulseAudio thread's state. `H` is the audio send handle, `O` a
/// pending PulseAudio operation that must stay alive until it completes.
pub struct PAState<H, O> {
    context_ready: bool,
    current_operation: Option<O>,
    stream_manager: PAStreamManager,
    wait_context_event_queue: VecDeque<AudioServerEvent<H>>,
}

impl<H, O> PAState<H, O> {
    /// Whether the context is ready.
    pub closed spec fn ready(&self) -> bool {
        self.context_ready
    }

    /// Events that wait for the context to become ready, oldest first.
    pub closed spec fn waiting(&self) -> Seq<AudioServerEvent<H>> {
        self.wait_context_event_queue@
    }

    /// The operation kept alive until it completes.
    pub closed spec fn operation(&self) -> Option<O> {
        self.current_operation
    }

    /// The recording stream manager.
    pub closed spec fn streams(&self) -> PAStreamManager {
        self.stream_manager
    }

    /// A state whose context is not ready yet, with nothing waiting.
    pub fn new() -> (r: Self)
        ensures
            !r.ready(),
            r.waiting() == Seq::<AudioServerEvent<H>>::empty(),
            r.operation() is None,
            !r.streams().spec_recording(),
            r.streams().buffered() == Seq::<u8>::empty(),
    {
        PAState {
            context_ready: false,
            current_operation: None,
            stream_manager: PAStreamManager::new(),
            wait_context_event_queue: VecDeque::new(),
        }
    }

    /// Handles a new context state. When it becomes ready every waiting
    /// event is handed back in the order it arrived and the queue is
    /// emptied; a failed, terminated or (re)connecting context is not ready;
    /// setting the name changes nothing.
    pub fn handle_pa_context_state_change(&mut self, state: ContextState) -> (r: ContextAction<H>)
        ensures
            final(self).operation() == old(self).operation(),
            final(self).streams() == old(self).streams(),
            state == ContextState::Ready ==> (final(self).ready() && final(self).waiting()
                == Seq::<AudioServerEvent<H>>::empty() && (r matches ContextAction::Ready(events)
                && events@ == old(self).waiting())),
            state == ContextState::Failed ==> (!final(self).ready() && r is ReportFailed
                && final(self).waiting() == old(self).waiting()),
            state == ContextState::Terminated ==> (!final(self).ready() && r is Terminated
                && final(self).waiting() == old(self).waiting()),
            (state == ContextState::Authorizing || state == ContextState::Connecting || state
                == ContextState::Unconnected) ==> (!final(self).ready() && r is Nothing
                && final(self).waiting() == old(self).waiting()),
            state == ContextState::SettingName ==> (final(self).ready() == old(self).ready()
                && r is Nothing && final(self).waiting() == old(self).waiting()),
    {
        match state {
            ContextState::Ready => {
                self.context_ready = true;
                let mut events: Vec<AudioServerEvent<H>> = Vec::new();
                let ghost queued = self.wait_context_event_queue@;
                loop
                    invariant
                        events@ + self.wait_context_event_queue@ == queued,
                        self.context_ready,
                        self.current_operation == old(self).current_operation,
                        self.stream_manager == old(self).stream_manager,
                        queued == old(self).wait_context_event_queue@,
                    ensures
                        events@ == queued,
                        self.wait_context_event_queue@.len() == 0,
                        self.context_ready,
                        self.current_operation == old(self).current_operation,
                        self.stream_manager == old(self).stream_manager,
                    decreases self.wait_context_event_queue@.len(),
                {
                    let next = self.wait_context_event_queue.pop_front();
                    match next {
                        Some(event) => {
                            events.push(event);
                            assert(events@ + self.wait_context_event_queue@ =~= queued);
                        },
                        None => {
                            assert(events@ =~= queued);
                            assert(self.wait_context_event_queue@.len() == 0);
                            break;
                        },
                    }
                }
                ContextAction::Ready(events)
            },
            ContextState::Failed => {
                self.context_ready = false;
                ContextAction::ReportFailed
            },
            ContextState::Terminated => {
                self.context_ready = false;
                ContextAction::Terminated
            },
            ContextState::Authorizing | ContextState::Connecting | ContextState::Unconnected => {
                self.context_ready = false;
                ContextAction::Nothing
            },
            ContextState::SettingName => ContextAction::Nothing,
        }
    }

    /// Keeps the operation that lists the sinks alive until it completes.
    pub fn set_current_operation(&mut self, operation: O)
        ensures
            final(self).operation() == Some(operation),
            final(self).ready() == old(self).ready(),
            final(self).waiting() == old(self).waiting(),
            final(self).streams() == old(self).streams(),
    {
        self.current_operation = Some(operation);
    }

    /// What a PulseAudio event asks for.
    pub open spec fn spec_pa_event_action(self, event: PAEvent) -> PAEventAction<O> {
        match event {
            PAEvent::ContextStateChanged => PAEventAction::CheckContextState,
            PAEvent::SinkInfo { description, monitor_source } => PAEventAction::PrintSinkInfo {
                description,
                monitor_source,
            },
            PAEvent::OperationCompleted => PAEventAction::OperationEnded(self.operation()),
            PAEvent::RecordingStreamEvent(e) => PAEventAction::Stream(
                self.streams().spec_handle_recording_stream_event(e),
            ),
            PAEvent::StreamManagerQuitReady => PAEventAction::DisconnectContext,
        }
    }

    /// Handles a PulseAudio event. Recording stream events need the stream,
    /// except a move.
    pub fn handle_pa_event(&mut self, event: PAEvent) -> (r: PAEventAction<O>)
        requires
            event matches PAEvent::RecordingStreamEvent(e) ==> (!(e is Moved) ==> old(self).streams().spec_recording()),
        ensures
            final(self).ready() == old(self).ready(),
            final(self).waiting() == old(self).waiting(),
            final(self).streams() == old(self).streams(),
            r == old(self).spec_pa_event_action(event),
            event is ContextStateChanged ==> (r is CheckContextState && final(self).operation()
                == old(self).operation()),
            event matches PAEvent::SinkInfo { description, monitor_source } ==> (r
                == PAEventAction::<O>::PrintSinkInfo { description, monitor_source } && final(self).operation() == old(self).operation()),
            event is OperationCompleted ==> (r == PAEventAction::OperationEnded(old(self).operation())
                && final(self).operation() is None),
            event matches PAEvent::RecordingStreamEvent(e) ==> (final(self).operation() == old(self).operation() && r == PAEventAction::<O>::Stream(
                old(self).streams().spec_handle_recording_stream_event(e),
            )),
            event is StreamManagerQuitReady ==> (r is DisconnectContext && final(self).operation()
                == old(self).operation()),
    {
        match event {
            PAEvent::ContextStateChanged => PAEventAction::CheckContextState,
            PAEvent::SinkInfo { description, monitor_source } => {
                PAEventAction::PrintSinkInfo { description, monitor_source }
            },
            PAEvent::OperationCompleted => PAEventAction::OperationEnded(self.current_operation.take()),
            PAEvent::RecordingStreamEvent(e) => {
                PAEventAction::Stream(self.stream_manager.handle_recording_stream_event(e))
            },
            PAEvent::StreamManagerQuitReady => PAEventAction::DisconnectContext,
        }
    }

    /// Starts recording into `send_handle` when the context is ready: the
    /// handle, the source to record (the default one when none is named)
    /// and whether to encode are given back to create the stream with.
    /// Otherwise the request waits, as an audio event that keeps the handle
    /// and the sample rate, until the context is ready.
    pub fn start_recording(
        &mut self,
        source_name: Option<String>,
        send_handle: H,
        encode_opus: bool,
        sample_rate: u32,
    ) -> (r: Option<(H, Option<String>, bool)>)
        ensures
            final(self).ready() == old(self).ready(),
            final(self).operation() == old(self).operation(),
            final(self).streams() == old(self).streams(),
            old(self).ready() ==> (r == Some((send_handle, source_name, encode_opus)) && final(
                self).waiting() == old(self).waiting()),
            !old(self).ready() ==> (r is None && final(self).waiting() == old(self).waiting().push(
                AudioServerEvent::AudioEvent(
                    AudioEvent::StartRecording { send_handle, sample_rate },
                ),
            )),
    {
        if self.context_ready {
            Some((send_handle, source_name, encode_opus))
        } else {
            self.wait_context_event_queue.push_back(
                AudioServerEvent::AudioEvent(AudioEvent::StartRecording { send_handle, sample_rate }),
            );
            None
        }
    }

    /// A recording stream was created for a started recording.
    pub fn record_stream_started(&mut self)
        ensures
            final(self).ready() == old(self).ready(),
            final(self).waiting() == old(self).waiting(),
            final(self).operation() == old(self).operation(),
            final(self).streams().spec_recording(),
            final(self).streams().buffered() == Seq::<u8>::empty(),
            final(self).streams().recording_enabled(),
            final(self).streams().spec_quit_requested() == old(self).streams().spec_quit_requested(),
    {
        self.stream_manager.record_stream_started();
    }

    /// Stopping the recording disconnects the stream, if one exists.
    pub fn stop_recording(&self) -> (r: bool)
        ensures
            r == self.streams().spec_recording(),
    {
        self.stream_manager.stop_recording()
    }

    /// A quit request goes to the stream manager.
    pub fn request_quit(&mut self) -> (r: QuitAction)
        ensures
            final(self).ready() == old(self).ready(),
            final(self).waiting() == old(self).waiting(),
            final(self).operation() == old(self).operation(),
            final(self).streams() == old(self).streams().spec_after_quit_request(),
            final(self).streams().spec_quit_requested(),
            final(self).streams().spec_recording() == old(self).streams().spec_recording(),
            final(self).streams().buffered() == old(self).streams().buffered(),
            r == if old(self).streams().spec_recording() {
                QuitAction::DisconnectStream
            } else {
                QuitAction::SendQuitReady
            },
    {
        self.stream_manager.request_quit()
    }

    /// The stream manager, for handling the stream's state and data.
    pub fn stream_manager(&mut self) -> (r: &mut PAStreamManager)
        ensures
            *r == old(self).streams(),
            final(self).streams() == *final(r),
            final(self).ready() == old(self).ready(),
            final(self).waiting() == old(self).waiting(),
            final(self).operation() == old(self).operation(),
    {
        &mut self.stream_manager
    }
}


/// What a PulseAudio event asks for: the pending operation is handed back
/// exactly when an operation completes; a sink's description and monitor
/// source are printed as they came; the context is disconnected exactly
/// when the stream manager is ready to quit; the context state is checked
/// exactly when it changed; stream events go to the stream manager.
pub proof fn law_pa_events<H, O>(s: PAState<H, O>, event: PAEvent)
    ensures
        (s.spec_pa_event_action(event) matches PAEventAction::OperationEnded(op)) <==> event is OperationCompleted,
        event is OperationCompleted ==> s.spec_pa_event_action(event) == PAEventAction::OperationEnded(s.operation()),
        s.spec_pa_event_action(event) is DisconnectContext <==> event is StreamManagerQuitReady,
        s.spec_pa_event_action(event) is CheckContextState <==> event is ContextStateChanged,
        s.spec_pa_event_action(event) is Stream <==> event is RecordingStreamEvent,
        event matches PAEvent::SinkInfo { description, monitor_source } ==> s.spec_pa_event_action(event)
            == (PAEventAction::<O>::PrintSinkInfo { description, monitor_source }),
        event matches PAEvent::RecordingStreamEvent(e) ==> s.spec_pa_event_action(event)
            == PAEventAction::<O>::Stream(s.streams().spec_handle_recording_stream_event(e)),
{
}

} // verus!
