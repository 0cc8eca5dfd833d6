//! The server loop: the states of the audio server and the device manager,
//! and what the loop does with each server event.
pub mod device;

use crate::logic::server::device::{DeviceManagerError, DmTcpSupportDisabled};
use crate::logic::Event;
use vstd::prelude::*;

verus! {

/// Events from the audio server. `S` sends events to the audio server.
#[derive(Debug)]
pub enum AudioEvent<S> {
    AudioServerInit(S),
    AudioServerClosed,
}

/// Events from the device manager.
#[derive(Debug)]
pub enum DMEvent {
    /// Device manager will be closed after this event.
    DeviceManagerError(DeviceManagerError),
    TcpSupportDisabledBecauseOfError(DmTcpSupportDisabled),
    DMClosed,
}

/// Events of the server loop.
#[derive(Debug)]
pub enum ServerEvent<S> {
    RequestQuit,
    SendMessage,
    QuitProgressCheck,
    AudioServerStateChange,
    DMStateChange,
    DMEvent(DMEvent),
    AudioEvent(AudioEvent<S>),
}

/// Which server components still run.
#[derive(Debug, PartialEq, Eq, Structural)]
pub struct ServerStatus {
    audio_server_is_running: bool,
    device_manager_is_running: bool,
}

impl ServerStatus {
    /// Whether the audio server runs.
    pub closed spec fn audio_running(&self) -> bool {
        self.audio_server_is_running
    }

    /// Whether the device manager runs.
    pub closed spec fn device_manager_running(&self) -> bool {
        self.device_manager_is_running
    }

    /// Creates new ServerStatus with status running.
    pub fn new() -> (r: Self)
        ensures
            r.audio_running(),
            r.device_manager_running(),
    {
        ServerStatus { audio_server_is_running: true, device_manager_is_running: true }
    }

    /// The audio server closed.
    pub fn set_audio_server_status_to_closed(&mut self)
        ensures
            !final(self).audio_running(),
            final(self).device_manager_running() == old(self).device_manager_running(),
    {
        self.audio_server_is_running = false;
    }

    /// The device manager closed.
    pub fn set_device_manager_status_to_closed(&mut self)
        ensures
            !final(self).device_manager_running(),
            final(self).audio_running() == old(self).audio_running(),
    {
        self.device_manager_is_running = false;
    }

    /// True when neither component runs.
    pub fn all_server_components_are_closed(&self) -> (r: bool)
        ensures
            r == (!self.audio_running() && !self.device_manager_running()),
    {
        !self.audio_server_is_running && !self.device_manager_is_running
    }
}

/// What handling an audio server event asks of the loop. `T` is the audio
/// thread.
#[derive(Debug)]
pub struct AudioStateChange<T> {
    /// Send `AudioServerStateChange` to the loop itself: the audio server
    /// started running or closed.
    pub notify_state_change: bool,
    /// Send `RequestQuit` to the audio server, which was asked to quit
    /// before it could be told.
    pub send_request_quit: bool,
    /// Join this audio thread, which has finished.
    pub join_thread: Option<T>,
}

/// The audio server as the server loop sees it. `T` is the audio thread,
/// `S` sends events to the audio server.
#[derive(Debug)]
pub enum AudioServerState<T, S> {
    /// Started; waiting for the sender that the audio server hands out
    /// first. A quit request received meanwhile is kept.
    WaitingEventSender { thread: T, quit_requested: bool },
    Running { sender: S, thread: T },
    Closed,
}

impl<T, S> AudioServerState<T, S> {
    /// An audio server that was just started.
    pub fn new(thread: T) -> (r: Self)
        ensures
            r == (AudioServerState::<T, S>::WaitingEventSender { thread, quit_requested: false }),
    {
        AudioServerState::WaitingEventSender { thread, quit_requested: false }
    }

    /// The events that the audio server sends, in the only order it sends
    /// them: first its sender, then that it closed.
    pub open spec fn accepts(&self, event: AudioEvent<S>) -> bool {
        match (self, event) {
            (AudioServerState::WaitingEventSender { .. }, AudioEvent::AudioServerInit(_)) => true,
            (AudioServerState::Running { .. }, AudioEvent::AudioServerClosed) => true,
            _ => false,
        }
    }

    /// The state after an accepted event.
    pub open spec fn spec_after(self, event: AudioEvent<S>) -> Self {
        match (self, event) {
            (
                AudioServerState::WaitingEventSender { thread, .. },
                AudioEvent::AudioServerInit(sender),
            ) => AudioServerState::Running { sender, thread },
            _ => AudioServerState::Closed,
        }
    }

    /// Whether a quit request is to be forwarded once the sender arrives.
    pub open spec fn quit_pending(&self) -> bool {
        match self {
            AudioServerState::WaitingEventSender { quit_requested, .. } => *quit_requested,
            _ => false,
        }
    }

    /// Handles an event of the audio server. The sender makes the server
    /// run, and a quit requested before is sent then; the close joins the
    /// audio thread. An event out of that order is a logic error.
    pub fn handle_event(self, audio_event: AudioEvent<S>) -> (r: (Self, AudioStateChange<T>))
        requires
            self.accepts(audio_event),
        ensures
            r.0 == self.spec_after(audio_event),
            r.1.notify_state_change,
            r.1.send_request_quit == self.quit_pending(),
            r.1.join_thread == match self {
                AudioServerState::Running { thread, .. } => Some(thread),
                _ => None,
            },
    {
        match self {
            AudioServerState::WaitingEventSender { thread, quit_requested } => {
                match audio_event {
                    AudioEvent::AudioServerInit(sender) => (
                        AudioServerState::Running { sender, thread },
                        AudioStateChange { notify_state_change: true, send_request_quit: quit_requested, join_thread: None },
                    ),
                    AudioEvent::AudioServerClosed => (
                        AudioServerState::Closed,
                        AudioStateChange { notify_state_change: true, send_request_quit: false, join_thread: None },
                    ),
                }
            },
            AudioServerState::Running { sender, thread } => (
                AudioServerState::Closed,
                AudioStateChange { notify_state_change: true, send_request_quit: false, join_thread: Some(thread) },
            ),
            AudioServerState::Closed => (
                AudioServerState::Closed,
                AudioStateChange { notify_state_change: true, send_request_quit: false, join_thread: None },
            ),
        }
    }

    /// Whether the audio server runs.
    pub fn running(&self) -> (r: bool)
        ensures
            r == (self is Running),
    {
        match self {
            AudioServerState::Running { .. } => true,
            _ => false,
        }
    }

    /// Whether the audio server has closed.
    pub fn closed(&self) -> (r: bool)
        ensures
            r == (self is Closed),
    {
        match self {
            AudioServerState::Closed => true,
            _ => false,
        }
    }

    /// The state after a quit request.
    pub open spec fn spec_after_quit_request(self) -> Self {
        match self {
            AudioServerState::WaitingEventSender { thread, .. } => {
                AudioServerState::WaitingEventSender { thread, quit_requested: true }
            },
            s => s,
        }
    }

    /// A quit request: a waiting server keeps it for later; a running
    /// server is sent `RequestQuit` (the result says whether); a closed
    /// server needs nothing.
    pub fn request_quit(&mut self) -> (r: bool)
        ensures
            *final(self) == old(self).spec_after_quit_request(),
            r == (*old(self) is Running),
    {
        match self {
            AudioServerState::WaitingEventSender { quit_requested, .. } => {
                *quit_requested = true;
                false
            },
            AudioServerState::Running { .. } => true,
            AudioServerState::Closed => false,
        }
    }
}

/// A quit requested before the audio server handed out its sender is not
/// lost: when the sender arrives the server runs and is sent `RequestQuit`.
pub proof fn law_quit_before_init_is_forwarded<T, S>(thread: T, quit_requested: bool, sender: S)
    ensures
        ({
            let waiting = AudioServerState::<T, S>::WaitingEventSender { thread, quit_requested };
            let asked = waiting.spec_after_quit_request();
            &&& asked.accepts(AudioEvent::AudioServerInit(sender))
            &&& asked.quit_pending()
            &&& asked.spec_after(AudioEvent::AudioServerInit(sender)) == (AudioServerState::<T, S>::Running { sender, thread })
        }),
{
}

/// What handling a device manager event asks of the loop.
/// `H` is the device manager task.
#[derive(Debug)]
pub enum DMStateAction<H> {
    Nothing,
    /// Print that TCP support was disabled; the device manager goes on.
    ReportTcpSupportDisabled(DmTcpSupportDisabled),
    /// Print the error; the device manager is closed. Send `DMStateChange`.
    ClosedAfterError(DeviceManagerError),
    /// Wait for this device manager task to end; it is closed. Send
    /// `DMStateChange`.
    ClosedAfterQuit(H),
}

/// The device manager as the server loop sees it. `H` is its task, `D`
/// sends events to it.
#[derive(Debug)]
pub enum DMState<H, D> {
    Running { handle: H, dm_sender: D },
    Closed,
}

impl<H, D> DMState<H, D> {
    /// Handles an event of the device manager. An error or the close end
    /// the running device manager; disabled TCP support is only reported.
    /// A closed device manager ignores events.
    pub fn handle_dm_event(&mut self, e: DMEvent) -> (r: DMStateAction<H>)
        ensures
            *old(self) is Closed ==> (*final(self) is Closed && r is Nothing),
            *old(self) is Running ==> match e {
                DMEvent::DeviceManagerError(err) => *final(self) is Closed && r
                    == DMStateAction::<H>::ClosedAfterError(err),
                DMEvent::TcpSupportDisabledBecauseOfError(err) => *final(self) == *old(self) && r
                    == DMStateAction::<H>::ReportTcpSupportDisabled(err),
                DMEvent::DMClosed => *final(self) is Closed && r == DMStateAction::<H>::ClosedAfterQuit(
                    old(self)->handle,
                ),
            },
    {
        if let DMState::Closed = self {
            return DMStateAction::Nothing;
        }
        match e {
            DMEvent::TcpSupportDisabledBecauseOfError(err) => {
                DMStateAction::ReportTcpSupportDisabled(err)
            },
            DMEvent::DeviceManagerError(err) => {
                *self = DMState::Closed;
                DMStateAction::ClosedAfterError(err)
            },
            DMEvent::DMClosed => {
                let mut old_state = DMState::Closed;
                std::mem::swap(&mut old_state, self);
                match old_state {
                    DMState::Running { handle, .. } => DMStateAction::ClosedAfterQuit(handle),
                    DMState::Closed => DMStateAction::Nothing,
                }
            },
        }
    }

    /// Whether the device manager has closed.
    pub fn closed(&self) -> (r: bool)
        ensures
            r == (self is Closed),
    {
        match self {
            DMState::Closed => true,
            _ => false,
        }
    }

    /// A quit request is sent to a running device manager (the result says
    /// whether).
    pub fn request_quit(&self) -> (r: bool)
        ensures
            r == (self is Running),
    {
        match self {
            DMState::Running { .. } => true,
            DMState::Closed => false,
        }
    }
}

/// A command for the audio server.
#[derive(Debug)]
pub enum AudioServerCommand {
    RequestQuit,
    StartRecording { source_name: String },
}

/// One thing that the server loop does. `T` is the audio thread, `S` sends
/// events to the audio server, `H` is the device manager task.
#[derive(Debug)]
pub enum ServerAction<T, S, H> {
    /// Send this event to the loop itself.
    Requeue(ServerEvent<S>),
    /// Send this command to the running audio server.
    ToAudioServer(AudioServerCommand),
    /// Send `RequestQuit` to the running device manager.
    RequestDeviceManagerQuit,
    /// Send this event to the UI.
    ToUi(Event),
    /// Join the finished audio thread.
    JoinAudioThread(T),
    /// Wait for the device manager task to end.
    AwaitDeviceManager(H),
    /// Print a device manager error.
    ReportDeviceManagerError(DeviceManagerError),
    /// Print that TCP support was disabled.
    ReportTcpSupportDisabled(DmTcpSupportDisabled),
    /// Leave the loop: every component is closed.
    Exit,
}

/// The actions of an audio server event handled in state `audio`.
pub open spec fn audio_event_actions<T, S, H>(audio: AudioServerState<T, S>) -> Seq<ServerAction<T, S, H>> {
    let quit: Seq<ServerAction<T, S, H>> = if audio.quit_pending() {
        seq![ServerAction::ToAudioServer(AudioServerCommand::RequestQuit)]
    } else {
        Seq::empty()
    };
    let join: Seq<ServerAction<T, S, H>> = match audio {
        AudioServerState::Running { thread, .. } => seq![ServerAction::JoinAudioThread(thread)],
        _ => Seq::empty(),
    };
    quit + join + seq![ServerAction::Requeue(ServerEvent::AudioServerStateChange)]
}

/// The server loop: the audio server, the device manager, whether a quit
/// was requested, and the PulseAudio source to record once the audio
/// server runs.
pub struct AsyncServer<T, S, H, D> {
    pub audio: AudioServerState<T, S>,
    pub dm: DMState<H, D>,
    pub quit_requested: bool,
    pub pa_source_name: Option<String>,
}

impl<T, S, H, D> AsyncServer<T, S, H, D> {
    /// A loop over freshly started components, with no quit requested.
    pub fn new(audio: AudioServerState<T, S>, dm: DMState<H, D>, pa_source_name: Option<String>) -> (r:
        Self)
        ensures
            r.audio == audio,
            r.dm == dm,
            !r.quit_requested,
            r.pa_source_name == pa_source_name,
    {
        AsyncServer { audio, dm, quit_requested: false, pa_source_name }
    }

    /// One step of the server loop: the loop in state `before` handles
    /// `event`, is then in state `after` and does the actions `r`, in order.
    pub open spec fn spec_step(
        before: Self,
        event: ServerEvent<S>,
        after: Self,
        r: Seq<ServerAction<T, S, H>>,
    ) -> bool {
        &&& after.pa_source_name == before.pa_source_name
        &&& match event {
            ServerEvent::AudioEvent(e) => {
                &&& after.audio == before.audio.spec_after(e)
                &&& after.dm == before.dm
                &&& after.quit_requested == before.quit_requested
                &&& r =~= audio_event_actions::<T, S, H>(before.audio)
            },
            ServerEvent::DMEvent(e) => {
                &&& after.audio == before.audio
                &&& after.quit_requested == before.quit_requested
                &&& (before.dm is Closed ==> (after.dm is Closed && r.len() == 0))
                &&& (before.dm is Running ==> match e {
                    DMEvent::DeviceManagerError(err) => after.dm is Closed && r =~= seq![
                        ServerAction::<T, S, H>::ReportDeviceManagerError(err),
                        ServerAction::Requeue(ServerEvent::DMStateChange),
                    ],
                    DMEvent::TcpSupportDisabledBecauseOfError(err) => after.dm == before.dm
                        && r =~= seq![ServerAction::<T, S, H>::ReportTcpSupportDisabled(err)],
                    DMEvent::DMClosed => after.dm is Closed && r =~= seq![
                        ServerAction::<T, S, H>::AwaitDeviceManager(before.dm->handle),
                        ServerAction::Requeue(ServerEvent::DMStateChange),
                    ],
                })
            },
            ServerEvent::DMStateChange => {
                &&& after.audio == before.audio
                &&& after.dm == before.dm
                &&& after.quit_requested == before.quit_requested
                &&& r =~= if before.dm is Closed && before.quit_requested {
                    seq![ServerAction::<T, S, H>::Requeue(ServerEvent::QuitProgressCheck)]
                } else {
                    Seq::empty()
                }
            },
            ServerEvent::AudioServerStateChange => {
                &&& after.audio == before.audio
                &&& after.dm == before.dm
                &&& after.quit_requested == before.quit_requested
                &&& match before.audio {
                    AudioServerState::WaitingEventSender { .. } => r.len() == 0,
                    AudioServerState::Running { .. } => match before.pa_source_name {
                        Some(name) => r.len() == 2 && (r[0] matches ServerAction::ToAudioServer(
                            AudioServerCommand::StartRecording { source_name },
                        ) && source_name@ == name@) && r[1] == ServerAction::<T, S, H>::ToUi(
                            Event::InitEnd,
                        ),
                        None => r =~= seq![ServerAction::<T, S, H>::ToUi(Event::InitEnd)],
                    },
                    AudioServerState::Closed => r =~= if before.quit_requested {
                        seq![ServerAction::<T, S, H>::Requeue(ServerEvent::QuitProgressCheck)]
                    } else {
                        Seq::empty()
                    },
                }
            },
            ServerEvent::RequestQuit => {
                &&& after.quit_requested
                &&& after.audio == before.audio.spec_after_quit_request()
                &&& after.dm == before.dm
                &&& r =~= (if before.audio is Running {
                    seq![ServerAction::<T, S, H>::ToAudioServer(AudioServerCommand::RequestQuit)]
                } else {
                    Seq::empty()
                }) + (if before.dm is Running {
                    seq![ServerAction::<T, S, H>::RequestDeviceManagerQuit]
                } else {
                    Seq::empty()
                }) + seq![ServerAction::Requeue(ServerEvent::QuitProgressCheck)]
            },
            ServerEvent::QuitProgressCheck => {
                &&& after.audio == before.audio
                &&& after.dm == before.dm
                &&& after.quit_requested == before.quit_requested
                &&& r =~= if before.audio is Closed && before.dm is Closed {
                    seq![ServerAction::<T, S, H>::Exit, ServerAction::ToUi(Event::CloseProgram)]
                } else {
                    Seq::empty()
                }
            },
            ServerEvent::SendMessage => {
                &&& after.audio == before.audio
                &&& after.dm == before.dm
                &&& after.quit_requested == before.quit_requested
                &&& r.len() == 1
                &&& r[0] matches ServerAction::ToUi(Event::Message(m))
                &&& m@ == "Test message"@
            },
        }
    }

    /// Handles one event of the server loop and returns what to do, in
    /// order. The loop ends after `Exit`, and then sends `CloseProgram` to
    /// the UI.
    pub fn handle_event(&mut self, event: ServerEvent<S>) -> (r: Vec<ServerAction<T, S, H>>)
        requires
            event matches ServerEvent::AudioEvent(e) ==> old(self).audio.accepts(e),
        ensures
            Self::spec_step(*old(self), event, *final(self), r@),
    {
        let mut actions: Vec<ServerAction<T, S, H>> = Vec::new();
        match event {
            ServerEvent::AudioEvent(e) => {
                let mut audio = AudioServerState::Closed;
                std::mem::swap(&mut audio, &mut self.audio);
                let (new_audio, change) = audio.handle_event(e);
                self.audio = new_audio;
                if change.send_request_quit {
                    actions.push(ServerAction::ToAudioServer(AudioServerCommand::RequestQuit));
                }
                match change.join_thread {
                    Some(thread) => actions.push(ServerAction::JoinAudioThread(thread)),
                    None => {},
                }
                if change.notify_state_change {
                    actions.push(ServerAction::Requeue(ServerEvent::AudioServerStateChange));
                }
                proof {
                    assert(actions@ =~= audio_event_actions::<T, S, H>(old(self).audio));
                }
            },
            ServerEvent::DMEvent(e) => {
                match self.dm.handle_dm_event(e) {
                    DMStateAction::Nothing => {},
                    DMStateAction::ReportTcpSupportDisabled(err) => {
                        actions.push(ServerAction::ReportTcpSupportDisabled(err));
                    },
                    DMStateAction::ClosedAfterError(err) => {
                        actions.push(ServerAction::ReportDeviceManagerError(err));
                        actions.push(ServerAction::Requeue(ServerEvent::DMStateChange));
                    },
                    DMStateAction::ClosedAfterQuit(handle) => {
                        actions.push(ServerAction::AwaitDeviceManager(handle));
                        actions.push(ServerAction::Requeue(ServerEvent::DMStateChange));
                    },
                }
            },
            ServerEvent::DMStateChange => {
                if self.dm.closed() && self.quit_requested {
                    actions.push(ServerAction::Requeue(ServerEvent::QuitProgressCheck));
                }
            },
            ServerEvent::AudioServerStateChange => {
                match &self.audio {
                    AudioServerState::WaitingEventSender { .. } => {},
                    AudioServerState::Running { .. } => {
                        match &self.pa_source_name {
                            Some(name) => {
                                let source_name = name.clone();
                                actions.push(
                                    ServerAction::ToAudioServer(
                                        AudioServerCommand::StartRecording { source_name },
                                    ),
                                );
                            },
                            None => {},
                        }
                        actions.push(ServerAction::ToUi(Event::InitEnd));
                    },
                    AudioServerState::Closed => {
                        if self.quit_requested {
                            actions.push(ServerAction::Requeue(ServerEvent::QuitProgressCheck));
                        }
                    },
                }
            },
            ServerEvent::RequestQuit => {
                self.quit_requested = true;
                if self.audio.request_quit() {
                    actions.push(ServerAction::ToAudioServer(AudioServerCommand::RequestQuit));
                }
                if self.dm.request_quit() {
                    actions.push(ServerAction::RequestDeviceManagerQuit);
                }
                // Check at once, for the case that every component is closed already.
                actions.push(ServerAction::Requeue(ServerEvent::QuitProgressCheck));
            },
            ServerEvent::QuitProgressCheck => {
                if self.audio.closed() && self.dm.closed() {
                    actions.push(ServerAction::Exit);
                    actions.push(ServerAction::ToUi(Event::CloseProgram));
                }
            },
            ServerEvent::SendMessage => {
                let text = "Test message".to_owned();
                proof {
                    reveal_strlit("Test message");
                }
                actions.push(ServerAction::ToUi(Event::Message(text)));
            },
        }
        actions
    }
}


/// Whether an action sends `CloseProgram` to the UI.
pub open spec fn closes_program<T, S, H>(a: ServerAction<T, S, H>) -> bool {
    a matches ServerAction::ToUi(Event::CloseProgram)
}

/// The actions of a run of the loop, step after step.
pub open spec fn run_actions<T, S, H>(steps: Seq<Seq<ServerAction<T, S, H>>>) -> Seq<ServerAction<T, S, H>>
    decreases steps.len(),
{
    if steps.len() == 0 {
        Seq::empty()
    } else {
        run_actions(steps.drop_last()) + steps.last()
    }
}

/// `CloseProgram` and `Exit` come only together, from a quit progress check
/// that finds both components closed.
pub proof fn lemma_step_closes_only_when_all_closed<T, S, H, D>(
    before: AsyncServer<T, S, H, D>,
    event: ServerEvent<S>,
    after: AsyncServer<T, S, H, D>,
    r: Seq<ServerAction<T, S, H>>,
)
    requires
        AsyncServer::spec_step(before, event, after, r),
    ensures
        (exists|k: int| 0 <= k < r.len() && (closes_program(#[trigger] r[k]) || r[k] is Exit)) ==> {
            &&& r =~= seq![ServerAction::<T, S, H>::Exit, ServerAction::ToUi(Event::CloseProgram)]
            &&& event is QuitProgressCheck
            &&& before.audio is Closed
            &&& before.dm is Closed
        },
{
    if !(event is QuitProgressCheck) {
        assert forall|k: int| 0 <= k < r.len() implies !(closes_program(#[trigger] r[k]) || r[k] is Exit) by {
            match event {
                ServerEvent::AudioEvent(_) => {
                    let quit: Seq<ServerAction<T, S, H>> = if before.audio.quit_pending() {
                        seq![ServerAction::ToAudioServer(AudioServerCommand::RequestQuit)]
                    } else {
                        Seq::empty()
                    };
                    let join: Seq<ServerAction<T, S, H>> = match before.audio {
                        AudioServerState::Running { thread, .. } => seq![ServerAction::JoinAudioThread(thread)],
                        _ => Seq::empty(),
                    };
                    assert(r =~= quit + join + seq![ServerAction::Requeue(ServerEvent::AudioServerStateChange)]);
                    if k < quit.len() {
                        assert(r[k] == quit[k]);
                    } else if k < quit.len() + join.len() {
                        assert(r[k] == join[k - quit.len()]);
                    }
                },
                ServerEvent::RequestQuit => {
                    let a: Seq<ServerAction<T, S, H>> = if before.audio is Running {
                        seq![ServerAction::<T, S, H>::ToAudioServer(AudioServerCommand::RequestQuit)]
                    } else {
                        Seq::empty()
                    };
                    let d: Seq<ServerAction<T, S, H>> = if before.dm is Running {
                        seq![ServerAction::<T, S, H>::RequestDeviceManagerQuit]
                    } else {
                        Seq::empty()
                    };
                    if k < a.len() {
                        assert(r[k] == a[k]);
                    } else if k < a.len() + d.len() {
                        assert(r[k] == d[k - a.len()]);
                    }
                },
                _ => {},
            }
        }
    }
}

/// No step of the run has an action that sends `CloseProgram`.
proof fn lemma_run_without_close<T, S, H>(steps: Seq<Seq<ServerAction<T, S, H>>>)
    requires
        forall|i: int, k: int| 0 <= i < steps.len() && 0 <= k < steps[i].len() ==> !closes_program(#[trigger] steps[i][k]),
    ensures
        forall|j: int| 0 <= j < run_actions(steps).len() ==> !closes_program(#[trigger] run_actions(steps)[j]),
    decreases steps.len(),
{
    if steps.len() > 0 {
        let prefix = steps.drop_last();
        lemma_run_without_close(prefix);
        let all = run_actions(steps);
        assert(all == run_actions(prefix) + steps.last());
        assert forall|j: int| 0 <= j < all.len() implies !closes_program(#[trigger] all[j]) by {
            if j < run_actions(prefix).len() {
                assert(all[j] == run_actions(prefix)[j]);
            } else {
                assert(all[j] == steps[steps.len() - 1][j - run_actions(prefix).len()]);
            }
        }
    }
}

/// A run of the server loop that stops at its first `Exit` sends
/// `CloseProgram` to the UI at most once, and only as its very last action;
/// it sends it exactly when it exits, and then the last event was a quit
/// progress check that found both the audio server and the device manager
/// closed.
pub proof fn law_close_program_once_and_last<T, S, H, D>(
    states: Seq<AsyncServer<T, S, H, D>>,
    events: Seq<ServerEvent<S>>,
    steps: Seq<Seq<ServerAction<T, S, H>>>,
)
    requires
        events.len() > 0,
        states.len() == events.len() + 1,
        steps.len() == events.len(),
        forall|i: int| 0 <= i < events.len() ==> AsyncServer::spec_step(
            #[trigger] states[i],
            events[i],
            states[i + 1],
            steps[i],
        ),
        forall|i: int, k: int| 0 <= i < events.len() - 1 && 0 <= k < steps[i].len() ==> !(#[trigger] steps[i][k] is Exit),
    ensures
        ({
            let all = run_actions(steps);
            let n = events.len() - 1;
            &&& forall|j: int| 0 <= j < all.len() && closes_program(#[trigger] all[j]) ==> j == all.len() - 1
            &&& (exists|k: int| 0 <= k < steps[n].len() && #[trigger] steps[n][k] is Exit) <==> (all.len()
                > 0 && closes_program(all.last()))
            &&& (all.len() > 0 && closes_program(all.last())) ==> (events[n] is QuitProgressCheck
                && states[n].audio is Closed && states[n].dm is Closed)
        }),
{
    let n = events.len() - 1;
    let prefix = steps.drop_last();
    assert forall|i: int, k: int| 0 <= i < prefix.len() && 0 <= k < prefix[i].len() implies !closes_program(#[trigger] prefix[i][k]) by {
        assert(prefix[i] == steps[i]);
        assert(AsyncServer::spec_step(states[i], events[i], states[i + 1], steps[i]));
        lemma_step_closes_only_when_all_closed(states[i], events[i], states[i + 1], steps[i]);
        if closes_program(steps[i][k]) {
            assert(steps[i][0] is Exit);
        }
    }
    lemma_run_without_close(prefix);
    let all = run_actions(steps);
    let head = run_actions(prefix);
    let last = steps[n];
    assert(all == head + last);
    assert(AsyncServer::spec_step(states[n], events[n], states[n + 1], steps[n]));
    lemma_step_closes_only_when_all_closed(states[n], events[n], states[n + 1], last);
    assert forall|j: int| 0 <= j < all.len() && closes_program(#[trigger] all[j]) implies j == all.len() - 1 by {
        if j < head.len() {
            assert(all[j] == head[j]);
        } else {
            let k = j - head.len();
            assert(all[j] == last[k]);
            assert(last =~= seq![ServerAction::<T, S, H>::Exit, ServerAction::ToUi(Event::CloseProgram)]);
        }
    }
    if exists|k: int| 0 <= k < last.len() && #[trigger] last[k] is Exit {
        let k = choose|k: int| 0 <= k < last.len() && #[trigger] last[k] is Exit;
        assert(closes_program(last[k]) || last[k] is Exit);
        assert(all.last() == last[1]);
    }
    if all.len() > 0 && closes_program(all.last()) {
        if last.len() == 0 {
            assert(all =~= head);
            assert(!closes_program(head[head.len() - 1]));
        } else {
            assert(all.last() == last[last.len() - 1]);
            assert(closes_program(last[last.len() - 1]) || last[last.len() - 1] is Exit);
            assert(last[0] is Exit);
        }
    }
}


/// The audio server's lifecycle as the loop tracks it. A quit request
/// changes nothing for a running or closed audio server (a running one is
/// only sent `RequestQuit`) and is kept by one still waiting for its sender.
/// The sender makes a waiting server run with the same thread; only the
/// close of a running server closes it; a closed server accepts nothing.
pub proof fn law_audio_server_lifecycle<T, S>(s: AudioServerState<T, S>, e: AudioEvent<S>)
    ensures
        !(s is WaitingEventSender) ==> s.spec_after_quit_request() == s,
        s matches AudioServerState::WaitingEventSender { thread, .. } ==> s.spec_after_quit_request()
            == (AudioServerState::<T, S>::WaitingEventSender { thread, quit_requested: true }),
        s.spec_after_quit_request().quit_pending() == (s is WaitingEventSender),
        s.accepts(e) && s.spec_after(e) is Closed ==> (s is Running && e is AudioServerClosed),
        s.accepts(e) && s.spec_after(e) is Running ==> (s is WaitingEventSender && e is AudioServerInit),
        s.accepts(e) ==> !(s.spec_after(e) is WaitingEventSender),
        s matches AudioServerState::WaitingEventSender { thread, .. } ==> (e matches AudioEvent::AudioServerInit(
            sender,
        ) ==> (s.accepts(e) && s.spec_after(e) == (AudioServerState::<T, S>::Running { sender, thread }))),
        s is Running ==> (s.accepts(AudioEvent::AudioServerClosed) && s.spec_after(
            AudioEvent::AudioServerClosed,
        ) is Closed),
        s is Closed ==> !s.accepts(e),
{
}

/// A quit request reaches every running component: a running audio server
/// is told to quit (and keeps running until it closes), a running device
/// manager is told to quit, nothing is told to a component that does not
/// run, and the loop then checks whether it can exit.
pub proof fn law_quit_request_reaches_running_components<T, S, H, D>(
    before: AsyncServer<T, S, H, D>,
    after: AsyncServer<T, S, H, D>,
    r: Seq<ServerAction<T, S, H>>,
)
    requires
        AsyncServer::spec_step(before, ServerEvent::RequestQuit, after, r),
    ensures
        after.quit_requested,
        after.dm == before.dm,
        before.audio is Running ==> after.audio == before.audio,
        before.audio is Running <==> r.contains(
            ServerAction::ToAudioServer(AudioServerCommand::RequestQuit),
        ),
        before.dm is Running <==> r.contains(ServerAction::RequestDeviceManagerQuit),
        r.len() > 0 && r.last() == ServerAction::<T, S, H>::Requeue(ServerEvent::QuitProgressCheck),
        !r.contains(ServerAction::Exit),
{
    law_audio_server_lifecycle(before.audio, AudioEvent::AudioServerClosed);
    let quit_audio = ServerAction::<T, S, H>::ToAudioServer(AudioServerCommand::RequestQuit);
    let quit_dm = ServerAction::<T, S, H>::RequestDeviceManagerQuit;
    let told_audio: Seq<ServerAction<T, S, H>> = if before.audio is Running { seq![quit_audio] } else { Seq::empty() };
    let told_dm: Seq<ServerAction<T, S, H>> = if before.dm is Running { seq![quit_dm] } else { Seq::empty() };
    let check = ServerAction::<T, S, H>::Requeue(ServerEvent::QuitProgressCheck);
    assert(r =~= told_audio + told_dm + seq![check]);
    assert(r[r.len() - 1] == check);
    if before.audio is Running {
        assert(r[0] == quit_audio);
    }
    if before.dm is Running {
        assert(r[told_audio.len() as int] == quit_dm);
    }
    assert forall|k: int| 0 <= k < r.len() implies r[k] != quit_audio || before.audio is Running by {
        if k >= told_audio.len() + told_dm.len() {
            assert(r[k] == check);
        } else if k >= told_audio.len() {
            assert(r[k] == told_dm[k - told_audio.len()]);
        }
    }
    assert forall|k: int| 0 <= k < r.len() implies r[k] != quit_dm || before.dm is Running by {
        if k >= told_audio.len() + told_dm.len() {
            assert(r[k] == check);
        } else if k < told_audio.len() {
            assert(r[k] == told_audio[k]);
        }
    }
    assert forall|k: int| 0 <= k < r.len() implies r[k] != ServerAction::<T, S, H>::Exit by {
        if k >= told_audio.len() + told_dm.len() {
            assert(r[k] == check);
        } else if k < told_audio.len() {
            assert(r[k] == told_audio[k]);
        } else {
            assert(r[k] == told_dm[k - told_audio.len()]);
        }
    }
}

/// A component that closes is announced to the loop: when a running device
/// manager closes or fails, it is closed and a `DMStateChange` follows (a
/// normal close also hands over its task to wait for); every event of the
/// audio server is followed by an `AudioServerStateChange`, and its close
/// hands over its thread to join.
pub proof fn law_closing_components_are_announced<T, S, H, D>(
    before: AsyncServer<T, S, H, D>,
    event: ServerEvent<S>,
    after: AsyncServer<T, S, H, D>,
    r: Seq<ServerAction<T, S, H>>,
)
    requires
        AsyncServer::spec_step(before, event, after, r),
        event matches ServerEvent::AudioEvent(e) ==> before.audio.accepts(e),
    ensures
        event matches ServerEvent::DMEvent(e) ==> (before.dm is Running && (e is DMClosed
            || e is DeviceManagerError) ==> (after.dm is Closed && r.contains(
            ServerAction::Requeue(ServerEvent::DMStateChange),
        ))),
        event matches ServerEvent::DMEvent(DMEvent::DMClosed) ==> (before.dm matches DMState::Running {
            handle,
            ..
        } ==> r.contains(ServerAction::AwaitDeviceManager(handle))),
        event is AudioEvent ==> (r.len() > 0 && r.last() == ServerAction::<T, S, H>::Requeue(
            ServerEvent::AudioServerStateChange,
        )),
        event is AudioEvent ==> (before.audio matches AudioServerState::Running { thread, .. } ==> (
            after.audio is Closed && r.contains(ServerAction::JoinAudioThread(thread)))),
        event is AudioEvent ==> !r.contains(ServerAction::Exit),
{
    let change = ServerAction::<T, S, H>::Requeue(ServerEvent::DMStateChange);
    match event {
        ServerEvent::DMEvent(e) => {
            if before.dm is Running {
                match e {
                    DMEvent::DMClosed => {
                        assert(r[1] == change);
                        assert(r[0] == ServerAction::<T, S, H>::AwaitDeviceManager(before.dm->handle));
                    },
                    DMEvent::DeviceManagerError(_) => {
                        assert(r[1] == change);
                    },
                    _ => {},
                }
            }
        },
        ServerEvent::AudioEvent(e) => {
            let quit: Seq<ServerAction<T, S, H>> = if before.audio.quit_pending() {
                seq![ServerAction::ToAudioServer(AudioServerCommand::RequestQuit)]
            } else {
                Seq::empty()
            };
            let join: Seq<ServerAction<T, S, H>> = match before.audio {
                AudioServerState::Running { thread, .. } => seq![ServerAction::JoinAudioThread(thread)],
                _ => Seq::empty(),
            };
            let last = ServerAction::<T, S, H>::Requeue(ServerEvent::AudioServerStateChange);
            assert(r =~= quit + join + seq![last]);
            assert(r[r.len() - 1] == last);
            if before.audio is Running {
                assert(!before.audio.quit_pending());
                assert(r[0] == join[0]);
            }
            assert forall|k: int| 0 <= k < r.len() implies r[k] != ServerAction::<T, S, H>::Exit by {
                if k < quit.len() {
                    assert(r[k] == quit[k]);
                } else if k < quit.len() + join.len() {
                    assert(r[k] == join[k - quit.len()]);
                }
            }
        },
        _ => {},
    }
}

/// Once a quit was requested, a state change that finds the changed
/// component closed makes the loop check whether it can exit; and a
/// progress check exits (telling the UI to close) exactly when both
/// components are closed, changing nothing.
pub proof fn law_quit_progress<T, S, H, D>(
    before: AsyncServer<T, S, H, D>,
    event: ServerEvent<S>,
    after: AsyncServer<T, S, H, D>,
    r: Seq<ServerAction<T, S, H>>,
)
    requires
        AsyncServer::spec_step(before, event, after, r),
    ensures
        event is DMStateChange && before.quit_requested && before.dm is Closed ==> r.contains(
            ServerAction::Requeue(ServerEvent::QuitProgressCheck),
        ),
        event is AudioServerStateChange && before.quit_requested && before.audio is Closed
            ==> r.contains(ServerAction::Requeue(ServerEvent::QuitProgressCheck)),
        event is QuitProgressCheck ==> (r.contains(ServerAction::Exit) <==> (before.audio is Closed
            && before.dm is Closed)),
        event is QuitProgressCheck ==> (r.contains(ServerAction::ToUi(Event::CloseProgram)) <==> (
            before.audio is Closed && before.dm is Closed)),
        event is QuitProgressCheck ==> (after.audio == before.audio && after.dm == before.dm),
{
    let check = ServerAction::<T, S, H>::Requeue(ServerEvent::QuitProgressCheck);
    match event {
        ServerEvent::DMStateChange => {
            if before.quit_requested && before.dm is Closed {
                assert(r[0] == check);
            }
        },
        ServerEvent::AudioServerStateChange => {
            if before.quit_requested && before.audio is Closed {
                assert(r[0] == check);
            }
        },
        ServerEvent::QuitProgressCheck => {
            if before.audio is Closed && before.dm is Closed {
                assert(r[0] == ServerAction::<T, S, H>::Exit);
                assert(r[1] == ServerAction::<T, S, H>::ToUi(Event::CloseProgram));
            } else {
                assert(r.len() == 0);
            }
        },
        _ => {},
    }
}

/// Once the audio server runs, the loop starts recording the configured
/// PulseAudio source, if one is configured, and always ends by telling the
/// UI that initialization ended.
pub proof fn law_init_end_is_reported<T, S, H, D>(
    before: AsyncServer<T, S, H, D>,
    after: AsyncServer<T, S, H, D>,
    r: Seq<ServerAction<T, S, H>>,
)
    requires
        AsyncServer::spec_step(before, ServerEvent::AudioServerStateChange, after, r),
        before.audio is Running,
    ensures
        r.len() > 0 && r.last() == ServerAction::<T, S, H>::ToUi(Event::InitEnd),
        before.pa_source_name is None ==> forall|k: int| 0 <= k < r.len() ==> !(#[trigger] r[k] is ToAudioServer),
        before.pa_source_name matches Some(name) ==> exists|k: int| 0 <= k < r.len() && (#[trigger] r[k] matches ServerAction::ToAudioServer(
            AudioServerCommand::StartRecording { source_name },
        ) && source_name@ == name@),
        !r.contains(ServerAction::Exit),
{
    if before.pa_source_name is None {
        assert(r =~= seq![ServerAction::<T, S, H>::ToUi(Event::InitEnd)]);
    } else {
        assert(r[0] is ToAudioServer);
    }
    assert forall|k: int| 0 <= k < r.len() implies r[k] != ServerAction::<T, S, H>::Exit by {
        if before.pa_source_name is Some {
            assert(r[0] is ToAudioServer);
        }
    }
}

/// After one quit request to a loop whose audio server and device manager
/// both run, a run in which each component closes when it is told to, and
/// in which the loop handles the events it sends itself, reaches `Exit`.
pub proof fn law_quit_request_leads_to_exit<T, S, H, D>(
    states: Seq<AsyncServer<T, S, H, D>>,
    steps: Seq<Seq<ServerAction<T, S, H>>>,
)
    requires
        states.len() == 7,
        steps.len() == 6,
        states[0].audio is Running,
        states[0].dm is Running,
        AsyncServer::spec_step(states[0], ServerEvent::RequestQuit, states[1], steps[0]),
        // told to quit, the audio server closes ...
        steps[0].contains(ServerAction::ToAudioServer(AudioServerCommand::RequestQuit)) ==> AsyncServer::spec_step(
            states[1],
            ServerEvent::AudioEvent(AudioEvent::AudioServerClosed),
            states[2],
            steps[1],
        ),
        // ... and the loop handles the state change it sent itself,
        steps[1].contains(ServerAction::Requeue(ServerEvent::AudioServerStateChange)) ==> AsyncServer::spec_step(
            states[2],
            ServerEvent::AudioServerStateChange,
            states[3],
            steps[2],
        ),
        // told to quit, the device manager closes ...
        steps[0].contains(ServerAction::RequestDeviceManagerQuit) ==> AsyncServer::spec_step(
            states[3],
            ServerEvent::DMEvent(DMEvent::DMClosed),
            states[4],
            steps[3],
        ),
        // ... and the loop handles the events it sent itself.
        steps[3].contains(ServerAction::Requeue(ServerEvent::DMStateChange)) ==> AsyncServer::spec_step(
            states[4],
            ServerEvent::DMStateChange,
            states[5],
            steps[4],
        ),
        steps[4].contains(ServerAction::Requeue(ServerEvent::QuitProgressCheck)) ==> AsyncServer::spec_step(
            states[5],
            ServerEvent::QuitProgressCheck,
            states[6],
            steps[5],
        ),
    ensures
        steps[5].contains(ServerAction::Exit),
        steps[5].contains(ServerAction::ToUi(Event::CloseProgram)),
{
    law_quit_request_reaches_running_components(states[0], states[1], steps[0]);
    law_audio_server_lifecycle(states[1].audio, AudioEvent::AudioServerClosed);
    law_closing_components_are_announced(states[1], ServerEvent::AudioEvent(AudioEvent::AudioServerClosed), states[2], steps[1]);
    law_quit_progress(states[2], ServerEvent::AudioServerStateChange, states[3], steps[2]);
    law_closing_components_are_announced(states[3], ServerEvent::DMEvent(DMEvent::DMClosed), states[4], steps[3]);
    law_quit_progress(states[4], ServerEvent::DMStateChange, states[5], steps[4]);
    law_quit_progress(states[5], ServerEvent::QuitProgressCheck, states[6], steps[5]);
}


/// Each component's state changes only through its own events (and the
/// audio server's also through a quit request); a quit request, once made,
/// is never forgotten; the configured source never changes. A device
/// manager error or a disabled TCP support is reported with its error, and
/// disabled TCP support leaves the device manager running; a closed device
/// manager's events change nothing. A quit requested before the audio
/// server handed out its sender is sent to it together with the sender's
/// arrival, and no other audio event sends it anything.
pub proof fn law_server_loop_events<T, S, H, D>(
    before: AsyncServer<T, S, H, D>,
    event: ServerEvent<S>,
    after: AsyncServer<T, S, H, D>,
    r: Seq<ServerAction<T, S, H>>,
)
    requires
        AsyncServer::spec_step(before, event, after, r),
        event matches ServerEvent::AudioEvent(e) ==> before.audio.accepts(e),
    ensures
        after.audio != before.audio ==> (event is AudioEvent || event is RequestQuit),
        after.dm != before.dm ==> event is DMEvent,
        after.quit_requested == (before.quit_requested || event is RequestQuit),
        after.pa_source_name == before.pa_source_name,
        event is RequestQuit && before.audio is WaitingEventSender ==> after.audio.quit_pending(),
        event matches ServerEvent::DMEvent(e) ==> (before.dm is Closed ==> (after.dm is Closed
            && r.len() == 0)),
        event matches ServerEvent::DMEvent(DMEvent::DeviceManagerError(err)) ==> (before.dm is Running
            ==> r.contains(ServerAction::ReportDeviceManagerError(err))),
        event matches ServerEvent::DMEvent(DMEvent::TcpSupportDisabledBecauseOfError(err)) ==> (
        before.dm is Running ==> (after.dm == before.dm && r.contains(
            ServerAction::ReportTcpSupportDisabled(err),
        ))),
        event matches ServerEvent::AudioEvent(e) ==> (before.audio.quit_pending() <==> r.contains(
            ServerAction::ToAudioServer(AudioServerCommand::RequestQuit),
        )),
        event is AudioEvent ==> forall|k: int| 0 <= k < r.len() ==> (#[trigger] r[k] matches ServerAction::ToAudioServer(c)
            ==> c is RequestQuit),
{
    law_audio_server_lifecycle(before.audio, AudioEvent::AudioServerClosed);
    match event {
        ServerEvent::DMEvent(e) => {
            if before.dm is Running {
                match e {
                    DMEvent::DeviceManagerError(err) => {
                        assert(r[0] == ServerAction::<T, S, H>::ReportDeviceManagerError(err));
                    },
                    DMEvent::TcpSupportDisabledBecauseOfError(err) => {
                        assert(r[0] == ServerAction::<T, S, H>::ReportTcpSupportDisabled(err));
                    },
                    _ => {},
                }
            }
        },
        ServerEvent::AudioEvent(e) => {
            let told: Seq<ServerAction<T, S, H>> = if before.audio.quit_pending() {
                seq![ServerAction::ToAudioServer(AudioServerCommand::RequestQuit)]
            } else {
                Seq::empty()
            };
            let joined: Seq<ServerAction<T, S, H>> = match before.audio {
                AudioServerState::Running { thread, .. } => seq![ServerAction::JoinAudioThread(thread)],
                _ => Seq::empty(),
            };
            let last = ServerAction::<T, S, H>::Requeue(ServerEvent::AudioServerStateChange);
            assert(r =~= told + joined + seq![last]);
            if before.audio.quit_pending() {
                assert(r[0] == ServerAction::<T, S, H>::ToAudioServer(AudioServerCommand::RequestQuit));
            }
            assert forall|k: int| 0 <= k < r.len() implies (#[trigger] r[k] matches ServerAction::ToAudioServer(c)
                ==> c is RequestQuit) && (r[k] == ServerAction::<T, S, H>::ToAudioServer(AudioServerCommand::RequestQuit)
                ==> before.audio.quit_pending()) by {
                if k < told.len() {
                    assert(r[k] == told[k]);
                } else if k < told.len() + joined.len() {
                    assert(r[k] == joined[k - told.len()]);
                } else {
                    assert(r[k] == last);
                }
            }
        },
        _ => {},
    }
}

} // verus!
