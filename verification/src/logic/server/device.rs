//! The device manager of the server loop: its TCP listener tasks, the
//! handshake with a new device and the frames of the device connection.
pub mod protocol;

use crate::byte_order::{be_value, u32_from_be_bytes, u32_to_be_bytes};
use crate::logic::server::device::protocol::ProtocolDeserializerError;
use crate::server::device::protocol::{ClientInfo, ClientMessage, ServerInfo, ServerMessage};
use vstd::hash_map::StringHashMap;
use vstd::prelude::*;

verus! {

/// Events that the device manager sends to the server.
#[derive(Debug)]
pub enum FromDeviceManagerToServerEvent {
    /// Device manager can't work correctly. It will wait
    /// for quit request from the server.
    DeviceManagerError(DeviceManagerError),
    TcpSupportDisabledBecauseOfError(DmTcpSupportDisabled),
}

/// Why sending or receiving a device message failed.
#[derive(Debug)]
pub enum DeviceConnectionError {
    MessageSerializationError(serde_json::Error),
    MessageSendError(std::io::Error),
    MessageSendDataLengthError(core::num::TryFromIntError),
    MessageReceiveError(std::io::Error),
    MessageReceiveMessageSizeError,
    MessageReceiveProtocolDeserializeError(ProtocolDeserializerError),
}

/// Why a device could not be set up.
#[derive(Debug)]
pub enum DeviceError {
    DeviceConnectionError(DeviceConnectionError),
    UnknownFirstProtocolMessage,
}

/// The device manager cannot work correctly.
#[derive(Debug)]
pub enum DeviceManagerError {
    SocketListenerCreationError(std::io::Error),
    SocketListenerAcceptError(std::io::Error),
}

/// Why the device manager no longer accepts TCP connections.
#[derive(Debug)]
pub enum DmTcpSupportDisabled {
    ListenerCreationError(std::io::Error),
}

/// A frame of the device connection: the length of `payload` as a
/// big-endian `u32`, then `payload`.
pub open spec fn is_device_frame_of(frame: Seq<u8>, payload: Seq<u8>) -> bool {
    &&& frame.len() == 4 + payload.len()
    &&& be_value(frame.take(4)) == payload.len()
    &&& frame.skip(4) == payload
}

/// Builds the frame of a serialized server message. Its length must fit in
/// an `i32`; a longer message is refused with the conversion error.
pub fn frame_device_message(data: &Vec<u8>) -> (r: Result<Vec<u8>, DeviceConnectionError>)
    ensures
        data@.len() <= i32::MAX ==> (r matches Ok(f) && is_device_frame_of(f@, data@)),
        data@.len() > i32::MAX ==> (r matches Err(DeviceConnectionError::MessageSendDataLengthError(_))),
{
    let data_len: i32 = match data.len().try_into() {
        Ok(len) => len,
        Err(e) => {
            return Err(DeviceConnectionError::MessageSendDataLengthError(e));
        },
    };
    let header = u32_to_be_bytes(data_len as u32);
    let mut frame: Vec<u8> = Vec::new();
    frame.push(header[0]);
    frame.push(header[1]);
    frame.push(header[2]);
    frame.push(header[3]);
    let mut i: usize = 0;
    while i < data.len()
        invariant
            0 <= i <= data@.len(),
            frame@.len() == 4 + i,
            frame@.take(4) == header@,
            frame@.skip(4) == data@.take(i as int),
        decreases data@.len() - i,
    {
        frame.push(data[i]);
        assert(frame@.skip(4) =~= data@.take(i + 1));
        assert(frame@.take(4) =~= header@);
        i = i + 1;
    }
    assert(data@.take(data@.len() as int) =~= data@);
    Ok(frame)
}

/// Reads the length field of a received message. The largest size is
/// `i32::MAX`; a larger one is refused.
pub fn device_message_len(header: [u8; 4]) -> (r: Result<u32, DeviceConnectionError>)
    ensures
        be_value(header@) <= i32::MAX ==> r == Ok::<u32, DeviceConnectionError>(be_value(header@) as u32),
        be_value(header@) > i32::MAX ==> (r matches Err(DeviceConnectionError::MessageReceiveMessageSizeError)),
{
    let message_len = u32_from_be_bytes(header);
    if message_len > 0x7fff_ffffu32 {
        return Err(DeviceConnectionError::MessageReceiveMessageSizeError);
    }
    Ok(message_len)
}

/// The frame of a message that fits the size limit announces the
/// message's length, which the receiver accepts, and carries the message.
pub proof fn law_device_frame_round_trip(frame: Seq<u8>, payload: Seq<u8>)
    requires
        is_device_frame_of(frame, payload),
        payload.len() <= i32::MAX,
    ensures
        be_value(frame.take(4)) <= i32::MAX,
        be_value(frame.take(4)) == payload.len(),
        frame.skip(4) == payload,
{
}

/// A connected device: its connection `C` and the information it sent.
#[derive(Debug)]
pub struct Device<C> {
    device_connection: C,
    info: ClientInfo,
}

impl<C> Device<C> {
    /// The information the device sent.
    pub closed spec fn spec_info(&self) -> ClientInfo {
        self.info
    }

    /// The connection to the device.
    pub closed spec fn spec_connection(&self) -> C {
        self.device_connection
    }

    /// The message that opens the handshake: the server's information.
    pub fn first_server_message() -> (r: ServerMessage)
        ensures
            r matches ServerMessage::ServerInfo(info) && info.id@ == crate::server::device::state::server_id()
                && info.version@ == crate::server::device::protocol::protocol_version(),
    {
        proof {
            reveal_strlit("Test server");
        }
        ServerMessage::ServerInfo(ServerInfo::new("Test server"))
    }

    /// Completes the handshake with the device's first reply: client
    /// information makes the device; any other message is refused, and a
    /// failed exchange reports its error.
    pub fn new(device_connection: C, reply: Result<ClientMessage, DeviceConnectionError>) -> (r:
        Result<Self, DeviceError>)
        ensures
            reply matches Ok(ClientMessage::ClientInfo(info)) ==> (r matches Ok(d) && d.spec_info()
                == info && d.spec_connection() == device_connection),
            reply matches Ok(m) && !(m is ClientInfo) ==> (r matches Err(DeviceError::UnknownFirstProtocolMessage)),
            reply matches Err(e) ==> r == Err::<Self, DeviceError>(DeviceError::DeviceConnectionError(e)),
    {
        let message = match reply {
            Ok(m) => m,
            Err(e) => {
                return Err(DeviceError::DeviceConnectionError(e));
            },
        };
        match message {
            ClientMessage::ClientInfo(info) => Ok(Device { device_connection, info }),
            _ => Err(DeviceError::UnknownFirstProtocolMessage),
        }
    }

    /// The id that the device gave.
    pub fn device_id(&self) -> (r: &str)
        ensures
            r@ == self.spec_info().id@,
    {
        self.info.id.as_str()
    }

    /// The information the device sent.
    pub fn info(&self) -> (r: &ClientInfo)
        ensures
            *r == self.spec_info(),
    {
        &self.info
    }
}

/// Result of the task that accepts device connections. `D` is a new device.
#[derive(Debug)]
pub enum AcceptDeviceEvent<D> {
    SocketListenerAcceptError(std::io::Error),
    DeviceConnectionInitError(DeviceError),
    NewDevice(D),
}

/// Result of the task that creates the TCP listener. `L` is the listener.
#[derive(Debug)]
pub enum CreateTcpListenerEvent<L> {
    ListenerCreationError(std::io::Error),
    ListenerCreated(L),
}

/// Events for the device manager.
#[derive(Debug)]
pub enum DeviceManagerEvent<D, L> {
    RequestQuit,
    Message(String),
    AcceptDeviceTaskEvent(AcceptDeviceEvent<D>),
    CreateTcpListenerTaskEvent(CreateTcpListenerEvent<L>),
    RedirectToServer(FromDeviceManagerToServerEvent),
}

/// Which TCP task runs. `J` is the task's handle.
#[derive(Debug)]
pub enum DmTcpState<J> {
    CreateTcpListener(J),
    AcceptNewConnections(J),
    Closed,
}

/// What follows the result of creating the TCP listener.
#[derive(Debug)]
pub enum CreateListenerAction<J, L> {
    /// Wait for the finished listener task; TCP support is disabled, which
    /// is redirected to the server as this event.
    Disabled { task: J, event: FromDeviceManagerToServerEvent },
    /// Wait for the finished listener task, then start the task that
    /// accepts connections on the listener and hand its handle to
    /// `accept_task_started`.
    StartAccepting { task: J, listener: L },
    /// No listener was being created: print a warning.
    StateMismatch,
}

/// What follows a result of the accepting task.
#[derive(Debug)]
pub enum AcceptDeviceAction<D> {
    NewDevice(D),
    /// Print the error; accepting goes on.
    ReportInitError(DeviceError),
    /// Print the error.
    ReportAcceptError(std::io::Error),
    /// Connections were not being accepted: print a warning.
    StateMismatch,
}

/// The device manager's TCP tasks: first the listener is created, then
/// connections are accepted on it.
pub struct DmTcpStateManager<J> {
    pub state: DmTcpState<J>,
}

impl<J> DmTcpStateManager<J> {
    /// The state and the action that follow a result of creating the
    /// listener.
    pub open spec fn spec_after_create_listener<L>(self, event: CreateTcpListenerEvent<L>) -> (
        DmTcpState<J>,
        CreateListenerAction<J, L>,
    ) {
        match self.state {
            DmTcpState::CreateTcpListener(task) => match event {
                CreateTcpListenerEvent::ListenerCreationError(e) => (
                    DmTcpState::Closed,
                    CreateListenerAction::Disabled {
                        task,
                        event: FromDeviceManagerToServerEvent::TcpSupportDisabledBecauseOfError(
                            DmTcpSupportDisabled::ListenerCreationError(e),
                        ),
                    },
                ),
                CreateTcpListenerEvent::ListenerCreated(listener) => (
                    DmTcpState::Closed,
                    CreateListenerAction::StartAccepting { task, listener },
                ),
            },
            other => (other, CreateListenerAction::StateMismatch),
        }
    }

    /// The action that follows a result of the accepting task.
    pub open spec fn spec_accept_action<D>(self, event: AcceptDeviceEvent<D>) -> AcceptDeviceAction<D> {
        match self.state {
            DmTcpState::AcceptNewConnections(_) => match event {
                AcceptDeviceEvent::DeviceConnectionInitError(e) => AcceptDeviceAction::ReportInitError(e),
                AcceptDeviceEvent::SocketListenerAcceptError(e) => AcceptDeviceAction::ReportAcceptError(e),
                AcceptDeviceEvent::NewDevice(d) => AcceptDeviceAction::NewDevice(d),
            },
            _ => AcceptDeviceAction::StateMismatch,
        }
    }

    /// The listener task has been started.
    pub fn new(listener_task: J) -> (r: Self)
        ensures
            r.state == DmTcpState::CreateTcpListener(listener_task),
    {
        DmTcpStateManager { state: DmTcpState::CreateTcpListener(listener_task) }
    }

    /// Handles the result of creating the listener. A failure closes TCP
    /// support and is redirected to the server; a listener starts the
    /// accepting. Either way the finished listener task is handed back to
    /// be waited for.
    pub fn handle_create_tcp_listener_task_event<L>(&mut self, event: CreateTcpListenerEvent<L>) -> (r:
        CreateListenerAction<J, L>)
        ensures
            (final(self).state, r) == old(self).spec_after_create_listener(event),
            old(self).state matches DmTcpState::CreateTcpListener(task) ==> match event {
                CreateTcpListenerEvent::ListenerCreationError(e) => final(self).state is Closed && r
                    == (CreateListenerAction::<J, L>::Disabled {
                    task,
                    event: FromDeviceManagerToServerEvent::TcpSupportDisabledBecauseOfError(
                        DmTcpSupportDisabled::ListenerCreationError(e),
                    ),
                }),
                CreateTcpListenerEvent::ListenerCreated(listener) => final(self).state is Closed && r
                    == (CreateListenerAction::<J, L>::StartAccepting { task, listener }),
            },
            !(old(self).state is CreateTcpListener) ==> (r is StateMismatch && final(self).state
                == old(self).state),
    {
        let mut state = DmTcpState::Closed;
        std::mem::swap(&mut state, &mut self.state);
        match state {
            DmTcpState::CreateTcpListener(task) => match event {
                CreateTcpListenerEvent::ListenerCreationError(e) => {
                    let e = DmTcpSupportDisabled::ListenerCreationError(e);
                    let e = FromDeviceManagerToServerEvent::TcpSupportDisabledBecauseOfError(e);
                    CreateListenerAction::Disabled { task, event: e }
                },
                CreateTcpListenerEvent::ListenerCreated(listener) => {
                    CreateListenerAction::StartAccepting { task, listener }
                },
            },
            other => {
                self.state = other;
                CreateListenerAction::StateMismatch
            },
        }
    }

    /// The accepting task was started.
    pub fn accept_task_started(&mut self, task: J)
        ensures
            final(self).state == DmTcpState::AcceptNewConnections(task),
    {
        self.state = DmTcpState::AcceptNewConnections(task);
    }

    /// Handles a result of the accepting task: a new device is handed on,
    /// errors are reported.
    pub fn handle_accept_device_task_event<D>(&mut self, event: AcceptDeviceEvent<D>) -> (r:
        AcceptDeviceAction<D>)
        ensures
            final(self).state == old(self).state,
            r == old(self).spec_accept_action(event),
            old(self).state is AcceptNewConnections ==> match event {
                AcceptDeviceEvent::DeviceConnectionInitError(e) => r
                    == AcceptDeviceAction::<D>::ReportInitError(e),
                AcceptDeviceEvent::SocketListenerAcceptError(e) => r
                    == AcceptDeviceAction::<D>::ReportAcceptError(e),
                AcceptDeviceEvent::NewDevice(d) => r == AcceptDeviceAction::NewDevice(d),
            },
            !(old(self).state is AcceptNewConnections) ==> r is StateMismatch,
    {
        match self.state {
            DmTcpState::AcceptNewConnections(_) => match event {
                AcceptDeviceEvent::DeviceConnectionInitError(e) => AcceptDeviceAction::ReportInitError(e),
                AcceptDeviceEvent::SocketListenerAcceptError(e) => AcceptDeviceAction::ReportAcceptError(e),
                AcceptDeviceEvent::NewDevice(device) => AcceptDeviceAction::NewDevice(device),
            },
            _ => AcceptDeviceAction::StateMismatch,
        }
    }

    /// On quit (after cancelling the tasks): the task to wait for, if one
    /// runs. TCP support is closed afterwards.
    pub fn wait_quit(&mut self) -> (r: Option<J>)
        ensures
            final(self).state is Closed,
            r == match old(self).state {
                DmTcpState::CreateTcpListener(task) => Some(task),
                DmTcpState::AcceptNewConnections(task) => Some(task),
                DmTcpState::Closed => None,
            },
    {
        let mut state = DmTcpState::Closed;
        std::mem::swap(&mut state, &mut self.state);
        match state {
            DmTcpState::CreateTcpListener(task) => Some(task),
            DmTcpState::AcceptNewConnections(task) => Some(task),
            DmTcpState::Closed => None,
        }
    }

    /// Whether TCP support is closed.
    pub fn closed(&self) -> (r: bool)
        ensures
            r == (self.state is Closed),
    {
        match self.state {
            DmTcpState::Closed => true,
            _ => false,
        }
    }
}

/// What the device manager does with one of its events. `J` is a TCP task,
/// `L` the listener.
#[derive(Debug)]
pub enum DmLoopAction<J, L> {
    Nothing,
    /// Carry out what the result of creating the listener asks for.
    CreateListener(CreateListenerAction<J, L>),
    /// A device connected and is kept: print its information.
    DeviceAdded(ClientInfo),
    /// Print the error of a failed device setup.
    ReportInitError(DeviceError),
    /// Print the accept error.
    ReportAcceptError(std::io::Error),
    /// Print that the accept result came in the wrong state.
    StateMismatch,
    /// Send this event to the server.
    RedirectToServer(FromDeviceManagerToServerEvent),
    /// Cancel the TCP tasks, wait for this one if any, and end the device
    /// manager.
    Quit(Option<J>),
}

/// A copy of a device's information.
pub fn copy_client_info(info: &ClientInfo) -> (r: ClientInfo)
    ensures
        r.version@ == info.version@,
        r.id@ == info.id@,
{
    ClientInfo { version: info.version.clone(), id: info.id.clone() }
}

/// The device manager: its TCP tasks and the connected devices, kept by
/// device id. `J` is a TCP task, `C` a device connection.
#[verifier::reject_recursive_types(C)]
pub struct DeviceManager<J, C> {
    dm_tcp_state_manager: DmTcpStateManager<J>,
    devices: StringHashMap<Device<C>>,
}

impl<J, C> DeviceManager<J, C> {
    /// The connected devices, by id.
    pub closed spec fn devices(&self) -> Map<Seq<char>, Device<C>> {
        self.devices@
    }

    /// The TCP tasks.
    pub closed spec fn tcp(&self) -> DmTcpStateManager<J> {
        self.dm_tcp_state_manager
    }

    /// The TCP tasks, for starting the accepting task.
    pub fn tcp_state_manager(&mut self) -> (r: &mut DmTcpStateManager<J>)
        ensures
            *r == old(self).tcp(),
            final(self).tcp() == *final(r),
            final(self).devices() == old(self).devices(),
    {
        &mut self.dm_tcp_state_manager
    }

    /// Each device is kept under the id it gave.
    pub closed spec fn wf(&self) -> bool {
        forall|id: Seq<char>| #[trigger] self.devices@.contains_key(id) ==> self.devices@[id].spec_info().id@ == id
    }

    /// A device manager whose listener task has been started.
    pub fn new(listener_task: J) -> (r: Self)
        ensures
            r.wf(),
            r.devices() == Map::<Seq<char>, Device<C>>::empty(),
            r.tcp().state == DmTcpState::CreateTcpListener(listener_task),
    {
        DeviceManager {
            dm_tcp_state_manager: DmTcpStateManager::new(listener_task),
            devices: StringHashMap::new(),
        }
    }

    /// The number of connected devices.
    pub fn device_count(&self) -> (n: usize)
        ensures
            n == self.devices().len(),
    {
        self.devices.len()
    }

    /// The device with this id, if one is connected.
    pub fn device(&self, id: &str) -> (r: Option<&Device<C>>)
        ensures
            self.devices().contains_key(id@) ==> r == Some(&self.devices()[id@]),
            !self.devices().contains_key(id@) ==> r is None,
    {
        self.devices.get(id)
    }

    /// Keeps a device under its id; a device with the same id is replaced.
    pub fn insert_device(&mut self, device: Device<C>)
        requires
            old(self).wf(),
        ensures
            final(self).wf(),
            final(self).tcp() == old(self).tcp(),
            final(self).devices() == old(self).devices().insert(device.spec_info().id@, device),
    {
        let id = device.info.id.clone();
        self.devices.insert(id, device);
    }

    /// Handles one event of the device manager.
    pub fn handle_event<L>(&mut self, event: DeviceManagerEvent<Device<C>, L>) -> (r: DmLoopAction<J, L>)
        requires
            old(self).wf(),
        ensures
            final(self).wf(),
            event is Message ==> (r is Nothing && final(self).devices() == old(self).devices()
                && final(self).tcp() == old(self).tcp()),
            event matches DeviceManagerEvent::RedirectToServer(e) ==> (r == DmLoopAction::<J, L>::RedirectToServer(e)
                && final(self).devices() == old(self).devices()
                && final(self).tcp() == old(self).tcp()),
            event is RequestQuit ==> (final(self).devices() == old(self).devices()
                && final(self).tcp().state is Closed
                && r == DmLoopAction::<J, L>::Quit(match old(self).tcp().state {
                    DmTcpState::CreateTcpListener(task) => Some(task),
                    DmTcpState::AcceptNewConnections(task) => Some(task),
                    DmTcpState::Closed => None,
                })),
            event matches DeviceManagerEvent::CreateTcpListenerTaskEvent(e) ==> (final(self).devices() == old(self).devices()
                && final(self).tcp().state == old(self).tcp().spec_after_create_listener(e).0
                && r == DmLoopAction::CreateListener(old(self).tcp().spec_after_create_listener(e).1)),
            event matches DeviceManagerEvent::AcceptDeviceTaskEvent(AcceptDeviceEvent::NewDevice(d)) ==> (
                final(self).tcp() == old(self).tcp()
                && (old(self).tcp().state is AcceptNewConnections ==> (r matches DmLoopAction::DeviceAdded(info)
                    && info.id@ == d.spec_info().id@ && info.version@ == d.spec_info().version@
                    && final(self).devices() == old(self).devices().insert(d.spec_info().id@, d)))
                && (!(old(self).tcp().state is AcceptNewConnections) ==> (r is StateMismatch
                    && final(self).devices() == old(self).devices()))),
            event matches DeviceManagerEvent::AcceptDeviceTaskEvent(e) ==> (!(e is NewDevice) ==> (
                final(self).devices() == old(self).devices()
                && final(self).tcp() == old(self).tcp()
                && r == match old(self).tcp().spec_accept_action(e) {
                    AcceptDeviceAction::ReportInitError(err) => DmLoopAction::<J, L>::ReportInitError(err),
                    AcceptDeviceAction::ReportAcceptError(err) => DmLoopAction::<J, L>::ReportAcceptError(err),
                    _ => DmLoopAction::<J, L>::StateMismatch,
                })),
    {
        match event {
            DeviceManagerEvent::Message(_) => DmLoopAction::Nothing,
            DeviceManagerEvent::CreateTcpListenerTaskEvent(e) => {
                DmLoopAction::CreateListener(self.dm_tcp_state_manager.handle_create_tcp_listener_task_event(e))
            },
            DeviceManagerEvent::AcceptDeviceTaskEvent(e) => {
                match self.dm_tcp_state_manager.handle_accept_device_task_event(e) {
                    AcceptDeviceAction::NewDevice(device) => {
                        let info = copy_client_info(&device.info);
                        self.insert_device(device);
                        DmLoopAction::DeviceAdded(info)
                    },
                    AcceptDeviceAction::ReportInitError(e) => DmLoopAction::ReportInitError(e),
                    AcceptDeviceAction::ReportAcceptError(e) => DmLoopAction::ReportAcceptError(e),
                    AcceptDeviceAction::StateMismatch => DmLoopAction::StateMismatch,
                }
            },
            DeviceManagerEvent::RedirectToServer(e) => DmLoopAction::RedirectToServer(e),
            DeviceManagerEvent::RequestQuit => DmLoopAction::Quit(self.dm_tcp_state_manager.wait_quit()),
        }
    }
}


/// How the TCP tasks go on: only while the listener is being created does
/// its result change anything. A created listener starts the accepting on
/// that very listener, and a failure disables TCP support and tells the
/// server why; either way the finished listener task is handed back and the
/// state is closed until the accepting task starts. A new device is handed
/// on exactly while connections are being accepted.
pub proof fn law_tcp_tasks<J, L, D>(m: DmTcpStateManager<J>, created: CreateTcpListenerEvent<L>, accepted: AcceptDeviceEvent<D>)
    ensures
        !(m.state is CreateTcpListener) ==> (m.spec_after_create_listener(created).0 == m.state
            && m.spec_after_create_listener(created).1 is StateMismatch),
        m.state matches DmTcpState::CreateTcpListener(task) ==> (created matches CreateTcpListenerEvent::ListenerCreated(
            listener,
        ) ==> (m.spec_after_create_listener(created).1 == (CreateListenerAction::<J, L>::StartAccepting { task, listener }))),
        m.state matches DmTcpState::CreateTcpListener(task) ==> (created matches CreateTcpListenerEvent::ListenerCreationError(
            e,
        ) ==> (m.spec_after_create_listener(created).1 == (CreateListenerAction::<J, L>::Disabled {
            task,
            event: FromDeviceManagerToServerEvent::TcpSupportDisabledBecauseOfError(
                DmTcpSupportDisabled::ListenerCreationError(e),
            ),
        }))),
        m.state is CreateTcpListener ==> m.spec_after_create_listener(created).0 is Closed,
        m.spec_accept_action(accepted) is NewDevice <==> (m.state is AcceptNewConnections && accepted is NewDevice),
        m.state is AcceptNewConnections ==> (accepted matches AcceptDeviceEvent::NewDevice(d)
            ==> m.spec_accept_action(accepted) == AcceptDeviceAction::NewDevice(d)),
        m.spec_accept_action(accepted) is StateMismatch <==> !(m.state is AcceptNewConnections),
{
}

} // verus!
