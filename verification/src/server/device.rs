//! Device connections of the server: the device manager's bookkeeping of
//! connected devices.
pub mod data;
pub mod protocol;
pub mod state;

use crate::server::ui::UiEvent;
use crate::utils::ConnectionId;
use std::collections::HashMap;
use vstd::prelude::*;
use vstd::std_specs::hash::obeys_key_model;

verus! {

broadcast use vstd::std_specs::hash::group_hash_axioms;

/// Why the device manager stopped accepting TCP connections.
#[derive(Debug)]
pub enum TcpSupportError {
    ListenerCreationError(std::io::Error),
    AcceptError(std::io::Error),
}

/// Events that other components send to the device manager.
#[derive(Debug)]
pub enum DeviceManagerEvent {
    Message(String),
    RunDeviceConnectionPing,
}

/// Events that the device manager's own tasks send to it.
#[derive(Debug)]
pub enum DeviceManagerInternalEvent {
    PublicEvent(DeviceManagerEvent),
    RemoveConnection(ConnectionId),
}

/// An event for the device manager.
#[derive(Debug)]
pub struct DmEvent {
    pub value: DeviceManagerInternalEvent,
}

impl From<DeviceManagerEvent> for DmEvent {
    /// An event that another component sent.
    fn from(e: DeviceManagerEvent) -> (r: Self) {
        DmEvent { value: DeviceManagerInternalEvent::PublicEvent(e) }
    }
}

impl vstd::std_specs::convert::FromSpecImpl<DeviceManagerEvent> for DmEvent {
    open spec fn obeys_from_spec() -> bool {
        true
    }

    open spec fn from_spec(e: DeviceManagerEvent) -> Self {
        DmEvent { value: DeviceManagerInternalEvent::PublicEvent(e) }
    }
}

impl From<DeviceManagerInternalEvent> for DmEvent {
    /// An event that a task of the device manager sent.
    fn from(value: DeviceManagerInternalEvent) -> (r: Self) {
        DmEvent { value }
    }
}

impl vstd::std_specs::convert::FromSpecImpl<DeviceManagerInternalEvent> for DmEvent {
    open spec fn obeys_from_spec() -> bool {
        true
    }

    open spec fn from_spec(value: DeviceManagerInternalEvent) -> Self {
        DmEvent { value }
    }
}

/// What the device manager does with the result of accepting a TCP
/// connection. `S` is the accepted stream with its peer address.
#[derive(Debug)]
pub enum AcceptAction<S> {
    /// Start the device task for this stream under this connection id.
    StartDevice { id: ConnectionId, stream: S },
    /// Every connection id is used up: print a warning and drop the stream.
    NoConnectionIds,
    /// Accepting failed: report this event to the UI. The listener is no
    /// longer polled.
    ReportToUi(UiEvent),
}

/// What the device manager does with one of its events. `H` is the handle
/// of a device task.
#[derive(Debug)]
pub enum DmEventAction<H> {
    Nothing,
    /// Send a ping request to every device task.
    PingAll,
    /// Quit this device task, which is no longer among the connections.
    QuitConnection(H),
}

/// What an accept result asks for, given the next free connection id: a
/// new connection gets that id while ids remain; an accept error disables
/// TCP support and is reported to the UI.
pub open spec fn accept_action<S>(next_id: u64, result: Result<S, std::io::Error>) -> AcceptAction<S> {
    match result {
        Ok(stream) => if next_id < u64::MAX {
            AcceptAction::StartDevice { id: next_id, stream }
        } else {
            AcceptAction::NoConnectionIds
        },
        Err(e) => AcceptAction::ReportToUi(
            UiEvent::TcpSupportDisabledBecauseOfError(TcpSupportError::AcceptError(e)),
        ),
    }
}

/// The next free connection id after an accept result.
pub open spec fn next_id_after_accept<S>(next_id: u64, result: Result<S, std::io::Error>) -> u64 {
    match result {
        Ok(_) => if next_id < u64::MAX {
            (next_id + 1) as u64
        } else {
            next_id
        },
        Err(_) => next_id,
    }
}

/// The device manager's bookkeeping: the next free connection id, the
/// device tasks by connection id and whether the TCP listener is polled.
/// `H` is the handle of a device task.
pub struct DeviceManager<H> {
    next_connection_id: u64,
    connections: HashMap<ConnectionId, H>,
    tcp_listener_enabled: bool,
}

impl<H> DeviceManager<H> {
    /// The id that the next accepted connection gets.
    pub closed spec fn next_id(&self) -> u64 {
        self.next_connection_id
    }

    /// The device tasks by connection id.
    pub closed spec fn connections(&self) -> Map<ConnectionId, H> {
        self.connections@
    }

    /// Whether the TCP listener is polled for new connections.
    pub closed spec fn listener_enabled(&self) -> bool {
        self.tcp_listener_enabled
    }

    /// Every connection holds an id that was handed out, so a new id is
    /// never one in use.
    pub closed spec fn wf(&self) -> bool {
        forall|id: ConnectionId| #[trigger] self.connections@.contains_key(id) ==> id
            < self.next_connection_id
    }

    /// A device manager with no connections whose listener is polled.
    pub fn new() -> (r: Self)
        ensures
            r.wf(),
            r.next_id() == 0,
            r.connections() == Map::<ConnectionId, H>::empty(),
            r.listener_enabled(),
    {
        DeviceManager {
            next_connection_id: 0,
            connections: HashMap::new(),
            tcp_listener_enabled: true,
        }
    }

    /// Handles the result of accepting a TCP connection. A new connection
    /// gets the next connection id, which is then used up; when no id is
    /// left the connection is refused. An accept error is reported to the UI
    /// and the listener is no longer polled.
    pub fn handle_tcp_listener_accept<S>(&mut self, result: Result<S, std::io::Error>) -> (r:
        AcceptAction<S>)
        requires
            old(self).wf(),
        ensures
            final(self).wf(),
            final(self).connections() == old(self).connections(),
            result matches Ok(s) ==> (if old(self).next_id() < u64::MAX {
                &&& r == AcceptAction::StartDevice { id: old(self).next_id(), stream: s }
                &&& final(self).next_id() == old(self).next_id() + 1
                &&& !old(self).connections().contains_key(old(self).next_id())
                &&& final(self).listener_enabled() == old(self).listener_enabled()
            } else {
                &&& r is NoConnectionIds
                &&& final(self).next_id() == old(self).next_id()
                &&& final(self).listener_enabled() == old(self).listener_enabled()
            }),
            result matches Err(e) ==> {
                &&& r == AcceptAction::<S>::ReportToUi(
                    UiEvent::TcpSupportDisabledBecauseOfError(TcpSupportError::AcceptError(e)),
                )
                &&& final(self).next_id() == old(self).next_id()
                &&& !final(self).listener_enabled()
            },
            r == accept_action(old(self).next_id(), result),
            final(self).next_id() == next_id_after_accept(old(self).next_id(), result),
    {
        match result {
            Ok(stream) => {
                let id = self.next_connection_id;
                match id.checked_add(1) {
                    Some(new_next_id) => {
                        self.next_connection_id = new_next_id;
                        AcceptAction::StartDevice { id, stream }
                    },
                    None => AcceptAction::NoConnectionIds,
                }
            },
            Err(e) => {
                self.tcp_listener_enabled = false;
                AcceptAction::ReportToUi(
                    UiEvent::TcpSupportDisabledBecauseOfError(TcpSupportError::AcceptError(e)),
                )
            },
        }
    }

    /// Keeps the task started for a connection id that
    /// `handle_tcp_listener_accept` handed out.
    pub fn add_connection(&mut self, id: ConnectionId, handle: H)
        requires
            old(self).wf(),
            id < old(self).next_id(),
        ensures
            final(self).wf(),
            final(self).next_id() == old(self).next_id(),
            final(self).listener_enabled() == old(self).listener_enabled(),
            final(self).connections() == old(self).connections().insert(id, handle),
    {
        assert(obeys_key_model::<u64>());
        self.connections.insert(id, handle);
    }

    /// Handles an event for the device manager: a ping request pings every
    /// device; removing a connection hands its task back for quitting.
    pub fn handle_dm_event(&mut self, event: DmEvent) -> (r: DmEventAction<H>)
        requires
            old(self).wf(),
            event.value matches DeviceManagerInternalEvent::RemoveConnection(id)
                ==> old(self).connections().contains_key(id),
        ensures
            final(self).wf(),
            final(self).next_id() == old(self).next_id(),
            final(self).listener_enabled() == old(self).listener_enabled(),
            event.value matches DeviceManagerInternalEvent::PublicEvent(DeviceManagerEvent::Message(_))
                ==> (r is Nothing && final(self).connections() == old(self).connections()),
            event.value matches DeviceManagerInternalEvent::PublicEvent(
                DeviceManagerEvent::RunDeviceConnectionPing,
            ) ==> (r is PingAll && final(self).connections() == old(self).connections()),
            event.value matches DeviceManagerInternalEvent::RemoveConnection(id) ==> (
                r == DmEventAction::QuitConnection(old(self).connections()[id])
                && final(self).connections() == old(self).connections().remove(id)),
    {
        match event.value {
            DeviceManagerInternalEvent::PublicEvent(DeviceManagerEvent::Message(_)) => {
                DmEventAction::Nothing
            },
            DeviceManagerInternalEvent::PublicEvent(DeviceManagerEvent::RunDeviceConnectionPing) => {
                DmEventAction::PingAll
            },
            DeviceManagerInternalEvent::RemoveConnection(id) => {
                assert(obeys_key_model::<u64>());
                let removed = self.connections.remove(&id);
                match removed {
                    Some(handle) => DmEventAction::QuitConnection(handle),
                    None => DmEventAction::Nothing,
                }
            },
        }
    }

    /// Whether new device connections are still accepted.
    pub fn tcp_listener_enabled(&self) -> (r: bool)
        ensures
            r == self.listener_enabled(),
    {
        self.tcp_listener_enabled
    }

    /// The ids of the kept connections, each once, in no particular order:
    /// the pings of the timer and of `PingAll` go to each of them, and
    /// quitting closes each of them.
    pub fn connection_ids(&self) -> (ids: Vec<ConnectionId>)
        ensures
            ids@.to_set() == self.connections().dom(),
            ids@.no_duplicates(),
    {
        assert(obeys_key_model::<u64>());
        let mut ids: Vec<ConnectionId> = Vec::new();
        for k in it: self.connections.keys()
            invariant
                ids@.len() == it.index(),
                forall|i: int| 0 <= i < it.index() ==> ids@[i] == *it.seq()[i],
        {
            ids.push(*k);
        }
        proof {
            let keys = vstd::std_specs::iter::IteratorSpec::remaining(&vstd::std_specs::hash::spec_keys_iter(&self.connections));
            assert(ids@ =~= keys.unref());
        }
        ids
    }

    /// The task of a connection, if the connection is kept.
    pub fn connection(&self, id: ConnectionId) -> (r: Option<&H>)
        ensures
            self.connections().contains_key(id) ==> r == Some(&self.connections()[id]),
            !self.connections().contains_key(id) ==> r is None,
    {
        assert(obeys_key_model::<u64>());
        self.connections.get(&id)
    }

    /// Removes a connection on quit, handing its task back.
    pub fn remove_connection(&mut self, id: ConnectionId) -> (r: Option<H>)
        requires
            old(self).wf(),
        ensures
            final(self).wf(),
            final(self).next_id() == old(self).next_id(),
            final(self).listener_enabled() == old(self).listener_enabled(),
            final(self).connections() == old(self).connections().remove(id),
            old(self).connections().contains_key(id) ==> r == Some(old(self).connections()[id]),
            !old(self).connections().contains_key(id) ==> r is None,
    {
        assert(obeys_key_model::<u64>());
        self.connections.remove(&id)
    }
}


/// Connection ids are fresh: an accepted connection gets an id that no kept
/// connection has (all of which are below the next free id) and that is
/// below the next free id afterwards, so two accepts one after the other
/// never hand out the same id; an accept error or a lack of ids hands out
/// no id and uses none up.
pub proof fn law_connection_ids_are_fresh<S>(
    next_id: u64,
    kept: Set<ConnectionId>,
    first: Result<S, std::io::Error>,
    second: Result<S, std::io::Error>,
)
    requires
        forall|k: ConnectionId| kept.contains(k) ==> k < next_id,
    ensures
        accept_action(next_id, first) matches AcceptAction::StartDevice { id, .. } ==> (!kept.contains(id)
            && id < next_id_after_accept(next_id, first)),
        accept_action(next_id, first) matches AcceptAction::StartDevice { id: id1, .. } ==> (accept_action(
            next_id_after_accept(next_id, first),
            second,
        ) matches AcceptAction::StartDevice { id: id2, .. } ==> id1 != id2),
        !(accept_action(next_id, first) is StartDevice) ==> next_id_after_accept(next_id, first) == next_id,
        next_id_after_accept(next_id, first) >= next_id,
        first is Ok && next_id < u64::MAX ==> accept_action(next_id, first) is StartDevice,
{
}

} // verus!
