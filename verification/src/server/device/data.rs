//! Device data connection: the TCP connection that carries the audio stream
//! to a device.
use vstd::prelude::*;

verus! {

/// An IP address, as the data connection compares them.
#[derive(Debug, Clone, Copy)]
pub enum IpAddress {
    V4([u8; 4]),
    V6([u8; 16]),
}

/// Events that the data connection task sends to the device state.
/// `H` is the handle through which audio data is sent to the device.
#[derive(Debug)]
pub enum DataConnectionEvent<H> {
    TcpListenerBindError(std::io::Error),
    GetPortNumberError(std::io::Error),
    AcceptError(std::io::Error),
    SendConnectionError(std::io::Error),
    PortNumber(u16),
    NewConnection(H),
}

/// Events from the device state to its data connection task.
#[derive(Debug, PartialEq, Eq, Structural)]
pub enum DataConnectionEventFromDevice {
    Test,
}

/// What the data connection task keeps between accepted connections.
/// `C` is the connection whose closing the task waits for when it quits.
pub struct DataConnection<C> {
    connection: Option<C>,
}

impl<C> DataConnection<C> {
    /// The connection that the task waits for when it quits.
    pub closed spec fn spec_connection(&self) -> Option<C> {
        self.connection
    }

    /// A data connection task that has accepted no connection yet.
    pub fn new() -> (r: Self)
        ensures
            r.spec_connection() is None,
    {
        DataConnection { connection: None }
    }

    /// Only the device whose command connection came from `accept_from` may
    /// open the data connection: a connection from another address is
    /// ignored.
    pub fn accepts_peer(peer: IpAddress, accept_from: IpAddress) -> (r: bool)
        ensures
            r == (peer == accept_from),
    {
        match (peer, accept_from) {
            (IpAddress::V4(a), IpAddress::V4(b)) => {
                let mut i: usize = 0;
                while i < 4
                    invariant
                        0 <= i <= 4,
                        peer == IpAddress::V4(a),
                        accept_from == IpAddress::V4(b),
                        forall|j: int| 0 <= j < i ==> a[j] == b[j],
                    decreases 4 - i,
                {
                    if a[i] != b[i] {
                        assert(a@[i as int] != b@[i as int]);
                        assert(a@ != b@);
                        return false;
                    }
                    i = i + 1;
                }
                assert(a =~= b);
                true
            },
            (IpAddress::V6(a), IpAddress::V6(b)) => {
                let mut i: usize = 0;
                while i < 16
                    invariant
                        0 <= i <= 16,
                        peer == IpAddress::V6(a),
                        accept_from == IpAddress::V6(b),
                        forall|j: int| 0 <= j < i ==> a[j] == b[j],
                    decreases 16 - i,
                {
                    if a[i] != b[i] {
                        assert(a@[i as int] != b@[i as int]);
                        assert(a@ != b@);
                        return false;
                    }
                    i = i + 1;
                }
                assert(a =~= b);
                true
            },
            _ => false,
        }
    }

    /// The outcome of turning an accepted socket into a send connection:
    /// on success the connection is kept (replacing any earlier one) and its
    /// send handle is reported; on failure the error is reported.
    pub fn handle_send_connection<H>(&mut self, result: Result<(C, H), std::io::Error>) -> (r:
        DataConnectionEvent<H>)
        ensures
            result matches Ok((c, h)) ==> (final(self).spec_connection() == Some(c) && r
                == DataConnectionEvent::NewConnection(h)),
            result matches Err(e) ==> (final(self).spec_connection() == old(self).spec_connection() && r == DataConnectionEvent::<H>::SendConnectionError(e)),
    {
        match result {
            Ok((connection, handle)) => {
                self.connection = Some(connection);
                DataConnectionEvent::NewConnection(handle)
            },
            Err(e) => DataConnectionEvent::SendConnectionError(e),
        }
    }

    /// The event that reports the data listener's port; a failure to learn
    /// the port is reported, after which the task only waits for its quit
    /// (the returned flag).
    pub fn port_number_event<H>(result: Result<u16, std::io::Error>) -> (r: (DataConnectionEvent<H>, bool))
        ensures
            result matches Ok(port) ==> r == (DataConnectionEvent::<H>::PortNumber(port), false),
            result matches Err(e) ==> r == (DataConnectionEvent::<H>::GetPortNumberError(e), true),
    {
        match result {
            Ok(port) => (DataConnectionEvent::PortNumber(port), false),
            Err(e) => (DataConnectionEvent::GetPortNumberError(e), true),
        }
    }

    /// On quit: the connection to wait for, if one was accepted.
    pub fn quit(self) -> (r: Option<C>)
        ensures
            r == self.spec_connection(),
    {
        self.connection
    }
}

} // verus!
