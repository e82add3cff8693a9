//! Connecting to a broker: the connect request and the state of a connection.

use vstd::prelude::*;

use crate::autogen;
use crate::duration::Duration;
use crate::error::Error;
use crate::iscp::misc::{hyphenated, uuid_text};

verus! {

/// The protocol version that this library speaks.
pub const ISCP_VERSION: &'static str = "2.0.0";

/// The text of the protocol version.
pub open spec fn version_text() -> Seq<char> {
    seq!['2', '.', '0', '.', '0']
}

/// The settings of a connection that its connect request is made of.
pub struct ConnParams {
    /// The id of this node.
    pub node_id: String,
    /// The project the node belongs to, if any.
    pub project_uuid: Option<u128>,
    /// How often the connection is checked with a ping.
    pub ping_interval: Duration,
    /// How long a ping may wait for its answer.
    pub ping_timeout: Duration,
    /// How long a request may wait for its response.
    pub response_message_timeout: Duration,
    /// The capacity of the channels of received data.
    pub channel_size: usize,
}

impl ConnParams {
    /// The settings of a new connection: no node id, no project, a ping every 10 s answered
    /// within 1 s, responses within 3 s, channels of 1024.
    pub fn new() -> (r: ConnParams)
        ensures
            r.node_id@ == Seq::<char>::empty(),
            r.project_uuid is None,
            r.ping_interval.wf() && r.ping_interval.total_nanos() == 10_000_000_000,
            r.ping_timeout.wf() && r.ping_timeout.total_nanos() == 1_000_000_000,
            r.response_message_timeout.wf() && r.response_message_timeout.total_nanos()
                == 3_000_000_000,
            r.channel_size == 1024,
    {
        ConnParams {
            node_id: String::new(),
            project_uuid: None,
            ping_interval: Duration::from_secs(10),
            ping_timeout: Duration::from_secs(1),
            response_message_timeout: Duration::from_secs(3),
            channel_size: 1024,
        }
    }

    /// The ping interval and the ping timeout in whole seconds; each must fit in a `u32` and
    /// not be zero, else it is refused, the interval first.
    pub fn ping_settings(&self) -> (r: Result<(u32, u32), Error>)
        ensures
            r is Ok <==> (0 < self.ping_interval.secs_part() <= u32::MAX && 0
                < self.ping_timeout.secs_part() <= u32::MAX),
            r matches Ok((i, t)) ==> i == self.ping_interval.secs_part() && t
                == self.ping_timeout.secs_part(),
            !(0 < self.ping_interval.secs_part() <= u32::MAX) ==> (r matches Err(
                Error::InvalidValue(m),
            ) && m@ == "invalid ping_interval"@),
            (0 < self.ping_interval.secs_part() <= u32::MAX && !(0
                < self.ping_timeout.secs_part() <= u32::MAX)) ==> (r matches Err(
                Error::InvalidValue(m),
            ) && m@ == "invalid ping_timeout"@),
    {
        let interval = self.ping_interval.as_secs();
        if interval > u32::MAX as u64 || interval == 0 {
            return Err(Error::invalid_value("invalid ping_interval"));
        }
        let timeout = self.ping_timeout.as_secs();
        if timeout > u32::MAX as u64 || timeout == 0 {
            return Err(Error::invalid_value("invalid ping_timeout"));
        }
        Ok((interval as u32, timeout as u32))
    }

    /// The connect request of this node: the protocol version, the node id and the ping
    /// settings, with extension fields when an access token or a project is given (the access
    /// token empty when only the project is).
    pub fn connect_request(&self, ping_interval: u32, ping_timeout: u32, access_token: Option<
        String,
    >) -> (r: autogen::ConnectRequest)
        ensures
            r.request_id == 0,
            r.protocol_version@ == version_text(),
            r.node_id@ == self.node_id@,
            r.ping_interval == ping_interval,
            r.ping_timeout == ping_timeout,
            match r.extension_fields {
                None => access_token is None && self.project_uuid is None,
                Some(ext) => {
                    &&& (access_token is Some || self.project_uuid is Some)
                    &&& ext.access_token@ == match access_token {
                        Some(t) => t@,
                        None => Seq::<char>::empty(),
                    }
                    &&& match self.project_uuid {
                        Some(u) => ext.intdash matches Some(i) && i.project_uuid@ == hyphenated(u),
                        None => ext.intdash is None,
                    }
                },
            },
    {
        let intdash = match self.project_uuid {
            Some(u) => Some(autogen::IntdashExtensionFields { project_uuid: uuid_text(u) }),
            None => None,
        };
        let extension_fields = match access_token {
            Some(t) => Some(autogen::ConnectRequestExtensionFields { access_token: t, intdash }),
            None => match intdash {
                Some(i) => Some(
                    autogen::ConnectRequestExtensionFields {
                        access_token: String::new(),
                        intdash: Some(i),
                    },
                ),
                None => None,
            },
        };
        let version = ISCP_VERSION.to_owned();
        proof {
            reveal_strlit("2.0.0");
            assert(version@ =~= version_text());
        }
        autogen::ConnectRequest {
            request_id: 0,
            protocol_version: version,
            node_id: self.node_id.clone(),
            ping_interval,
            ping_timeout,
            extension_fields,
        }
    }
}

/// The message that closes a connection normally: success, "OK".
pub fn disconnect_message() -> (r: autogen::Disconnect)
    ensures
        r.result_code == 0,
        r.result_string@ == seq!['O', 'K'],
{
    let ok = "OK".to_owned();
    proof {
        reveal_strlit("OK");
        assert("OK"@ =~= seq!['O', 'K']);
    }
    autogen::Disconnect { result_code: 0, result_string: ok }
}

/// The state of a connection.
#[derive(Clone, Copy, PartialEq, Eq, Hash, Debug, Structural)]
pub enum ConnectionState {
    Connected,
    Reconnecting,
    Closing,
    Closed,
}

/// What happens to a connection, as its reconnection loop sees it.
pub enum ReconnectEvent {
    /// The user closed the connection.
    Cancelled,
    /// The transport below the connection closed.
    WireClosed,
    /// An attempt to connect again failed.
    ConnectFailed,
    /// An attempt to connect again succeeded.
    ConnectSucceeded,
}

/// What the reconnection loop is to do next.
pub enum ReconnectAction {
    /// Send this disconnect message and close the transport; the loop ends.
    SendDisconnect(autogen::Disconnect),
    /// Wait, each time longer, and try to connect again.
    WaitAndConnect,
    /// Hand the new connection to the streams.
    Publish,
    /// End the loop without a word to the broker.
    Stop,
    /// Nothing.
    Nothing,
}

/// The decision of the reconnection loop. While connected (or closing), a close sends the
/// disconnect message and ends the connection, and a lost transport starts reconnecting.
/// While reconnecting, a failed attempt is followed by another after a wait, a successful
/// one makes the connection connected again and is handed to the streams, and a close ends
/// the loop. A closed connection stays closed; other events change nothing.
pub fn reconnect_step(state: ConnectionState, event: ReconnectEvent) -> (r: (
    ConnectionState,
    ReconnectAction,
))
    ensures
        match (state, event) {
            (ConnectionState::Connected, ReconnectEvent::Cancelled)
            | (ConnectionState::Closing, ReconnectEvent::Cancelled) => r.0
                == ConnectionState::Closed && (r.1 matches ReconnectAction::SendDisconnect(d)
                && d.result_code == 0 && d.result_string@ == seq!['O', 'K']),
            (ConnectionState::Connected, ReconnectEvent::WireClosed)
            | (ConnectionState::Closing, ReconnectEvent::WireClosed) => r.0
                == ConnectionState::Reconnecting && r.1 is WaitAndConnect,
            (ConnectionState::Reconnecting, ReconnectEvent::ConnectFailed) => r.0
                == ConnectionState::Reconnecting && r.1 is WaitAndConnect,
            (ConnectionState::Reconnecting, ReconnectEvent::ConnectSucceeded) => r.0
                == ConnectionState::Connected && r.1 is Publish,
            (ConnectionState::Reconnecting, ReconnectEvent::Cancelled) => r.0
                == ConnectionState::Closed && r.1 is Stop,
            _ => r.0 == state && r.1 is Nothing,
        },
{
    match state {
        ConnectionState::Connected | ConnectionState::Closing => match event {
            ReconnectEvent::Cancelled => (
                ConnectionState::Closed,
                ReconnectAction::SendDisconnect(disconnect_message()),
            ),
            ReconnectEvent::WireClosed => (
                ConnectionState::Reconnecting,
                ReconnectAction::WaitAndConnect,
            ),
            _ => (state, ReconnectAction::Nothing),
        },
        ConnectionState::Reconnecting => match event {
            ReconnectEvent::ConnectFailed => (
                ConnectionState::Reconnecting,
                ReconnectAction::WaitAndConnect,
            ),
            ReconnectEvent::ConnectSucceeded => (
                ConnectionState::Connected,
                ReconnectAction::Publish,
            ),
            ReconnectEvent::Cancelled => (ConnectionState::Closed, ReconnectAction::Stop),
            _ => (state, ReconnectAction::Nothing),
        },
        ConnectionState::Closed => (state, ReconnectAction::Nothing),
    }
}

/// What waiting for a connection state gives once the connection is in state `current`:
/// success when it is the state waited for; an error when the connection closed first;
/// nothing yet otherwise.
pub fn wait_for_state_result(current: ConnectionState, wanted: ConnectionState) -> (r: Option<
    Result<(), Error>,
>)
    ensures
        current == wanted ==> r matches Some(Ok(())),
        current != wanted && current == ConnectionState::Closed ==> (r matches Some(Err(e))
            && e is ConnectionClosed),
        current != wanted && current != ConnectionState::Closed ==> r is None,
{
    if current == wanted {
        Some(Ok(()))
    } else if current == ConnectionState::Closed {
        Some(Err(Error::ConnectionClosed))
    } else {
        None
    }
}

/// Whether a connection still takes requests: not once its close began or its work was
/// cancelled.
pub fn check_close(close_permits: usize, cancelled: bool) -> (r: Result<(), Error>)
    ensures
        r is Ok <==> (close_permits != 0 && !cancelled),
        r matches Err(e) ==> e is ConnectionClosed,
{
    if close_permits == 0 || cancelled {
        Err(Error::ConnectionClosed)
    } else {
        Ok(())
    }
}

} // verus!
