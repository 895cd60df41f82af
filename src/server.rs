use vstd::prelude::*;

verus! {

/// Port on which the server listens.
pub const PORT: u16 = 1234;

/// Idle and transfer timeout applied to an accepted connection, in seconds.
pub const CONNECTION_TIMEOUT_SECS: u64 = 10;

/// Where the server stands.
#[derive(Clone, Copy, Debug, PartialEq, Eq, Structural)]
pub enum ServerState {
    /// Waiting for a peer to connect.
    Listening,
    /// A peer is connected and receives records.
    Connected,
}

/// What the caller is to do next.
#[derive(Clone, Copy, Debug, PartialEq, Eq, Structural)]
pub enum ServerAction {
    /// Accept one connection on `port` and give it a `timeout_secs` timeout.
    Accept { port: u16, timeout_secs: u64 },
    /// Take a snapshot of the store, encode it and write it to the peer.
    SendSnapshot,
}

/// What came of the last action.
#[derive(Clone, Copy, Debug, PartialEq, Eq, Structural)]
pub enum ServerEvent {
    /// A peer connected.
    Accepted,
    /// Accepting failed.
    AcceptFailed,
    /// The record was written.
    Sent,
    /// Writing failed or the connection timed out.
    SendFailed,
    /// The snapshot could not be encoded.
    EncodeFailed,
}

/// A failure to report; none of them ends the server.
#[derive(Clone, Copy, Debug, PartialEq, Eq, Structural)]
pub enum ConnectionError {
    /// No connection could be accepted.
    Accept,
    /// The connection was lost while writing to it.
    Write,
    /// The record could not be encoded.
    Encode,
}

/// The action for a state.
pub open spec fn server_action_spec(s: ServerState) -> ServerAction {
    match s {
        ServerState::Listening => ServerAction::Accept { port: PORT, timeout_secs: CONNECTION_TIMEOUT_SECS },
        ServerState::Connected => ServerAction::SendSnapshot,
    }
}

/// The next state and the failure to report when `e` ends the action of `s`.
/// A connected peer keeps receiving records until a write fails; every
/// failure leads back to listening. Events that do not belong to the current
/// action leave the state as it is.
pub open spec fn server_step_spec(s: ServerState, e: ServerEvent) -> (ServerState, Option<ConnectionError>) {
    match (s, e) {
        (ServerState::Listening, ServerEvent::Accepted) => (ServerState::Connected, None),
        (ServerState::Listening, ServerEvent::AcceptFailed) => (ServerState::Listening, Some(ConnectionError::Accept)),
        (ServerState::Connected, ServerEvent::Sent) => (ServerState::Connected, None),
        (ServerState::Connected, ServerEvent::SendFailed) => (ServerState::Listening, Some(ConnectionError::Write)),
        (ServerState::Connected, ServerEvent::EncodeFailed) => (ServerState::Listening, Some(ConnectionError::Encode)),
        _ => (s, None),
    }
}

/// The decisions of the connection server: one peer at a time, records
/// pushed to it without waiting for requests.
pub struct ConnectionServer {
    state: ServerState,
}

impl ConnectionServer {
    /// Where the server stands.
    pub closed spec fn state(&self) -> ServerState {
        self.state
    }

    /// A server that listens.
    pub fn new() -> (r: Self)
        ensures
            r.state() == ServerState::Listening,
    {
        ConnectionServer { state: ServerState::Listening }
    }

    /// Where the server stands.
    pub fn current_state(&self) -> (r: ServerState)
        ensures
            r == self.state(),
    {
        self.state
    }

    /// What the caller is to do next.
    pub fn next_action(&self) -> (r: ServerAction)
        ensures
            r == server_action_spec(self.state()),
    {
        match self.state {
            ServerState::Listening => ServerAction::Accept { port: PORT, timeout_secs: CONNECTION_TIMEOUT_SECS },
            ServerState::Connected => ServerAction::SendSnapshot,
        }
    }

    /// Takes what came of the last action, moves on, and returns the failure
    /// to report, if any.
    pub fn on_event(&mut self, e: ServerEvent) -> (r: Option<ConnectionError>)
        ensures
            (final(self).state(), r) == server_step_spec(old(self).state(), e),
    {
        let (next, report) = match (self.state, e) {
            (ServerState::Listening, ServerEvent::Accepted) => (ServerState::Connected, None),
            (ServerState::Listening, ServerEvent::AcceptFailed) => (ServerState::Listening, Some(ConnectionError::Accept)),
            (ServerState::Connected, ServerEvent::Sent) => (ServerState::Connected, None),
            (ServerState::Connected, ServerEvent::SendFailed) => (ServerState::Listening, Some(ConnectionError::Write)),
            (ServerState::Connected, ServerEvent::EncodeFailed) => (ServerState::Listening, Some(ConnectionError::Encode)),
            (s, _) => (s, None),
        };
        self.state = next;
        report
    }
}

/// A failed write abandons the connection and the server listens again; the
/// next peer that connects is sent a fresh snapshot.
pub proof fn lemma_write_failure_relistens()
    ensures
        server_step_spec(ServerState::Connected, ServerEvent::SendFailed)
            == (ServerState::Listening, Some(ConnectionError::Write)),
        server_action_spec(server_step_spec(ServerState::Connected, ServerEvent::SendFailed).0)
            == (ServerAction::Accept { port: PORT, timeout_secs: CONNECTION_TIMEOUT_SECS }),
        server_action_spec(server_step_spec(ServerState::Listening, ServerEvent::Accepted).0)
            == ServerAction::SendSnapshot,
{
}

/// No event stops the server: from every state it is either listening or
/// sending, and a failure always leads back to listening.
pub proof fn lemma_failures_relisten(s: ServerState, e: ServerEvent)
    ensures
        server_step_spec(s, e).1 is Some ==> server_step_spec(s, e).0 == ServerState::Listening,
{
}

} // verus!
