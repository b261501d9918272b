//! The background listener's handle: its states, in order, and the flag that
//! the boot thread waits on.
use vstd::prelude::*;

verus! {

#[derive(Clone, Copy, Debug, PartialEq, Eq, Structural)]
pub enum ServerState {
    Created,
    Starting,
    Running,
    Stopping,
    Stopped,
}

/// What happens to the listener.
#[derive(Clone, Copy, Debug, PartialEq, Eq, Structural)]
pub enum ServerEvent {
    /// Binding the socket begins.
    Start,
    /// The socket is bound and the accept loop runs.
    Bound,
    /// Binding failed.
    BindFailed,
    /// A termination signal arrived; graceful shutdown begins.
    ShutdownSignal,
    /// In-flight requests are done, or the grace period ran out.
    Drained,
}

/// An event that the current state does not admit.
#[derive(Clone, Copy, Debug, PartialEq, Eq, Structural)]
pub struct InvalidTransition {
    pub state: ServerState,
    pub event: ServerEvent,
}

/// The state after `e`, where `s` admits it.
pub open spec fn server_step(s: ServerState, e: ServerEvent) -> Option<ServerState> {
    match (s, e) {
        (ServerState::Created, ServerEvent::Start) => Some(ServerState::Starting),
        (ServerState::Starting, ServerEvent::Bound) => Some(ServerState::Running),
        (ServerState::Starting, ServerEvent::BindFailed) => Some(ServerState::Stopped),
        (ServerState::Running, ServerEvent::ShutdownSignal) => Some(ServerState::Stopping),
        (ServerState::Stopping, ServerEvent::Drained) => Some(ServerState::Stopped),
        _ => None,
    }
}

/// The position of a state in the order Created, Starting, Running,
/// Stopping, Stopped.
pub open spec fn rank(s: ServerState) -> int {
    match s {
        ServerState::Created => 0,
        ServerState::Starting => 1,
        ServerState::Running => 2,
        ServerState::Stopping => 3,
        ServerState::Stopped => 4,
    }
}

/// Whether the boot thread may stop waiting: shutdown has begun.
pub open spec fn shutdown_requested(s: ServerState) -> bool {
    s == ServerState::Stopping || s == ServerState::Stopped
}

/// The handle shared by the boot thread and the accept loop.
pub struct ServerHandle {
    port: u16,
    state: ServerState,
}

impl ServerHandle {
    pub closed spec fn port(&self) -> u16 {
        self.port
    }

    pub closed spec fn state(&self) -> ServerState {
        self.state
    }

    /// A handle for a listener on `port` that has not started.
    pub fn new(port: u16) -> (r: ServerHandle)
        ensures
            r.port() == port,
            r.state() == ServerState::Created,
    {
        ServerHandle { port, state: ServerState::Created }
    }

    pub fn get_port(&self) -> (r: u16)
        ensures
            r == self.port(),
    {
        self.port
    }

    pub fn get_state(&self) -> (r: ServerState)
        ensures
            r == self.state(),
    {
        self.state
    }

    /// Applies `event`; an event that the state does not admit changes
    /// nothing and is returned as an error.
    pub fn apply(&mut self, event: ServerEvent) -> (r: Result<(), InvalidTransition>)
        ensures
            final(self).port() == old(self).port(),
            match server_step(old(self).state(), event) {
                Some(s) => r is Ok && final(self).state() == s,
                None => r == Err::<(), InvalidTransition>(
                    InvalidTransition { state: old(self).state(), event },
                ) && final(self).state() == old(self).state(),
            },
    {
        let next = match (self.state, event) {
            (ServerState::Created, ServerEvent::Start) => Some(ServerState::Starting),
            (ServerState::Starting, ServerEvent::Bound) => Some(ServerState::Running),
            (ServerState::Starting, ServerEvent::BindFailed) => Some(ServerState::Stopped),
            (ServerState::Running, ServerEvent::ShutdownSignal) => Some(ServerState::Stopping),
            (ServerState::Stopping, ServerEvent::Drained) => Some(ServerState::Stopped),
            _ => None,
        };
        match next {
            Some(s) => {
                self.state = s;
                Ok(())
            },
            None => Err(InvalidTransition { state: self.state, event }),
        }
    }

    /// The flag the boot thread reads when it wakes.
    pub fn is_shutdown_requested(&self) -> (r: bool)
        ensures
            r == shutdown_requested(self.state()),
    {
        match self.state {
            ServerState::Stopping | ServerState::Stopped => true,
            _ => false,
        }
    }
}

/// States only move forward, and once shutdown is requested it stays
/// requested: the flag is never cleared, so a waiter that saw it set can
/// resume, and one woken without it set keeps waiting.
pub proof fn lemma_server_states_advance(s: ServerState, e: ServerEvent)
    ensures
        server_step(s, e) matches Some(t) ==> rank(t) > rank(s),
        shutdown_requested(s) && server_step(s, e) is Some ==> shutdown_requested(
            server_step(s, e).unwrap(),
        ),
        s == ServerState::Stopped ==> server_step(s, e) is None,
{
}

} // verus!
