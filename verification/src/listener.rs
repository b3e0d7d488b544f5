//! The three listeners of the broker: where each one binds, and what
//! becomes of it when binding or accepting fails.
//!
//! A listener does no I/O itself. Its state says which one operation comes
//! next ([`Listener::action`]); whoever runs it performs the operation and
//! reports how it went.

use vstd::prelude::*;

verus! {

/// The exit status of the process after a fault that it cannot outlive: a
/// listener that cannot bind, or a registry lock that is poisoned.
pub const FATAL_EXIT_STATUS: i32 = 1;

/// One of the broker's listeners.
#[derive(Clone, Copy, Debug, PartialEq, Eq, Structural)]
pub enum Endpoint {
    /// Protocol clients connect here; their requests are relayed.
    Protocol,
    /// Apps connect here and register by name.
    App,
    /// Event subscribers connect here and get word of every app that
    /// registers.
    Event,
}

impl Endpoint {
    /// The loopback address of the endpoint.
    pub open spec fn address_spec(self) -> Seq<char> {
        match self {
            Endpoint::Protocol => "127.0.0.1:4001"@,
            Endpoint::App => "127.0.0.1:4000"@,
            Endpoint::Event => "127.0.0.1:4002"@,
        }
    }

    /// The loopback address of the endpoint.
    pub fn address(self) -> (address: &'static str)
        ensures
            address@ == self.address_spec(),
    {
        match self {
            Endpoint::Protocol => "127.0.0.1:4001",
            Endpoint::App => "127.0.0.1:4000",
            Endpoint::Event => "127.0.0.1:4002",
        }
    }
}

/// Where a listener stands.
#[derive(Clone, Copy, Debug, PartialEq, Eq, Structural)]
pub enum ListenerState {
    /// The listener has not bound its address yet.
    Binding,
    /// The listener is bound and accepts connections.
    Accepting,
    /// An accept failed: the endpoint accepts no more connections.
    Stopped,
    /// The address could not be bound: the process cannot go on.
    Failed,
}

/// The one operation that a listener asks for.
#[derive(Clone, Copy, Debug, PartialEq, Eq, Structural)]
pub enum ListenerAction {
    /// Bind the address of the endpoint.
    Bind(Endpoint),
    /// Accept the next connection.
    Accept,
    /// Leave the accept loop.
    Stop,
    /// End the process with the status.
    Exit(i32),
}

impl ListenerState {
    /// The state once the address was bound, or could not be.
    pub open spec fn bound(self, ok: bool) -> ListenerState {
        match self {
            ListenerState::Binding => if ok {
                ListenerState::Accepting
            } else {
                ListenerState::Failed
            },
            _ => self,
        }
    }

    /// The state once a connection was accepted, or could not be. After an
    /// accepted connection the listener accepts the next one.
    pub open spec fn accepted(self, ok: bool) -> ListenerState {
        match self {
            ListenerState::Accepting => if ok {
                ListenerState::Accepting
            } else {
                ListenerState::Stopped
            },
            _ => self,
        }
    }
}

/// A listener of the broker.
pub struct Listener {
    endpoint: Endpoint,
    state: ListenerState,
}

impl View for Listener {
    type V = ListenerState;

    /// Where the listener stands.
    closed spec fn view(&self) -> ListenerState {
        self.state
    }
}

impl Listener {
    /// The endpoint that the listener serves.
    pub closed spec fn endpoint_spec(&self) -> Endpoint {
        self.endpoint
    }

    /// The operation that a listener of `endpoint` asks for in `state`.
    pub open spec fn action_spec(endpoint: Endpoint, state: ListenerState) -> ListenerAction {
        match state {
            ListenerState::Binding => ListenerAction::Bind(endpoint),
            ListenerState::Accepting => ListenerAction::Accept,
            ListenerState::Stopped => ListenerAction::Stop,
            ListenerState::Failed => ListenerAction::Exit(FATAL_EXIT_STATUS),
        }
    }

    /// A listener for `endpoint` that has not bound its address yet.
    pub fn new(endpoint: Endpoint) -> (listener: Listener)
        ensures
            listener@ == ListenerState::Binding,
            listener.endpoint_spec() == endpoint,
    {
        Listener { endpoint, state: ListenerState::Binding }
    }

    /// The endpoint that the listener serves.
    #[verifier::when_used_as_spec(endpoint_spec)]
    pub fn endpoint(&self) -> (endpoint: Endpoint)
        ensures
            endpoint == self.endpoint_spec(),
    {
        self.endpoint
    }

    /// Where the listener stands.
    pub fn state(&self) -> (state: ListenerState)
        ensures
            state == self@,
    {
        self.state
    }

    /// The operation that the listener asks for.
    pub fn action(&self) -> (action: ListenerAction)
        ensures
            action == Listener::action_spec(self.endpoint(), self@),
    {
        match self.state {
            ListenerState::Binding => ListenerAction::Bind(self.endpoint),
            ListenerState::Accepting => ListenerAction::Accept,
            ListenerState::Stopped => ListenerAction::Stop,
            ListenerState::Failed => ListenerAction::Exit(FATAL_EXIT_STATUS),
        }
    }

    /// Reports whether the address was bound.
    pub fn bound(&mut self, ok: bool)
        ensures
            final(self)@ == old(self)@.bound(ok),
            final(self).endpoint() == old(self).endpoint(),
    {
        self.state = match self.state {
            ListenerState::Binding => if ok {
                ListenerState::Accepting
            } else {
                ListenerState::Failed
            },
            state => state,
        };
    }

    /// Reports whether a connection was accepted.
    pub fn accepted(&mut self, ok: bool)
        ensures
            final(self)@ == old(self)@.accepted(ok),
            final(self).endpoint() == old(self).endpoint(),
    {
        self.state = match self.state {
            ListenerState::Accepting => if ok {
                ListenerState::Accepting
            } else {
                ListenerState::Stopped
            },
            state => state,
        };
    }
}

/// A listener that has stopped or failed accepts nothing any more, whatever
/// is reported to it; and one that accepts has bound its address.
pub proof fn lemma_listener_ends_for_good(state: ListenerState, ok: bool)
    ensures
        state is Stopped ==> state.bound(ok) is Stopped && state.accepted(ok) is Stopped,
        state is Failed ==> state.bound(ok) is Failed && state.accepted(ok) is Failed,
        state.accepted(ok) is Accepting ==> state is Accepting && ok,
        state.bound(ok) is Failed ==> state is Failed || (state is Binding && !ok),
{
}

} // verus!
