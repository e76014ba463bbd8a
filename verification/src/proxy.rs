//! The course of one listener task: what it does next, given how its last
//! piece of work ended.

use crate::address::{address_of, socket_address};
use crate::types::Request;
use vstd::prelude::*;

verus! {

/// A piece of work of a listener task.
#[derive(Clone, Copy, Debug, PartialEq, Eq, Structural)]
pub enum Task {
    /// Bind the listening socket on the local address.
    Bind,
    /// Wait for the next inbound connection.
    Accept,
    /// Open the outbound connection to the upstream for the connection
    /// that was accepted.
    Connect,
    /// Launch the relay between the accepted connection and the upstream
    /// connection.
    Relay,
    /// Tell the registry that this listener is over, by its port.
    SignalClosed,
    /// Return.
    Exit,
}

impl Task {
    /// The task that follows this one, given whether this one succeeded.
    ///
    /// The listener is over when it cannot bind or cannot accept any more,
    /// and then signals that once before it returns. An upstream that
    /// cannot be reached costs only the connection that was accepted for
    /// it: the listener goes back to accepting. So it does after launching a
    /// relay, however the launch went.
    pub open spec fn followed_by(self, succeeded: bool) -> Task {
        match self {
            Task::Bind => if succeeded {
                Task::Accept
            } else {
                Task::SignalClosed
            },
            Task::Accept => if succeeded {
                Task::Connect
            } else {
                Task::SignalClosed
            },
            Task::Connect => if succeeded {
                Task::Relay
            } else {
                Task::Accept
            },
            Task::Relay => Task::Accept,
            Task::SignalClosed => Task::Exit,
            Task::Exit => Task::Exit,
        }
    }
}

/// What went wrong in a listener task.
#[derive(Clone, Copy, Debug, PartialEq, Eq, Structural)]
pub enum Failure {
    /// The listening socket could not be bound.
    BindFailed,
    /// No further connection can be accepted.
    AcceptFailed,
    /// The upstream could not be reached for an accepted connection.
    UpstreamUnavailable,
    /// A relay could not be launched or ended in error.
    RelayFailure,
}

impl Failure {
    /// Whether the failure is one of the listener as a whole, which ends
    /// it, and not one of a single connection, which the listener outlives.
    pub open spec fn is_fatal(self) -> bool {
        self == Failure::BindFailed || self == Failure::AcceptFailed
    }

    /// Whether the failure ends the listener.
    pub fn ends_listener(self) -> (fatal: bool)
        ensures
            fatal == self.is_fatal(),
    {
        match self {
            Failure::BindFailed | Failure::AcceptFailed => true,
            Failure::UpstreamUnavailable | Failure::RelayFailure => false,
        }
    }
}

impl Task {
    /// The name of a failure of the task. Signalling and returning have no
    /// failure of their own.
    pub open spec fn failure_kind(self) -> Option<Failure> {
        match self {
            Task::Bind => Some(Failure::BindFailed),
            Task::Accept => Some(Failure::AcceptFailed),
            Task::Connect => Some(Failure::UpstreamUnavailable),
            Task::Relay => Some(Failure::RelayFailure),
            Task::SignalClosed => None,
            Task::Exit => None,
        }
    }

    /// The failure to report when the task did not succeed.
    pub fn failure(self) -> (failure: Option<Failure>)
        ensures
            failure == self.failure_kind(),
    {
        match self {
            Task::Bind => Some(Failure::BindFailed),
            Task::Accept => Some(Failure::AcceptFailed),
            Task::Connect => Some(Failure::UpstreamUnavailable),
            Task::Relay => Some(Failure::RelayFailure),
            Task::SignalClosed => None,
            Task::Exit => None,
        }
    }
}

/// The result of a relay whose two directions have both ended: `Ok` if
/// both copied to the end, else the error of the direction that failed, that
/// of the client-to-upstream direction if both did.
pub fn relay_result<E>(to_upstream: Result<(), E>, to_client: Result<(), E>) -> (result: Result<
    (),
    E,
>)
    ensures
        result == (match to_upstream {
            Err(error) => Err(error),
            Ok(_) => to_client,
        }),
{
    match to_upstream {
        Err(error) => Err(error),
        Ok(_) => to_client,
    }
}

/// A listener: the local address it binds, the upstream it relays to, and
/// the task it is at.
pub struct Proxy {
    port: i32,
    local_addr: String,
    remote_addr: String,
    task: Task,
}

/// A listener as a mathematical value.
pub struct ProxyState {
    pub port: i32,
    pub local_addr: Seq<char>,
    pub remote_addr: Seq<char>,
    pub task: Task,
}

impl View for Proxy {
    type V = ProxyState;

    closed spec fn view(&self) -> ProxyState {
        ProxyState {
            port: self.port,
            local_addr: self.local_addr@,
            remote_addr: self.remote_addr@,
            task: self.task,
        }
    }
}

impl Proxy {
    /// A listener for `host:port` that relays to `remote_addr`, about to
    /// bind.
    pub fn new(host: &str, port: i32, remote_addr: &str) -> (proxy: Self)
        ensures
            proxy@ == (ProxyState {
                port,
                local_addr: address_of(host@, port as int),
                remote_addr: remote_addr@,
                task: Task::Bind,
            }),
    {
        Proxy {
            port,
            local_addr: socket_address(host, port),
            remote_addr: remote_addr.to_owned(),
            task: Task::Bind,
        }
    }

    /// The local port, by which the registry knows the listener.
    pub fn port(&self) -> (port: i32)
        ensures
            port == self@.port,
    {
        self.port
    }

    /// The address to bind.
    pub fn local_addr(&self) -> (addr: &str)
        ensures
            addr@ == self@.local_addr,
    {
        self.local_addr.as_str()
    }

    /// The address of the upstream.
    pub fn remote_addr(&self) -> (addr: &str)
        ensures
            addr@ == self@.remote_addr,
    {
        self.remote_addr.as_str()
    }

    /// The task the listener is at.
    pub fn task(&self) -> (task: Task)
        ensures
            task == self@.task,
    {
        self.task
    }

    /// Takes note of how the current task ended and returns the task to do
    /// next.
    pub fn advance(&mut self, succeeded: bool) -> (next: Task)
        ensures
            next == old(self)@.task.followed_by(succeeded),
            final(self)@ == (ProxyState { task: next, ..old(self)@ }),
    {
        let next = match self.task {
            Task::Bind => if succeeded {
                Task::Accept
            } else {
                Task::SignalClosed
            },
            Task::Accept => if succeeded {
                Task::Connect
            } else {
                Task::SignalClosed
            },
            Task::Connect => if succeeded {
                Task::Relay
            } else {
                Task::Accept
            },
            Task::Relay => Task::Accept,
            Task::SignalClosed => Task::Exit,
            Task::Exit => Task::Exit,
        };
        self.task = next;
        next
    }

    /// The request by which the registry learns that the listener is over:
    /// a delete for its port that expects no reply.
    pub fn close_request<R>(&self) -> (request: Request<R>)
        ensures
            request == Request::<R>::DeleteProxy(self@.port, None),
    {
        Request::DeleteProxy(self.port, None)
    }
}

} // verus!
