//! The decisions of the control handle: what a caller is told once the wait
//! for a reply is over, and when a wait for readiness ends.

use crate::types::{Error, Response};
use vstd::prelude::*;

verus! {

/// The number of requests the control queue holds before senders wait.
pub const QUEUE_CAPACITY: usize = 8;

/// The seconds a caller waits for the reply to a request.
pub const REQUEST_TIMEOUT_SECS: u64 = 5;

/// The seconds given to the registry to become ready at startup.
pub const STARTUP_TIMEOUT_SECS: u64 = 3;

/// The seconds given to the registry to wind down when the handle is
/// dropped, before its task is aborted.
pub const SHUTDOWN_GRACE_SECS: u64 = 3;

/// How the wait for the reply to a request ended.
#[derive(Clone, Copy, Debug, PartialEq, Eq)]
pub enum Awaited {
    /// The registry replied.
    Replied(Response),
    /// The timeout passed first. The request may still be handled.
    TimedOut,
    /// The reply handle was dropped without a reply.
    Closed,
}

/// What the caller of a create is told, and whether the handle first sends
/// a delete for the port whose result it ignores.
#[derive(Clone, Copy, Debug, PartialEq, Eq)]
pub struct Created {
    pub result: Response,
    pub cleanup: bool,
}

impl Awaited {
    /// The result of an operation whose wait ended this way: the reply if
    /// there was one, else the error of the transport.
    pub open spec fn result(self) -> Response {
        match self {
            Awaited::Replied(response) => response,
            Awaited::TimedOut => Err(Error::Timeout),
            Awaited::Closed => Err(Error::ChannelClosed),
        }
    }

    /// What a status query answers: true only on the reply `Ok`; a refusal,
    /// a timeout and a closed channel all read as not ready.
    pub fn proxy_ready(self) -> (ready: bool)
        ensures
            ready == self.result() is Ok,
    {
        match self {
            Awaited::Replied(Ok(())) => true,
            _ => false,
        }
    }

    /// What a create answers. After every failure but `PortInUse` the
    /// handle cleans up with a delete for the port, so that no proxy is left
    /// behind by a create whose fate is unknown; after `PortInUse` it does
    /// not, since the proxy on the port belongs to an earlier create.
    pub fn create_proxy(self) -> (created: Created)
        ensures
            created.result == self.result(),
            created.cleanup == (self.result() is Err && self.result() != Err::<(), Error>(
                Error::PortInUse,
            )),
    {
        let result = self.delete_proxy();
        let cleanup = match result {
            Ok(()) => false,
            Err(Error::PortInUse) => false,
            Err(_) => true,
        };
        Created { result, cleanup }
    }

    /// What a delete answers.
    pub fn delete_proxy(self) -> (result: Response)
        ensures
            result == self.result(),
    {
        match self {
            Awaited::Replied(response) => response,
            Awaited::TimedOut => Err(Error::Timeout),
            Awaited::Closed => Err(Error::ChannelClosed),
        }
    }
}

/// A wait for the readiness value to become `target`.
#[derive(Clone, Copy, Debug, PartialEq, Eq, Structural)]
pub struct ReadyWait {
    target: bool,
    over: bool,
}

impl ReadyWait {
    /// The value that is waited for.
    pub closed spec fn target(self) -> bool {
        self.target
    }

    /// Whether the wait has ended.
    pub closed spec fn over(self) -> bool {
        self.over
    }

    /// Begins a wait for `target`, given the value that readiness has now.
    /// The wait is over at once if that value is the target.
    pub fn begin(target: bool, current: bool) -> (wait: Self)
        ensures
            wait.target() == target,
            wait.over() == (current == target),
    {
        ReadyWait { target, over: current == target }
    }

    /// Takes note of a new readiness value. A wait that is over stays over,
    /// whatever is observed later.
    pub fn observe(&mut self, value: bool)
        ensures
            final(self).target() == old(self).target(),
            final(self).over() == (old(self).over() || value == old(self).target()),
    {
        if value == self.target {
            self.over = true;
        }
    }

    /// Takes note that readiness will not change any more because its
    /// source is gone: the wait ends.
    pub fn abandon(&mut self)
        ensures
            final(self).target() == old(self).target(),
            final(self).over(),
    {
        self.over = true;
    }

    /// Whether the wait has ended.
    pub fn is_over(&self) -> (over: bool)
        ensures
            over == self.over(),
    {
        self.over
    }
}

} // verus!
