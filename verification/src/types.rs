//! Requests, responses and errors of the proxy control channel.

use vstd::prelude::*;

verus! {

/// Why a control operation failed.
#[derive(Clone, Copy, Debug, PartialEq, Eq, Structural)]
pub enum Error {
    /// No proxy is registered for the port that was asked about.
    NotReady,
    /// A proxy for the port is already registered.
    PortInUse,
    /// The registry is shutting down and takes no new proxies.
    Terminating,
    /// No reply arrived within the request timeout.
    Timeout,
    /// The control channel is closed: the registry is gone.
    ChannelClosed,
}

/// The reply to a request.
pub type Response = Result<(), Error>;

/// A message on the control channel. `R` is the handle on which the reply to
/// a request is delivered; the registry never looks inside it.
#[derive(Debug, PartialEq, Eq)]
pub enum Request<R> {
    /// Asks whether a proxy is registered for the port.
    ProxyStatus(i32, R),
    /// Asks for a new proxy that listens on `host:port` and relays to
    /// `remote_addr`.
    CreateProxy { host: String, port: i32, remote_addr: String, response_channel: R },
    /// Asks for the proxy on the port to be removed. Listeners that stopped
    /// by themselves send it without a reply handle.
    DeleteProxy(i32, Option<R>),
    /// Starts the shutdown of the registry.
    Terminate,
}

impl Error {
    /// The text shown for each error.
    pub open spec fn text(self) -> Seq<char> {
        match self {
            Error::NotReady => "proxy not ready"@,
            Error::PortInUse => "proxy already started"@,
            Error::Terminating => "proxy manager is terminating"@,
            Error::Timeout => "proxy manager did not reply in time"@,
            Error::ChannelClosed => "proxy manager is gone"@,
        }
    }

    /// A human-readable description of the error.
    pub fn message(&self) -> (s: &'static str)
        ensures
            s@ == self.text(),
    {
        match self {
            Error::NotReady => "proxy not ready",
            Error::PortInUse => "proxy already started",
            Error::Terminating => "proxy manager is terminating",
            Error::Timeout => "proxy manager did not reply in time",
            Error::ChannelClosed => "proxy manager is gone",
        }
    }
}

} // verus!
