//! The registry of listening proxies: the state that the control loop owns
//! and the handling of each request against it.

use crate::types::{Error, Request, Response};
use std::collections::HashMap;
use vstd::prelude::*;
use vstd::std_specs::hash::spec_keys_iter;
use vstd::std_specs::iter::IteratorSpec;

verus! {

broadcast use vstd::std_specs::hash::group_hash_axioms;

/// What a proxy was registered with: the local host it listens on and the
/// upstream address it relays to.
#[derive(Debug, PartialEq, Eq)]
pub struct ProxyEntry {
    pub host: String,
    pub remote_addr: String,
}

/// Where the control loop stands in its life.
#[derive(Clone, Copy, Debug, PartialEq, Eq, Structural)]
pub enum Phase {
    /// Built, its loop not yet entered.
    Idle,
    /// Receiving requests.
    Running,
    /// Its loop has ended.
    Stopped,
}

impl Phase {
    /// The position of the phase in the one order in which phases follow
    /// each other.
    pub open spec fn rank(self) -> nat {
        match self {
            Phase::Idle => 0,
            Phase::Running => 1,
            Phase::Stopped => 2,
        }
    }
}

/// The registry as a mathematical value.
pub struct RegistryState {
    /// The registered proxies by local port.
    pub proxies: Map<i32, ProxyEntry>,
    /// Set when shutdown begins, never cleared.
    pub terminating: bool,
    /// The phase of the control loop.
    pub phase: Phase,
}

impl RegistryState {
    /// The registry right after construction.
    pub open spec fn initial() -> Self {
        RegistryState { proxies: Map::empty(), terminating: false, phase: Phase::Idle }
    }

    /// Readiness is observed true exactly while the loop is running.
    pub open spec fn ready(self) -> bool {
        self.phase == Phase::Running
    }

    /// Whether a proxy is registered for the port.
    pub open spec fn has_proxy(self, port: i32) -> bool {
        self.proxies.contains_key(port)
    }

    /// The reply to a status request.
    pub open spec fn status(self, port: i32) -> Response {
        if self.has_proxy(port) {
            Ok(())
        } else {
            Err(Error::NotReady)
        }
    }

    /// The reply to a create request.
    pub open spec fn create_reply(self, port: i32) -> Response {
        if self.terminating {
            Err(Error::Terminating)
        } else if self.has_proxy(port) {
            Err(Error::PortInUse)
        } else {
            Ok(())
        }
    }

    /// The registry after a create request: the entry is added when the
    /// request is accepted, and nothing changes when it is refused.
    pub open spec fn after_create(self, host: String, port: i32, remote_addr: String) -> Self {
        if self.create_reply(port) is Ok {
            RegistryState {
                proxies: self.proxies.insert(port, ProxyEntry { host, remote_addr }),
                ..self
            }
        } else {
            self
        }
    }

    /// The registry after a delete request.
    pub open spec fn after_delete(self, port: i32) -> Self {
        RegistryState { proxies: self.proxies.remove(port), ..self }
    }

    /// The registry after a terminate request.
    pub open spec fn after_terminate(self) -> Self {
        RegistryState { terminating: true, ..self }
    }

    /// The registry after its loop was entered.
    pub open spec fn after_start(self) -> Self {
        if self.phase == Phase::Idle {
            RegistryState { phase: Phase::Running, ..self }
        } else {
            self
        }
    }

    /// The registry after its loop has ended: nothing is registered and
    /// nothing can be registered again.
    pub open spec fn after_finish(self) -> Self {
        RegistryState { proxies: Map::empty(), terminating: true, phase: Phase::Stopped }
    }
}

/// Whether `ports` names every port of `of` once and nothing else.
pub open spec fn is_listing(ports: Seq<i32>, of: Set<i32>) -> bool {
    ports.no_duplicates() && ports.to_set() == of
}

/// What the driver of the registry has to do after a request was handled.
/// `R` is the reply handle of the request.
#[derive(Debug, PartialEq, Eq)]
pub enum Action<R> {
    /// Deliver the response on the reply handle. A failed delivery is
    /// ignored.
    Reply(R, Response),
    /// Start the listener of a proxy that was just registered.
    StartListener { host: String, port: i32, remote_addr: String },
    /// Drop the listener of a proxy that was just removed, which aborts its
    /// task and releases the port.
    StopListener(i32),
    /// Queue a delete for the port, without reply handle, behind the
    /// requests that are already waiting.
    PostDelete(i32),
    /// Close the receiving side of the queue: what is queued is still
    /// handled, nothing more is accepted.
    CloseQueue,
}

/// One queued delete for each of the ports, in their order.
pub open spec fn post_deletes<R>(ports: Seq<i32>) -> Seq<Action<R>> {
    ports.map_values(|port: i32| Action::PostDelete(port))
}

impl RegistryState {
    /// The registry after the request was handled.
    pub open spec fn after<R>(self, request: Request<R>) -> Self {
        match request {
            Request::ProxyStatus(_, _) => self,
            Request::CreateProxy { host, port, remote_addr, .. } => self.after_create(
                host,
                port,
                remote_addr,
            ),
            Request::DeleteProxy(port, _) => self.after_delete(port),
            Request::Terminate => self.after_terminate(),
        }
    }
}

/// Whether `actions` is what handling `request` in `state` asks of the
/// driver.
///
/// - A status request is answered and nothing else.
/// - An accepted create starts the listener and is answered `Ok`; a refused
///   one is only answered, with the reason.
/// - A delete stops the listener if the port was registered, and is answered
///   `Ok` if it carries a reply handle.
/// - A terminate queues a delete for every registered port, each once, in
///   some order, and then closes the queue.
pub open spec fn handled<R>(state: RegistryState, request: Request<R>, actions: Seq<Action<R>>) -> bool {
    match request {
        Request::ProxyStatus(port, reply) => actions == seq![
            Action::Reply(reply, state.status(port)),
        ],
        Request::CreateProxy { host, port, remote_addr, response_channel } => {
            if state.create_reply(port) is Ok {
                actions == seq![
                    Action::StartListener { host, port, remote_addr },
                    Action::Reply(response_channel, Ok(())),
                ]
            } else {
                actions == seq![Action::Reply(response_channel, state.create_reply(port))]
            }
        },
        Request::DeleteProxy(port, reply) => {
            let stop = if state.has_proxy(port) {
                seq![Action::<R>::StopListener(port)]
            } else {
                Seq::<Action<R>>::empty()
            };
            let acknowledge = match reply {
                Some(reply) => seq![Action::Reply(reply, Ok(()))],
                None => Seq::<Action<R>>::empty(),
            };
            actions == stop + acknowledge
        },
        Request::Terminate => exists|ports: Seq<i32>|
            is_listing(ports, state.proxies.dom()) && actions == #[trigger] post_deletes::<R>(
                ports,
            ).push(Action::CloseQueue),
    }
}

/// The state owned by the control loop: the proxies by local port, the
/// shutdown flag and the phase of the loop.
pub struct Registry {
    proxies: HashMap<i32, ProxyEntry>,
    terminating: bool,
    phase: Phase,
}

impl View for Registry {
    type V = RegistryState;

    closed spec fn view(&self) -> RegistryState {
        RegistryState {
            proxies: self.proxies@,
            terminating: self.terminating,
            phase: self.phase,
        }
    }
}

impl Registry {
    /// An empty registry whose loop has not been entered.
    pub fn new() -> (registry: Self)
        ensures
            registry@ == RegistryState::initial(),
    {
        Registry { proxies: HashMap::new(), terminating: false, phase: Phase::Idle }
    }

    /// The readiness value to publish.
    pub fn ready(&self) -> (ready: bool)
        ensures
            ready == self@.ready(),
    {
        self.phase == Phase::Running
    }

    /// Marks the loop as entered. Only a registry that has never run starts.
    pub fn start(&mut self)
        ensures
            final(self)@ == old(self)@.after_start(),
    {
        if self.phase == Phase::Idle {
            self.phase = Phase::Running;
        }
    }

    /// Whether a proxy is registered for the port.
    pub fn proxy_ready(&self, port: i32) -> (ready: bool)
        ensures
            ready == self@.has_proxy(port),
    {
        self.proxies.contains_key(&port)
    }

    /// What the proxy of the port was registered with, if there is one.
    pub fn entry(&self, port: i32) -> (entry: Option<&ProxyEntry>)
        ensures
            entry is Some == self@.has_proxy(port),
            entry matches Some(found) ==> *found == self@.proxies[port],
    {
        self.proxies.get(&port)
    }

    /// Registers a proxy for the port unless the registry is shutting down
    /// or the port is taken.
    pub fn create_proxy(&mut self, host: String, port: i32, remote_addr: String) -> (reply:
        Response)
        ensures
            reply == old(self)@.create_reply(port),
            final(self)@ == old(self)@.after_create(host, port, remote_addr),
    {
        if self.terminating {
            return Err(Error::Terminating);
        }
        if self.proxies.contains_key(&port) {
            return Err(Error::PortInUse);
        }
        self.proxies.insert(port, ProxyEntry { host, remote_addr });
        Ok(())
    }

    /// Removes the proxy of the port, if there is one, and says whether
    /// there was.
    pub fn delete_proxy(&mut self, port: i32) -> (removed: bool)
        ensures
            removed == old(self)@.has_proxy(port),
            final(self)@ == old(self)@.after_delete(port),
    {
        self.proxies.remove(&port).is_some()
    }

    /// The ports of the registered proxies, each once, in no particular
    /// order.
    fn ports(&self) -> (ports: Vec<i32>)
        ensures
            is_listing(ports@, self@.proxies.dom()),
    {
        let mut ports: Vec<i32> = Vec::new();
        for port in iter: self.proxies.keys()
            invariant
                ports@ == iter.seq().unref().take(iter.index() as int),
        {
            ports.push(*port);
        }
        proof {
            let listed = spec_keys_iter(&self.proxies).remaining();
            assert(ports@ =~= listed.unref());
        }
        ports
    }

    /// Begins shutdown: from now on creates are refused. Returns the ports
    /// of the registered proxies, each once, for which a delete is to be
    /// queued.
    pub fn terminate(&mut self) -> (ports: Vec<i32>)
        ensures
            final(self)@ == old(self)@.after_terminate(),
            is_listing(ports@, old(self)@.proxies.dom()),
    {
        self.terminating = true;
        self.ports()
    }

    /// Ends the life of the registry once its loop is over. Every proxy
    /// that is still registered is dropped; their ports are returned, each
    /// once, so that the listeners can be stopped before unreadiness is
    /// published.
    pub fn finish(&mut self) -> (ports: Vec<i32>)
        ensures
            final(self)@ == old(self)@.after_finish(),
            is_listing(ports@, old(self)@.proxies.dom()),
    {
        let ports = self.ports();
        self.proxies.clear();
        self.terminating = true;
        self.phase = Phase::Stopped;
        ports
    }

    /// Handles one request and returns what the driver has to do for it, in
    /// order.
    pub fn handle<R>(&mut self, request: Request<R>) -> (actions: Vec<Action<R>>)
        ensures
            final(self)@ == old(self)@.after(request),
            handled(old(self)@, request, actions@),
    {
        let mut actions: Vec<Action<R>> = Vec::new();
        match request {
            Request::ProxyStatus(port, reply) => {
                let status = if self.proxy_ready(port) {
                    Ok(())
                } else {
                    Err(Error::NotReady)
                };
                actions.push(Action::Reply(reply, status));
                assert(actions@ =~= seq![Action::Reply(reply, status)]);
            },
            Request::CreateProxy { host, port, remote_addr, response_channel } => {
                let entry_host = host.clone();
                let entry_remote_addr = remote_addr.clone();
                let reply = self.create_proxy(entry_host, port, entry_remote_addr);
                if reply.is_ok() {
                    actions.push(Action::StartListener { host, port, remote_addr });
                }
                actions.push(Action::Reply(response_channel, reply));
                assert(reply is Ok ==> actions@ =~= seq![
                    Action::StartListener { host, port, remote_addr },
                    Action::Reply(response_channel, reply),
                ]);
                assert(reply is Err ==> actions@ =~= seq![Action::Reply(response_channel, reply)]);
            },
            Request::DeleteProxy(port, reply) => {
                let ghost before = self@;
                if self.delete_proxy(port) {
                    actions.push(Action::StopListener(port));
                }
                let ghost stop = actions@;
                if let Some(reply) = reply {
                    actions.push(Action::Reply(reply, Ok(())));
                    assert(actions@ =~= stop + seq![Action::Reply(reply, Ok(()))]);
                } else {
                    assert(actions@ =~= stop + Seq::<Action<R>>::empty());
                }
                assert(before.has_proxy(port) ==> stop =~= seq![Action::<R>::StopListener(port)]);
                assert(!before.has_proxy(port) ==> stop =~= Seq::<Action<R>>::empty());
            },
            Request::Terminate => {
                let ports = self.terminate();
                let mut i: usize = 0;
                while i < ports.len()
                    invariant
                        i <= ports.len(),
                        actions@ == post_deletes::<R>(ports@.take(i as int)),
                    decreases ports.len() - i,
                {
                    actions.push(Action::PostDelete(ports[i]));
                    i += 1;
                    assert(actions@ =~= post_deletes::<R>(ports@.take(i as int)));
                }
                assert(ports@.take(i as int) =~= ports@);
                actions.push(Action::CloseQueue);
            },
        }
        actions
    }
}

} // verus!
