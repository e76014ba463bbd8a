//! What holds of the registry and of a listener over whole histories.

use crate::proxy::Task;
use crate::registry::{
    handled, is_listing, post_deletes, Action, Phase, ProxyEntry, RegistryState,
};
use crate::types::{Error, Request};
use vstd::prelude::*;

verus! {

/// The registry after the requests were handled one after the other.
pub open spec fn run<R>(state: RegistryState, requests: Seq<Request<R>>) -> RegistryState
    decreases requests.len(),
{
    if requests.len() == 0 {
        state
    } else {
        run(state, requests.drop_last()).after(requests.last())
    }
}

/// Whether every create among the requests was accepted when its turn came.
pub open spec fn creates_accepted<R>(state: RegistryState, requests: Seq<Request<R>>) -> bool
    decreases requests.len(),
{
    if requests.len() == 0 {
        true
    } else {
        &&& creates_accepted(state, requests.drop_last())
        &&& match requests.last() {
            Request::CreateProxy { port, .. } => run(state, requests.drop_last()).create_reply(
                port,
            ) is Ok,
            _ => true,
        }
    }
}

/// The number of creates for the port among the requests, less the number of
/// deletes for it.
pub open spec fn net_creates<R>(requests: Seq<Request<R>>, port: i32) -> int
    decreases requests.len(),
{
    if requests.len() == 0 {
        0
    } else {
        net_creates(requests.drop_last(), port) + match requests.last() {
            Request::CreateProxy { port: created, .. } if created == port => 1int,
            Request::DeleteProxy(deleted, _) if deleted == port => -1int,
            _ => 0int,
        }
    }
}

/// The number of deletes for the port that found no proxy registered for it.
pub open spec fn idle_deletes<R>(state: RegistryState, requests: Seq<Request<R>>, port: i32) -> int
    decreases requests.len(),
{
    if requests.len() == 0 {
        0
    } else {
        idle_deletes(state, requests.drop_last(), port) + match requests.last() {
            Request::DeleteProxy(deleted, _) if deleted == port && !run(
                state,
                requests.drop_last(),
            ).has_proxy(port) => 1int,
            _ => 0int,
        }
    }
}

/// Over any history of requests whose creates were all accepted, starting
/// where no proxy is registered for the port: the creates for the port, less
/// the deletes that removed a proxy of it, number one while a proxy is
/// registered for it and zero while none is.
pub proof fn lemma_effective_count<R>(state: RegistryState, requests: Seq<Request<R>>, port: i32)
    requires
        !state.has_proxy(port),
        creates_accepted(state, requests),
    ensures
        net_creates(requests, port) + idle_deletes(state, requests, port) == (if run(
            state,
            requests,
        ).has_proxy(port) {
            1int
        } else {
            0int
        }),
    decreases requests.len(),
{
    if requests.len() > 0 {
        lemma_effective_count(state, requests.drop_last(), port);
    }
}

/// A proxy is registered for the port exactly if the creates for it
/// outnumber the deletes for it. This holds of every history of requests
/// whose creates were all accepted, on a registry that had no proxy for the
/// port, unless a proxy is registered at the end of a history in which a
/// delete for the port found nothing to remove: such a delete is answered
/// `Ok` and counts, yet it cancels no create.
pub proof fn lemma_ready_iff_more_creates_than_deletes<R>(
    state: RegistryState,
    requests: Seq<Request<R>>,
    port: i32,
)
    requires
        !state.has_proxy(port),
        creates_accepted(state, requests),
        run(state, requests).has_proxy(port) ==> idle_deletes(state, requests, port) == 0,
    ensures
        run(state, requests).has_proxy(port) <==> net_creates(requests, port) >= 1,
        run(state, requests).status(port) is Ok <==> net_creates(requests, port) >= 1,
{
    lemma_effective_count(state, requests, port);
    lemma_idle_deletes_nonnegative(state, requests, port);
}

/// The count of deletes that found nothing is never negative.
pub proof fn lemma_idle_deletes_nonnegative<R>(
    state: RegistryState,
    requests: Seq<Request<R>>,
    port: i32,
)
    ensures
        idle_deletes(state, requests, port) >= 0,
    decreases requests.len(),
{
    if requests.len() > 0 {
        lemma_idle_deletes_nonnegative(state, requests.drop_last(), port);
    }
}

/// A delete is answered `Ok` whether or not a proxy was registered for the
/// port, and leaves none registered; a second delete changes nothing more.
pub proof fn lemma_delete_is_idempotent<R>(
    state: RegistryState,
    port: i32,
    reply: R,
    actions: Seq<Action<R>>,
)
    requires
        handled(state, Request::DeleteProxy(port, Some(reply)), actions),
    ensures
        actions.len() > 0,
        actions.last() == Action::Reply(reply, Ok(())),
        !state.after_delete(port).has_proxy(port),
        state.after_delete(port).after_delete(port) == state.after_delete(port),
        !state.has_proxy(port) ==> state.after_delete(port) == state,
{
    assert(state.after_delete(port).proxies.remove(port) =~= state.after_delete(port).proxies);
    if !state.has_proxy(port) {
        assert(state.proxies.remove(port) =~= state.proxies);
    }
}

/// Right after an accepted create, a second create for the same port is
/// refused with `PortInUse` whatever host and upstream it names, and the
/// proxy of the first stays registered as it was.
pub proof fn lemma_second_create_is_refused(
    state: RegistryState,
    host: String,
    port: i32,
    remote_addr: String,
    other_host: String,
    other_remote_addr: String,
)
    requires
        state.create_reply(port) is Ok,
    ensures
        ({
            let created = state.after_create(host, port, remote_addr);
            &&& created.create_reply(port) == Err::<(), Error>(Error::PortInUse)
            &&& created.after_create(other_host, port, other_remote_addr) == created
            &&& created.status(port) is Ok
            &&& created.proxies[port] == ProxyEntry { host, remote_addr }
        }),
{
}

/// Whether one of the requests is a delete for the port.
pub open spec fn deletes_port<R>(requests: Seq<Request<R>>, port: i32) -> bool {
    exists|i: int|
        0 <= i < requests.len() && (#[trigger] requests[i] matches Request::DeleteProxy(
            deleted,
            _,
        ) && deleted == port)
}

/// A proxy stays registered, as it was registered, until a delete for its
/// port is handled: a status request that follows an accepted create is
/// answered `Ok` unless a delete for the port came in between. Requests for
/// other ports and the beginning of shutdown leave it alone.
pub proof fn lemma_proxy_stays_until_deleted<R>(
    state: RegistryState,
    requests: Seq<Request<R>>,
    port: i32,
)
    requires
        state.has_proxy(port),
        !deletes_port(requests, port),
    ensures
        run(state, requests).has_proxy(port),
        run(state, requests).proxies[port] == state.proxies[port],
        run(state, requests).status(port) is Ok,
    decreases requests.len(),
{
    if requests.len() > 0 {
        let earlier = requests.drop_last();
        assert forall|i: int| 0 <= i < earlier.len() implies !(#[trigger] earlier[i]
            matches Request::DeleteProxy(deleted, _) && deleted == port) by {
            assert(earlier[i] == requests[i]);
        }
        lemma_proxy_stays_until_deleted(state, earlier, port);
        assert(requests.last() == requests[requests.len() - 1]);
    }
}

/// After a delete for a port, a create for that port is not refused with
/// `PortInUse`.
pub proof fn lemma_create_after_delete_finds_port_free(state: RegistryState, port: i32)
    ensures
        state.after_delete(port).create_reply(port) != Err::<(), Error>(Error::PortInUse),
        !state.terminating ==> state.after_delete(port).create_reply(port) is Ok,
{
}

/// Once shutdown has begun it stays begun: however many requests follow,
/// every create is refused with `Terminating` and no proxy is registered
/// that was not registered before.
pub proof fn lemma_terminating_refuses_creates<R>(
    state: RegistryState,
    requests: Seq<Request<R>>,
    port: i32,
)
    requires
        state.terminating,
    ensures
        run(state, requests).terminating,
        run(state, requests).create_reply(port) == Err::<(), Error>(Error::Terminating),
        run(state, requests).proxies.submap_of(state.proxies),
    decreases requests.len(),
{
    if requests.len() > 0 {
        lemma_terminating_refuses_creates(state, requests.drop_last(), port);
    }
}

/// A terminate request begins shutdown, whatever the registry held.
pub proof fn lemma_terminate_begins_shutdown<R>(
    state: RegistryState,
    requests: Seq<Request<R>>,
    port: i32,
)
    ensures
        run(state.after(Request::<R>::Terminate), requests).create_reply(port) == Err::<
            (),
            Error,
        >(Error::Terminating),
{
    lemma_terminating_refuses_creates(state.after(Request::<R>::Terminate), requests, port);
}

/// The ports that have a listener after the driver carried out the actions,
/// given the ports that had one before.
pub open spec fn listeners_after<R>(listeners: Set<i32>, actions: Seq<Action<R>>) -> Set<i32>
    decreases actions.len(),
{
    if actions.len() == 0 {
        listeners
    } else {
        let before = listeners_after(listeners, actions.drop_last());
        match actions.last() {
            Action::StartListener { port, .. } => before.insert(port),
            Action::StopListener(port) => before.remove(port),
            _ => before,
        }
    }
}

/// Queued deletes start and stop no listener.
pub proof fn lemma_post_deletes_keep_listeners<R>(listeners: Set<i32>, ports: Seq<i32>)
    ensures
        listeners_after(listeners, post_deletes::<R>(ports)) == listeners,
    decreases ports.len(),
{
    if ports.len() > 0 {
        lemma_post_deletes_keep_listeners::<R>(listeners, ports.drop_last());
        assert(post_deletes::<R>(ports).drop_last() =~= post_deletes::<R>(ports.drop_last()));
    }
}

/// A listener runs for a port exactly if a proxy is registered for it: if
/// that is so before a request, it is so after the driver carried out the
/// actions of the request. A listener is only started for a port that has
/// none, and only stopped for a port that has one.
pub proof fn lemma_listeners_follow_registry<R>(
    state: RegistryState,
    request: Request<R>,
    actions: Seq<Action<R>>,
)
    requires
        handled(state, request, actions),
    ensures
        listeners_after(state.proxies.dom(), actions) == state.after(request).proxies.dom(),
        forall|i: int|
            0 <= i < actions.len() ==> (#[trigger] actions[i] matches Action::StartListener {
                port,
                ..
            } ==> !state.has_proxy(port)),
        forall|i: int|
            0 <= i < actions.len() ==> (#[trigger] actions[i] matches Action::StopListener(port)
                ==> state.has_proxy(port)),
{
    let listeners = state.proxies.dom();
    match request {
        Request::ProxyStatus(port, reply) => {
            reveal_with_fuel(listeners_after, 2);
        },
        Request::CreateProxy { host, port, remote_addr, response_channel } => {
            reveal_with_fuel(listeners_after, 3);
            if state.create_reply(port) is Ok {
                assert(actions.drop_last().drop_last() =~= Seq::<Action<R>>::empty());
                assert(actions.drop_last().last() == Action::<R>::StartListener {
                    host,
                    port,
                    remote_addr,
                });
                assert(listeners_after(listeners, actions) =~= listeners.insert(port));
            }
        },
        Request::DeleteProxy(port, reply) => {
            reveal_with_fuel(listeners_after, 3);
            if state.has_proxy(port) {
                if reply is Some {
                    assert(actions.drop_last().last() == Action::<R>::StopListener(port));
                } else {
                    assert(actions.last() == Action::<R>::StopListener(port));
                }
                assert(listeners_after(listeners, actions) =~= listeners.remove(port));
            } else {
                assert(listeners.remove(port) =~= listeners);
            }
        },
        Request::Terminate => {
            let ports = choose|ports: Seq<i32>|
                is_listing(ports, state.proxies.dom()) && actions
                    == #[trigger] post_deletes::<R>(ports).push(Action::CloseQueue);
            lemma_post_deletes_keep_listeners::<R>(listeners, ports);
            assert(actions.drop_last() =~= post_deletes::<R>(ports));
        },
    }
}

proof fn lemma_to_set_last(ports: Seq<i32>)
    requires
        ports.len() > 0,
    ensures
        ports.to_set() == ports.drop_last().to_set().insert(ports.last()),
{
    ports.drop_last().lemma_push_to_set_commute(ports.last());
    assert(ports.drop_last().push(ports.last()) =~= ports);
}

/// The deletes, without reply handle, that a terminate queues for the
/// ports.
pub open spec fn queued_deletes<R>(ports: Seq<i32>) -> Seq<Request<R>> {
    ports.map_values(|port: i32| Request::DeleteProxy(port, None))
}

/// Handling deletes for some ports removes the proxies of those ports and
/// no others.
pub proof fn lemma_deletes_remove_their_ports<R>(state: RegistryState, ports: Seq<i32>)
    ensures
        run(state, queued_deletes::<R>(ports)) == (RegistryState {
            proxies: state.proxies.remove_keys(ports.to_set()),
            ..state
        }),
    decreases ports.len(),
{
    let deletes = queued_deletes::<R>(ports);
    if ports.len() == 0 {
        assert(state.proxies.remove_keys(ports.to_set()) =~= state.proxies);
    } else {
        lemma_deletes_remove_their_ports::<R>(state, ports.drop_last());
        assert(deletes.drop_last() =~= queued_deletes::<R>(ports.drop_last()));
        lemma_to_set_last(ports);
        assert(state.proxies.remove_keys(ports.drop_last().to_set()).remove(ports.last())
            =~= state.proxies.remove_keys(ports.to_set()));
    }
}

/// Shutdown empties the registry: once the deletes that a terminate queued
/// are handled, with no create in between, no proxy is registered, and none
/// can be registered again.
pub proof fn lemma_queued_deletes_empty_registry<R>(state: RegistryState, ports: Seq<i32>)
    requires
        is_listing(ports, state.proxies.dom()),
    ensures
        run(state.after_terminate(), queued_deletes::<R>(ports)) == (RegistryState {
            proxies: Map::<i32, ProxyEntry>::empty(),
            terminating: true,
            ..state
        }),
{
    lemma_deletes_remove_their_ports::<R>(state.after_terminate(), ports);
    assert(state.proxies.remove_keys(ports.to_set()) =~= Map::<i32, ProxyEntry>::empty());
}

/// The ports that still have a listener after the listeners of `ports`
/// were dropped.
pub open spec fn listeners_without(listeners: Set<i32>, ports: Seq<i32>) -> Set<i32>
    decreases ports.len(),
{
    if ports.len() == 0 {
        listeners
    } else {
        listeners_without(listeners, ports.drop_last()).remove(ports.last())
    }
}

/// When the loop of the registry has ended and the driver has dropped the
/// listeners of the ports that the end hands out, no listener is left, and
/// the registry holds no proxy.
pub proof fn lemma_finish_leaves_no_listener(state: RegistryState, ports: Seq<i32>)
    requires
        is_listing(ports, state.proxies.dom()),
    ensures
        listeners_without(state.proxies.dom(), ports) == Set::<i32>::empty(),
        state.after_finish().proxies.dom() == Set::<i32>::empty(),
        !state.after_finish().ready(),
{
    lemma_listeners_without(state.proxies.dom(), ports);
    assert(state.proxies.dom().difference(ports.to_set()) =~= Set::<i32>::empty());
    assert(state.after_finish().proxies.dom() =~= Set::<i32>::empty());
}

/// Dropping the listeners of some ports leaves those of all other ports.
pub proof fn lemma_listeners_without(listeners: Set<i32>, ports: Seq<i32>)
    ensures
        listeners_without(listeners, ports) == listeners.difference(ports.to_set()),
    decreases ports.len(),
{
    if ports.len() == 0 {
        assert(listeners.difference(ports.to_set()) =~= listeners);
    } else {
        lemma_listeners_without(listeners, ports.drop_last());
        lemma_to_set_last(ports);
        assert(listeners.difference(ports.drop_last().to_set()).remove(ports.last())
            =~= listeners.difference(ports.to_set()));
    }
}

/// What happens to a registry over its life.
pub enum Step<R> {
    /// Its loop is entered.
    Start,
    /// A request is handled.
    Handle(Request<R>),
    /// Its loop has ended.
    Finish,
}

/// The registry after one step of its life.
pub open spec fn step<R>(state: RegistryState, step: Step<R>) -> RegistryState {
    match step {
        Step::Start => state.after_start(),
        Step::Handle(request) => state.after(request),
        Step::Finish => state.after_finish(),
    }
}

/// The registry after the steps were taken one after the other.
pub open spec fn life<R>(state: RegistryState, steps: Seq<Step<R>>) -> RegistryState
    decreases steps.len(),
{
    if steps.len() == 0 {
        state
    } else {
        step(life(state, steps.drop_last()), steps.last())
    }
}

/// A registry whose loop has ended holds no proxy and takes none.
pub open spec fn settled(state: RegistryState) -> bool {
    state.phase == Phase::Stopped ==> state.terminating && state.proxies == Map::<
        i32,
        ProxyEntry,
    >::empty()
}

/// The phase of a registry only ever advances, from idle over running to
/// stopped, and a registry that was settled stays so.
pub proof fn lemma_phase_only_advances<R>(state: RegistryState, steps: Seq<Step<R>>)
    ensures
        state.phase.rank() <= life(state, steps).phase.rank(),
        settled(state) ==> settled(life(state, steps)),
    decreases steps.len(),
{
    if steps.len() > 0 {
        lemma_phase_only_advances(state, steps.drop_last());
        let before = life(state, steps.drop_last());
        match steps.last() {
            Step::Handle(request) => {
                if before.phase == Phase::Stopped && settled(before) {
                    assert(before.after(request).proxies =~= before.proxies);
                }
            },
            _ => {},
        }
    }
}

/// Readiness goes from false to true to false and never back: once it was
/// seen true and then false, it is false after whatever follows.
pub proof fn lemma_readiness_never_returns<R>(
    state: RegistryState,
    first: Seq<Step<R>>,
    then: Seq<Step<R>>,
)
    requires
        state.ready(),
        !life(state, first).ready(),
    ensures
        !life(life(state, first), then).ready(),
{
    lemma_phase_only_advances(state, first);
    lemma_phase_only_advances(life(state, first), then);
}

/// A new registry is not ready and is settled. Nothing but entering the
/// loop makes a registry ready, and when readiness is lost no proxy is
/// registered any more.
pub proof fn lemma_readiness_brackets_the_loop<R>(state: RegistryState, taken: Step<R>)
    ensures
        !RegistryState::initial().ready(),
        settled(RegistryState::initial()),
        !state.ready() && step(state, taken).ready() ==> taken is Start && state.phase
            == Phase::Idle,
        state.ready() && !step(state, taken).ready() ==> taken is Finish && step(
            state,
            taken,
        ).proxies == Map::<i32, ProxyEntry>::empty(),
{
}

/// The task a listener is at after its tasks so far ended as `outcomes`
/// says, the bind first.
pub open spec fn task_after(outcomes: Seq<bool>) -> Task
    decreases outcomes.len(),
{
    if outcomes.len() == 0 {
        Task::Bind
    } else {
        task_after(outcomes.drop_last()).followed_by(outcomes.last())
    }
}

/// How often the listener was told to signal that it is over, up to and
/// with the task that it is at.
pub open spec fn signals(outcomes: Seq<bool>) -> nat
    decreases outcomes.len(),
{
    if outcomes.len() == 0 {
        0
    } else {
        signals(outcomes.drop_last()) + (if task_after(outcomes) == Task::SignalClosed {
            1nat
        } else {
            0nat
        })
    }
}

/// A listener signals that it is over exactly once: not while it is still
/// binding, accepting, connecting or relaying, and once by the time it is
/// told to signal and ever after.
pub proof fn lemma_listener_signals_once(outcomes: Seq<bool>)
    ensures
        signals(outcomes) == (if task_after(outcomes) == Task::SignalClosed || task_after(
            outcomes,
        ) == Task::Exit {
            1nat
        } else {
            0nat
        }),
    decreases outcomes.len(),
{
    if outcomes.len() > 0 {
        lemma_listener_signals_once(outcomes.drop_last());
    }
}

/// Failures are contained where they happen: a failed task ends the
/// listener exactly if its failure is one of the listener as a whole. After
/// a failure that concerns one connection the listener accepts the next.
pub proof fn lemma_connection_failures_are_contained(task: Task)
    ensures
        task.followed_by(false) == Task::SignalClosed <==> (task.failure_kind() matches Some(
            failure,
        ) && failure.is_fatal()),
        (task.failure_kind() matches Some(failure) && !failure.is_fatal()) ==> task.followed_by(
            false,
        ) == Task::Accept,
{
}

/// A listener that is over stays over.
pub proof fn lemma_listener_exit_is_final(outcomes: Seq<bool>, more: Seq<bool>)
    requires
        task_after(outcomes) == Task::Exit,
    ensures
        task_after(outcomes + more) == Task::Exit,
    decreases more.len(),
{
    if more.len() == 0 {
        assert(outcomes + more =~= outcomes);
    } else {
        lemma_listener_exit_is_final(outcomes, more.drop_last());
        assert((outcomes + more).drop_last() =~= outcomes + more.drop_last());
    }
}

/// A listener that cannot bind signals that it is over, and once the
/// registry has handled the delete that the signal stands for, no proxy is
/// registered for the port of the listener. The delete asks for no reply
/// and gets none.
pub proof fn lemma_failed_bind_evicts<R>(state: RegistryState, port: i32, actions: Seq<Action<R>>)
    requires
        handled(state, Request::<R>::DeleteProxy(port, None), actions),
    ensures
        task_after(seq![false]) == Task::SignalClosed,
        task_after(seq![false, true]) == Task::Exit,
        state.after(Request::<R>::DeleteProxy(port, None)).status(port) == Err::<(), Error>(
            Error::NotReady,
        ),
        forall|i: int| 0 <= i < actions.len() ==> !(#[trigger] actions[i] is Reply),
{
    reveal_with_fuel(task_after, 3);
    assert(seq![false].drop_last() =~= Seq::<bool>::empty());
    assert(seq![false, true].drop_last() =~= seq![false]);
}

} // verus!
