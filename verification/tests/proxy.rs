use porter::proxy::{relay_result, Failure, Proxy, Task};
use porter::registry::{Action, Registry};
use porter::types::Request;

#[test]
fn new_listener_is_about_to_bind() {
    let proxy = Proxy::new("127.0.0.1", 18083, "127.0.0.1:19083");
    assert_eq!(proxy.task(), Task::Bind);
    assert_eq!(proxy.port(), 18083);
    assert_eq!(proxy.local_addr(), "127.0.0.1:18083");
    assert_eq!(proxy.remote_addr(), "127.0.0.1:19083");
}

#[test]
fn connection_is_relayed_and_listener_accepts_again() {
    let mut proxy = Proxy::new("127.0.0.1", 18083, "127.0.0.1:19083");
    assert_eq!(proxy.advance(true), Task::Accept);
    assert_eq!(proxy.advance(true), Task::Connect);
    assert_eq!(proxy.advance(true), Task::Relay);
    assert_eq!(proxy.advance(true), Task::Accept);
    assert_eq!(proxy.task(), Task::Accept);
}

#[test]
fn failed_relay_does_not_end_the_listener() {
    let mut proxy = Proxy::new("127.0.0.1", 18083, "127.0.0.1:19083");
    proxy.advance(true);
    proxy.advance(true);
    proxy.advance(true);
    assert_eq!(proxy.advance(false), Task::Accept);
}

#[test]
fn unreachable_upstream_costs_one_connection() {
    let mut proxy = Proxy::new("127.0.0.1", 18084, "127.0.0.1:1");
    assert_eq!(proxy.advance(true), Task::Accept);
    assert_eq!(proxy.advance(true), Task::Connect);
    assert_eq!(proxy.advance(false), Task::Accept);
    assert_eq!(proxy.advance(true), Task::Connect);
    assert_eq!(proxy.advance(false), Task::Accept);
}

#[test]
fn failed_accept_ends_the_listener_with_one_signal() {
    let mut proxy = Proxy::new("127.0.0.1", 18083, "127.0.0.1:19083");
    proxy.advance(true);
    let mut signals = 0;
    for succeeded in [false, true, false, true, true] {
        if proxy.advance(succeeded) == Task::SignalClosed {
            signals += 1;
        }
    }
    assert_eq!(signals, 1);
    assert_eq!(proxy.task(), Task::Exit);
}

#[test]
fn failed_bind_evicts_the_proxy() {
    let mut registry = Registry::new();
    registry.start();
    let created = registry.handle(Request::CreateProxy {
        host: "127.0.0.1".to_string(),
        port: 18085,
        remote_addr: "example.invalid:80".to_string(),
        response_channel: 1u8,
    });
    assert_eq!(created[1], Action::Reply(1u8, Ok(())));
    let mut proxy = match &created[0] {
        Action::StartListener { host, port, remote_addr } => Proxy::new(host, *port, remote_addr),
        other => panic!("no listener was started: {:?}", other),
    };
    assert!(registry.proxy_ready(18085));
    assert_eq!(proxy.advance(false), Task::SignalClosed);
    let request: Request<u8> = proxy.close_request();
    assert_eq!(request, Request::DeleteProxy(18085, None));
    assert_eq!(registry.handle(request), vec![Action::StopListener(18085)]);
    assert!(!registry.proxy_ready(18085));
    assert_eq!(proxy.advance(true), Task::Exit);
    assert_eq!(proxy.advance(false), Task::Exit);
}

#[test]
fn failures_are_named_and_ranked() {
    assert_eq!(Task::Bind.failure(), Some(Failure::BindFailed));
    assert_eq!(Task::Accept.failure(), Some(Failure::AcceptFailed));
    assert_eq!(Task::Connect.failure(), Some(Failure::UpstreamUnavailable));
    assert_eq!(Task::Relay.failure(), Some(Failure::RelayFailure));
    assert_eq!(Task::SignalClosed.failure(), None);
    assert_eq!(Task::Exit.failure(), None);
    assert!(Failure::BindFailed.ends_listener());
    assert!(Failure::AcceptFailed.ends_listener());
    assert!(!Failure::UpstreamUnavailable.ends_listener());
    assert!(!Failure::RelayFailure.ends_listener());
}

#[test]
fn relay_reports_the_first_error() {
    assert_eq!(relay_result::<&str>(Ok(()), Ok(())), Ok(()));
    assert_eq!(relay_result(Err("up"), Ok(())), Err("up"));
    assert_eq!(relay_result(Ok(()), Err("down")), Err("down"));
    assert_eq!(relay_result(Err("up"), Err("down")), Err("up"));
}
