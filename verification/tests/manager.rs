use porter::manager::{
    Awaited, Created, ReadyWait, QUEUE_CAPACITY, REQUEST_TIMEOUT_SECS, SHUTDOWN_GRACE_SECS,
    STARTUP_TIMEOUT_SECS,
};
use porter::types::Error;

#[test]
fn limits() {
    assert_eq!(QUEUE_CAPACITY, 8);
    assert_eq!(REQUEST_TIMEOUT_SECS, 5);
    assert_eq!(STARTUP_TIMEOUT_SECS, 3);
    assert_eq!(SHUTDOWN_GRACE_SECS, 3);
}

#[test]
fn status_is_true_only_on_ok() {
    assert!(Awaited::Replied(Ok(())).proxy_ready());
    assert!(!Awaited::Replied(Err(Error::NotReady)).proxy_ready());
    assert!(!Awaited::TimedOut.proxy_ready());
    assert!(!Awaited::Closed.proxy_ready());
}

#[test]
fn create_succeeds_without_cleanup() {
    assert_eq!(
        Awaited::Replied(Ok(())).create_proxy(),
        Created { result: Ok(()), cleanup: false }
    );
}

#[test]
fn create_on_taken_port_leaves_the_proxy_alone() {
    assert_eq!(
        Awaited::Replied(Err(Error::PortInUse)).create_proxy(),
        Created { result: Err(Error::PortInUse), cleanup: false }
    );
}

#[test]
fn create_cleans_up_after_other_failures() {
    assert_eq!(
        Awaited::Replied(Err(Error::Terminating)).create_proxy(),
        Created { result: Err(Error::Terminating), cleanup: true }
    );
    assert_eq!(
        Awaited::TimedOut.create_proxy(),
        Created { result: Err(Error::Timeout), cleanup: true }
    );
    assert_eq!(
        Awaited::Closed.create_proxy(),
        Created { result: Err(Error::ChannelClosed), cleanup: true }
    );
}

#[test]
fn delete_reports_reply_or_transport_error() {
    assert_eq!(Awaited::Replied(Ok(())).delete_proxy(), Ok(()));
    assert_eq!(Awaited::TimedOut.delete_proxy(), Err(Error::Timeout));
    assert_eq!(Awaited::Closed.delete_proxy(), Err(Error::ChannelClosed));
    assert_eq!(Awaited::Replied(Err(Error::NotReady)).delete_proxy(), Err(Error::NotReady));
}

#[test]
fn wait_for_ready_ends_at_first_true() {
    let mut wait = ReadyWait::begin(true, false);
    assert!(!wait.is_over());
    wait.observe(false);
    assert!(!wait.is_over());
    wait.observe(true);
    assert!(wait.is_over());
}

#[test]
fn satisfied_wait_is_not_undone_by_shutdown() {
    let mut wait = ReadyWait::begin(true, true);
    assert!(wait.is_over());
    wait.observe(false);
    assert!(wait.is_over());
}

#[test]
fn shutdown_waits_for_false_only_if_ready() {
    assert!(ReadyWait::begin(false, false).is_over());
    let mut wait = ReadyWait::begin(false, true);
    assert!(!wait.is_over());
    wait.observe(true);
    assert!(!wait.is_over());
    wait.observe(false);
    assert!(wait.is_over());
}

#[test]
fn wait_ends_when_source_is_gone() {
    let mut wait = ReadyWait::begin(true, false);
    wait.abandon();
    assert!(wait.is_over());
}
