//! Process lifetime.

use abap_lsp::launch::{LaunchArguments, DEFAULT_ADDRESS, DEFAULT_IDLE_TIMEOUT_SECONDS};
use abap_lsp::lifecycle::{ConnectionEvent, ConnectionLifecycle};

#[test]
fn a_regular_process_waits_for_its_first_client_and_exits_after_its_last() {
    let mut lifecycle = ConnectionLifecycle::new(false, 100, 5);
    assert!(!lifecycle.should_exit());
    assert_eq!(lifecycle.wait_for_idle_timeout(), None);
    lifecycle.connected();
    assert!(!lifecycle.should_exit());
    lifecycle.connected();
    lifecycle.on_event(ConnectionEvent::TransportClosed, 6);
    assert!(!lifecycle.should_exit());
    lifecycle.on_event(ConnectionEvent::Initialized, 7);
    assert!(!lifecycle.should_exit());
    lifecycle.on_event(ConnectionEvent::TransportClosed, 8);
    assert!(lifecycle.should_exit());
    assert_eq!(lifecycle.wait_for_idle_timeout(), None);
}

#[test]
fn a_daemon_waits_for_its_idle_timeout() {
    let mut lifecycle = ConnectionLifecycle::new(true, 100, 5);
    assert_eq!(lifecycle.wait_for_idle_timeout(), Some(105));
    // A probe that never initializes cancels the timeout as well.
    lifecycle.connected();
    assert_eq!(lifecycle.wait_for_idle_timeout(), None);
    lifecycle.on_event(ConnectionEvent::TransportClosed, 50);
    assert_eq!(lifecycle.wait_for_idle_timeout(), Some(150));
    assert!(!lifecycle.should_exit());
    lifecycle.connected();
    lifecycle.connected();
    lifecycle.on_event(ConnectionEvent::Initialized, 60);
    lifecycle.on_event(ConnectionEvent::TransportClosed, 70);
    assert_eq!(lifecycle.wait_for_idle_timeout(), None);
    lifecycle.on_event(ConnectionEvent::TransportClosed, 80);
    assert_eq!(lifecycle.wait_for_idle_timeout(), Some(180));
    assert!(!lifecycle.should_exit());
}

#[test]
fn closing_more_than_was_opened_counts_as_idle() {
    let mut lifecycle = ConnectionLifecycle::new(true, 10, 0);
    lifecycle.on_event(ConnectionEvent::TransportClosed, 3);
    assert_eq!(lifecycle.wait_for_idle_timeout(), Some(13));
    lifecycle.connected();
    lifecycle.on_event(ConnectionEvent::TransportClosed, 4);
    assert_eq!(lifecycle.wait_for_idle_timeout(), Some(14));
}

#[test]
fn initialization_clears_the_deadline() {
    let mut lifecycle = ConnectionLifecycle::new(true, 10, 0);
    lifecycle.on_event(ConnectionEvent::Initialized, 1);
    assert_eq!(lifecycle.wait_for_idle_timeout(), None);
}

#[test]
fn the_idle_timeout_is_given_in_seconds() {
    let mut process = LaunchArguments {
        daemon: true,
        address: DEFAULT_ADDRESS.to_owned(),
        idle_timeout_seconds: DEFAULT_IDLE_TIMEOUT_SECONDS,
    };
    assert_eq!(process.address, "127.0.0.1:9257");
    assert_eq!(process.idle_timeout(), std::time::Duration::from_secs(600).as_nanos());
    process.idle_timeout_seconds = u64::MAX;
    assert_eq!(process.idle_timeout(), std::time::Duration::from_secs(u64::MAX).as_nanos());
}

#[test]
fn a_timeout_matters_only_where_a_deadline_is_set() {
    let endless = u128::MAX;
    let mut regular = ConnectionLifecycle::new(false, endless, endless);
    regular.connected();
    regular.on_event(ConnectionEvent::Initialized, endless);
    regular.on_event(ConnectionEvent::TransportClosed, endless);
    assert!(regular.should_exit());
    assert_eq!(regular.wait_for_idle_timeout(), None);
    let mut daemon = ConnectionLifecycle::new(true, endless, 0);
    daemon.connected();
    daemon.connected();
    daemon.on_event(ConnectionEvent::Initialized, endless);
    daemon.on_event(ConnectionEvent::TransportClosed, endless);
    assert_eq!(daemon.wait_for_idle_timeout(), None);
    daemon.on_event(ConnectionEvent::TransportClosed, 0);
    assert_eq!(daemon.wait_for_idle_timeout(), Some(endless));
}
