use usbmux::error::ErrorKind;
use usbmux::listener::{ListenerAction, ListenerRegistry, ListenerState};

#[test]
fn stop_on_stopped_listener_is_a_noop() {
    let mut r = ListenerRegistry::new();
    assert_eq!(r.stop(), ListenerAction::Nothing);
    assert_eq!(r.stop(), ListenerAction::Nothing);
    assert_eq!(r.state(), ListenerState::Stopped);
}

#[test]
fn first_subscriber_starts_the_listener() {
    let mut r = ListenerRegistry::new();
    assert_eq!(r.subscribe(1), ListenerAction::SpawnWorker);
    assert_eq!(r.state(), ListenerState::Running);
    assert_eq!(r.subscribe(2), ListenerAction::Nothing);
    assert_eq!(r.subscribers(), vec![1, 2]);
    assert_eq!(r.stop(), ListenerAction::StopAndJoin);
    assert_eq!(r.state(), ListenerState::Stopped);
    assert_eq!(r.subscribers(), vec![1, 2]);
}

#[test]
fn start_twice_spawns_once() {
    let mut r = ListenerRegistry::new();
    assert_eq!(r.start(), ListenerAction::SpawnWorker);
    assert_eq!(r.start(), ListenerAction::Nothing);
}

#[test]
fn unsubscribe_absent_handle_is_not_found() {
    let mut r = ListenerRegistry::new();
    assert_eq!(r.unsubscribe(7), Err(ErrorKind::ListenerNotFound));
    r.subscribe(1);
    assert_eq!(r.unsubscribe(7), Err(ErrorKind::ListenerNotFound));
    assert_eq!(r.subscribers(), vec![1]);
}

#[test]
fn unsubscribe_removes_first_match_only() {
    let mut r = ListenerRegistry::new();
    r.subscribe(1);
    r.subscribe(2);
    r.subscribe(1);
    assert_eq!(r.unsubscribe(1), Ok(()));
    assert_eq!(r.subscribers(), vec![2, 1]);
    assert_eq!(r.state(), ListenerState::Running);
}

#[test]
fn empty_subscriber_set_keeps_running() {
    let mut r = ListenerRegistry::new();
    r.subscribe(4);
    assert_eq!(r.unsubscribe(4), Ok(()));
    assert!(r.subscribers().is_empty());
    assert_eq!(r.state(), ListenerState::Running);
}

#[test]
fn hundred_subscribers_each_dispatched_once() {
    let mut r = ListenerRegistry::new();
    for id in 0..100u64 {
        r.subscribe(id);
    }
    let targets = r.subscribers();
    assert_eq!(targets.len(), 100);
    for id in 0..100u64 {
        assert_eq!(targets.iter().filter(|t| **t == id).count(), 1);
    }
}

