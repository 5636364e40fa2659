use notify::event::{AccessKind, CreateKind, ModifyKind, RemoveKind};
use notify::{Event, EventKind};
use titration_curve::response::{Response, WorkerError};
use titration_curve::signal::Signal;
use titration_curve::watch::{on_event, relay, Change, Notice};
use titration_curve::worker::Worker;

type Curve = Vec<(f64, f64)>;

#[test]
fn modify_and_remove_stand_for_update() {
    assert_eq!(Change::Modify.to_signal(), Some(Signal::Update));
    assert_eq!(Change::Remove.to_signal(), Some(Signal::Update));
}

#[test]
fn other_changes_stand_for_nothing() {
    for change in [Change::Any, Change::Access, Change::Create, Change::Other] {
        assert_eq!(change.to_signal(), None, "{change:?}");
    }
}

#[test]
fn relayed_change_is_sent_as_update() {
    let mut hub: Worker<Curve> = Worker::new();
    relay(&mut hub, Notice::Changed(Change::Modify));
    relay(&mut hub, Notice::Changed(Change::Create));
    relay(&mut hub, Notice::Changed(Change::Remove));
    assert_eq!(hub.pending(), 2);
    assert_eq!(hub.next_signal(), Some(Signal::Update));
    assert_eq!(hub.next_signal(), Some(Signal::Update));
    assert_eq!(hub.next_response(), None);
}

#[test]
fn relayed_change_obeys_the_lock() {
    let mut hub: Worker<Curve> = Worker::new();
    hub.send_signal(Signal::FileDialog);
    relay(&mut hub, Notice::Changed(Change::Modify));
    assert_eq!(hub.pending(), 1);
    assert_eq!(hub.next_signal(), Some(Signal::FileDialog));
}

#[test]
fn relayed_failure_is_queued_as_response() {
    let mut hub: Worker<Curve> = Worker::new();
    relay(&mut hub, Notice::Failed);
    assert_eq!(hub.pending(), 0);
    assert_eq!(hub.next_response(), Some(Response::Error(WorkerError::WatcherFailed)));
    assert!(hub.is_alive());
}

#[test]
fn modify_and_remove_events_send_update() {
    for kind in [EventKind::Modify(ModifyKind::Any), EventKind::Remove(RemoveKind::File)] {
        let mut hub: Worker<Curve> = Worker::new();
        on_event(&mut hub, Ok(Event::new(kind)));
        assert_eq!(hub.next_signal(), Some(Signal::Update), "{kind:?}");
        assert_eq!(hub.next_response(), None);
    }
}

#[test]
fn other_events_are_ignored() {
    for kind in [
        EventKind::Any,
        EventKind::Access(AccessKind::Read),
        EventKind::Create(CreateKind::File),
        EventKind::Other,
    ] {
        let mut hub: Worker<Curve> = Worker::new();
        on_event(&mut hub, Ok(Event::new(kind)));
        assert_eq!(hub.pending(), 0, "{kind:?}");
        assert_eq!(hub.next_response(), None);
    }
}

#[test]
fn watcher_error_is_reported() {
    let mut hub: Worker<Curve> = Worker::new();
    on_event(&mut hub, Err(notify::Error::generic("lost")));
    assert_eq!(hub.pending(), 0);
    assert_eq!(hub.next_response(), Some(Response::Error(WorkerError::WatcherFailed)));
}
