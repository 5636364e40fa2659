use std::time::Instant;
use titration_curve::response::{Response, WorkerError};
use titration_curve::signal::Signal;
use titration_curve::ui::{error_message, Message, TitrationCurve};
use titration_curve::util::Either;
use titration_curve::worker::Worker;

type Curve = Vec<(f64, f64)>;

fn setup() -> (TitrationCurve<Curve>, Worker<Curve>) {
    (TitrationCurve::new("nothing here".to_string()), Worker::new())
}

#[test]
fn error_message_names_the_error() {
    assert_eq!(
        error_message(WorkerError::FileMissing),
        "Ein Fehler ist aufgetreten: FileMissing"
    );
    assert_eq!(
        error_message(WorkerError::MalformedTable),
        "Ein Fehler ist aufgetreten: MalformedTable"
    );
}

#[test]
fn new_window_shows_the_placeholder() {
    let (window, _) = setup();
    assert_eq!(window.content(), &Either::Right("nothing here".to_string()));
    assert!(!window.options().is_dark());
    assert!(!window.options().is_colored());
}

#[test]
fn option_messages_set_the_options() {
    let (mut window, mut hub) = setup();
    window.update(&mut hub, Message::SetDark(true));
    assert!(window.options().is_dark());
    assert!(!window.options().is_colored());
    window.update(&mut hub, Message::SetColored(true));
    assert!(window.options().is_dark());
    assert!(window.options().is_colored());
    window.update(&mut hub, Message::SetDark(false));
    assert!(!window.options().is_dark());
    assert_eq!(hub.pending(), 0);
    assert_eq!(window.content(), &Either::Right("nothing here".to_string()));
}

#[test]
fn select_file_sends_a_file_dialog() {
    let (mut window, mut hub) = setup();
    window.update(&mut hub, Message::SelectFile);
    assert_eq!(hub.lock(), Some(Signal::FileDialog));
    assert_eq!(hub.next_signal(), Some(Signal::FileDialog));
    assert_eq!(window.content(), &Either::Right("nothing here".to_string()));
}

#[test]
fn update_without_responses_keeps_the_content() {
    let (mut window, mut hub) = setup();
    window.show(Response::Output(vec![(1.0, 2.0)]));
    window.update(&mut hub, Message::Update(Instant::now()));
    assert_eq!(window.content(), &Either::Left(vec![(1.0, 2.0)]));
}

#[test]
fn update_shows_the_last_response() {
    let (mut window, mut hub) = setup();
    hub.send_response(Response::Error(WorkerError::NoSheet));
    hub.send_response(Response::Unload);
    hub.send_response(Response::Output(vec![(0.0, 1.0), (5.0, 2.5)]));
    window.update(&mut hub, Message::Update(Instant::now()));
    assert_eq!(window.content(), &Either::Left(vec![(0.0, 1.0), (5.0, 2.5)]));
    assert_eq!(hub.next_response(), None);
}

#[test]
fn unload_shows_the_placeholder() {
    let (mut window, mut hub) = setup();
    hub.send_response(Response::Output(vec![(0.0, 1.0)]));
    hub.send_response(Response::Unload);
    window.update(&mut hub, Message::Update(Instant::now()));
    assert_eq!(window.content(), &Either::Right("nothing here".to_string()));
}

#[test]
fn error_shows_its_message() {
    let (mut window, mut hub) = setup();
    hub.send_response(Response::Error(WorkerError::TableReadFailed));
    window.update(&mut hub, Message::Update(Instant::now()));
    assert_eq!(
        window.content(),
        &Either::Right("Ein Fehler ist aufgetreten: TableReadFailed".to_string())
    );
}
