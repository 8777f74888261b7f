use windows_app::app::{App, Wake};
use windows_app::bus::{Envelope, MessageBus};
use windows_app::message::Message;
use windows_app::thread_safe::ThreadSafeHwnd;
use windows_app::worker::{Phase, Worker};

#[test]
fn a_new_application_has_no_window() {
    assert_eq!(App::new().window(), None);
    assert_eq!(App::default().window(), None);
}

#[test]
fn binding_and_releasing_the_window() {
    let mut app = App::new();
    app.init_app(ThreadSafeHwnd(42));
    assert_eq!(app.window(), Some(ThreadSafeHwnd(42)));
    assert_eq!(ThreadSafeHwnd(42).raw(), 42);
    app.release();
    assert_eq!(app.window(), None);
}

#[test]
fn posting_without_a_window_drops_the_message() {
    let app = App::new();
    let mut bus = MessageBus::new();
    let wake = app.post_message(&mut bus, 1, Message::ResultAppend { line: String::from("x") });
    assert_eq!(wake, None);
    assert!(bus.is_empty());
}

#[test]
fn posting_queues_the_message_and_names_the_code() {
    let mut app = App::new();
    app.init_app(ThreadSafeHwnd(42));
    let mut bus = MessageBus::new();
    let m = Message::ProgressUpdate { current: 1, total: 30, label: String::from("l") };
    let wake = app.post_message(&mut bus, 5, m.clone());
    assert_eq!(wake, Some(Wake { target: ThreadSafeHwnd(42), code: 0x0401 }));
    let r = app.post_message(&mut bus, 5, Message::ResultAppend { line: String::from("x") });
    assert_eq!(r, Some(Wake { target: ThreadSafeHwnd(42), code: 0x0402 }));
    let c = app.post_message(&mut bus, 5, Message::SetControlEnabled { id: 2, enabled: true });
    assert_eq!(c, Some(Wake { target: ThreadSafeHwnd(42), code: 0x0403 }));
    assert_eq!(bus.len(), 3);
    assert_eq!(bus.take(), Some(Envelope { producer: 5, message: m }));
}

#[test]
fn posting_to_a_closed_bus_drops_the_message() {
    let mut app = App::new();
    app.init_app(ThreadSafeHwnd(42));
    let mut bus = MessageBus::new();
    bus.close();
    let wake = app.post_message(&mut bus, 1, Message::ResultAppend { line: String::from("x") });
    assert_eq!(wake, None);
    assert!(bus.is_empty());
}

#[test]
fn a_run_of_the_progress_bar_has_thirty_steps() {
    let app = App::new();
    assert_eq!(app.run_progress_bar(), Worker { total: 30, step: 0, phase: Phase::Start });
}
