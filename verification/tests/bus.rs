use windows_app::bus::{Envelope, MessageBus};
use windows_app::message::Message;

fn line(text: &str) -> Message {
    Message::ResultAppend { line: String::from(text) }
}

#[test]
fn new_bus_is_open_and_empty() {
    let mut bus = MessageBus::new();
    assert!(bus.accepts());
    assert!(bus.is_empty());
    assert_eq!(bus.len(), 0);
    assert_eq!(bus.take(), None);
}

#[test]
fn messages_leave_in_the_order_of_posting() {
    let mut bus = MessageBus::new();
    assert!(bus.post(1, line("a")));
    assert!(bus.post(1, line("b")));
    assert!(bus.post(1, line("c")));
    assert_eq!(bus.len(), 3);
    assert_eq!(bus.take(), Some(Envelope { producer: 1, message: line("a") }));
    assert_eq!(bus.take(), Some(Envelope { producer: 1, message: line("b") }));
    assert_eq!(bus.take(), Some(Envelope { producer: 1, message: line("c") }));
    assert_eq!(bus.take(), None);
    assert!(bus.is_empty());
}

#[test]
fn each_producer_keeps_its_order_under_interleaving() {
    let mut bus = MessageBus::new();
    let mut delivered: Vec<Envelope> = Vec::new();
    bus.post(1, line("a1"));
    bus.post(2, line("b1"));
    delivered.push(bus.take().unwrap());
    bus.post(2, line("b2"));
    bus.post(1, line("a2"));
    bus.post(2, line("b3"));
    delivered.push(bus.take().unwrap());
    bus.post(1, line("a3"));
    while let Some(e) = bus.take() {
        delivered.push(e);
    }
    let of = |p: usize| -> Vec<Message> {
        delivered.iter().filter(|e| e.producer == p).map(|e| e.message.clone()).collect()
    };
    assert_eq!(of(1), vec![line("a1"), line("a2"), line("a3")]);
    assert_eq!(of(2), vec![line("b1"), line("b2"), line("b3")]);
    assert_eq!(delivered.len(), 6);
}

#[test]
fn a_message_is_taken_once() {
    let mut bus = MessageBus::new();
    bus.post(7, line("only"));
    assert!(bus.take().is_some());
    assert!(bus.take().is_none());
    assert_eq!(bus.len(), 0);
}

#[test]
fn closing_drops_what_waits_and_what_comes_after() {
    let mut bus = MessageBus::new();
    bus.post(1, line("a"));
    bus.post(1, line("b"));
    bus.close();
    assert!(!bus.accepts());
    assert!(bus.is_empty());
    assert_eq!(bus.take(), None);
    assert!(!bus.post(1, line("late")));
    assert!(bus.is_empty());
    assert_eq!(bus.take(), None);
    bus.close();
    assert!(!bus.accepts());
}
