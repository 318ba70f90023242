use chat_core::hub::Hub;
use chat_core::message::Message;
use chat_core::session::{Session, SessionOutput};

fn msg(room: &str, username: &str, text: &str) -> Message {
    Message {
        room: room.to_string(),
        username: username.to_string(),
        message: text.to_string(),
    }
}

fn expect_event(out: SessionOutput) -> Message {
    match out {
        SessionOutput::Event(m) => m,
        SessionOutput::Skipped => panic!("expected an event, got Skipped"),
        SessionOutput::Pending => panic!("expected an event, got Pending"),
        SessionOutput::Terminated => panic!("expected an event, got Terminated"),
    }
}

#[test]
fn cancellation_terminates_a_waiting_session_at_once() {
    let hub = Hub::new(4);
    let mut session = Session::start(&hub);
    assert!(session.is_active());
    assert_eq!(session.cursor(), hub.next_slot());
    assert!(matches!(session.poll(&hub, false), SessionOutput::Pending));
    assert!(matches!(session.poll(&hub, true), SessionOutput::Terminated));
    assert!(!session.is_active());
    assert!(matches!(session.poll(&hub, false), SessionOutput::Terminated));
}

#[test]
fn session_emits_each_message_as_one_event_in_order() {
    let mut hub = Hub::new(8);
    let mut session = Session::start(&hub);
    hub.publish(msg("a", "u", "one"));
    hub.publish(msg("a", "u", "two"));
    assert_eq!(expect_event(session.poll(&hub, false)).message, "one");
    assert_eq!(expect_event(session.poll(&hub, false)).message, "two");
    assert!(matches!(session.poll(&hub, false), SessionOutput::Pending));
}

#[test]
fn session_event_carries_the_message_unchanged() {
    let mut hub = Hub::new(8);
    let mut session = Session::start(&hub);
    hub.publish(msg("a", "u", "hi"));
    let m = expect_event(session.poll(&hub, false));
    assert_eq!(m.room, "a");
    assert_eq!(m.username, "u");
    assert_eq!(m.message, "hi");
}

#[test]
fn session_swallows_lag_and_stays_alive() {
    let mut hub = Hub::new(2);
    let mut session = Session::start(&hub);
    hub.publish(msg("a", "u", "x1"));
    hub.publish(msg("a", "u", "x2"));
    hub.publish(msg("a", "u", "x3"));
    assert!(matches!(session.poll(&hub, false), SessionOutput::Skipped));
    assert_eq!(expect_event(session.poll(&hub, false)).message, "x2");
    assert_eq!(expect_event(session.poll(&hub, false)).message, "x3");
}

#[test]
fn session_terminates_when_the_hub_closes() {
    let mut hub = Hub::new(4);
    let mut session = Session::start(&hub);
    hub.close();
    assert!(matches!(session.poll(&hub, false), SessionOutput::Terminated));
    assert!(matches!(session.poll(&hub, false), SessionOutput::Terminated));
}

#[test]
fn session_started_after_a_publish_never_sees_it() {
    let mut hub = Hub::new(4);
    hub.publish(msg("a", "u", "history"));
    let mut session = Session::start(&hub);
    assert!(matches!(session.poll(&hub, false), SessionOutput::Pending));
    hub.publish(msg("a", "u", "fresh"));
    assert_eq!(expect_event(session.poll(&hub, false)).message, "fresh");
}
