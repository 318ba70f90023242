use chat_core::hub::{Hub, RecvResult};
use chat_core::message::Message;
use chat_core::{post, rocket};

fn msg(room: &str, username: &str, text: &str) -> Message {
    Message {
        room: room.to_string(),
        username: username.to_string(),
        message: text.to_string(),
    }
}

fn expect_received(r: RecvResult) -> Message {
    match r {
        RecvResult::Received(m) => m,
        RecvResult::Lagged(n) => panic!("expected a message, got Lagged({})", n),
        RecvResult::Closed => panic!("expected a message, got Closed"),
        RecvResult::Pending => panic!("expected a message, got Pending"),
    }
}

#[test]
fn publish_with_no_subscribers_succeeds_silently() {
    let mut hub = Hub::new(4);
    hub.publish(msg("a", "u", "nobody hears this"));
    hub.publish(msg("a", "u", "nor this"));
    let mut sub = hub.subscribe();
    assert!(matches!(hub.recv(&mut sub), RecvResult::Pending));
}

#[test]
fn late_subscriber_sees_only_later_messages() {
    let mut hub = Hub::new(2);
    hub.publish(msg("a", "u", "m1"));
    hub.publish(msg("a", "u", "m2"));
    hub.publish(msg("a", "u", "m3"));
    let mut sub = hub.subscribe();
    assert!(matches!(hub.recv(&mut sub), RecvResult::Pending));
    hub.publish(msg("a", "u", "m4"));
    let m = expect_received(hub.recv(&mut sub));
    assert_eq!(m.message, "m4");
    assert!(matches!(hub.recv(&mut sub), RecvResult::Pending));
}

#[test]
fn single_message_round_trip() {
    let mut hub = Hub::new(8);
    let mut sub = hub.subscribe();
    hub.publish(msg("a", "u", "hi"));
    let m = expect_received(hub.recv(&mut sub));
    assert_eq!(m.room, "a");
    assert_eq!(m.username, "u");
    assert_eq!(m.message, "hi");
}

#[test]
fn messages_arrive_in_publish_order() {
    let mut hub = Hub::new(8);
    let mut sub = hub.subscribe();
    hub.publish(msg("a", "u", "first"));
    hub.publish(msg("a", "u", "second"));
    hub.publish(msg("a", "u", "third"));
    assert_eq!(expect_received(hub.recv(&mut sub)).message, "first");
    assert_eq!(expect_received(hub.recv(&mut sub)).message, "second");
    assert_eq!(expect_received(hub.recv(&mut sub)).message, "third");
    assert!(matches!(hub.recv(&mut sub), RecvResult::Pending));
}

#[test]
fn lag_reports_skip_count_then_recovers() {
    let mut hub = Hub::new(2);
    let mut sub = hub.subscribe();
    hub.publish(msg("a", "u", "x1"));
    hub.publish(msg("a", "u", "x2"));
    hub.publish(msg("a", "u", "x3"));
    match hub.recv(&mut sub) {
        RecvResult::Lagged(n) => assert_eq!(n, 1),
        _ => panic!("expected Lagged"),
    }
    assert_eq!(expect_received(hub.recv(&mut sub)).message, "x2");
    assert_eq!(expect_received(hub.recv(&mut sub)).message, "x3");
    assert!(matches!(hub.recv(&mut sub), RecvResult::Pending));
}

#[test]
fn deep_lag_counts_every_skipped_message() {
    let mut hub = Hub::new(2);
    let mut sub = hub.subscribe();
    for i in 0..5 {
        hub.publish(msg("a", "u", &format!("x{}", i + 1)));
    }
    match hub.recv(&mut sub) {
        RecvResult::Lagged(n) => assert_eq!(n, 3),
        _ => panic!("expected Lagged"),
    }
    assert_eq!(expect_received(hub.recv(&mut sub)).message, "x4");
    assert_eq!(expect_received(hub.recv(&mut sub)).message, "x5");
}

#[test]
fn closed_hub_still_drains_its_buffer() {
    let mut hub = Hub::new(4);
    let mut sub = hub.subscribe();
    hub.publish(msg("a", "u", "last words"));
    hub.close();
    assert_eq!(expect_received(hub.recv(&mut sub)).message, "last words");
    assert!(matches!(hub.recv(&mut sub), RecvResult::Closed));
}

#[test]
fn closed_empty_hub_reports_closed_at_once() {
    let mut hub = Hub::new(4);
    let mut sub = hub.subscribe();
    hub.close();
    assert!(hub.is_closed());
    assert!(matches!(hub.recv(&mut sub), RecvResult::Closed));
}

#[test]
fn rocket_and_post_drive_the_default_hub() {
    let mut hub = rocket();
    assert_eq!(hub.capacity(), chat_core::DEFAULT_CAPACITY);
    assert!(!hub.is_closed());
    let mut sub = hub.subscribe();
    assert_eq!(sub.position(), hub.next_slot());
    assert!(matches!(hub.recv(&mut sub), RecvResult::Pending));
    post(&mut hub, msg("lobby", "anna", "hello"));
    let m = expect_received(hub.recv(&mut sub));
    assert_eq!(m.room, "lobby");
    assert_eq!(m.username, "anna");
    assert_eq!(m.message, "hello");
}

#[test]
fn validation_bounds_on_room_and_username() {
    let ok = msg(&"r".repeat(29), &"u".repeat(19), "any body, any length");
    assert!(ok.is_valid());
    let long_room = msg(&"r".repeat(30), "u", "x");
    assert!(!long_room.is_valid());
    let long_user = msg("r", &"u".repeat(20), "x");
    assert!(!long_user.is_valid());
    let free_body = msg("r", "u", &"m".repeat(10_000));
    assert!(free_body.is_valid());
}

#[test]
fn clone_preserves_every_field() {
    let m = msg("room", "user", "body");
    let c = m.clone();
    assert_eq!(c.room, m.room);
    assert_eq!(c.username, m.username);
    assert_eq!(c.message, m.message);
}
