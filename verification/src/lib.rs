//! A bounded broadcast hub for ephemeral chat traffic.
//!
//! The crate models a process-wide fan-out channel: any number of producers
//! publish messages, and each subscriber reads them through a private cursor
//! into a fixed-capacity buffer. When a subscriber falls behind far enough
//! that the buffer slides past its cursor, it skips forward and is told how
//! many messages it missed; it is never stalled and never stalls a producer.
//! A streaming session adapts the hub's pull-based reads into a push-based
//! sequence of outbound events with cooperative cancellation.

use vstd::prelude::*;

pub mod message;
pub mod hub;
pub mod session;

use crate::hub::Hub;
use crate::message::Message;

verus! {

/// Buffered messages the process-wide hub retains for slow subscribers.
pub const DEFAULT_CAPACITY: usize = 1024;

/// Builds the hub state that the process manages for its whole lifetime:
/// empty, open, with the default capacity.
pub fn rocket() -> (h: Hub)
    ensures
        h@ == crate::hub::spec_new_hub(DEFAULT_CAPACITY as nat),
        h@.wf(),
{
    Hub::new(DEFAULT_CAPACITY)
}

/// Accepts one validated message and broadcasts it to whoever is subscribed.
/// Publishing succeeds whether or not any subscriber exists; with none, the
/// message is simply never observed.
pub fn post(hub: &mut Hub, msg: Message)
    requires
        old(hub)@.wf(),
        !old(hub)@.closed,
        old(hub)@.next() < u64::MAX,
    ensures
        final(hub)@.wf(),
        final(hub)@ == crate::hub::spec_publish(old(hub)@, msg),
{
    hub.publish(msg);
}

} // verus!
