//! The streaming session: a cancellable read loop over the hub.
//!
//! A session adapts the hub's pull-based reads into a push-based sequence of
//! outbound events. Each poll first honours a cooperative cancellation flag,
//! then reads once at the session's cursor. A delivered message becomes one
//! outbound event; a lag is swallowed silently and the session stays alive;
//! a closed hub or a cancellation terminates the session for good.

use vstd::prelude::*;

use crate::hub::{Hub, HubView, RecvResult, Subscription};
use crate::hub::{lemma_order_preserved, spec_after_publishes, spec_recv_cursor, spec_recv_outcome};
use crate::message::Message;

verus! {

/// The mathematical state of a session: where its cursor stands, and whether
/// it is still willing to emit events.
#[verifier::ext_equal]
pub struct SessionView {
    pub cursor: nat,
    pub active: bool,
}

/// What one poll of a session yields to the driver pushing events outward.
pub enum SessionOutput {
    /// Emit this message downstream as one discrete event.
    Event(Message),
    /// The session lagged; nothing is emitted and nothing is surfaced to the
    /// client, but the session stays active.
    Skipped,
    /// Nothing new yet; poll again once a message arrives.
    Pending,
    /// The session has ended; no further events will ever be emitted.
    Terminated,
}

/// One step of the session state machine: what the session becomes and what
/// it yields, given the hub's state and whether cancellation fired first.
pub open spec fn spec_poll(h: HubView, s: SessionView, cancelled: bool) -> (SessionView,
    SessionOutput) {
    if !s.active {
        (s, SessionOutput::Terminated)
    } else if cancelled {
        (SessionView { active: false, ..s }, SessionOutput::Terminated)
    } else {
        match spec_recv_outcome(h, s.cursor) {
            RecvResult::Received(m) => (
                SessionView { cursor: spec_recv_cursor(h, s.cursor), active: true },
                SessionOutput::Event(m),
            ),
            RecvResult::Lagged(_) => (
                SessionView { cursor: spec_recv_cursor(h, s.cursor), active: true },
                SessionOutput::Skipped,
            ),
            RecvResult::Closed => (SessionView { active: false, ..s }, SessionOutput::Terminated),
            RecvResult::Pending => (s, SessionOutput::Pending),
        }
    }
}

/// Cancellation wins the race: polling a cancelled session terminates it in
/// that very step, whatever the hub holds — no new message is waited for,
/// none is consumed, and nothing further is ever emitted.
pub proof fn lemma_cancel_terminates(h: HubView, s: SessionView)
    requires
        s.active,
    ensures
        spec_poll(h, s, true).0 == (SessionView { active: false, ..s }),
        spec_poll(h, s, true).1 == SessionOutput::Terminated,
        !spec_poll(h, s, true).0.active,
{
}

/// Lag alone never ends a session: a poll that observes a lag emits no
/// event and surfaces no error, and the session stays active with its
/// cursor recovered to the oldest buffered slot, ready to resume delivery.
pub proof fn lemma_lag_keeps_session_active(h: HubView, s: SessionView)
    requires
        h.wf(),
        s.active,
        s.cursor < h.head,
    ensures
        spec_poll(h, s, false).1 == SessionOutput::Skipped,
        spec_poll(h, s, false).0.active,
        spec_poll(h, s, false).0.cursor == h.head,
{
}

/// The stream preserves publish order: a session that subscribed now, and
/// stays ahead of eviction while `msgs` are published — they fit the
/// capacity — emits exactly those messages, one event per poll, in publish
/// order.
pub proof fn lemma_session_streams_in_order(h: HubView, msgs: Seq<Message>)
    requires
        h.wf(),
        !h.closed,
        msgs.len() <= h.capacity,
        h.next() + msgs.len() <= u64::MAX,
    ensures
        ({
            let h2 = spec_after_publishes(h, msgs);
            forall|i: int| #![trigger msgs[i]]
                0 <= i < msgs.len() ==> {
                    let s = SessionView { cursor: (h.next() + i) as nat, active: true };
                    &&& spec_poll(h2, s, false).1 == SessionOutput::Event(msgs[i])
                    &&& spec_poll(h2, s, false).0 == (SessionView {
                        cursor: (h.next() + i + 1) as nat,
                        active: true,
                    })
                }
        }),
{
    let h2 = spec_after_publishes(h, msgs);
    lemma_order_preserved(h, msgs);
    assert forall|i: int| #![trigger msgs[i]]
        0 <= i < msgs.len() implies {
        let s = SessionView { cursor: (h.next() + i) as nat, active: true };
        &&& spec_poll(h2, s, false).1 == SessionOutput::Event(msgs[i])
        &&& spec_poll(h2, s, false).0 == (SessionView {
            cursor: (h.next() + i + 1) as nat,
            active: true,
        })
    } by {
        let c: nat = (h.next() + i) as nat;
        assert(spec_recv_outcome(h2, c) == RecvResult::Received(msgs[i]));
        assert(spec_recv_cursor(h2, c) == c + 1);
    }
}

/// A terminated session is terminal: every further poll leaves it unchanged
/// and yields no event.
pub proof fn lemma_terminated_is_final(h: HubView, s: SessionView, cancelled: bool)
    requires
        !s.active,
    ensures
        spec_poll(h, s, cancelled).0 == s,
        spec_poll(h, s, cancelled).1 == SessionOutput::Terminated,
{
}

/// One client's long-lived read loop over the hub. It owns its subscription
/// exclusively and is driven by repeated [`Session::poll`] calls.
pub struct Session {
    sub: Subscription,
    active: bool,
}

impl View for Session {
    type V = SessionView;

    closed spec fn view(&self) -> SessionView {
        SessionView { cursor: self.sub@, active: self.active }
    }
}

impl Session {
    /// The session's cursor never points past the hub's next slot.
    pub open spec fn inv(self, h: HubView) -> bool {
        self@.cursor <= h.next()
    }

    /// Starts a session on the hub: it subscribes at "now" and becomes
    /// active, so it will observe exactly the messages published from here
    /// on.
    pub fn start(hub: &Hub) -> (s: Session)
        requires
            hub@.wf(),
        ensures
            s@ == (SessionView { cursor: hub@.next(), active: true }),
            s.inv(hub@),
    {
        Session { sub: hub.subscribe(), active: true }
    }

    /// Whether the session is still willing to emit events.
    pub fn is_active(&self) -> (b: bool)
        ensures
            b == self@.active,
    {
        self.active
    }

    /// The slot this session will read next.
    pub fn cursor(&self) -> (c: u64)
        ensures
            c == self@.cursor,
    {
        self.sub.position()
    }

    /// Drives the session one step, as [`spec_poll`] describes: cancellation
    /// is checked before any read, so a cancelled session terminates at once
    /// without waiting for a message; a delivered message is emitted; a lag
    /// is skipped silently; a closed hub ends the session.
    pub fn poll(&mut self, hub: &Hub, cancelled: bool) -> (out: SessionOutput)
        requires
            hub@.wf(),
            old(self).inv(hub@),
        ensures
            final(self)@ == spec_poll(hub@, old(self)@, cancelled).0,
            out == spec_poll(hub@, old(self)@, cancelled).1,
            final(self).inv(hub@),
    {
        if !self.active {
            SessionOutput::Terminated
        } else if cancelled {
            self.active = false;
            SessionOutput::Terminated
        } else {
            match hub.recv(&mut self.sub) {
                RecvResult::Received(m) => SessionOutput::Event(m),
                RecvResult::Lagged(_) => SessionOutput::Skipped,
                RecvResult::Closed => {
                    self.active = false;
                    SessionOutput::Terminated
                },
                RecvResult::Pending => SessionOutput::Pending,
            }
        }
    }
}

} // verus!
