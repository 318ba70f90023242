//! The bounded broadcast hub.
//!
//! The hub keeps the last `capacity` published messages in a sliding window.
//! Every message ever published occupies one slot, numbered by a cursor that
//! only grows; the window `[head, next)` is the part still buffered. Each
//! subscriber owns a cursor into that numbering. Reading at a cursor below
//! `head` means the buffer slid past the subscriber: it skips to `head` and
//! is told how many slots it missed.

use vstd::prelude::*;

use vstd::math::max;

use crate::message::Message;

verus! {

/// The mathematical state of a hub: a window of buffered messages starting
/// at slot `head`, a fixed positive capacity, and a closed flag.
#[verifier::ext_equal]
pub struct HubView {
    pub capacity: nat,
    pub head: nat,
    pub msgs: Seq<Message>,
    pub closed: bool,
}

impl HubView {
    /// The slot the next published message will occupy; one past the newest
    /// buffered message.
    pub open spec fn next(self) -> nat {
        self.head + self.msgs.len()
    }

    /// A hub is well formed when its capacity is positive, the window never
    /// holds more than `capacity` messages, and the slot counter has room
    /// left in its machine representation.
    pub open spec fn wf(self) -> bool {
        &&& 0 < self.capacity
        &&& self.msgs.len() <= self.capacity
        &&& self.next() <= u64::MAX
    }

    /// The message buffered in slot `s`.
    pub open spec fn slot(self, s: int) -> Message
        recommends
            self.head <= s < self.next(),
    {
        self.msgs[s - self.head]
    }
}

/// A fresh hub: empty window, slots numbered from zero, open.
pub open spec fn spec_new_hub(capacity: nat) -> HubView {
    HubView { capacity, head: 0, msgs: Seq::empty(), closed: false }
}

/// Publishing appends the message to the window; a full window first evicts
/// its oldest message, so the publisher never waits and the window never
/// outgrows the capacity.
pub open spec fn spec_publish(h: HubView, m: Message) -> HubView {
    if h.msgs.len() < h.capacity {
        HubView { msgs: h.msgs.push(m), ..h }
    } else {
        HubView { head: (h.head + 1) as nat, msgs: h.msgs.drop_first().push(m), ..h }
    }
}

/// Closing only sets the flag; buffered messages stay readable.
pub open spec fn spec_close(h: HubView) -> HubView {
    HubView { closed: true, ..h }
}

/// What one read at cursor `c` observes.
pub open spec fn spec_recv_outcome(h: HubView, c: nat) -> RecvResult {
    if c < h.head {
        RecvResult::Lagged((h.head - c) as u64)
    } else if c < h.next() {
        RecvResult::Received(h.slot(c as int))
    } else if h.closed {
        RecvResult::Closed
    } else {
        RecvResult::Pending
    }
}

/// Where one read at cursor `c` leaves the cursor: past the delivered slot,
/// or skipped forward to `head` after a lag. The cursor never moves back.
pub open spec fn spec_recv_cursor(h: HubView, c: nat) -> nat {
    if c < h.head {
        h.head
    } else if c < h.next() {
        c + 1
    } else {
        c
    }
}

/// The hub after the messages of `msgs` are published one by one, in order.
pub open spec fn spec_after_publishes(h: HubView, msgs: Seq<Message>) -> HubView
    decreases msgs.len(),
{
    if msgs.len() == 0 {
        h
    } else {
        spec_after_publishes(spec_publish(h, msgs[0]), msgs.drop_first())
    }
}

/// How a run of publishes reshapes the window: the slot counter advances by
/// one per message, the oldest slots are evicted exactly as far as the
/// capacity forces, every surviving older slot keeps its message, and each
/// surviving new slot holds the message published into it.
pub proof fn lemma_after_publishes(h: HubView, msgs: Seq<Message>)
    requires
        h.wf(),
        !h.closed,
        h.next() + msgs.len() <= u64::MAX,
    ensures
        ({
            let h2 = spec_after_publishes(h, msgs);
            &&& h2.wf()
            &&& h2.capacity == h.capacity
            &&& h2.closed == h.closed
            &&& h2.next() == h.next() + msgs.len()
            &&& h2.head == max(h.head as int, h.next() + msgs.len() - h.capacity)
            &&& forall|s: int|
                h2.head <= s < h.next() ==> h2.slot(s) == h.slot(s)
            &&& forall|i: int|
                0 <= i < msgs.len() && h2.head <= h.next() + i ==> h2.slot(h.next() + i)
                    == msgs[i]
        }),
    decreases msgs.len(),
{
    let h2 = spec_after_publishes(h, msgs);
    if msgs.len() == 0 {
        assert(h2 == h);
    } else {
        let h1 = spec_publish(h, msgs[0]);
        let rest = msgs.drop_first();
        assert(h1.wf());
        assert(h1.next() == h.next() + 1);
        lemma_after_publishes(h1, rest);
        assert(h2 == spec_after_publishes(h1, rest));
        // The head formula carries over: when the window was full, the one
        // eviction of the first publish is subsumed by the capacity bound.
        if h.msgs.len() < h.capacity {
            assert(h1.head == h.head);
        } else {
            assert(h.msgs.len() == h.capacity);
            assert(h1.head == h.head + 1);
            assert(h.next() + msgs.len() - h.capacity >= h.head + 1);
        }
        assert(h2.head == max(h.head as int, h.next() + msgs.len() - h.capacity));
        // Every slot of h that the first publish keeps, it keeps unchanged.
        assert forall|s: int| h1.head <= s < h.next() implies h1.slot(s) == h.slot(s) by {
            if h.msgs.len() < h.capacity {
                assert(h1.msgs[s - h1.head] == h.msgs[s - h.head]);
            } else {
                assert(h1.msgs[s - h1.head] == h.msgs.drop_first()[s - h.head - 1]);
                assert(h.msgs.drop_first()[s - h.head - 1] == h.msgs[s - h.head]);
            }
        }
        // The first publish writes msgs[0] into slot h.next().
        assert(h1.head <= h.next());
        assert(h1.slot(h.next() as int) == msgs[0]) by {
            if h.msgs.len() < h.capacity {
                assert(h1.msgs[h.next() - h.head] == msgs[0]);
            } else {
                assert(h1.msgs[h.next() - h.head - 1] == msgs[0]);
            }
        }
        assert forall|s: int| h2.head <= s < h.next() implies h2.slot(s) == h.slot(s) by {
            assert(h2.slot(s) == h1.slot(s));
        }
        assert forall|i: int|
            0 <= i < msgs.len() && h2.head <= h.next() + i implies h2.slot(h.next() + i)
                == msgs[i] by {
            if i == 0 {
                if h2.head <= h.next() {
                    assert(h2.slot(h.next() as int) == h1.slot(h.next() as int));
                }
            } else {
                assert(rest[i - 1] == msgs[i]);
                assert(h2.slot(h1.next() + (i - 1)) == rest[i - 1]);
            }
        }
    }
}

/// Order preservation: a subscriber that subscribes now and then stays ahead
/// of eviction — the run of messages published while it reads fits the
/// capacity — receives exactly those messages, in publish order, one per
/// read, with its cursor advancing one slot each time.
pub proof fn lemma_order_preserved(h: HubView, msgs: Seq<Message>)
    requires
        h.wf(),
        !h.closed,
        msgs.len() <= h.capacity,
        h.next() + msgs.len() <= u64::MAX,
    ensures
        ({
            let h2 = spec_after_publishes(h, msgs);
            forall|i: int|
                0 <= i < msgs.len() ==> {
                    &&& spec_recv_outcome(h2, (h.next() + i) as nat) == RecvResult::Received(
                        msgs[i],
                    )
                    &&& spec_recv_cursor(h2, (h.next() + i) as nat) == h.next() + i + 1
                }
        }),
{
    let h2 = spec_after_publishes(h, msgs);
    lemma_after_publishes(h, msgs);
    assert forall|i: int|
        0 <= i < msgs.len() implies {
        &&& spec_recv_outcome(h2, (h.next() + i) as nat) == RecvResult::Received(msgs[i])
        &&& spec_recv_cursor(h2, (h.next() + i) as nat) == h.next() + i + 1
    } by {
        assert(h2.head <= h.next() + i);
        assert(h.next() + i < h2.next());
        assert(h2.slot(h.next() + i) == msgs[i]);
    }
}

/// No backward delivery: a read never moves the cursor backward, and any
/// message it delivers occupies the slot at the current cursor. A subscriber
/// whose cursor starts at the hub's next slot therefore never observes a
/// slot published before it subscribed: its cursor stays strictly past every
/// such slot `s` forever.
pub proof fn lemma_no_backward_delivery(h: HubView, c: nat, s: nat)
    requires
        h.wf(),
        s < c,
    ensures
        c <= spec_recv_cursor(h, c),
        s < spec_recv_cursor(h, c),
        spec_recv_outcome(h, c) matches RecvResult::Received(m) ==> m == h.slot(c as int),
{
}

/// Lag is loud once, then over: a subscriber whose cursor fell behind the
/// window is told it skipped a positive number of messages, its cursor
/// recovers to the oldest buffered slot, and from there reading proceeds
/// normally — the very next read delivers a message whenever one is
/// buffered, so lag alone never ends a subscription.
pub proof fn lemma_lag_reports_and_recovers(h: HubView, c: nat)
    requires
        h.wf(),
        c < h.head,
    ensures
        spec_recv_outcome(h, c) == RecvResult::Lagged((h.head - c) as u64),
        h.head - c > 0,
        spec_recv_cursor(h, c) == h.head,
        h.head < h.next() ==> spec_recv_outcome(h, h.head) == RecvResult::Received(
            h.slot(h.head as int),
        ),
        h.head == h.next() && !h.closed ==> spec_recv_outcome(h, h.head) == RecvResult::Pending,
{
}

/// Publishing needs no subscriber: it succeeds on any open hub and the
/// message lands in slot `next`. A subscription opened afterwards starts at
/// the slot after it, so with no subscriber active at publish time the
/// message is never observed by anyone.
pub proof fn lemma_publish_without_subscribers(h: HubView, m: Message)
    requires
        h.wf(),
        !h.closed,
        h.next() < u64::MAX,
    ensures
        spec_publish(h, m).wf(),
        spec_publish(h, m).next() == h.next() + 1,
        spec_publish(h, m).slot(h.next() as int) == m,
        h.next() < spec_publish(h, m).next(),
{
}

/// One read outcome, as `recv` reports it.
pub enum RecvResult {
    /// The next buffered message, delivered in publish order.
    Received(Message),
    /// The subscriber fell behind and this many messages were evicted from
    /// its view before it read them; its cursor has skipped forward.
    Lagged(u64),
    /// The hub was closed and nothing buffered remains reachable.
    Closed,
    /// Nothing new yet; the caller may wait and read again.
    Pending,
}

/// The bounded broadcast hub. Producers publish into it; each subscriber
/// reads through its own [`Subscription`] cursor.
pub struct Hub {
    capacity: usize,
    head: u64,
    buffer: Vec<Message>,
    closed: bool,
}

/// A private cursor into the hub's slot numbering, owned by exactly one
/// reading session. Its view is the slot it will read next.
pub struct Subscription {
    cursor: u64,
}

impl Subscription {
    /// The slot this subscription will read next.
    pub fn position(&self) -> (c: u64)
        ensures
            c == self@,
    {
        self.cursor
    }
}

impl View for Subscription {
    type V = nat;

    closed spec fn view(&self) -> nat {
        self.cursor as nat
    }
}

impl View for Hub {
    type V = HubView;

    closed spec fn view(&self) -> HubView {
        HubView {
            capacity: self.capacity as nat,
            head: self.head as nat,
            msgs: self.buffer@,
            closed: self.closed,
        }
    }
}

impl Hub {
    /// Creates an open, empty hub that will buffer at most `capacity`
    /// messages for its slowest subscriber.
    pub fn new(capacity: usize) -> (h: Hub)
        requires
            0 < capacity,
        ensures
            h@ == spec_new_hub(capacity as nat),
            h@.wf(),
    {
        let h = Hub { capacity, head: 0, buffer: Vec::new(), closed: false };
        proof {
            assert(h@ =~= spec_new_hub(capacity as nat));
        }
        h
    }

    /// Enqueues `m` for every current subscriber. Never blocks and never
    /// fails: with no subscribers the message is simply never observed, and
    /// a full window evicts its oldest message instead of stalling anyone.
    pub fn publish(&mut self, m: Message)
        requires
            old(self)@.wf(),
            !old(self)@.closed,
            old(self)@.next() < u64::MAX,
        ensures
            final(self)@.wf(),
            final(self)@ == spec_publish(old(self)@, m),
    {
        if self.buffer.len() == self.capacity {
            self.buffer.remove(0);
            self.head = self.head + 1;
            proof {
                assert(self.buffer@ =~= old(self)@.msgs.drop_first());
            }
        }
        self.buffer.push(m);
        proof {
            assert(self@ =~= spec_publish(old(self)@, m));
        }
    }

    /// Marks the hub closed: no further messages will arrive, and once a
    /// subscriber drains the window it is told so.
    pub fn close(&mut self)
        requires
            old(self)@.wf(),
        ensures
            final(self)@.wf(),
            final(self)@ == spec_close(old(self)@),
    {
        self.closed = true;
        proof {
            assert(self@ =~= spec_close(old(self)@));
        }
    }

    /// Opens a subscription whose cursor starts at "now": it will observe
    /// exactly the messages published after this call, never earlier ones.
    pub fn subscribe(&self) -> (s: Subscription)
        requires
            self@.wf(),
        ensures
            s@ == self@.next(),
    {
        Subscription { cursor: self.head + self.buffer.len() as u64 }
    }

    /// The fixed capacity this hub was created with.
    pub fn capacity(&self) -> (c: usize)
        ensures
            c == self@.capacity,
    {
        self.capacity
    }

    /// Whether the hub was closed.
    pub fn is_closed(&self) -> (b: bool)
        ensures
            b == self@.closed,
    {
        self.closed
    }

    /// The slot the next published message will occupy.
    pub fn next_slot(&self) -> (n: u64)
        requires
            self@.wf(),
        ensures
            n == self@.next(),
    {
        self.head + self.buffer.len() as u64
    }

    /// One read at the subscription's cursor. Delivers the next buffered
    /// message in publish order; or reports how far the subscriber lagged,
    /// skipping its cursor forward; or reports the hub closed once nothing
    /// reachable remains; or reports that nothing new is available yet.
    pub fn recv(&self, sub: &mut Subscription) -> (r: RecvResult)
        requires
            self@.wf(),
            old(sub)@ <= self@.next(),
        ensures
            r == spec_recv_outcome(self@, old(sub)@),
            final(sub)@ == spec_recv_cursor(self@, old(sub)@),
            final(sub)@ <= self@.next(),
    {
        if sub.cursor < self.head {
            let n = self.head - sub.cursor;
            sub.cursor = self.head;
            RecvResult::Lagged(n)
        } else if sub.cursor < self.head + self.buffer.len() as u64 {
            let i = (sub.cursor - self.head) as usize;
            let m = self.buffer[i].clone();
            sub.cursor = sub.cursor + 1;
            RecvResult::Received(m)
        } else if self.closed {
            RecvResult::Closed
        } else {
            RecvResult::Pending
        }
    }
}

} // verus!
