//! The stream hub: a single-producer, multi-consumer distribution point with
//! a coalescing single-slot policy. The hub holds only the latest snapshot;
//! a publish overwrites the slot and never queues behind any subscriber, so a
//! slow consumer is never disconnected for lagging and never builds a
//! backlog — it simply receives the newest value whenever it next reads.
//!
//! The full publish history exists only as a ghost sequence, so that the
//! ordering guarantee (every subscriber observes a subsequence of the
//! publishes, in publish order) can be stated and proved.

use vstd::prelude::*;

use crate::snapshot::Snapshot;

verus! {

/// The distribution point. `publish` is called only by the sampler;
/// any number of subscriptions may read concurrently through shared
/// references.
pub struct Hub {
    /// The single coalescing slot: the most recently published snapshot.
    latest: Option<Snapshot>,
    /// How many publishes have happened, i.e. `history@.len()`.
    published: u64,
    /// Set once at shutdown; subscribers are then woken with a terminal
    /// signal and new subscriptions are refused.
    closed: bool,
    /// Every snapshot ever published, in order. Ghost: the hub stores only
    /// the latest one.
    history: Ghost<Seq<Snapshot>>,
}

/// One open streaming connection's interest in snapshots: a cursor into the
/// publish history (everything before it has been seen or deliberately
/// skipped), plus a ghost log of what was actually delivered.
pub struct Subscription {
    /// Publishes numbered below the cursor are no longer owed to this
    /// subscriber.
    cursor: u64,
    /// The hub's publish count at subscribe time: nothing published before
    /// this is ever delivered here.
    birth: Ghost<int>,
    /// Ghost log of deliveries as (history index, value) pairs.
    delivered: Ghost<Seq<(int, Snapshot)>>,
}

/// What one read attempt yields.
pub enum HubRead {
    /// A snapshot this subscriber had not seen: always the newest one.
    Newest(Snapshot),
    /// Nothing new since the last read.
    Pending,
    /// The hub has shut down; the connection should close.
    Closed,
}

impl Hub {
    /// Every snapshot ever published, in order.
    pub closed spec fn history(self) -> Seq<Snapshot> {
        self.history@
    }

    pub closed spec fn is_closed(self) -> bool {
        self.closed
    }

    /// The publish counter tracks the ghost history, and the slot holds
    /// exactly the newest published snapshot.
    pub closed spec fn wf(self) -> bool {
        &&& self.published == self.history@.len()
        &&& if self.history@.len() == 0 {
            self.latest is None
        } else {
            self.latest == Some(self.history@.last())
        }
    }

    /// A fresh hub: nothing published, open for subscription.
    pub fn new() -> (h: Hub)
        ensures
            h.wf(),
            h.history() == Seq::<Snapshot>::empty(),
            !h.is_closed(),
    {
        Hub { latest: None, published: 0, closed: false, history: Ghost(Seq::empty()) }
    }

    /// Publish a snapshot: overwrite the slot, extend the (ghost) history.
    /// No subscriber state is touched — a publish can never block on, or be
    /// blocked by, any subscriber.
    pub fn publish(&mut self, s: Snapshot)
        requires
            old(self).wf(),
            !old(self).is_closed(),
            old(self).history().len() < u64::MAX,
        ensures
            final(self).wf(),
            final(self).history() == old(self).history().push(s),
            !final(self).is_closed(),
    {
        self.published = self.published + 1;
        self.latest = Some(s);
        proof {
            self.history@ = self.history@.push(s);
        }
    }

    /// Shut the hub down: subscribers are woken terminally and further
    /// subscriptions fail. The history is not erased.
    pub fn close(&mut self)
        requires
            old(self).wf(),
        ensures
            final(self).wf(),
            final(self).is_closed(),
            final(self).history() == old(self).history(),
    {
        self.closed = true;
    }

    /// Whether the hub has shut down.
    pub fn is_shut_down(&self) -> (b: bool)
        ensures
            b == self.is_closed(),
    {
        self.closed
    }

    /// How many snapshots have been published so far.
    pub fn publish_count(&self) -> (n: u64)
        requires
            self.wf(),
        ensures
            n == self.history().len(),
    {
        self.published
    }

    /// Subscribe one new connection. Fails exactly when the hub has shut
    /// down. A fresh subscription starts at the current publish count, so it
    /// is never delivered a value published before it subscribed.
    pub fn subscribe(&self) -> (r: Option<Subscription>)
        requires
            self.wf(),
        ensures
            self.is_closed() <==> r is None,
            r matches Some(sub) ==> {
                &&& sub.wf(*self)
                &&& sub.birth() == self.history().len()
                &&& sub.cursor() == self.history().len()
                &&& sub.delivered() == Seq::<(int, Snapshot)>::empty()
            },
    {
        if self.closed {
            None
        } else {
            Some(
                Subscription {
                    cursor: self.published,
                    birth: Ghost(self.history@.len() as int),
                    delivered: Ghost(Seq::empty()),
                },
            )
        }
    }

    /// One read attempt by one subscriber: terminal if the hub is closed;
    /// nothing if the subscriber is caught up; otherwise the newest
    /// snapshot, which catches the subscriber up in a single delivery no
    /// matter how many publishes it slept through.
    pub fn read(&self, sub: &mut Subscription) -> (r: HubRead)
        requires
            self.wf(),
            old(sub).wf(*self),
        ensures
            final(sub).wf(*self),
            final(sub).birth() == old(sub).birth(),
            self.is_closed() ==> r is Closed && *final(sub) == *old(sub),
            !self.is_closed() && old(sub).cursor() == self.history().len() ==> r is Pending
                && *final(sub) == *old(sub),
            !self.is_closed() && old(sub).cursor() < self.history().len() ==> {
                &&& r == HubRead::Newest(self.history().last())
                &&& final(sub).cursor() == self.history().len()
                &&& final(sub).delivered() == old(sub).delivered().push(
                    ((self.history().len() - 1) as int, self.history().last()),
                )
            },
    {
        if self.closed {
            HubRead::Closed
        } else if sub.cursor < self.published {
            let v = self.latest.as_ref().unwrap().clone();
            sub.cursor = self.published;
            proof {
                sub.delivered@ = sub.delivered@.push(
                    ((self.history@.len() - 1) as int, self.history@.last()),
                );
                let d0 = old(sub).delivered();
                let d1 = sub.delivered@;
                let n = self.history@.len() as int;
                assert forall|k: int|
                    0 <= k < d1.len() implies {
                        &&& old(sub).birth() <= (#[trigger] d1[k]).0 < n
                        &&& d1[k].1 == self.history@[d1[k].0]
                    } by {
                    if k < d0.len() {
                        assert(d1[k] == d0[k]);
                    } else {
                        assert(d1[k] == (n - 1, self.history@.last()));
                    }
                }
                assert forall|k1: int, k2: int|
                    0 <= k1 < k2 < d1.len() implies (#[trigger] d1[k1]).0 < (
                #[trigger] d1[k2]).0 by {
                    if k2 < d0.len() {
                        assert(d1[k1] == d0[k1] && d1[k2] == d0[k2]);
                    } else {
                        assert(d1[k1] == d0[k1]);
                        assert(d0[k1].0 < old(sub).cursor());
                        assert(d1[k2].0 == n - 1);
                    }
                }
            }
            HubRead::Newest(v)
        } else {
            HubRead::Pending
        }
    }
}

impl Subscription {
    /// Publishes numbered below the cursor are no longer owed here.
    pub closed spec fn cursor(self) -> int {
        self.cursor as int
    }

    /// The hub's publish count when this subscription was created.
    pub closed spec fn birth(self) -> int {
        self.birth@
    }

    /// The log of deliveries so far, as (history index, value) pairs.
    pub closed spec fn delivered(self) -> Seq<(int, Snapshot)> {
        self.delivered@
    }

    /// The delivery log is consistent with the hub: indices strictly
    /// increase, none precedes the subscription, each lies below the cursor,
    /// and each logged value is exactly the history entry at its index.
    pub closed spec fn wf(self, hub: Hub) -> bool {
        &&& 0 <= self.birth() <= self.cursor() <= hub.history().len()
        &&& forall|k: int|
            0 <= k < self.delivered().len() ==> {
                &&& self.birth() <= (#[trigger] self.delivered()[k]).0 < self.cursor()
                &&& self.delivered()[k].1 == hub.history()[self.delivered()[k].0]
            }
        &&& forall|k1: int, k2: int|
            0 <= k1 < k2 < self.delivered().len() ==> (#[trigger] self.delivered()[k1]).0 < (
            #[trigger] self.delivered()[k2]).0
    }
}

/// How many deliveries the hub still owes a subscriber. Under the coalescing
/// single-slot policy this is one when anything new was published since the
/// subscriber's last read, else zero — never more.
pub open spec fn pending_deliveries(hub: Hub, sub: Subscription) -> nat {
    if sub.cursor() < hub.history().len() {
        1
    } else {
        0
    }
}

/// Law: a subscriber that never reads never builds a backlog and never
/// blocks the sampler. However many publishes have happened since the
/// subscriber's last read, at most one delivery is outstanding, and a single
/// read catches the subscriber up completely (see `Hub::read`). `publish`
/// itself takes no subscriber state at all, so its cost cannot grow with
/// unread subscribers.
pub proof fn lemma_publish_coalesces(hub: Hub, sub: Subscription)
    requires
        hub.wf(),
        sub.wf(hub),
    ensures
        pending_deliveries(hub, sub) <= 1,
{
}

/// Law: what a subscriber observes is a subsequence of the publish history
/// in publish order — every delivered value was really published (nothing is
/// invented), delivery positions strictly increase (no reordering), and no
/// delivered value was published before the subscription existed.
pub proof fn lemma_observed_is_ordered_subsequence(hub: Hub, sub: Subscription)
    requires
        hub.wf(),
        sub.wf(hub),
    ensures
        forall|k: int|
            0 <= k < sub.delivered().len() ==> {
                &&& sub.birth() <= (#[trigger] sub.delivered()[k]).0 < hub.history().len()
                &&& sub.delivered()[k].1 == hub.history()[sub.delivered()[k].0]
            },
        forall|k1: int, k2: int|
            0 <= k1 < k2 < sub.delivered().len() ==> (#[trigger] sub.delivered()[k1]).0 < (
            #[trigger] sub.delivered()[k2]).0,
{
}

} // verus!
