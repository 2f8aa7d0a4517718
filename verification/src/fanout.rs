use crate::aid::AidKey;
use crate::change::{Change, Changed};
use crate::system::AidError;
use crate::table::AidTable;
use vstd::prelude::*;

verus! {

/// What a fanout actor receives: a subscription change for a subscriber
/// handle `H`, or a message to pass on to every subscriber.
#[derive(Debug, Clone)]
pub enum FanoutMessage<M, H> {
    Subscription(Change<H, ()>),
    Message(M),
}

impl<M, H> From<M> for FanoutMessage<M, H> {
    /// A plain value is a message to broadcast.
    fn from(v: M) -> (r: FanoutMessage<M, H>) {
        FanoutMessage::Message(v)
    }
}

impl<M, H> vstd::std_specs::convert::FromSpecImpl<M> for FanoutMessage<M, H> {
    open spec fn obeys_from_spec() -> bool {
        true
    }

    open spec fn from_spec(v: M) -> FanoutMessage<M, H> {
        FanoutMessage::Message(v)
    }
}

/// The state of a fanout actor: the set of subscribers, keyed by actor
/// identity, and the set of subscribers that accepted the message being
/// broadcast.
pub struct FanoutHandler<H> {
    fan: AidTable<H>,
    fan2: AidTable<H>,
}

/// The mathematical state of a fanout actor.
pub struct FanoutView<H> {
    /// The subscribers.
    pub fan: Map<AidKey, H>,
    /// The subscribers that accepted the current broadcast so far.
    pub accepted: Map<AidKey, H>,
}

/// A map with `key` added unless it is already there (set insertion keeps
/// the element it has).
pub open spec fn insert_absent<H>(m: Map<AidKey, H>, key: AidKey, h: H) -> Map<AidKey, H> {
    if m.contains_key(key) {
        m
    } else {
        m.insert(key, h)
    }
}

/// The subscribers after a subscription change: an addition or an update
/// subscribes the actor (keeping an existing subscription), a removal
/// unsubscribes it.
pub open spec fn subscribed<H>(fan: Map<AidKey, H>, key: AidKey, h: H, change: Changed<()>) -> Map<
    AidKey,
    H,
> {
    match change {
        Changed::Removed => fan.remove(key),
        _ => insert_absent(fan, key, h),
    }
}

/// The accepted set after delivery attempts `outcomes` to `items`, in order:
/// a subscriber that took the message stays, one whose mailbox was closed
/// is dropped.
pub open spec fn accepted_after<H>(
    acc: Map<AidKey, H>,
    items: Seq<(AidKey, H)>,
    delivered: Seq<bool>,
) -> Map<AidKey, H>
    decreases items.len(),
{
    if items.len() == 0 || delivered.len() == 0 {
        acc
    } else {
        let last = (items.len() - 1) as int;
        let before = accepted_after(acc, items.take(last), delivered.take(last));
        if delivered[last] {
            insert_absent(before, items[last].0, items[last].1)
        } else {
            before
        }
    }
}

impl<H> View for FanoutHandler<H> {
    type V = FanoutView<H>;

    closed spec fn view(&self) -> FanoutView<H> {
        FanoutView { fan: self.fan@, accepted: self.fan2@ }
    }
}

impl<H> FanoutHandler<H> {
    pub closed spec fn wf(&self) -> bool {
        self.fan.wf() && self.fan2.wf()
    }

    /// No subscribers.
    pub fn new() -> (r: Self)
        ensures
            r.wf(),
            r@.fan == Map::<AidKey, H>::empty(),
            r@.accepted == Map::<AidKey, H>::empty(),
    {
        FanoutHandler { fan: AidTable::new(), fan2: AidTable::new() }
    }

    /// Applies a subscription change for the actor `key` with handle
    /// `handle`. Returns whether the actor must now be monitored (it was
    /// subscribed by an addition or an update).
    pub fn subscription(&mut self, key: AidKey, handle: H, change: &Changed<()>) -> (monitor: bool)
        requires
            old(self).wf(),
        ensures
            final(self).wf(),
            final(self)@.fan == subscribed(old(self)@.fan, key, handle, *change),
            final(self)@.accepted == old(self)@.accepted,
            monitor == !(*change is Removed),
    {
        match change {
            Changed::Removed => {
                self.fan.remove(&key);
                false
            },
            _ => {
                self.fan.insert_absent(key, handle);
                true
            },
        }
    }

    /// The actor `key` stopped: it is no longer a subscriber.
    pub fn stopped(&mut self, key: &AidKey)
        requires
            old(self).wf(),
        ensures
            final(self).wf(),
            final(self)@.fan == old(self)@.fan.remove(*key),
            final(self)@.accepted == old(self)@.accepted,
    {
        self.fan.remove(key);
    }

    /// Starts a broadcast: hands out every subscriber, leaving none until
    /// they are accepted back.
    pub fn begin_broadcast(&mut self) -> (r: Vec<(AidKey, H)>)
        requires
            old(self).wf(),
        ensures
            final(self).wf(),
            final(self)@.fan == Map::<AidKey, H>::empty(),
            final(self)@.accepted == old(self)@.accepted,
            crate::table::entries_match(r@, old(self)@.fan),
    {
        self.fan.drain()
    }

    /// Records the outcome of sending the message to one subscriber.
    /// A subscriber that took the message is kept; one whose mailbox is
    /// closed is dropped; any other failure ends the broadcast, and the
    /// caller returns that failure. Returns whether the broadcast goes on.
    pub fn delivered(&mut self, key: AidKey, handle: H, outcome: &Result<(), AidError>) -> (go_on:
        bool)
        requires
            old(self).wf(),
        ensures
            final(self).wf(),
            final(self)@.fan == old(self)@.fan,
            go_on == (outcome is Ok || outcome == Err::<(), AidError>(AidError::ActorAlreadyStopped)),
            final(self)@.accepted == (if outcome is Ok {
                insert_absent(old(self)@.accepted, key, handle)
            } else {
                old(self)@.accepted
            }),
    {
        match outcome {
            Ok(()) => {
                self.fan2.insert_absent(key, handle);
                true
            },
            Err(AidError::ActorAlreadyStopped) => true,
            Err(_) => false,
        }
    }

    /// Ends a broadcast that went through: the subscribers that accepted the
    /// message become the subscribers, and the accepted set takes over what
    /// was left in the subscriber set.
    pub fn end_broadcast(&mut self)
        requires
            old(self).wf(),
        ensures
            final(self).wf(),
            final(self)@.fan == old(self)@.accepted,
            final(self)@.accepted == old(self)@.fan,
    {
        std::mem::swap(&mut self.fan, &mut self.fan2);
    }

    /// The subscribers, in the order they subscribed.
    pub fn subscribers(&self) -> (r: &[(AidKey, H)])
        requires
            self.wf(),
        ensures
            crate::table::entries_match(r@, self@.fan),
    {
        self.fan.entries()
    }
}

impl<H> Default for FanoutHandler<H> {
    fn default() -> (r: Self)
        ensures
            r.wf(),
            r@.fan == Map::<AidKey, H>::empty(),
            r@.accepted == Map::<AidKey, H>::empty(),
    {
        FanoutHandler::new()
    }
}

/// Subscribing an actor and then unsubscribing it leaves it out of the
/// subscribers, and subscribing an actor twice keeps one subscription.
pub proof fn lemma_subscribe_unsubscribe<H>(fan: Map<AidKey, H>, key: AidKey, h: H, h2: H)
    ensures
        !subscribed(subscribed(fan, key, h, Changed::Added(())), key, h, Changed::Removed).contains_key(
            key,
        ),
        subscribed(subscribed(fan, key, h, Changed::Added(())), key, h2, Changed::Added(()))
            == subscribed(fan, key, h, Changed::Added(())),
{
}

/// After a broadcast that started with nothing accepted, the accepted set,
/// which becomes the subscriber set, holds exactly the subscribers to which
/// the message was delivered.
pub proof fn lemma_broadcast_keeps_accepting<H>(items: Seq<(AidKey, H)>, delivered: Seq<bool>)
    requires
        items.len() == delivered.len(),
        forall|i: int, j: int| 0 <= i < j < items.len() ==> #[trigger] items[i].0 != #[trigger] items[j].0,
    ensures
        forall|k: AidKey|
            #[trigger] accepted_after(Map::empty(), items, delivered).contains_key(k) <==> exists|i: int|
                0 <= i < items.len() && items[i].0 == k && delivered[i],
        forall|i: int|
            0 <= i < items.len() && delivered[i] ==> #[trigger] accepted_after(
                Map::empty(),
                items,
                delivered,
            )[items[i].0] == items[i].1,
    decreases items.len(),
{
    if items.len() > 0 {
        let last = (items.len() - 1) as int;
        let pi = items.take(last);
        let pd = delivered.take(last);
        lemma_broadcast_keeps_accepting(pi, pd);
        let before = accepted_after(Map::empty(), pi, pd);
        assert(!before.contains_key(items[last].0)) by {
            if before.contains_key(items[last].0) {
                let i = choose|i: int| 0 <= i < pi.len() && pi[i].0 == items[last].0 && pd[i];
                assert(items[i].0 == items[last].0);
            }
        }
        let after = accepted_after(Map::<AidKey, H>::empty(), items, delivered);
        assert forall|k: AidKey| #[trigger] after.contains_key(k) <==> exists|i: int|
            0 <= i < items.len() && items[i].0 == k && delivered[i] by {
            if after.contains_key(k) {
                if before.contains_key(k) {
                    let i = choose|i: int| 0 <= i < pi.len() && pi[i].0 == k && pd[i];
                    assert(items[i].0 == k && delivered[i]);
                } else {
                    assert(items[last].0 == k && delivered[last]);
                }
            }
            if exists|i: int| 0 <= i < items.len() && items[i].0 == k && delivered[i] {
                let i = choose|i: int| 0 <= i < items.len() && items[i].0 == k && delivered[i];
                if i < last {
                    assert(pi[i].0 == k && pd[i]);
                }
            }
        }
        assert forall|i: int| 0 <= i < items.len() && delivered[i] implies #[trigger] after[items[i].0]
            == items[i].1 by {
            if i < last {
                assert(pi[i] == items[i] && pd[i]);
                assert(items[i].0 != items[last].0);
            }
        }
    }
}

} // verus!
