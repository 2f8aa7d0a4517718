use crate::aid::{Aid, AidKey};
use crate::table::AidTable;
use vstd::prelude::*;

verus! {

/// The system actor's registry of monitors: for each monitored actor, its
/// handle and the handles of the actors that asked to be told when it
/// stops, in the order they asked (an actor asking twice is told twice).
pub struct ActorManager<H> {
    monitored: AidTable<(H, Vec<H>)>,
}

/// The monitors of the actor `key`, in registration order.
pub open spec fn monitors_of<H>(m: Map<AidKey, (H, Seq<H>)>, key: AidKey) -> Seq<H> {
    if m.contains_key(key) {
        m[key].1
    } else {
        Seq::empty()
    }
}

/// The registry after `monitoring` asked to watch the actor `key`, whose
/// handle is `monitored`: the first handle seen for an actor is kept, and
/// the monitor is appended.
pub open spec fn registered<H>(
    m: Map<AidKey, (H, Seq<H>)>,
    key: AidKey,
    monitored: H,
    monitoring: H,
) -> Map<AidKey, (H, Seq<H>)> {
    if m.contains_key(key) {
        m.insert(key, (m[key].0, m[key].1.push(monitoring)))
    } else {
        m.insert(key, (monitored, seq![monitoring]))
    }
}

/// A registry entry with its monitor list taken as a sequence.
pub open spec fn entry_view<H>(e: (H, Vec<H>)) -> (H, Seq<H>) {
    (e.0, e.1@)
}

impl<H> View for ActorManager<H> {
    type V = Map<AidKey, (H, Seq<H>)>;

    closed spec fn view(&self) -> Map<AidKey, (H, Seq<H>)> {
        self.monitored@.map_values(|e: (H, Vec<H>)| entry_view(e))
    }
}

impl<H> ActorManager<H> {
    pub closed spec fn wf(&self) -> bool {
        self.monitored.wf()
    }

    /// No monitors.
    pub fn new() -> (r: Self)
        ensures
            r.wf(),
            r@ == Map::<AidKey, (H, Seq<H>)>::empty(),
    {
        let r = ActorManager { monitored: AidTable::new() };
        proof {
            assert(r@ =~= Map::<AidKey, (H, Seq<H>)>::empty());
        }
        r
    }

    /// `monitoring` asks to be told when the actor `key` (handle
    /// `monitored`) stops.
    pub fn register_monitor(&mut self, key: AidKey, monitored: H, monitoring: H)
        requires
            old(self).wf(),
        ensures
            final(self).wf(),
            final(self)@ == registered(old(self)@, key, monitored, monitoring),
    {
        match self.monitored.remove(&key) {
            Some((first, list)) => {
                let mut list = list;
                list.push(monitoring);
                self.monitored.insert(key, (first, list));
                proof {
                    assert(self@ =~= registered(old(self)@, key, monitored, monitoring));
                }
            },
            None => {
                let mut list = Vec::new();
                list.push(monitoring);
                self.monitored.insert(key, (monitored, list));
                proof {
                    assert(list@ =~= seq![monitoring]);
                    assert(self@ =~= registered(old(self)@, key, monitored, monitoring));
                }
            },
        }
    }

    /// The monitors to tell that the actor `key` stopped, in registration
    /// order; they stay registered.
    pub fn watchers(&self, key: &AidKey) -> (r: Option<&Vec<H>>)
        requires
            self.wf(),
        ensures
            match r {
                Some(list) => self@.contains_key(*key) && list@ == monitors_of(self@, *key),
                None => !self@.contains_key(*key) && monitors_of(self@, *key) == Seq::<H>::empty(),
            },
    {
        match self.monitored.get(key) {
            Some(entry) => Some(&entry.1),
            None => None,
        }
    }

    /// Shutting down: hands out every monitored actor with its monitors, to
    /// be told that it stopped, and forgets them.
    pub fn drain(&mut self) -> (r: Vec<(AidKey, (H, Vec<H>))>)
        requires
            old(self).wf(),
        ensures
            final(self).wf(),
            final(self)@ == Map::<AidKey, (H, Seq<H>)>::empty(),
            forall|i: int, j: int|
                0 <= i < j < r@.len() ==> #[trigger] r@[i].0 != #[trigger] r@[j].0,
            forall|k: AidKey| #[trigger]
                old(self)@.contains_key(k) ==> exists|i: int| 0 <= i < r@.len() && r@[i].0 == k,
            forall|i: int| 0 <= i < r@.len() ==> #[trigger] old(self)@.contains_key(r@[i].0)
                && old(self)@[r@[i].0] == entry_view(r@[i].1),
    {
        let r = self.monitored.drain();
        proof {
            assert(self@ =~= Map::<AidKey, (H, Seq<H>)>::empty());
        }
        r
    }
}

/// An actor started: it is recorded among the running actors.
pub fn actor_started<H>(actors: &mut AidTable<H>, key: AidKey, handle: H)
    requires
        old(actors).wf(),
    ensures
        final(actors).wf(),
        final(actors)@ == old(actors)@.insert(key, handle),
{
    actors.insert(key, handle);
}

/// An actor stopped: it is no longer among the running actors.
pub fn actor_stopped<H>(actors: &mut AidTable<H>, key: &AidKey)
    requires
        old(actors).wf(),
    ensures
        final(actors).wf(),
        final(actors)@ == old(actors)@.remove(*key),
{
    actors.remove(key);
}

/// The system tells its registry about every actor but the registry itself.
pub fn notifies(aid: &Aid, registry: &Aid) -> (r: bool)
    ensures
        r == !(aid@.uuid == registry@.uuid && aid@.system_uuid == registry@.system_uuid),
{
    !aid.same(registry)
}

/// An actor that started and then stopped is no longer running.
pub proof fn lemma_started_then_stopped<H>(actors: Map<AidKey, H>, key: AidKey, handle: H)
    ensures
        actors.insert(key, handle).remove(key) == actors.remove(key),
        !actors.insert(key, handle).remove(key).contains_key(key),
{
    assert(actors.insert(key, handle).remove(key) =~= actors.remove(key));
}

/// Monitors are told in the order they registered, and registering for one
/// actor does not change who is told about another.
pub proof fn lemma_monitors_in_order<H>(
    m: Map<AidKey, (H, Seq<H>)>,
    key: AidKey,
    other: AidKey,
    d: H,
    first: H,
    second: H,
    x: H,
)
    requires
        other != key,
    ensures
        monitors_of(registered(registered(m, key, d, first), key, d, second), key) == monitors_of(
            m,
            key,
        ).push(first).push(second),
        monitors_of(registered(m, other, x, x), key) == monitors_of(m, key),
{
    assert(monitors_of(registered(m, key, d, first), key) =~= monitors_of(m, key).push(first));
}

} // verus!
