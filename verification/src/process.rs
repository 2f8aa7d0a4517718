use crate::aid::Aid;
use crate::change::{Change, Changed};
use crate::system::Status;
use std::collections::HashMap;
use std::hash::Hash;
use vstd::prelude::*;
use vstd::std_specs::hash::obeys_key_model;

verus! {

/// How many subscriptions ask for the process of one id, and the handle
/// that stops that process.
pub struct Counter<S> {
    pub stopper: Option<S>,
    pub count: usize,
}

/// The bookkeeping of a process actor: one external process per id, kept
/// alive while at least one addition of the id is not matched by a removal.
pub struct ProcessCounts<I, S> {
    counts: HashMap<I, Counter<S>>,
}

/// What the caller must do after a change message.
pub enum ProcessStep<I, S> {
    /// Start the process for this id, then report it with `started`.
    Start(I),
    /// Stop a process through this handle.
    Stop(S),
    /// Nothing to do.
    Nothing,
}

/// The counts after an addition of `id` that finds it running: one more.
pub open spec fn counted<I, S>(m: Map<I, Counter<S>>, id: I) -> Map<I, Counter<S>> {
    if m.contains_key(id) {
        m.insert(id, Counter { stopper: m[id].stopper, count: (m[id].count + 1) as usize })
    } else {
        m
    }
}

/// The counts after a process for `id` was started.
pub open spec fn started_with<I, S>(m: Map<I, Counter<S>>, id: I, stopper: S) -> Map<I, Counter<S>> {
    m.insert(id, Counter { stopper: Some(stopper), count: 1 })
}

/// The counts after a removal of `id`: the last one forgets the id,
/// otherwise one less.
pub open spec fn uncounted<I, S>(m: Map<I, Counter<S>>, id: I) -> Map<I, Counter<S>> {
    if !m.contains_key(id) {
        m
    } else if m[id].count <= 1 {
        m.remove(id)
    } else {
        m.insert(id, Counter { stopper: m[id].stopper, count: (m[id].count - 1) as usize })
    }
}

/// The stopper a removal of `id` hands out: that of the last subscription.
pub open spec fn stopper_released<I, S>(m: Map<I, Counter<S>>, id: I) -> Option<S> {
    if m.contains_key(id) && m[id].count <= 1 {
        m[id].stopper
    } else {
        None
    }
}

impl<I, S> View for ProcessCounts<I, S> {
    type V = Map<I, Counter<S>>;

    closed spec fn view(&self) -> Map<I, Counter<S>> {
        self.counts@
    }
}

/// Every tracked id has at least one subscription.
pub open spec fn counts_positive<I, S>(m: Map<I, Counter<S>>) -> bool {
    forall|id: I| #[trigger] m.contains_key(id) ==> m[id].count >= 1
}

impl<I: Eq + Hash, S> ProcessCounts<I, S> {
    /// No process running.
    pub fn new() -> (r: Self)
        ensures
            r@ == Map::<I, Counter<S>>::empty(),
            counts_positive(r@),
    {
        ProcessCounts { counts: HashMap::new() }
    }

    /// An addition of `id`: if its process runs, count one more; otherwise
    /// hand the id back so that the caller starts the process.
    pub fn add(&mut self, id: I) -> (r: Option<I>)
        requires
            counts_positive(old(self)@),
            old(self)@.contains_key(id) ==> old(self)@[id].count < usize::MAX,
        ensures
            obeys_key_model::<I>() ==> {
                &&& counts_positive(final(self)@)
                &&& final(self)@ == counted(old(self)@, id)
                &&& r == (if old(self)@.contains_key(id) { None } else { Some(id) })
            },
    {
        match self.counts.remove(&id) {
            Some(c) => {
                // A key that behaves as a hash key found its counter, whose
                // count is below the maximum by the precondition.
                let count = if c.count < usize::MAX {
                    c.count + 1
                } else {
                    c.count
                };
                self.counts.insert(id, Counter { stopper: c.stopper, count });
                proof {
                    if obeys_key_model::<I>() {
                        assert(self.counts@ =~= counted(old(self)@, id));
                    }
                }
                None
            },
            None => {
                proof {
                    if obeys_key_model::<I>() {
                        assert(self.counts@ =~= old(self)@);
                    }
                }
                Some(id)
            },
        }
    }

    /// The process for `id` was started and is stopped through `stopper`.
    pub fn started(&mut self, id: I, stopper: S)
        requires
            counts_positive(old(self)@),
            !old(self)@.contains_key(id),
        ensures
            obeys_key_model::<I>() ==> counts_positive(final(self)@) && final(self)@ == started_with(
                old(self)@,
                id,
                stopper,
            ),
    {
        self.counts.insert(id, Counter { stopper: Some(stopper), count: 1 });
    }

    /// A removal of `id`: the last one forgets the id and hands out the
    /// stopper of its process; earlier ones count one less.
    pub fn remove(&mut self, id: I) -> (r: Option<S>)
        requires
            counts_positive(old(self)@),
        ensures
            obeys_key_model::<I>() ==> {
                &&& counts_positive(final(self)@)
                &&& final(self)@ == uncounted(old(self)@, id)
                &&& r == stopper_released(old(self)@, id)
            },
    {
        match self.counts.remove(&id) {
            Some(c) => {
                if c.count <= 1 {
                    c.stopper
                } else {
                    self.counts.insert(id, Counter { stopper: c.stopper, count: c.count - 1 });
                    proof {
                        if obeys_key_model::<I>() {
                            assert(self.counts@ =~= uncounted(old(self)@, id));
                        }
                    }
                    None
                }
            },
            None => {
                proof {
                    if obeys_key_model::<I>() {
                        assert(self.counts@ =~= old(self)@);
                    }
                }
                None
            },
        }
    }

    /// A change message: an addition counts or starts, an update does
    /// nothing, a removal uncounts or stops.
    pub fn handle(&mut self, msg: Change<I, ()>) -> (r: ProcessStep<I, S>)
        requires
            counts_positive(old(self)@),
            msg.change is Added && old(self)@.contains_key(msg.id) ==> old(self)@[msg.id].count
                < usize::MAX,
        ensures
            obeys_key_model::<I>() ==> counts_positive(final(self)@),
            obeys_key_model::<I>() ==> match msg.change {
                Changed::Added(_) => {
                    &&& final(self)@ == counted(old(self)@, msg.id)
                    &&& r == (if old(self)@.contains_key(msg.id) {
                        ProcessStep::<I, S>::Nothing
                    } else {
                        ProcessStep::Start(msg.id)
                    })
                },
                Changed::Updated(_) => final(self)@ == old(self)@ && r == ProcessStep::<I, S>::Nothing,
                Changed::Removed => {
                    &&& final(self)@ == uncounted(old(self)@, msg.id)
                    &&& r == (match stopper_released(old(self)@, msg.id) {
                        Some(s) => ProcessStep::<I, S>::Stop(s),
                        None => ProcessStep::Nothing,
                    })
                },
            },
    {
        match msg.change {
            Changed::Added(_) => match self.add(msg.id) {
                Some(id) => ProcessStep::Start(id),
                None => ProcessStep::Nothing,
            },
            Changed::Updated(_) => ProcessStep::Nothing,
            Changed::Removed => match self.remove(msg.id) {
                Some(s) => ProcessStep::Stop(s),
                None => ProcessStep::Nothing,
            },
        }
    }

    /// How many additions of `id` are not yet matched by removals.
    pub fn count(&self, id: &I) -> (r: usize)
        ensures
            obeys_key_model::<I>() ==> r == (if self@.contains_key(*id) {
                self@[*id].count
            } else {
                0
            }),
    {
        match self.counts.get(id) {
            Some(c) => c.count,
            None => 0,
        }
    }

    /// Shutting down: every process is handed out to be stopped, and the
    /// counts are forgotten.
    pub fn take_all(&mut self) -> (r: HashMap<I, Counter<S>>)
        ensures
            r@ == old(self)@,
            final(self)@ == Map::<I, Counter<S>>::empty(),
            counts_positive(final(self)@),
    {
        let mut taken = HashMap::new();
        std::mem::swap(&mut taken, &mut self.counts);
        taken
    }
}

/// A process actor stops when the actor it feeds stops, and keeps running
/// when another monitored actor stops.
pub fn status_on_stopped(recipient: &Aid, stopped: &Aid) -> (r: Status)
    ensures
        r == (if recipient@.uuid == stopped@.uuid && recipient@.system_uuid == stopped@.system_uuid {
            Status::Stop
        } else {
            Status::Done
        }),
{
    if recipient.same(stopped) {
        Status::Stop
    } else {
        Status::Done
    }
}

/// An addition of a running id followed by its removal restores the counts.
pub proof fn lemma_add_then_remove_restores<I, S>(m: Map<I, Counter<S>>, id: I)
    requires
        m.contains_key(id),
        1 <= m[id].count < usize::MAX,
    ensures
        uncounted(counted(m, id), id) == m,
        stopper_released(counted(m, id), id) is None,
{
    let c = counted(m, id);
    assert(c[id].count == m[id].count + 1);
    assert(c[id].count > 1);
    let back = Counter { stopper: c[id].stopper, count: (c[id].count - 1) as usize };
    assert(back == m[id]);
    assert(uncounted(c, id) =~= m);
}

/// Starting the process of a new id and then removing the id restores the
/// counts and hands back the process's stopper.
pub proof fn lemma_start_then_remove_restores<I, S>(m: Map<I, Counter<S>>, id: I, stopper: S)
    requires
        !m.contains_key(id),
    ensures
        uncounted(started_with(m, id, stopper), id) == m,
        stopper_released(started_with(m, id, stopper), id) == Some(stopper),
{
    assert(uncounted(started_with(m, id, stopper), id) =~= m);
}

} // verus!
