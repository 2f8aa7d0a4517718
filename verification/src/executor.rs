use vstd::prelude::*;

verus! {

/// The state of the executor: actors queued before the start, or handles of
/// the running actors once started. `F` is an actor's computation, `J` the
/// handle of a running one.
pub enum ExecutorState<F, J> {
    Initializing(Vec<F>),
    Started(Vec<J>),
    Invalid,
}

/// The mathematical state of the executor.
pub enum ExecutorView<F, J> {
    Initializing(Seq<F>),
    Started(Seq<J>),
    Invalid,
}

impl<F, J> View for ExecutorState<F, J> {
    type V = ExecutorView<F, J>;

    open spec fn view(&self) -> ExecutorView<F, J> {
        match self {
            ExecutorState::Initializing(v) => ExecutorView::Initializing(v@),
            ExecutorState::Started(v) => ExecutorView::Started(v@),
            ExecutorState::Invalid => ExecutorView::Invalid,
        }
    }
}

/// Spawning, as a transition: queued before the start; after the start the
/// state is unchanged (the actor is spawned at once).
pub open spec fn spawn_step<F, J>(v: ExecutorView<F, J>, fut: F) -> ExecutorView<F, J> {
    match v {
        ExecutorView::Initializing(q) => ExecutorView::Initializing(q.push(fut)),
        other => other,
    }
}

/// Starting, as a transition: the executor is left invalid until the queued
/// actors are reported spawned; they are handed out in queue order.
pub open spec fn start_step<F, J>(v: ExecutorView<F, J>) -> (ExecutorView<F, J>, Option<Seq<F>>) {
    match v {
        ExecutorView::Initializing(q) => (ExecutorView::Invalid, Some(q)),
        _ => (ExecutorView::Invalid, None),
    }
}

impl<F, J> ExecutorState<F, J> {
    /// A new executor queues actors until it is started.
    pub fn new() -> (r: Self)
        ensures
            r@ == ExecutorView::<F, J>::Initializing(Seq::empty()),
    {
        ExecutorState::Initializing(Vec::new())
    }

    /// Takes the state out, leaving `Invalid`.
    pub fn take(&mut self) -> (r: Self)
        ensures
            r == *old(self),
            final(self)@ is Invalid,
    {
        let mut taken = ExecutorState::Invalid;
        std::mem::swap(&mut taken, self);
        taken
    }

    /// Starting: hands out the queued actors, in the order they were queued,
    /// to be spawned and then reported with `started`. Starting an executor
    /// that is not initializing leaves it invalid and hands out nothing.
    pub fn begin_start(&mut self) -> (r: Option<Vec<F>>)
        ensures
            final(self)@ == start_step(old(self)@).0,
            match start_step(old(self)@).1 {
                Some(q) => r is Some && r->0@ == q,
                None => r is None,
            },
    {
        match self.take() {
            ExecutorState::Initializing(actors) => Some(actors),
            _ => None,
        }
    }

    /// The queued actors were spawned, giving these handles.
    pub fn started(&mut self, joins: Vec<J>)
        ensures
            final(self)@ == ExecutorView::<F, J>::Started(joins@),
    {
        *self = ExecutorState::Started(joins);
    }

    /// Spawning an actor: before the start it is queued; after the start it
    /// is handed back to be spawned at once and reported with `add_join`.
    pub fn spawn(&mut self, fut: F) -> (r: Option<F>)
        requires
            !(old(self)@ is Invalid),
        ensures
            final(self)@ == spawn_step(old(self)@, fut),
            r == (if old(self)@ is Started { Some(fut) } else { None }),
    {
        match self {
            ExecutorState::Initializing(actors) => {
                actors.push(fut);
                None
            },
            ExecutorState::Started(_) => Some(fut),
            ExecutorState::Invalid => {
                proof {
                    assert(false);
                }
                None
            },
        }
    }

    /// An actor spawned after the start runs under this handle.
    pub fn add_join(&mut self, join: J)
        requires
            old(self)@ is Started,
        ensures
            match old(self)@ {
                ExecutorView::Started(j) => final(self)@ == ExecutorView::<F, J>::Started(j.push(join)),
                _ => false,
            },
    {
        match self {
            ExecutorState::Started(joins) => {
                joins.push(join);
            },
            _ => {
                proof {
                    assert(false);
                }
            },
        }
    }
}

impl<F, J> Default for ExecutorState<F, J> {
    fn default() -> (r: Self)
        ensures
            r@ == ExecutorView::<F, J>::Initializing(Seq::empty()),
    {
        ExecutorState::new()
    }
}

/// Actors queued before the start are handed out at the start in the order
/// they were queued, after those queued earlier.
pub proof fn lemma_start_keeps_queue_order<F, J>(q: Seq<F>, a: F, b: F)
    ensures
        start_step(spawn_step(spawn_step(ExecutorView::<F, J>::Initializing(q), a), b)).1 == Some(
            q.push(a).push(b),
        ),
{
}

/// Starting a second time leaves the executor invalid, with nothing to spawn.
pub proof fn lemma_second_start_invalidates<F, J>(q: Seq<F>, joins: Seq<J>)
    ensures
        start_step(ExecutorView::<F, J>::Started(joins)) == (ExecutorView::<F, J>::Invalid, None::<Seq<F>>),
{
}

} // verus!
