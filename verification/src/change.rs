use crate::system::Status;
use std::collections::{BTreeMap, HashMap};
use std::hash::Hash;
use vstd::laws_cmp::obeys_cmp;
use vstd::prelude::*;
use vstd::std_specs::hash::obeys_key_model;

verus! {

/// What happened to one entry of a keyed collection.
#[derive(Copy, Clone, Debug)]
pub enum Changed<C> {
    Added(C),
    Updated(C),
    Removed,
}

/// A change of the entry `id`.
#[derive(Clone, Debug)]
pub struct Change<I, C> {
    pub id: I,
    pub change: Changed<C>,
}

/// The value an entry holds after a change, if any.
pub open spec fn changed_value<C>(c: Changed<C>) -> Option<C> {
    match c {
        Changed::Added(v) => Some(v),
        Changed::Updated(v) => Some(v),
        Changed::Removed => None,
    }
}

/// The same kind of change, carrying `new` in place of the old value.
pub open spec fn same_kind<C, R>(c: Changed<C>, r: Changed<R>) -> bool {
    match (c, r) {
        (Changed::Added(_), Changed::Added(_)) => true,
        (Changed::Updated(_), Changed::Updated(_)) => true,
        (Changed::Removed, Changed::Removed) => true,
        _ => false,
    }
}

impl<C> Changed<C> {
    /// Transforms the carried value, keeping the kind of change.
    pub fn map<F, R>(self, map: F) -> (r: Changed<R>) where F: FnOnce(C) -> R
        requires
            forall|v: C| changed_value(self) == Some(v) ==> call_requires(map, (v,)),
        ensures
            same_kind(self, r),
            forall|v: C|
                changed_value(self) == Some(v) ==> call_ensures(map, (v,), changed_value(r)->0),
    {
        match self {
            Changed::Added(c) => Changed::Added(map(c)),
            Changed::Updated(c) => Changed::Updated(map(c)),
            Changed::Removed => Changed::Removed,
        }
    }

    /// The value carried by an addition or an update; `None` for a removal.
    pub fn value(&self) -> (r: Option<&C>)
        ensures
            match r {
                Some(v) => changed_value(*self) == Some(*v),
                None => changed_value(*self) is None,
            },
    {
        match self {
            Changed::Added(c) => Some(c),
            Changed::Updated(c) => Some(c),
            Changed::Removed => None,
        }
    }
}

impl<I, C> Change<I, C> {
    /// The entry `id` was added with `change`.
    pub fn added(id: I, change: C) -> (r: Change<I, C>)
        ensures
            r.id == id,
            r.change == Changed::Added(change),
    {
        Change { id, change: Changed::Added(change) }
    }

    /// The entry `id` was removed.
    pub fn removed(id: I) -> (r: Change<I, C>)
        ensures
            r.id == id,
            r.change == Changed::<C>::Removed,
    {
        Change { id, change: Changed::Removed }
    }

    /// The entry `id` was updated to `change`.
    pub fn updated(id: I, change: C) -> (r: Change<I, C>)
        ensures
            r.id == id,
            r.change == Changed::Updated(change),
    {
        Change { id, change: Changed::Updated(change) }
    }

    /// The value carried by the change, if any.
    pub fn value(&self) -> (r: Option<&C>)
        ensures
            match r {
                Some(v) => changed_value(self.change) == Some(*v),
                None => changed_value(self.change) is None,
            },
    {
        self.change.value()
    }

    /// Transforms the id, keeping the change.
    pub fn map_id<F, R>(self, map: F) -> (r: Change<R, C>) where F: FnOnce(I) -> R
        requires
            call_requires(map, (self.id,)),
        ensures
            call_ensures(map, (self.id,), r.id),
            r.change == self.change,
    {
        Change { id: map(self.id), change: self.change }
    }

    /// Transforms the carried value, keeping the id and the kind of change.
    pub fn map_change<F, R>(self, map: F) -> (r: Change<I, R>) where F: FnOnce(C) -> R
        requires
            forall|v: C| changed_value(self.change) == Some(v) ==> call_requires(map, (v,)),
        ensures
            r.id == self.id,
            same_kind(self.change, r.change),
            forall|v: C|
                changed_value(self.change) == Some(v) ==> call_ensures(
                    map,
                    (v,),
                    changed_value(r.change)->0,
                ),
    {
        Change { id: self.id, change: self.change.map(map) }
    }
}

/// A change with its value transformed by `f`.
pub open spec fn map_changed<C, R>(c: Changed<C>, f: spec_fn(C) -> R) -> Changed<R> {
    match c {
        Changed::Added(v) => Changed::Added(f(v)),
        Changed::Updated(v) => Changed::Updated(f(v)),
        Changed::Removed => Changed::Removed,
    }
}

/// A change record with its id transformed by `g`.
pub open spec fn map_change_id<I, R, C>(c: Change<I, C>, g: spec_fn(I) -> R) -> Change<R, C> {
    Change { id: g(c.id), change: c.change }
}

/// A change record with its value transformed by `f`.
pub open spec fn map_change_value<I, C, R>(c: Change<I, C>, f: spec_fn(C) -> R) -> Change<I, R> {
    Change { id: c.id, change: map_changed(c.change, f) }
}

/// When the function handed to `map` gives one result per argument, as `f`
/// does, the change `map` returned is the change transformed by `f`.
pub proof fn lemma_map_follows_function<C, R, F: FnOnce(C) -> R>(
    c: Changed<C>,
    r: Changed<R>,
    map: F,
    f: spec_fn(C) -> R,
)
    requires
        same_kind(c, r),
        forall|v: C| changed_value(c) == Some(v) ==> call_ensures(map, (v,), changed_value(r)->0),
        forall|v: C, y: R| #[trigger] call_ensures(map, (v,), y) ==> y == f(v),
    ensures
        r == map_changed(c, f),
{
    match c {
        Changed::Added(v) => {
            assert(call_ensures(map, (v,), changed_value(r)->0));
        },
        Changed::Updated(v) => {
            assert(call_ensures(map, (v,), changed_value(r)->0));
        },
        Changed::Removed => {},
    }
}

/// When the function handed to `map_id` gives one result per argument, as
/// `g` does, the record `map_id` returned is the record with its id
/// transformed by `g`.
pub proof fn lemma_map_id_follows_function<I, C, R, F: FnOnce(I) -> R>(
    c: Change<I, C>,
    r: Change<R, C>,
    map: F,
    g: spec_fn(I) -> R,
)
    requires
        call_ensures(map, (c.id,), r.id),
        r.change == c.change,
        forall|v: I, y: R| #[trigger] call_ensures(map, (v,), y) ==> y == g(v),
    ensures
        r == map_change_id(c, g),
{
}

/// Mapping with the identity changes nothing, and mapping twice is mapping
/// once with the composed function.
pub proof fn lemma_map_identity_and_composition<C, R, T>(
    c: Changed<C>,
    f: spec_fn(C) -> R,
    g: spec_fn(R) -> T,
)
    ensures
        map_changed(c, |v: C| v) == c,
        map_changed(map_changed(c, f), g) == map_changed(c, |v: C| g(f(v))),
{
}

/// Transforming the id and transforming the value of a change record can be
/// done in either order.
pub proof fn lemma_map_id_and_value_commute<I, C, R, S>(
    c: Change<I, C>,
    g: spec_fn(I) -> S,
    f: spec_fn(C) -> R,
)
    ensures
        map_change_value(map_change_id(c, g), f) == map_change_id(map_change_value(c, f), g),
{
}

/// A keyed collection after a change: an addition or an update stores the
/// value under the id, a removal takes the id out.
pub open spec fn applied<I, C>(m: Map<I, C>, msg: Change<I, C>) -> Map<I, C> {
    match msg.change {
        Changed::Added(v) => m.insert(msg.id, v),
        Changed::Updated(v) => m.insert(msg.id, v),
        Changed::Removed => m.remove(msg.id),
    }
}

/// A keyed collection kept up to date by change messages.
pub type ChangeDB<I, C> = HashMap<I, C>;

/// A keyed collection after a borrowed change, whose id and value were
/// cloned into it: an addition or an update stores a clone of the value under
/// a clone of the id, a removal takes the id out.
pub open spec fn borrowed_applied<I: Clone, C: Clone>(before: Map<I, C>, msg: Change<I, C>, after: Map<I, C>) -> bool {
    match msg.change {
        Changed::Removed => after == before.remove(msg.id),
        Changed::Added(c) | Changed::Updated(c) => exists|k: I, v: C|
            cloned(msg.id, k) && cloned(c, v) && after == before.insert(k, v),
    }
}

/// Something that can absorb messages of type `M`.
pub trait ChangeUpdater<M>: Sized {
    /// Whether absorbing `msg` may turn `before` into `after`.
    spec fn absorbs(before: Self, msg: M, after: Self) -> bool;

    fn update(&mut self, msg: M)
        ensures
            Self::absorbs(*old(self), msg, *final(self)),
    ;
}

impl<I, C> ChangeUpdater<Change<I, C>> for HashMap<I, C> where I: Eq + Hash {
    open spec fn absorbs(before: Self, msg: Change<I, C>, after: Self) -> bool {
        obeys_key_model::<I>() ==> after@ == applied(before@, msg)
    }

    /// Applies the change to the map (for keys that behave as hash keys).
    fn update(&mut self, msg: Change<I, C>)
        ensures
            obeys_key_model::<I>() ==> final(self)@ == applied(old(self)@, msg),
    {
        match msg.change {
            Changed::Added(change) => {
                self.insert(msg.id, change);
            },
            Changed::Removed => {
                self.remove(&msg.id);
            },
            Changed::Updated(change) => {
                self.insert(msg.id, change);
            },
        }
    }
}

impl<I, C> ChangeUpdater<Change<I, C>> for BTreeMap<I, C> where I: Ord {
    open spec fn absorbs(before: Self, msg: Change<I, C>, after: Self) -> bool {
        obeys_cmp::<I>() ==> after@ == applied(before@, msg)
    }

    /// Applies the change to the map (for keys whose order is lawful).
    fn update(&mut self, msg: Change<I, C>)
        ensures
            obeys_cmp::<I>() ==> final(self)@ == applied(old(self)@, msg),
    {
        match msg.change {
            Changed::Added(change) => {
                self.insert(msg.id, change);
            },
            Changed::Removed => {
                self.remove(&msg.id);
            },
            Changed::Updated(change) => {
                self.insert(msg.id, change);
            },
        }
    }
}

impl<'c, I, C> ChangeUpdater<&'c Change<I, C>> for HashMap<I, C> where I: Eq + Hash + Clone, C: Clone {
    open spec fn absorbs(before: Self, msg: &'c Change<I, C>, after: Self) -> bool {
        obeys_key_model::<I>() ==> borrowed_applied(before@, *msg, after@)
    }

    /// Applies a borrowed change to the map, storing clones of its id and value.
    fn update(&mut self, msg: &'c Change<I, C>)
        ensures
            obeys_key_model::<I>() ==> borrowed_applied(old(self)@, *msg, final(self)@),
    {
        match &msg.change {
            Changed::Added(change) => {
                self.insert(msg.id.clone(), change.clone());
            },
            Changed::Removed => {
                self.remove(&msg.id);
            },
            Changed::Updated(change) => {
                self.insert(msg.id.clone(), change.clone());
            },
        }
    }
}

impl<'c, I, C> ChangeUpdater<&'c Change<I, C>> for BTreeMap<I, C> where I: Ord + Clone, C: Clone {
    open spec fn absorbs(before: Self, msg: &'c Change<I, C>, after: Self) -> bool {
        obeys_cmp::<I>() ==> borrowed_applied(before@, *msg, after@)
    }

    /// Applies a borrowed change to the map, storing clones of its id and value.
    fn update(&mut self, msg: &'c Change<I, C>)
        ensures
            obeys_cmp::<I>() ==> borrowed_applied(old(self)@, *msg, final(self)@),
    {
        match &msg.change {
            Changed::Added(change) => {
                self.insert(msg.id.clone(), change.clone());
            },
            Changed::Removed => {
                self.remove(&msg.id);
            },
            Changed::Updated(change) => {
                self.insert(msg.id.clone(), change.clone());
            },
        }
    }
}

impl<C, T> ChangeUpdater<Box<C>> for T where T: for <'c> ChangeUpdater<&'c C> {
    /// A boxed message is absorbed exactly as the message it holds, borrowed.
    open spec fn absorbs(before: T, msg: Box<C>, after: T) -> bool {
        <T as ChangeUpdater<&C>>::absorbs(before, &*msg, after)
    }

    /// A boxed message is absorbed through its borrowed form.
    fn update(&mut self, msg: Box<C>)
        ensures
            <T as ChangeUpdater<&C>>::absorbs(*old(self), &*msg, *final(self)),
    {
        self.update(&*msg)
    }
}

/// Cloning a value of type `T` gives that same value.
pub open spec fn clones_copy<T: Clone>() -> bool {
    forall|a: T, b: T| cloned(a, b) ==> a == b
}

/// For ids and values whose clones are copies, absorbing a borrowed change
/// leaves a map exactly as absorbing the change itself: the collection after
/// the change, `applied`. This holds alike for hash maps and ordered maps,
/// whose borrowed updates both satisfy `borrowed_applied`.
pub proof fn lemma_borrowed_change_agrees<I: Clone, C: Clone>(
    before: Map<I, C>,
    msg: Change<I, C>,
    after: Map<I, C>,
)
    requires
        clones_copy::<I>(),
        clones_copy::<C>(),
        borrowed_applied(before, msg, after),
    ensures
        after == applied(before, msg),
{
    match msg.change {
        Changed::Added(c) | Changed::Updated(c) => {
            let (k, v) = choose|k: I, v: C|
                cloned(msg.id, k) && cloned(c, v) && after == before.insert(k, v);
            assert(k == msg.id && v == c);
        },
        Changed::Removed => {},
    }
}

/// A change database handles a change message by storing clones of its id
/// and value (or removing the id), and keeps running.
pub fn apply_change<I: Eq + Hash + Clone, C: Clone>(db: &mut HashMap<I, C>, msg: Change<I, C>) -> (s: Status)
    ensures
        s == Status::Done,
        obeys_key_model::<I>() ==> borrowed_applied(old(db)@, msg, final(db)@),
        obeys_key_model::<I>() && clones_copy::<I>() && clones_copy::<C>() ==> final(db)@ == applied(
            old(db)@,
            msg,
        ),
{
    let ghost before = db@;
    db.update(&msg);
    proof {
        if obeys_key_model::<I>() && clones_copy::<I>() && clones_copy::<C>() {
            lemma_borrowed_change_agrees(before, msg, db@);
        }
    }
    Status::Done
}

/// An ordered change database handles a change message by storing clones of
/// its id and value (or removing the id), and keeps running.
pub fn apply_change_ordered<I: Ord + Clone, C: Clone>(db: &mut BTreeMap<I, C>, msg: Change<I, C>) -> (s: Status)
    ensures
        s == Status::Done,
        obeys_cmp::<I>() ==> borrowed_applied(old(db)@, msg, final(db)@),
        obeys_cmp::<I>() && clones_copy::<I>() && clones_copy::<C>() ==> final(db)@ == applied(
            old(db)@,
            msg,
        ),
{
    let ghost before = db@;
    db.update(&msg);
    proof {
        if obeys_cmp::<I>() && clones_copy::<I>() && clones_copy::<C>() {
            lemma_borrowed_change_agrees(before, msg, db@);
        }
    }
    Status::Done
}

/// Adding an entry and then removing it leaves the collection without the
/// entry and otherwise as it was.
pub proof fn lemma_add_then_remove<I, C>(m: Map<I, C>, id: I, v: C)
    ensures
        applied(
            applied(m, Change { id, change: Changed::Added(v) }),
            Change { id, change: Changed::Removed },
        ) == m.remove(id),
        !m.contains_key(id) ==> applied(
            applied(m, Change { id, change: Changed::Added(v) }),
            Change { id, change: Changed::Removed },
        ) == m,
{
    assert(m.insert(id, v).remove(id) =~= m.remove(id));
    if !m.contains_key(id) {
        assert(m.remove(id) =~= m);
    }
}

/// The last addition or update of an entry decides its value.
pub proof fn lemma_last_change_wins<I, C>(m: Map<I, C>, id: I, first: Changed<C>, v: C)
    ensures
        applied(applied(m, Change { id, change: first }), Change { id, change: Changed::Updated(v) })
            == m.insert(id, v),
{
    assert(applied(
        applied(m, Change { id, change: first }),
        Change { id, change: Changed::Updated(v) },
    ) =~= m.insert(id, v));
}

/// Changes of different entries can be applied in either order.
pub proof fn lemma_distinct_changes_commute<I, C>(m: Map<I, C>, a: Change<I, C>, b: Change<I, C>)
    requires
        a.id != b.id,
    ensures
        applied(applied(m, a), b) == applied(applied(m, b), a),
{
    assert(applied(applied(m, a), b) =~= applied(applied(m, b), a));
}

} // verus!
