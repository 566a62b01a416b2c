use crate::command::Command;
use crate::signal::Signal;
use crate::timeline::Timeline;
use fnv::FnvHashMap;
use vstd::prelude::*;

verus! {

#[verifier::external_type_specification]
#[verifier::external_body]
pub struct ExFnvHasher(fnv::FnvHasher);

#[verifier::external_type_specification]
#[verifier::external_body]
#[verifier::reject_recursive_types(H)]
pub struct ExBuildHasherDefault<H>(core::hash::BuildHasherDefault<H>);

/// A map keyed by identifiers, hashed with fnv.
type IdMap<V> = FnvHashMap<u64, V>;

/// Relies on `HashMap::with_capacity_and_hasher` (with fnv's hasher): the
/// map made is empty.
#[verifier::external_body]
fn map_with_capacity<V>(capacity: usize) -> (r: IdMap<V>)
    ensures
        r@.dom() == Set::<u64>::empty(),
{
    FnvHashMap::with_capacity_and_hasher(capacity, Default::default())
}

/// Relies on `HashMap::capacity`: how many elements the map holds without
/// reallocating. Nothing is assumed of it.
#[verifier::external_body]
fn map_capacity<V>(m: &IdMap<V>) -> usize {
    m.capacity()
}

/// Relies on `HashMap::shrink_to_fit`: it keeps every key and value.
#[verifier::external_body]
fn map_shrink_to_fit<V>(m: &mut IdMap<V>)
    ensures
        final(m)@ == old(m)@,
{
    m.shrink_to_fit()
}

/// Relies on `HashMap::insert` (with fnv's hasher, which hashes a key the
/// same way each time): afterwards `k` maps to `v`, and every other key to
/// what it mapped to before.
#[verifier::external_body]
fn map_insert<V>(m: &mut IdMap<V>, k: u64, v: V)
    ensures
        final(m)@ == old(m)@.insert(k, v),
{
    m.insert(k, v);
}

/// Relies on `HashMap::remove` (with fnv's hasher): returns the value of `k`,
/// if any, and leaves the other keys as they were.
#[verifier::external_body]
fn map_remove<V>(m: &mut IdMap<V>, k: u64) -> (r: Option<V>)
    ensures
        final(m)@ == old(m)@.remove(k),
        r == (if old(m)@.contains_key(k) { Some(old(m)@[k]) } else { None::<V> }),
{
    m.remove(&k)
}

/// Relies on `HashMap::len` (with fnv's hasher): the number of keys.
#[verifier::external_body]
fn map_len<V>(m: &IdMap<V>) -> (r: usize)
    ensures
        r == m@.len(),
{
    m.len()
}

/// Relies on `HashMap::get` (with fnv's hasher): the value of `k`, if any.
#[verifier::external_body]
fn map_get<V>(m: &IdMap<V>, k: u64) -> (r: Option<&V>)
    ensures
        r is Some <==> m@.contains_key(k),
        r matches Some(v) ==> *v == m@[k],
{
    m.get(&k)
}

/// An identifier of a timeline in a group. Each is handed out once.
pub struct Uid(u64);

impl Uid {
    pub closed spec fn id(self) -> u64 {
        self.0
    }
}

/// A collection of timelines, of which at most one is active at a time, like
/// the documents open in an editor.
pub struct UndoGroup<C, F = fn(Signal)> {
    group: FnvHashMap<u64, Timeline<C, F>>,
    active: Option<u64>,
    id: u64,
}

impl<C, F> UndoGroup<C, F> {
    /// The timelines, by identifier.
    pub closed spec fn stacks(&self) -> Map<u64, Timeline<C, F>> {
        self.group@
    }

    /// The identifier selected as active, present in the group or not.
    pub closed spec fn active(&self) -> Option<u64> {
        self.active
    }

    /// The identifier that the next timeline added will get.
    pub closed spec fn next_id(&self) -> u64 {
        self.id
    }

    pub open spec fn inv(&self) -> bool {
        forall|k: u64| #[trigger]
            self.stacks().contains_key(k) ==> k < self.next_id() && self.stacks()[k].inv()
    }

    /// The active identifier, where a timeline stands under it.
    pub open spec fn active_present(&self) -> Option<u64> {
        match self.active() {
            Some(id) => if self.stacks().contains_key(id) { Some(id) } else { None },
            None => None,
        }
    }

    /// `n` is this group with the timeline under `id` changed, and nothing
    /// else.
    pub open spec fn changed_active(&self, n: Self, id: u64) -> bool {
        &&& n.stacks() == self.stacks().insert(id, n.stacks()[id])
        &&& n.active() == self.active()
        &&& n.next_id() == self.next_id()
    }

    /// An empty group with no active timeline.
    pub fn new() -> (g: Self)
        ensures
            g.inv(),
            g.stacks() == Map::<u64, Timeline<C, F>>::empty(),
            g.active() is None,
            g.next_id() == 0,
    {
        UndoGroup { group: FnvHashMap::default(), active: None, id: 0 }
    }

    /// An empty group with room for `capacity` timelines.
    pub fn with_capacity(capacity: usize) -> (g: Self)
        ensures
            g.inv(),
            g.stacks() == Map::<u64, Timeline<C, F>>::empty(),
            g.active() is None,
            g.next_id() == 0,
    {
        UndoGroup { group: map_with_capacity(capacity), active: None, id: 0 }
    }

    /// How many timelines the group holds.
    pub fn len(&self) -> (r: usize)
        ensures
            r == self.stacks().len(),
    {
        map_len(&self.group)
    }

    /// How many timelines the group holds without reallocating.
    pub fn capacity(&self) -> usize {
        map_capacity(&self.group)
    }

    /// Shrinks the group's storage as far as possible.
    pub fn shrink_to_fit(&mut self)
        ensures
            final(self).stacks() == old(self).stacks(),
            final(self).active() == old(self).active(),
            final(self).next_id() == old(self).next_id(),
    {
        map_shrink_to_fit(&mut self.group)
    }

    /// Adds `stack` under a fresh identifier, and returns the identifier.
    pub fn add_stack(&mut self, stack: Timeline<C, F>) -> (id: Uid)
        requires
            old(self).inv(),
            stack.inv(),
            old(self).next_id() < u64::MAX,
        ensures
            final(self).inv(),
            id.id() == old(self).next_id(),
            !old(self).stacks().contains_key(id.id()),
            final(self).stacks() == old(self).stacks().insert(id.id(), stack),
            final(self).active() == old(self).active(),
            final(self).next_id() == old(self).next_id() + 1,
    {
        let id = self.id;
        self.id = self.id + 1;
        map_insert(&mut self.group, id, stack);
        assert forall|k: u64| #[trigger] self.stacks().contains_key(k) implies k < self.next_id()
            && self.stacks()[k].inv() by {
            if k != id {
                assert(old(self).stacks().contains_key(k));
            }
        }
        Uid(id)
    }

    /// Removes the timeline under `id`, and returns it. If it was the active
    /// one, no timeline is active afterwards.
    pub fn remove_stack(&mut self, id: Uid) -> (stack: Timeline<C, F>)
        requires
            old(self).inv(),
            old(self).stacks().contains_key(id.id()),
        ensures
            final(self).inv(),
            stack == old(self).stacks()[id.id()],
            stack.inv(),
            final(self).stacks() == old(self).stacks().remove(id.id()),
            final(self).active() == (if old(self).active() == Some(id.id()) {
                None
            } else {
                old(self).active()
            }),
            final(self).next_id() == old(self).next_id(),
    {
        let Uid(id) = id;
        let stack = map_remove(&mut self.group, id).unwrap();
        match self.active {
            Some(active) => {
                if active == id {
                    self.active = None;
                }
            },
            None => {},
        }
        stack
    }

    /// Selects the timeline under `id` as the active one. The identifier is
    /// not checked: while no timeline stands under it, the group acts as one
    /// with none active.
    pub fn set_active_stack(&mut self, id: &Uid)
        ensures
            final(self).stacks() == old(self).stacks(),
            final(self).active() == Some(id.id()),
            final(self).next_id() == old(self).next_id(),
    {
        self.active = Some(id.0);
    }

    /// Leaves no timeline active.
    pub fn clear_active_stack(&mut self)
        ensures
            final(self).stacks() == old(self).stacks(),
            final(self).active() is None,
            final(self).next_id() == old(self).next_id(),
    {
        self.active = None;
    }

    /// Whether the active timeline is in its saved state; `None` if no
    /// timeline is active.
    pub fn is_clean(&self) -> (r: Option<bool>)
        ensures
            r == (match self.active_present() {
                Some(id) => Some(self.stacks()[id]@.is_saved()),
                None => None::<bool>,
            }),
    {
        match self.active {
            Some(id) => match map_get(&self.group, id) {
                Some(t) => Some(t.is_saved()),
                None => None,
            },
            None => None,
        }
    }

    /// Whether the active timeline is out of its saved state; `None` if no
    /// timeline is active.
    pub fn is_dirty(&self) -> (r: Option<bool>)
        ensures
            r == (match self.active_present() {
                Some(id) => Some(!self.stacks()[id]@.is_saved()),
                None => None::<bool>,
            }),
    {
        match self.is_clean() {
            Some(c) => Some(!c),
            None => None,
        }
    }
}


impl<C: Command, F: FnMut(Signal)> UndoGroup<C, F> {
    /// Whether the group and `target` are as they were.
    pub open spec fn untouched(&self, n: Self, t0: C::Target, t1: C::Target) -> bool {
        &&& n.stacks() == self.stacks()
        &&& n.active() == self.active()
        &&& n.next_id() == self.next_id()
        &&& t1 == t0
    }

    /// Applies `command` to `target` through the active timeline. Returns
    /// `None`, and does nothing, if no timeline is active.
    pub fn push(&mut self, target: &mut C::Target, command: C) -> (r: Option<
        Result<C::Output, C::Error>,
    >)
        requires
            old(self).inv(),
        ensures
            final(self).inv(),
            r is None <==> old(self).active_present() is None,
            r is None ==> old(self).untouched(*final(self), *old(target), *final(target)),
            old(self).active_present() matches Some(id) ==> {
                &&& old(self).changed_active(*final(self), id)
                &&& r matches Some(x) ==> x == command.apply_result(old(target)@)
                &&& r matches Some(Ok(_)) ==> final(target)@ == command.apply_view(old(target)@)
                &&& r matches Some(Ok(_)) ==> old(self).stacks()[id]@.recorded(
                    command,
                    final(self).stacks()[id]@,
                )
                &&& r matches Some(Ok(_)) ==> old(self).stacks()[id].signalled(
                    final(self).stacks()[id],
                )
                &&& r matches Some(Ok(_)) ==> old(self).stacks()[id]@.applied(
                    final(self).stacks()[id]@,
                ) && (old(self).stacks()[id]@.pushed_to(
                    old(target)@,
                    final(self).stacks()[id]@,
                    final(target)@,
                ) || old(self).stacks()[id]@.merged_to(
                    old(target)@,
                    final(self).stacks()[id]@,
                    final(target)@,
                ))
                &&& r matches Some(Err(_)) ==> final(self).stacks()[id]@ == old(self).stacks()[id]@
                    && *final(target) == *old(target)
            },
    {
        let id = match self.active {
            Some(id) => id,
            None => {
                return None;
            },
        };
        let ghost g = self.group@;
        match map_remove(&mut self.group, id) {
            Some(t) => {
                let mut t = t;
                let r = t.apply(target, command);
                map_insert(&mut self.group, id, t);
                assert(self.group@ =~= g.insert(id, t));
                Some(r)
            },
            None => {
                assert(self.group@ =~= g);
                None
            },
        }
    }

    /// Undoes the last applied entry of the active timeline. Returns `None`,
    /// and does nothing, if no timeline is active or it has nothing to undo.
    pub fn undo(&mut self, target: &mut C::Target) -> (r: Option<Result<C::Output, C::Error>>)
        requires
            old(self).inv(),
        ensures
            final(self).inv(),
            r is None <==> match old(self).active_present() {
                Some(id) => !old(self).stacks()[id]@.can_undo(),
                None => true,
            },
            r is None ==> old(self).untouched(*final(self), *old(target), *final(target)),
            old(self).active_present() matches Some(id) ==> {
                &&& old(self).changed_active(*final(self), id)
                &&& r is Some ==> old(self).stacks()[id].signalled(final(self).stacks()[id])
                &&& r matches Some(Ok(_)) ==> old(self).stacks()[id]@.undone_to(
                    old(target)@,
                    final(self).stacks()[id]@,
                    final(target)@,
                )
                &&& r matches Some(x) ==> x == old(self).stacks()[id]@.entries[old(self).stacks()[id]@.current - 1].command.undo_result(old(target)@)
                &&& r matches Some(Err(_)) ==> final(self).stacks()[id]@ == old(self).stacks()[id]@
                    && *final(target) == *old(target)
            },
    {
        let id = match self.active {
            Some(id) => id,
            None => {
                return None;
            },
        };
        let ghost g = self.group@;
        match map_remove(&mut self.group, id) {
            Some(t) => {
                let mut t = t;
                if t.can_undo() {
                    let r = t.undo(target);
                    map_insert(&mut self.group, id, t);
                    assert(self.group@ =~= g.insert(id, t));
                    Some(r)
                } else {
                    map_insert(&mut self.group, id, t);
                    assert(self.group@ =~= g);
                    assert(g.insert(id, g[id]) =~= g);
                    None
                }
            },
            None => {
                assert(self.group@ =~= g);
                None
            },
        }
    }

    /// Redoes the next undone entry of the active timeline. Returns `None`,
    /// and does nothing, if no timeline is active or it has nothing to redo.
    pub fn redo(&mut self, target: &mut C::Target) -> (r: Option<Result<C::Output, C::Error>>)
        requires
            old(self).inv(),
        ensures
            final(self).inv(),
            r is None <==> match old(self).active_present() {
                Some(id) => !old(self).stacks()[id]@.can_redo(),
                None => true,
            },
            r is None ==> old(self).untouched(*final(self), *old(target), *final(target)),
            old(self).active_present() matches Some(id) ==> {
                &&& old(self).changed_active(*final(self), id)
                &&& r is Some ==> old(self).stacks()[id].signalled(final(self).stacks()[id])
                &&& r matches Some(Ok(_)) ==> old(self).stacks()[id]@.redone_to(
                    old(target)@,
                    final(self).stacks()[id]@,
                    final(target)@,
                )
                &&& r matches Some(x) ==> x == old(self).stacks()[id]@.entries[old(self).stacks()[id]@.current as int].command.apply_result(old(target)@)
                &&& r matches Some(Err(_)) ==> final(self).stacks()[id]@ == old(self).stacks()[id]@
                    && *final(target) == *old(target)
            },
    {
        let id = match self.active {
            Some(id) => id,
            None => {
                return None;
            },
        };
        let ghost g = self.group@;
        match map_remove(&mut self.group, id) {
            Some(t) => {
                let mut t = t;
                if t.can_redo() {
                    let r = t.redo(target);
                    map_insert(&mut self.group, id, t);
                    assert(self.group@ =~= g.insert(id, t));
                    Some(r)
                } else {
                    map_insert(&mut self.group, id, t);
                    assert(self.group@ =~= g);
                    assert(g.insert(id, g[id]) =~= g);
                    None
                }
            },
            None => {
                assert(self.group@ =~= g);
                None
            },
        }
    }
}

} // verus!
