//! Generational arena that maps guest-visible handles to host-side values.
//!
//! A handle names a slot and the generation that slot had when the handle was
//! issued. Dropping an entry bumps the slot's generation, so every handle that
//! was ever issued for a slot stays invalid once its entry is gone, even when
//! the slot is reused for a later entry.
//!
//! Parent links are kept uniform: an entry may name a live parent, and an entry
//! that still has live children cannot be dropped. Children therefore never
//! outlive their parent, and no drop cascades implicitly.
use vstd::prelude::*;

verus! {

/// Largest number of slots a table ever allocates.
pub const MAX_SLOTS: usize = 0x7fff_ffff;

/// Opaque handle held by the guest in place of a native resource.
#[derive(Clone, Copy, Debug, PartialEq, Eq, Hash, Structural)]
pub struct Handle {
    pub index: usize,
    pub generation: u64,
}

/// A live entry: the native value, and the parent it was registered under.
pub struct Entry<T> {
    pub value: T,
    pub parent: Option<Handle>,
}

struct Slot<T> {
    generation: u64,
    /// The slot's generation can no longer advance; it is never reused.
    spent: bool,
    entry: Option<Entry<T>>,
}

#[derive(Clone, Copy, Debug, PartialEq, Eq, Structural)]
pub enum TableError {
    /// The handle was never issued by this table or its entry is gone.
    InvalidHandle,
    /// The entry still has live children.
    HasChildren,
    /// No slot is left for a new entry.
    Exhausted,
}

pub struct ResourceTable<T> {
    slots: Vec<Slot<T>>,
    free: Vec<usize>,
}

/// Whether some live entry of `m` names `p` as its parent.
pub open spec fn has_child<T>(m: Map<Handle, Entry<T>>, p: Handle) -> bool {
    exists|c: Handle| #[trigger] m.contains_key(c) && m[c].parent == Some(p)
}

impl<T> ResourceTable<T> {
    /// The handle currently names a live entry.
    pub closed spec fn live(&self, h: Handle) -> bool {
        &&& h.index < self.slots@.len()
        &&& self.slots@[h.index as int].entry is Some
        &&& self.slots@[h.index as int].generation == h.generation
    }

    /// The handle was issued once and its entry has been dropped since: it can
    /// never become live again.
    pub closed spec fn retired(&self, h: Handle) -> bool {
        &&& h.index < self.slots@.len()
        &&& (self.slots@[h.index as int].spent || h.generation
            < self.slots@[h.index as int].generation)
    }

    /// The live entries, by handle.
    pub closed spec fn view(&self) -> Map<Handle, Entry<T>> {
        Map::new(|h: Handle| self.live(h), |h: Handle| self.slots@[h.index as int].entry->Some_0)
    }

    /// No slot is left for a new entry.
    pub closed spec fn full(&self) -> bool {
        self.free@.len() == 0 && self.slots@.len() >= MAX_SLOTS
    }

    /// `later` is a state this table can reach: slots are never removed, their
    /// generations never go back, and a spent slot stays spent.
    pub closed spec fn evolves_to(&self, later: &Self) -> bool {
        &&& self.slots@.len() <= later.slots@.len()
        &&& forall|i: int|
            0 <= i < self.slots@.len() ==> {
                &&& self.slots@[i].generation <= later.slots@[i].generation
                &&& (self.slots@[i].spent ==> later.slots@[i].spent)
            }
    }

    pub closed spec fn wf(&self) -> bool {
        &&& self.slots@.len() <= MAX_SLOTS
        &&& forall|k: int|
            0 <= k < self.free@.len() ==> {
                &&& self.free@[k] < self.slots@.len()
                &&& self.slots@[self.free@[k] as int].entry is None
                &&& !self.slots@[self.free@[k] as int].spent
            }
        &&& forall|j: int, k: int|
            0 <= j < self.free@.len() && 0 <= k < self.free@.len() && j != k ==> self.free@[j]
                != self.free@[k]
        &&& forall|i: int|
            0 <= i < self.slots@.len() && self.slots@[i].spent ==> self.slots@[i].entry is None
        &&& forall|h: Handle| #[trigger]
            self.live(h) && self.view()[h].parent is Some ==> self.live(
                self.view()[h].parent->Some_0,
            )
    }

    /// An empty table.
    pub fn new() -> (t: Self)
        ensures
            t.wf(),
            t@ == Map::<Handle, Entry<T>>::empty(),
            !t.full(),
    {
        let t = ResourceTable { slots: Vec::new(), free: Vec::new() };
        assert(t@ =~= Map::<Handle, Entry<T>>::empty());
        t
    }

    /// Whether the handle names a live entry.
    pub fn contains(&self, h: Handle) -> (r: bool)
        ensures
            r == self@.contains_key(h),
    {
        h.index < self.slots.len() && self.slots[h.index].entry.is_some()
            && self.slots[h.index].generation == h.generation
    }

    /// Registers `value`, optionally as a child of `parent`, under a handle that
    /// this table has never issued before.
    pub fn register(&mut self, value: T, parent: Option<Handle>) -> (r: Result<Handle, TableError>)
        requires
            old(self).wf(),
        ensures
            final(self).wf(),
            old(self).evolves_to(final(self)),
            parent is Some && !old(self)@.contains_key(parent->Some_0) ==> r == Err::<
                Handle,
                TableError,
            >(TableError::InvalidHandle),
            (parent is None || old(self)@.contains_key(parent->Some_0)) ==> (r is Ok
                <==> !old(self).full()),
            (parent is None || old(self)@.contains_key(parent->Some_0)) && r is Err ==> r->Err_0
                == TableError::Exhausted,
            r is Err ==> final(self)@ == old(self)@,
            r is Ok ==> {
                let h = r->Ok_0;
                &&& !old(self)@.contains_key(h)
                &&& !old(self).retired(h)
                &&& final(self)@ == old(self)@.insert(h, (Entry { value, parent }))
            },
    {
        if let Some(p) = parent {
            if !self.contains(p) {
                return Err(TableError::InvalidHandle);
            }
        }
        let ghost old_t = *self;
        if self.free.len() > 0 {
            let i = self.free.pop().unwrap();
            assert(old_t.free@[old_t.free@.len() - 1] == i);
            let g = self.slots[i].generation;
            let mut slot = Slot { generation: g, spent: false, entry: Some(Entry { value, parent }) };
            std::mem::swap(&mut self.slots[i], &mut slot);
            let h = Handle { index: i, generation: g };
            proof {
                assert forall|k: int| 0 <= k < self.free@.len() implies self.free@[k] != i by {
                    assert(old_t.free@[k] == self.free@[k]);
                }
                assert forall|x: Handle| #[trigger]
                    self.live(x) && self.view()[x].parent is Some implies self.live(
                        self.view()[x].parent->Some_0,
                    ) by {
                    if x != h {
                        assert(old_t.live(x));
                        assert(old_t.view()[x] == self.view()[x]);
                    }
                }
                assert(self@ =~= old_t@.insert(h, Entry { value, parent }));
            }
            Ok(h)
        } else if self.slots.len() < MAX_SLOTS {
            let i = self.slots.len();
            self.slots.push(Slot { generation: 0, spent: false, entry: Some(Entry { value, parent }) });
            let h = Handle { index: i, generation: 0 };
            proof {
                assert forall|x: Handle| #[trigger]
                    self.live(x) && self.view()[x].parent is Some implies self.live(
                        self.view()[x].parent->Some_0,
                    ) by {
                    if x != h {
                        assert(old_t.live(x));
                        assert(old_t.view()[x] == self.view()[x]);
                    }
                }
                assert(self@ =~= old_t@.insert(h, Entry { value, parent }));
            }
            Ok(h)
        } else {
            Err(TableError::Exhausted)
        }
    }

    /// The value registered under `h`.
    pub fn resolve(&self, h: Handle) -> (r: Result<&T, TableError>)
        ensures
            r is Ok <==> self@.contains_key(h),
            r is Ok ==> *r->Ok_0 == self@[h].value,
            r is Err ==> r->Err_0 == TableError::InvalidHandle,
    {
        if !self.contains(h) {
            return Err(TableError::InvalidHandle);
        }
        match &self.slots[h.index].entry {
            Some(e) => Ok(&e.value),
            None => Err(TableError::InvalidHandle),
        }
    }

    /// The parent that `h` was registered under.
    pub fn parent(&self, h: Handle) -> (r: Result<Option<Handle>, TableError>)
        ensures
            r is Ok <==> self@.contains_key(h),
            r is Ok ==> r->Ok_0 == self@[h].parent,
            r is Err ==> r->Err_0 == TableError::InvalidHandle,
    {
        if !self.contains(h) {
            return Err(TableError::InvalidHandle);
        }
        match &self.slots[h.index].entry {
            Some(e) => Ok(e.parent),
            None => Err(TableError::InvalidHandle),
        }
    }

    /// Whether some live entry was registered with `p` as its parent.
    pub fn has_children(&self, p: Handle) -> (r: bool)
        ensures
            r == has_child(self@, p),
    {
        let mut i: usize = 0;
        while i < self.slots.len()
            invariant
                0 <= i <= self.slots@.len(),
                forall|j: int|
                    0 <= j < i && #[trigger] self.slots@[j].entry is Some ==> self.slots@[j].entry->Some_0.parent
                        != Some(p),
            decreases self.slots@.len() - i,
        {
            if let Some(e) = &self.slots[i].entry {
                if let Some(q) = e.parent {
                    if q.index == p.index && q.generation == p.generation {
                        let c = Handle { index: i, generation: self.slots[i].generation };
                        assert(self@.contains_key(c) && self@[c].parent == Some(p));
                        return true;
                    }
                }
            }
            i += 1;
        }
        assert forall|c: Handle| #[trigger] self@.contains_key(c) implies self@[c].parent != Some(p) by {
            assert(self.slots@[c.index as int].entry is Some);
        }
        false
    }

    /// Removes the entry under `h` and hands its value back, so that the caller
    /// releases the native resource exactly once. An entry with live children
    /// stays.
    pub fn drop(&mut self, h: Handle) -> (r: Result<T, TableError>)
        requires
            old(self).wf(),
        ensures
            final(self).wf(),
            old(self).evolves_to(final(self)),
            !old(self)@.contains_key(h) ==> r == Err::<T, TableError>(TableError::InvalidHandle),
            old(self)@.contains_key(h) && has_child(old(self)@, h) ==> r == Err::<T, TableError>(
                TableError::HasChildren,
            ),
            old(self)@.contains_key(h) && !has_child(old(self)@, h) ==> r is Ok,
            r is Err ==> final(self)@ == old(self)@,
            r is Ok ==> {
                &&& r->Ok_0 == old(self)@[h].value
                &&& final(self)@ == old(self)@.remove(h)
                &&& final(self).retired(h)
            },
    {
        if !self.contains(h) {
            return Err(TableError::InvalidHandle);
        }
        if self.has_children(h) {
            return Err(TableError::HasChildren);
        }
        let ghost old_t = *self;
        let g = self.slots[h.index].generation;
        let spent = g == u64::MAX;
        let next = if spent { g } else { g + 1 };
        let mut slot = Slot { generation: next, spent, entry: None };
        std::mem::swap(&mut self.slots[h.index], &mut slot);
        if !spent {
            proof {
                assert forall|k: int| 0 <= k < self.free@.len() implies self.free@[k] != h.index by {
                    assert(old_t.slots@[old_t.free@[k] as int].entry is None);
                }
            }
            self.free.push(h.index);
        }
        proof {
            assert forall|x: Handle| #[trigger]
                self.live(x) && self.view()[x].parent is Some implies self.live(
                    self.view()[x].parent->Some_0,
                ) by {
                assert(old_t.live(x));
                assert(old_t.view()[x] == self.view()[x]);
                assert(old_t@.contains_key(x));
                assert(old_t@[x].parent != Some(h));
            }
            assert(self@ =~= old_t@.remove(h));
        }
        match slot.entry {
            Some(e) => Ok(e.value),
            None => Err(TableError::InvalidHandle),
        }
    }

    /// Puts `value` in place of the value under `h` and hands the previous one
    /// back; the entry keeps its handle and its parent.
    pub fn replace(&mut self, h: Handle, value: T) -> (r: Result<T, TableError>)
        requires
            old(self).wf(),
        ensures
            final(self).wf(),
            old(self).evolves_to(final(self)),
            r is Ok <==> old(self)@.contains_key(h),
            r is Err ==> r->Err_0 == TableError::InvalidHandle && final(self)@ == old(self)@,
            r is Ok ==> {
                &&& r->Ok_0 == old(self)@[h].value
                &&& final(self)@ == old(self)@.insert(
                    h,
                    (Entry { value, parent: old(self)@[h].parent }),
                )
            },
    {
        if !self.contains(h) {
            return Err(TableError::InvalidHandle);
        }
        let ghost old_t = *self;
        let parent = match &self.slots[h.index].entry {
            Some(e) => e.parent,
            None => None,
        };
        let mut slot = Slot {
            generation: h.generation,
            spent: false,
            entry: Some(Entry { value, parent }),
        };
        std::mem::swap(&mut self.slots[h.index], &mut slot);
        proof {
            assert forall|x: Handle| #[trigger]
                self.live(x) && self.view()[x].parent is Some implies self.live(
                    self.view()[x].parent->Some_0,
                ) by {
                assert(old_t.live(x));
            }
            assert(self@ =~= old_t@.insert(h, Entry { value, parent }));
        }
        match slot.entry {
            Some(e) => Ok(e.value),
            None => Err(TableError::InvalidHandle),
        }
    }

    /// Empties the table: every live entry comes out once, with its handle.
    pub fn into_entries(self) -> (r: Vec<(Handle, T)>)
        ensures
            forall|k: int|
                0 <= k < r@.len() ==> self@.contains_key(#[trigger] r@[k].0) && self@[r@[k].0].value
                    == r@[k].1,
            forall|j: int, k: int| 0 <= j < r@.len() && 0 <= k < r@.len() && j != k ==> r@[j].0 != r@[k].0,
            forall|h: Handle| #[trigger]
                self@.contains_key(h) ==> exists|k: int| 0 <= k < r@.len() && r@[k].0 == h,
    {
        let ghost t = self;
        let mut slots = self.slots;
        let mut out: Vec<(Handle, T)> = Vec::new();
        while slots.len() > 0
            invariant
                slots@.len() <= t.slots@.len(),
                slots@ == t.slots@.subrange(0, slots@.len() as int),
                forall|k: int|
                    0 <= k < out@.len() ==> {
                        &&& (#[trigger] out@[k]).0.index >= slots@.len()
                        &&& t@.contains_key(out@[k].0)
                        &&& t@[out@[k].0].value == out@[k].1
                    },
                forall|j: int, k: int|
                    0 <= j < out@.len() && 0 <= k < out@.len() && j != k ==> (#[trigger] out@[j]).0.index
                        != (#[trigger] out@[k]).0.index,
                forall|h: Handle| #[trigger]
                    t@.contains_key(h) && h.index >= slots@.len() ==> exists|k: int|
                        0 <= k < out@.len() && out@[k].0 == h,
            decreases slots@.len(),
        {
            let s = slots.pop().unwrap();
            let i = slots.len();
            assert(s == t.slots@[i as int]);
            assert(slots@ =~= t.slots@.subrange(0, i as int));
            let ghost before = out@;
            match s.entry {
                Some(e) => {
                    let h = Handle { index: i, generation: s.generation };
                    assert(t@.contains_key(h) && t@[h] == e);
                    out.push((h, e.value));
                    proof {
                        assert forall|k: int| 0 <= k < before.len() implies out@[k] == before[k]
                            && before[k].0.index > i by {}
                        assert forall|x: Handle| #[trigger]
                            t@.contains_key(x) && x.index >= slots@.len() implies exists|k: int|
                            0 <= k < out@.len() && out@[k].0 == x by {
                            if x.index == i {
                                assert(out@[before.len() as int].0 == x);
                            } else {
                                let k = choose|k: int| 0 <= k < before.len() && before[k].0 == x;
                                assert(out@[k].0 == x);
                            }
                        }
                    }
                },
                None => {
                    proof {
                        assert forall|x: Handle| #[trigger]
                            t@.contains_key(x) && x.index >= slots@.len() implies exists|k: int|
                            0 <= k < out@.len() && out@[k].0 == x by {
                            assert(x.index != i);
                        }
                    }
                },
            }
        }
        out
    }
}

/// Two distinct live handles never share a slot, so no two of them resolve to
/// the same native resource.
pub proof fn lemma_live_handles_distinct<T>(t: &ResourceTable<T>, h1: Handle, h2: Handle)
    requires
        t@.contains_key(h1),
        t@.contains_key(h2),
        h1 != h2,
    ensures
        h1.index != h2.index,
{
}

/// Every table can reach itself.
pub proof fn lemma_evolves_reflexive<T>(t: &ResourceTable<T>)
    ensures
        t.evolves_to(t),
{
}

/// Reachability is transitive, so a property kept by every single operation is
/// kept by every sequence of them.
pub proof fn lemma_evolves_transitive<T>(
    t1: &ResourceTable<T>,
    t2: &ResourceTable<T>,
    t3: &ResourceTable<T>,
)
    requires
        t1.evolves_to(t2),
        t2.evolves_to(t3),
    ensures
        t1.evolves_to(t3),
{
}

/// A handle whose entry was dropped stays invalid in every later state of the
/// table, whatever was registered or dropped in between: every later
/// `resolve` or `drop` of it fails with `InvalidHandle`, so the value it stood
/// for is handed back for release only once.
pub proof fn lemma_dropped_handle_stays_invalid<T>(
    t1: &ResourceTable<T>,
    t2: &ResourceTable<T>,
    h: Handle,
)
    requires
        t1.retired(h),
        t1.evolves_to(t2),
        t2.wf(),
    ensures
        t2.retired(h),
        !t2@.contains_key(h),
{
}

} // verus!
