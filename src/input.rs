//! Input edge tracking: which keys and buttons are held, and in which logic
//! generation each became active.
//!
//! A press of an input that is already active changes nothing, so an OS-level
//! key repeat counts as holding the key, not as a new activation; a release
//! removes the input's record entirely.
use vstd::prelude::*;

verus! {

#[derive(Clone, Copy, Debug, PartialEq, Eq, Hash, Structural)]
pub enum KeyLocation {
    Standard,
    Left,
    Right,
    Numpad,
}

#[derive(Clone, Copy, Debug, PartialEq, Eq, Hash, Structural)]
pub enum NamedKey {
    Alt,
    AltGraph,
    CapsLock,
    Control,
    Super,
    Fn,
    FnLock,
    NumLock,
    ScrollLock,
    Shift,
    Symbol,
    SymbolLock,
    Enter,
    Tab,
    Space,
    ArrowDown,
    ArrowLeft,
    ArrowRight,
    ArrowUp,
    End,
    Home,
    PageDown,
    PageUp,
    Backspace,
    Delete,
    Insert,
    Cancel,
    ContextMenu,
    Escape,
    Props,
    Select,
    ZoomIn,
    ZoomOut,
    F1,
    F2,
    F3,
    F4,
    F5,
    F6,
    F7,
    F8,
    F9,
    F10,
    F11,
    F12,
}

/// A logical key, as the platform reports it.
#[derive(Clone, Copy, Debug, PartialEq, Eq, Hash, Structural)]
pub enum Key {
    Character(char),
    Named(NamedKey),
    Dead(Option<char>),
    Unidentified,
}

#[derive(Clone, Copy, Debug, PartialEq, Eq, Hash, Structural)]
pub enum GamepadButton {
    South,
    East,
    North,
    West,
    C,
    Z,
    LeftTrigger,
    LeftTrigger2,
    RightTrigger,
    RightTrigger2,
    Select,
    Start,
    Mode,
    LeftThumb,
    RightThumb,
    DpadUp,
    DpadDown,
    DpadLeft,
    DpadRight,
    Unknown,
}

#[derive(Clone, Copy, Debug, PartialEq, Eq, Hash, Structural)]
pub enum MouseButton {
    Left,
    Right,
    Middle,
    Back,
    Forward,
    Other(u16),
}

/// The identity of one input that can be held.
#[derive(Clone, Copy, Debug, PartialEq, Eq, Hash, Structural)]
pub enum InputId {
    Keyboard(Key, KeyLocation),
    Gamepad(GamepadButton),
    Mouse(MouseButton),
}

/// The inputs that are currently active, each with the generation in which
/// it became active.
pub struct ActiveSet {
    records: Vec<(u64, InputId)>,
}

impl ActiveSet {
    spec fn holds(&self, i: int, id: InputId) -> bool {
        0 <= i < self.records@.len() && self.records@[i].1 == id
    }

    /// Each active input with the generation in which it became active.
    pub closed spec fn view(&self) -> Map<InputId, u64> {
        Map::new(
            |id: InputId| exists|i: int| self.holds(i, id),
            |id: InputId| self.records@[choose|i: int| self.holds(i, id)].0,
        )
    }

    pub closed spec fn wf(&self) -> bool {
        forall|i: int, j: int|
            0 <= i < self.records@.len() && 0 <= j < self.records@.len() && i != j ==> (
            #[trigger] self.records@[i]).1 != (#[trigger] self.records@[j]).1
    }

    proof fn lemma_record(&self, i: int)
        requires
            self.wf(),
            0 <= i < self.records@.len(),
        ensures
            self@.contains_key(self.records@[i].1),
            self@[self.records@[i].1] == self.records@[i].0,
    {
        let id = self.records@[i].1;
        assert(self.holds(i, id));
        let j = choose|j: int| self.holds(j, id);
        assert(self.records@[j].1 == self.records@[i].1);
    }

    /// No input is active.
    pub fn new() -> (s: Self)
        ensures
            s.wf(),
            s@ == Map::<InputId, u64>::empty(),
    {
        let s = ActiveSet { records: Vec::new() };
        assert(s@ =~= Map::<InputId, u64>::empty());
        s
    }

    fn position(&self, id: InputId) -> (r: Option<usize>)
        ensures
            match r {
                Some(i) => self.holds(i as int, id),
                None => forall|i: int| !self.holds(i, id),
            },
    {
        let mut i: usize = 0;
        while i < self.records.len()
            invariant
                0 <= i <= self.records@.len(),
                forall|j: int| 0 <= j < i ==> !self.holds(j, id),
            decreases self.records@.len() - i,
        {
            if self.records[i].1 == id {
                return Some(i);
            }
            i += 1;
        }
        None
    }

    /// Whether `id` is held, whenever it became active.
    pub fn is_active(&self, id: InputId) -> (r: bool)
        requires
            self.wf(),
        ensures
            r == self@.contains_key(id),
    {
        self.position(id).is_some()
    }

    /// Whether `id` is held and became active in `generation`.
    pub fn became_active_in(&self, id: InputId, generation: u64) -> (r: bool)
        requires
            self.wf(),
        ensures
            r == (self@.contains_key(id) && self@[id] == generation),
    {
        match self.position(id) {
            Some(i) => {
                proof {
                    self.lemma_record(i as int);
                }
                self.records[i].0 == generation
            },
            None => false,
        }
    }

    /// `id` was pressed during `generation`; an input already held keeps the
    /// generation it became active in.
    pub fn press(&mut self, id: InputId, generation: u64)
        requires
            old(self).wf(),
        ensures
            final(self).wf(),
            final(self)@ == if old(self)@.contains_key(id) {
                old(self)@
            } else {
                old(self)@.insert(id, generation)
            },
    {
        if self.position(id).is_some() {
            return;
        }
        let ghost old_s = *self;
        self.records.push((generation, id));
        proof {
            let n = old_s.records@.len() as int;
            assert forall|i: int, j: int|
                0 <= i < self.records@.len() && 0 <= j < self.records@.len() && i != j implies (
                #[trigger] self.records@[i]).1 != (#[trigger] self.records@[j]).1 by {
                if i == n {
                    assert(!old_s.holds(j, id));
                } else if j == n {
                    assert(!old_s.holds(i, id));
                } else {
                    assert(old_s.records@[i] == self.records@[i]);
                    assert(old_s.records@[j] == self.records@[j]);
                }
            }
            assert forall|x: InputId| #[trigger] self@.contains_key(x) == old_s@.insert(
                id,
                generation,
            ).contains_key(x) by {
                if x != id && self@.contains_key(x) {
                    let i = choose|i: int| self.holds(i, x);
                    assert(old_s.holds(i, x));
                }
                if old_s@.contains_key(x) {
                    let i = choose|i: int| old_s.holds(i, x);
                    assert(self.holds(i, x));
                }
                if x == id {
                    assert(self.holds(n, x));
                }
            }
            assert forall|x: InputId| #[trigger] self@.contains_key(x) implies self@[x] == old_s@.insert(
                id,
                generation,
            )[x] by {
                if x == id {
                    self.lemma_record(n);
                } else {
                    let i = choose|i: int| old_s.holds(i, x);
                    old_s.lemma_record(i);
                    self.lemma_record(i);
                }
            }
            assert(self@ =~= old_s@.insert(id, generation));
        }
    }

    /// `id` was released: it is no longer active.
    pub fn release(&mut self, id: InputId)
        requires
            old(self).wf(),
        ensures
            final(self).wf(),
            final(self)@ == old(self)@.remove(id),
    {
        let ghost old_s = *self;
        match self.position(id) {
            None => {
                assert(self@ =~= old_s@.remove(id));
            },
            Some(p) => {
                self.records.remove(p);
                proof {
                    let p = p as int;
                    assert forall|i: int| 0 <= i < self.records@.len() implies self.records@[i]
                        == old_s.records@[if i < p {
                        i
                    } else {
                        i + 1
                    }] by {}
                    assert forall|x: InputId| #[trigger] self@.contains_key(x) == old_s@.remove(
                        id,
                    ).contains_key(x) by {
                        if self@.contains_key(x) {
                            let i = choose|i: int| self.holds(i, x);
                            let k = if i < p {
                                i
                            } else {
                                i + 1
                            };
                            assert(old_s.holds(k, x));
                            assert(k != p);
                        }
                        if x != id && old_s@.contains_key(x) {
                            let k = choose|k: int| old_s.holds(k, x);
                            assert(k != p);
                            let i = if k < p {
                                k
                            } else {
                                k - 1
                            };
                            assert(self.holds(i, x));
                        }
                    }
                    assert forall|x: InputId| #[trigger] self@.contains_key(x) implies self@[x]
                        == old_s@[x] by {
                        let i = choose|i: int| self.holds(i, x);
                        let k = if i < p {
                            i
                        } else {
                            i + 1
                        };
                        self.lemma_record(i);
                        old_s.lemma_record(k);
                    }
                    assert(self@ =~= old_s@.remove(id));
                }
            },
        }
    }

    /// Every active input, once each.
    pub fn active(&self) -> (r: Vec<InputId>)
        requires
            self.wf(),
        ensures
            forall|k: int| 0 <= k < r@.len() ==> self@.contains_key(#[trigger] r@[k]),
            forall|j: int, k: int| 0 <= j < r@.len() && 0 <= k < r@.len() && j != k ==> r@[j] != r@[k],
            forall|id: InputId| #[trigger]
                self@.contains_key(id) ==> exists|k: int| 0 <= k < r@.len() && r@[k] == id,
    {
        let mut out: Vec<InputId> = Vec::new();
        let mut i: usize = 0;
        while i < self.records.len()
            invariant
                0 <= i <= self.records@.len(),
                self.wf(),
                out@.len() == i,
                forall|k: int| 0 <= k < i ==> #[trigger] out@[k] == self.records@[k].1,
            decreases self.records@.len() - i,
        {
            out.push(self.records[i].1);
            i += 1;
        }
        proof {
            assert forall|k: int| 0 <= k < out@.len() implies self@.contains_key(#[trigger] out@[k]) by {
                assert(self.holds(k, out@[k]));
            }
            assert forall|id: InputId| #[trigger]
                self@.contains_key(id) implies exists|k: int| 0 <= k < out@.len() && out@[k] == id by {
                let k = choose|k: int| self.holds(k, id);
                assert(out@[k] == id);
            }
        }
        out
    }
}

} // verus!
