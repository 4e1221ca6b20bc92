//! Tri-state model of a key or button, and the map that tracks one state
//! per control identifier.
//!
//! A control that is absent from the map has never transitioned, or has
//! finished its press/release cycle. A control enters the map as `Pressed`
//! or `Released` when a raw hardware edge arrives; a decay pass then turns
//! `Pressed` into `Down`, keeps `Down`, and removes `Released`, so that
//! code polling once per fixed step sees each edge exactly once.

use vstd::prelude::*;

verus! {

/// Input state of a mouse button/keyboard key.
#[derive(Clone, Copy, Debug, PartialEq, Eq, Hash, Structural)]
pub enum InputState {
    /// The button has just been pressed.
    Pressed,
    /// The button is being held down.
    Down,
    /// The button has just been released.
    ///
    /// Note that it means that the key has **just** been released, **not**
    /// that it isn't held.
    Released,
}

impl InputState {
    /// The state is [`InputState::Pressed`].
    pub fn is_pressed(&self) -> (r: bool)
        ensures
            r == (*self is Pressed),
    {
        matches!(self, InputState::Pressed)
    }

    /// The state is [`InputState::Pressed`] or [`InputState::Down`].
    pub fn is_any_down(&self) -> (r: bool)
        ensures
            r == (*self is Pressed || *self is Down),
    {
        matches!(self, InputState::Pressed | InputState::Down)
    }

    /// The state is [`InputState::Released`].
    pub fn is_released(&self) -> (r: bool)
        ensures
            r == (*self is Released),
    {
        matches!(self, InputState::Released)
    }
}

/// One decay pass over a whole tri-state map: `Pressed` entries become
/// `Down`, `Down` entries are kept unchanged, `Released` entries are
/// removed.
pub open spec fn decayed(m: Map<u32, InputState>) -> Map<u32, InputState> {
    Map::<u32, InputState>::new(
        |k: u32| m.dom().contains(k) && !(m[k] is Released),
        |k: u32| if m[k] is Pressed {
            InputState::Down
        } else {
            m[k]
        },
    )
}

/// The decay pass applied `n` times in a row.
pub open spec fn decayed_n(m: Map<u32, InputState>, n: nat) -> Map<u32, InputState>
    decreases n,
{
    if n == 0 {
        m
    } else {
        decayed(decayed_n(m, (n - 1) as nat))
    }
}

/// Whether a sequence of entries contains the key `k`.
spec fn has_key(s: Seq<(u32, InputState)>, k: u32) -> bool {
    exists|i: int| 0 <= i < s.len() && (#[trigger] s[i]).0 == k
}

/// The state stored beside the key `k` (meaningful only when the keys of
/// `s` are pairwise distinct and `has_key(s, k)` holds).
spec fn value_at(s: Seq<(u32, InputState)>, k: u32) -> InputState {
    s[choose|i: int| 0 <= i < s.len() && (#[trigger] s[i]).0 == k].1
}

/// Whether the keys of `s` are pairwise distinct.
spec fn keys_unique(s: Seq<(u32, InputState)>) -> bool {
    forall|i: int, j: int|
        0 <= i < j < s.len() ==> (#[trigger] s[i]).0 != (#[trigger] s[j]).0
}

/// The mathematical map described by an association list.
spec fn map_of(s: Seq<(u32, InputState)>) -> Map<u32, InputState> {
    Map::<u32, InputState>::new(|k: u32| has_key(s, k), |k: u32| value_at(s, k))
}

proof fn lemma_value_at(s: Seq<(u32, InputState)>, k: u32, i: int)
    requires
        keys_unique(s),
        0 <= i < s.len(),
        s[i].0 == k,
    ensures
        has_key(s, k),
        value_at(s, k) == s[i].1,
{
    assert(has_key(s, k));
    let j = choose|j: int| 0 <= j < s.len() && (#[trigger] s[j]).0 == k;
    if i < j {
        assert(s[i].0 != s[j].0);
    } else if j < i {
        assert(s[j].0 != s[i].0);
    }
}

/// A map from control identifier to tri-state, stored as an association
/// list whose keys stay pairwise distinct.
#[derive(Debug)]
pub struct StateMap {
    entries: Vec<(u32, InputState)>,
}

impl View for StateMap {
    type V = Map<u32, InputState>;

    closed spec fn view(&self) -> Map<u32, InputState> {
        map_of(self.entries@)
    }
}

impl StateMap {
    #[verifier::type_invariant]
    spec fn wf(self) -> bool {
        keys_unique(self.entries@)
    }

    /// An empty map: no control is tracked.
    pub fn new() -> (r: StateMap)
        ensures
            r@ == Map::<u32, InputState>::empty(),
    {
        let r = StateMap { entries: Vec::new() };
        proof {
            assert(r@ =~= Map::<u32, InputState>::empty());
        }
        r
    }

    /// Read-only view of every tracked control and its state, one entry
    /// per control, in no particular order.
    pub fn entries(&self) -> (r: &Vec<(u32, InputState)>)
        ensures
            forall|i: int, j: int|
                0 <= i < j < r@.len() ==> (#[trigger] r@[i]).0 != (#[trigger] r@[j]).0,
            forall|i: int|
                0 <= i < r@.len() ==> self@.contains_key((#[trigger] r@[i]).0) && self@[r@[i].0]
                    == r@[i].1,
            forall|k: u32| #[trigger]
                self@.contains_key(k) ==> exists|i: int|
                    0 <= i < r@.len() && (#[trigger] r@[i]).0 == k,
    {
        proof {
            use_type_invariant(self);
            assert forall|i: int|
                0 <= i < self.entries@.len() implies self@.contains_key(
                (#[trigger] self.entries@[i]).0,
            ) && self@[self.entries@[i].0] == self.entries@[i].1 by {
                lemma_value_at(self.entries@, self.entries@[i].0, i);
            }
        }
        &self.entries
    }

    /// Current state of a control, or `None` if it is not tracked.
    pub fn get(&self, k: u32) -> (r: Option<InputState>)
        ensures
            r == if self@.contains_key(k) {
                Some(self@[k])
            } else {
                None::<InputState>
            },
    {
        proof {
            use_type_invariant(self);
        }
        let n = self.entries.len();
        let mut i: usize = 0;
        while i < n
            invariant
                n == self.entries@.len(),
                i <= n,
                keys_unique(self.entries@),
                forall|j: int| 0 <= j < i ==> (#[trigger] self.entries@[j]).0 != k,
            decreases n - i,
        {
            let (ek, ev) = self.entries[i];
            if ek == k {
                proof {
                    lemma_value_at(self.entries@, k, i as int);
                }
                return Some(ev);
            }
            i += 1;
        }
        proof {
            assert(!has_key(self.entries@, k));
        }
        None
    }

    /// Insert the state of a control, overwriting any state it already had.
    pub fn set(&mut self, k: u32, v: InputState)
        ensures
            final(self)@ == old(self)@.insert(k, v),
    {
        proof {
            use_type_invariant(&*self);
        }
        let ghost s0 = self.entries@;
        let n = self.entries.len();
        let mut out: Vec<(u32, InputState)> = Vec::new();
        let mut found = false;
        let mut i: usize = 0;
        while i < n
            invariant
                n == self.entries@.len(),
                i <= n,
                self.entries@ == s0,
                keys_unique(s0),
                out@.len() == i,
                forall|j: int|
                    0 <= j < i ==> #[trigger] out@[j] == (if s0[j].0 == k {
                        (k, v)
                    } else {
                        s0[j]
                    }),
                found == exists|j: int| 0 <= j < i && (#[trigger] s0[j]).0 == k,
            decreases n - i,
        {
            let (ek, ev) = self.entries[i];
            if ek == k {
                out.push((k, v));
                found = true;
            } else {
                out.push((ek, ev));
            }
            i += 1;
        }
        if found {
            proof {
                lemma_map_of_setall(s0, out@, k, v);
            }
        } else {
            proof {
                assert forall|j: int| 0 <= j < n implies #[trigger] out@[j] == s0[j] by {
                    assert(s0[j].0 != k);
                }
                assert(out@ =~= s0);
            }
            out.push((k, v));
            proof {
                lemma_map_of_append(s0, k, v);
            }
        }
        self.entries = out;
    }

    /// Apply one decay pass to every tracked control.
    pub fn decay(&mut self)
        ensures
            final(self)@ == decayed(old(self)@),
    {
        proof {
            use_type_invariant(&*self);
        }
        let ghost s0 = self.entries@;
        let n = self.entries.len();
        let mut out: Vec<(u32, InputState)> = Vec::new();
        let mut i: usize = 0;
        while i < n
            invariant
                n == self.entries@.len(),
                i <= n,
                self.entries@ == s0,
                out@ == decay_list(s0.subrange(0, i as int)),
            decreases n - i,
        {
            let (ek, ev) = self.entries[i];
            proof {
                assert(s0.subrange(0, i + 1).drop_last() =~= s0.subrange(0, i as int));
                assert(s0.subrange(0, i + 1).last() == s0[i as int]);
            }
            match ev {
                InputState::Pressed => out.push((ek, InputState::Down)),
                InputState::Down => out.push((ek, ev)),
                InputState::Released => (),
            }
            i += 1;
        }
        proof {
            assert(s0.subrange(0, n as int) =~= s0);
            lemma_decay_list(s0);
        }
        self.entries = out;
    }
}

/// The image of one association-list entry under the decay transition
/// (only meaningful for entries that survive the pass).
spec fn decayed_entry(e: (u32, InputState)) -> (u32, InputState) {
    (e.0, if e.1 is Pressed {
        InputState::Down
    } else {
        e.1
    })
}

/// The association list that one decay pass leaves behind: the surviving
/// entries, transitioned, in their original order.
spec fn decay_list(s: Seq<(u32, InputState)>) -> Seq<(u32, InputState)>
    decreases s.len(),
{
    if s.len() == 0 {
        Seq::empty()
    } else {
        let rest = decay_list(s.drop_last());
        if s.last().1 is Released {
            rest
        } else {
            rest.push(decayed_entry(s.last()))
        }
    }
}

/// The list form of the decay pass agrees with its map form.
proof fn lemma_decay_list(s: Seq<(u32, InputState)>)
    requires
        keys_unique(s),
    ensures
        keys_unique(decay_list(s)),
        map_of(decay_list(s)) == decayed(map_of(s)),
    decreases s.len(),
{
    if s.len() == 0 {
        assert(!has_key(s, 0));
        assert(map_of(decay_list(s)) =~= decayed(map_of(s)));
    } else {
        let s1 = s.drop_last();
        let e = s.last();
        assert forall|a: int, b: int| 0 <= a < b < s1.len() implies (#[trigger] s1[a]).0 != (
        #[trigger] s1[b]).0 by {
            assert(s1[a] == s[a]);
            assert(s1[b] == s[b]);
        }
        lemma_decay_list(s1);
        assert(!has_key(s1, e.0)) by {
            if has_key(s1, e.0) {
                let i = choose|i: int| 0 <= i < s1.len() && (#[trigger] s1[i]).0 == e.0;
                assert(s[i] == s1[i]);
                assert(s[i].0 != s[s.len() - 1].0);
            }
        }
        assert(s1.push(e) =~= s);
        lemma_map_of_append(s1, e.0, e.1);
        let m1 = map_of(s1);
        if e.1 is Released {
            // the released entry is dropped, and it was not tracked before
            assert forall|k2: u32| true implies #[trigger] decayed(m1.insert(e.0, e.1)).dom().contains(
                k2,
            ) == decayed(m1).dom().contains(k2) by {
                if k2 == e.0 {
                    assert(!m1.dom().contains(k2));
                }
            }
            assert forall|k2: u32| decayed(m1).dom().contains(k2) implies decayed(
                m1.insert(e.0, e.1),
            )[k2] == decayed(m1)[k2] by {
                assert(k2 != e.0);
            }
            assert(decayed(map_of(s)) =~= map_of(decay_list(s)));
        } else {
            let de = decayed_entry(e);
            assert(!has_key(decay_list(s1), e.0)) by {
                assert(map_of(decay_list(s1)).dom().contains(e.0) == has_key(decay_list(s1), e.0));
                assert(!decayed(m1).dom().contains(e.0));
            }
            lemma_map_of_append(decay_list(s1), de.0, de.1);
            assert(decay_list(s) == decay_list(s1).push(de));
            assert forall|k2: u32| true implies #[trigger] decayed(m1.insert(e.0, e.1)).dom().contains(
                k2,
            ) == decayed(m1).insert(de.0, de.1).dom().contains(k2) by {}
            assert forall|k2: u32| decayed(m1.insert(e.0, e.1)).dom().contains(k2) implies decayed(
                m1.insert(e.0, e.1),
            )[k2] == decayed(m1).insert(de.0, de.1)[k2] by {}
            assert(decayed(map_of(s)) =~= map_of(decay_list(s)));
        }
    }
}

proof fn lemma_map_of_setall(s0: Seq<(u32, InputState)>, s1: Seq<(u32, InputState)>, k: u32, v: InputState)
    requires
        keys_unique(s0),
        s1.len() == s0.len(),
        forall|j: int|
            0 <= j < s0.len() ==> #[trigger] s1[j] == (if s0[j].0 == k {
                (k, v)
            } else {
                s0[j]
            }),
        has_key(s0, k),
    ensures
        keys_unique(s1),
        map_of(s1) == map_of(s0).insert(k, v),
{
    assert forall|j: int| 0 <= j < s1.len() implies (#[trigger] s1[j]).0 == s0[j].0 by {}
    assert forall|a: int, b: int| 0 <= a < b < s1.len() implies (#[trigger] s1[a]).0 != (
    #[trigger] s1[b]).0 by {
        assert(s0[a].0 != s0[b].0);
    }
    let i = choose|i: int| 0 <= i < s0.len() && (#[trigger] s0[i]).0 == k;
    assert forall|k2: u32| true implies #[trigger] map_of(s1).dom().contains(k2) == map_of(
        s0,
    ).insert(k, v).dom().contains(k2) by {
        if has_key(s1, k2) {
            let j = choose|j: int| 0 <= j < s1.len() && (#[trigger] s1[j]).0 == k2;
            assert(s0[j].0 == k2);
            assert(has_key(s0, k2));
        }
        if has_key(s0, k2) {
            let j = choose|j: int| 0 <= j < s0.len() && (#[trigger] s0[j]).0 == k2;
            assert(s1[j].0 == k2);
            assert(has_key(s1, k2));
        }
        if k2 == k {
            assert(s1[i].0 == k2);
            assert(has_key(s1, k2));
        }
    }
    assert forall|k2: u32| map_of(s1).dom().contains(k2) implies map_of(s1)[k2] == map_of(s0).insert(
        k,
        v,
    )[k2] by {
        if k2 == k {
            assert(s1[i] == (k, v));
            lemma_value_at(s1, k, i);
        } else {
            let j = choose|j: int| 0 <= j < s1.len() && (#[trigger] s1[j]).0 == k2;
            assert(s0[j].0 == k2);
            assert(s1[j] == s0[j]);
            lemma_value_at(s1, k2, j);
            lemma_value_at(s0, k2, j);
        }
    }
    assert(map_of(s1) =~= map_of(s0).insert(k, v));
}

proof fn lemma_map_of_append(s0: Seq<(u32, InputState)>, k: u32, v: InputState)
    requires
        keys_unique(s0),
        !has_key(s0, k),
    ensures
        keys_unique(s0.push((k, v))),
        map_of(s0.push((k, v))) == map_of(s0).insert(k, v),
{
    let s1 = s0.push((k, v));
    let n = s0.len() as int;
    assert forall|a: int, b: int| 0 <= a < b < s1.len() implies (#[trigger] s1[a]).0 != (
    #[trigger] s1[b]).0 by {
        if b < n {
            assert(s1[a].0 == s0[a].0);
            assert(s1[b].0 == s0[b].0);
        } else {
            assert(s1[b] == (k, v));
            assert(s1[a].0 == s0[a].0);
            assert(s0[a].0 != k);
        }
    }
    assert forall|k2: u32| true implies #[trigger] map_of(s1).dom().contains(k2) == map_of(
        s0,
    ).insert(k, v).dom().contains(k2) by {
        if has_key(s1, k2) {
            let j = choose|j: int| 0 <= j < s1.len() && (#[trigger] s1[j]).0 == k2;
            if j < n {
                assert(s0[j].0 == k2);
                assert(has_key(s0, k2));
            } else {
                assert(k2 == k);
            }
        }
        if has_key(s0, k2) {
            let j = choose|j: int| 0 <= j < s0.len() && (#[trigger] s0[j]).0 == k2;
            assert(s1[j].0 == k2);
            assert(has_key(s1, k2));
        }
        if k2 == k {
            assert(s1[n].0 == k2);
            assert(has_key(s1, k2));
        }
    }
    assert forall|k2: u32| map_of(s1).dom().contains(k2) implies map_of(s1)[k2] == map_of(s0).insert(
        k,
        v,
    )[k2] by {
        if k2 == k {
            lemma_value_at(s1, k, n);
        } else {
            let j = choose|j: int| 0 <= j < s1.len() && (#[trigger] s1[j]).0 == k2;
            assert(j < n);
            assert(s0[j].0 == k2);
            lemma_value_at(s1, k2, j);
            lemma_value_at(s0, k2, j);
        }
    }
    assert(map_of(s1) =~= map_of(s0).insert(k, v));
}


/// Tri-state lifecycle: after a single press edge, a control reads
/// `Pressed` until the first decay pass, reads `Down` after every further
/// pass, reads `Released` once the release edge arrives, and is gone after
/// the pass that follows the release.
pub proof fn lemma_tri_state_lifecycle(m: Map<u32, InputState>, k: u32, n: nat)
    requires
        n >= 1,
    ensures
        m.insert(k, InputState::Pressed)[k] is Pressed,
        decayed_n(m.insert(k, InputState::Pressed), n).contains_key(k),
        decayed_n(m.insert(k, InputState::Pressed), n)[k] is Down,
        decayed_n(m.insert(k, InputState::Pressed), n).insert(k, InputState::Released)[k]
            is Released,
        !decayed(
            decayed_n(m.insert(k, InputState::Pressed), n).insert(k, InputState::Released),
        ).contains_key(k),
    decreases n,
{
    let pressed = m.insert(k, InputState::Pressed);
    if n == 1 {
        assert(decayed_n(pressed, 1) == decayed(decayed_n(pressed, 0)));
        assert(decayed_n(pressed, 0) == pressed);
    } else {
        lemma_tri_state_lifecycle(m, k, (n - 1) as nat);
        assert(decayed_n(pressed, n) == decayed(decayed_n(pressed, (n - 1) as nat)));
    }
}

/// A control that is not tracked stays untracked under any number of decay
/// passes, until a new press edge arrives.
pub proof fn lemma_absent_stays_absent(m: Map<u32, InputState>, k: u32, n: nat)
    requires
        !m.contains_key(k),
    ensures
        !decayed_n(m, n).contains_key(k),
    decreases n,
{
    if n > 0 {
        lemma_absent_stays_absent(m, k, (n - 1) as nat);
    }
}

} // verus!
