//! The host's record of foreign objects it holds, and the teardown each
//! release of a handle owes.
use vstd::prelude::*;
use std::collections::HashMap;

verus! {

broadcast use vstd::std_specs::hash::group_hash_axioms;

/// How a handle holds the foreign object behind it.
#[derive(PartialEq, Eq, Structural, Clone, Copy, Debug)]
pub enum Discipline {
    /// The host handle is the sole owner; its release destroys the object.
    Exclusive,
    /// The handle is one of several counted holders of a shared object.
    Shared,
}

/// The foreign call that releasing one handle owes.
#[derive(PartialEq, Eq, Structural, Clone, Copy, Debug)]
pub enum Teardown {
    /// The host holds nothing at that address: no foreign call is made.
    Nothing,
    /// Run the destructor of an exclusively owned object.
    Destroy,
    /// Drop one shared holder; other holders keep the object alive.
    Release,
    /// Drop the last shared holder; the object is freed.
    ReleaseLast,
}

/// One held foreign object: its discipline and how many host handles hold it.
#[derive(PartialEq, Eq, Structural, Clone, Copy, Debug)]
pub struct Holding {
    pub discipline: Discipline,
    pub holders: u64,
}

/// A ledger entry is well formed when someone holds it, and an exclusive
/// object has exactly one holder.
pub open spec fn holding_ok(h: Holding) -> bool {
    &&& h.holders >= 1
    &&& h.discipline == Discipline::Exclusive ==> h.holders == 1
}

/// The ledger after one more exclusive handle is adopted at `a`.
pub open spec fn adopted_exclusive(m: Map<usize, Holding>, a: usize) -> Map<usize, Holding> {
    if m.contains_key(a) {
        m
    } else {
        m.insert(a, Holding { discipline: Discipline::Exclusive, holders: 1 })
    }
}

/// Whether one more shared handle can be adopted at `a`.
pub open spec fn can_share(m: Map<usize, Holding>, a: usize) -> bool {
    !m.contains_key(a) || (m[a].discipline == Discipline::Shared && m[a].holders < u64::MAX)
}

/// The ledger after one more shared handle is adopted at `a`.
pub open spec fn adopted_shared(m: Map<usize, Holding>, a: usize) -> Map<usize, Holding> {
    if !can_share(m, a) {
        m
    } else if m.contains_key(a) {
        m.insert(a, Holding { discipline: Discipline::Shared, holders: (m[a].holders + 1) as u64 })
    } else {
        m.insert(a, Holding { discipline: Discipline::Shared, holders: 1 })
    }
}

/// The teardown owed when one handle at `a` is released.
pub open spec fn teardown_of(m: Map<usize, Holding>, a: usize) -> Teardown {
    if !m.contains_key(a) {
        Teardown::Nothing
    } else if m[a].discipline == Discipline::Exclusive {
        Teardown::Destroy
    } else if m[a].holders > 1 {
        Teardown::Release
    } else {
        Teardown::ReleaseLast
    }
}

/// The ledger after one handle at `a` is released.
pub open spec fn released(m: Map<usize, Holding>, a: usize) -> Map<usize, Holding> {
    if !m.contains_key(a) {
        m
    } else if m[a].discipline == Discipline::Shared && m[a].holders > 1 {
        m.insert(a, Holding { discipline: Discipline::Shared, holders: (m[a].holders - 1) as u64 })
    } else {
        m.remove(a)
    }
}

/// Whether a teardown frees the foreign object.
pub open spec fn frees(t: Teardown) -> bool {
    t == Teardown::Destroy || t == Teardown::ReleaseLast
}

/// An exclusively owned object that is created and then released at once
/// is destroyed exactly once and leaves nothing behind: its release owes
/// the destructor, the ledger returns to what it was, and a further release
/// owes nothing.
pub proof fn lemma_exclusive_create_then_destroy(m: Map<usize, Holding>, a: usize)
    requires
        !m.contains_key(a),
    ensures
        teardown_of(adopted_exclusive(m, a), a) == Teardown::Destroy,
        released(adopted_exclusive(m, a), a) == m,
        teardown_of(released(adopted_exclusive(m, a), a), a) == Teardown::Nothing,
{
    assert(released(adopted_exclusive(m, a), a) =~= m);
}

/// Releasing one of several holders of a shared object never frees it, and
/// the object stays held for the others.
pub proof fn lemma_release_keeps_other_holders(m: Map<usize, Holding>, a: usize)
    requires
        m.contains_key(a),
        m[a].discipline == Discipline::Shared,
        m[a].holders >= 2,
    ensures
        !frees(teardown_of(m, a)),
        released(m, a).contains_key(a),
        released(m, a)[a].holders == m[a].holders - 1,
{
}

/// Two handles aliasing one shared object: dropping the first leaves the
/// object held by the second; dropping the second frees it; the object is
/// freed exactly once, and the ledger returns to what it was.
pub proof fn lemma_shared_aliases_free_once(m: Map<usize, Holding>, a: usize)
    requires
        !m.contains_key(a),
    ensures
        ({
            let two = adopted_shared(adopted_shared(m, a), a);
            let one = released(two, a);
            let none = released(one, a);
            &&& teardown_of(two, a) == Teardown::Release
            &&& one.contains_key(a)
            &&& one[a].holders == 1
            &&& teardown_of(one, a) == Teardown::ReleaseLast
            &&& none == m
            &&& teardown_of(none, a) == Teardown::Nothing
        }),
{
    let two = adopted_shared(adopted_shared(m, a), a);
    let one = released(two, a);
    assert(released(one, a) =~= m);
}

/// A release that frees an object leaves nothing held at its address, so
/// no later release there can free it again.
pub proof fn lemma_freed_object_owes_nothing_more(m: Map<usize, Holding>, a: usize)
    requires
        frees(teardown_of(m, a)),
    ensures
        !released(m, a).contains_key(a),
        teardown_of(released(m, a), a) == Teardown::Nothing,
{
}

/// Foreign objects held by host handles, keyed by foreign address.
pub struct Ledger {
    held: HashMap<usize, Holding>,
}

impl View for Ledger {
    type V = Map<usize, Holding>;

    closed spec fn view(&self) -> Map<usize, Holding> {
        self.held@
    }
}

impl Ledger {
    /// Every entry is held by someone, and exclusive entries by exactly one.
    pub open spec fn wf(&self) -> bool {
        forall|a: usize| #[trigger] self@.contains_key(a) ==> holding_ok(self@[a])
    }

    /// An empty ledger.
    pub fn new() -> (r: Ledger)
        ensures
            r.wf(),
            r@ == Map::<usize, Holding>::empty(),
    {
        Ledger { held: HashMap::new() }
    }

    /// Whether some handle holds the object at `address`.
    pub fn is_held(&self, address: usize) -> (r: bool)
        ensures
            r == self@.contains_key(address),
    {
        self.held.contains_key(&address)
    }

    /// How many handles hold the object at `address` (0 if none).
    pub fn holders(&self, address: usize) -> (r: u64)
        ensures
            r == (if self@.contains_key(address) { self@[address].holders } else { 0 }),
    {
        match self.held.get(&address) {
            Some(h) => h.holders,
            None => 0,
        }
    }

    /// Records a freshly created, exclusively owned object. Returns false,
    /// and records nothing, when a handle already holds that address.
    pub fn adopt_exclusive(&mut self, address: usize) -> (r: bool)
        requires
            old(self).wf(),
        ensures
            final(self).wf(),
            r == !old(self)@.contains_key(address),
            final(self)@ == adopted_exclusive(old(self)@, address),
    {
        if self.held.contains_key(&address) {
            false
        } else {
            self.held.insert(address, Holding { discipline: Discipline::Exclusive, holders: 1 });
            assert forall|a: usize| #[trigger] self@.contains_key(a) implies holding_ok(self@[a]) by {
                if a != address {
                    assert(old(self)@.contains_key(a));
                }
            }
            true
        }
    }

    /// Records one more handle to a shared, reference-counted object.
    /// Returns false, and records nothing, when the address is held
    /// exclusively or its holder count is at its maximum.
    pub fn adopt_shared(&mut self, address: usize) -> (r: bool)
        requires
            old(self).wf(),
        ensures
            final(self).wf(),
            r == can_share(old(self)@, address),
            final(self)@ == adopted_shared(old(self)@, address),
    {
        match self.held.get(&address) {
            Some(h) => {
                if h.discipline == Discipline::Shared && h.holders < u64::MAX {
                    let n = h.holders + 1;
                    self.held.insert(address, Holding { discipline: Discipline::Shared, holders: n });
                    assert forall|a: usize| #[trigger] self@.contains_key(a) implies holding_ok(self@[a]) by {
                        if a != address {
                            assert(old(self)@.contains_key(a));
                        }
                    }
                    true
                } else {
                    false
                }
            },
            None => {
                self.held.insert(address, Holding { discipline: Discipline::Shared, holders: 1 });
                assert forall|a: usize| #[trigger] self@.contains_key(a) implies holding_ok(self@[a]) by {
                    if a != address {
                        assert(old(self)@.contains_key(a));
                    }
                }
                true
            },
        }
    }

    /// Releases one handle at `address` and says which teardown the foreign
    /// side is owed. An address that no handle holds owes nothing, so a
    /// second release of the same handle can never free twice.
    pub fn release(&mut self, address: usize) -> (r: Teardown)
        requires
            old(self).wf(),
        ensures
            final(self).wf(),
            r == teardown_of(old(self)@, address),
            final(self)@ == released(old(self)@, address),
    {
        match self.held.get(&address) {
            None => Teardown::Nothing,
            Some(h) => {
                if h.discipline == Discipline::Exclusive {
                    self.held.remove(&address);
                    Teardown::Destroy
                } else if h.holders > 1 {
                    let n = h.holders - 1;
                    self.held.insert(address, Holding { discipline: Discipline::Shared, holders: n });
                    Teardown::Release
                } else {
                    self.held.remove(&address);
                    Teardown::ReleaseLast
                }
            },
        }
    }
}

/// A host handle to a foreign object: its address, and how it holds the
/// object (`None` for a borrowed view, which owes no teardown).
pub trait ForeignHandle {
    spec fn spec_address(&self) -> usize;

    spec fn spec_discipline() -> Option<Discipline>;

    fn address(&self) -> (r: usize)
        ensures
            r == self.spec_address(),
    ;

    fn discipline() -> (r: Option<Discipline>)
        ensures
            r == Self::spec_discipline(),
    ;
}

/// The ledger after a handle with the given discipline is adopted at `a`.
pub open spec fn adopted(m: Map<usize, Holding>, a: usize, d: Option<Discipline>) -> Map<usize, Holding> {
    match d {
        None => m,
        Some(Discipline::Exclusive) => adopted_exclusive(m, a),
        Some(Discipline::Shared) => adopted_shared(m, a),
    }
}

/// Whether a handle with the given discipline can be adopted at `a`.
pub open spec fn can_adopt(m: Map<usize, Holding>, a: usize, d: Option<Discipline>) -> bool {
    match d {
        None => true,
        Some(Discipline::Exclusive) => !m.contains_key(a),
        Some(Discipline::Shared) => can_share(m, a),
    }
}

/// The teardown owed when a handle with the given discipline is released.
pub open spec fn handle_teardown(m: Map<usize, Holding>, a: usize, d: Option<Discipline>) -> Teardown {
    match d {
        None => Teardown::Nothing,
        Some(_) => teardown_of(m, a),
    }
}

/// The ledger after a handle with the given discipline is released.
pub open spec fn handle_released(m: Map<usize, Holding>, a: usize, d: Option<Discipline>) -> Map<usize, Holding> {
    match d {
        None => m,
        Some(_) => released(m, a),
    }
}

impl Ledger {
    /// Records a handle a foreign call has just handed out. A borrowed view
    /// is not recorded: it owes no teardown.
    pub fn adopt<H: ForeignHandle>(&mut self, handle: &H) -> (r: bool)
        requires
            old(self).wf(),
        ensures
            final(self).wf(),
            r == can_adopt(old(self)@, handle.spec_address(), H::spec_discipline()),
            final(self)@ == adopted(old(self)@, handle.spec_address(), H::spec_discipline()),
    {
        match H::discipline() {
            None => true,
            Some(Discipline::Exclusive) => self.adopt_exclusive(handle.address()),
            Some(Discipline::Shared) => self.adopt_shared(handle.address()),
        }
    }

    /// Releases a handle at the end of its use and says which teardown the
    /// foreign side is owed.
    pub fn release_handle<H: ForeignHandle>(&mut self, handle: &H) -> (r: Teardown)
        requires
            old(self).wf(),
        ensures
            final(self).wf(),
            r == handle_teardown(old(self)@, handle.spec_address(), H::spec_discipline()),
            final(self)@ == handle_released(old(self)@, handle.spec_address(), H::spec_discipline()),
    {
        match H::discipline() {
            None => Teardown::Nothing,
            Some(_) => self.release(handle.address()),
        }
    }
}

} // verus!
