//! Ordered registry of focusable items.
//!
//! Widget items register themselves here as they mount and unregister as they
//! unmount. The registry keeps the live handles in registration order and
//! hands out consistent snapshots for navigation decisions.
//!
//! Invariants: ids are unique; registration orders are assigned monotonically
//! and never reused, so removal never reorders the remaining handles; lookups
//! always reflect the most recent registration or unregistration.

use vstd::prelude::*;

verus! {

/// One live focusable item: its identifier, the order it was registered in,
/// and whether it is disabled for navigation. The underlying element stays
/// owned by the render layer; the id is all the engine needs to request focus
/// for it.
#[derive(Clone, Copy, PartialEq, Eq, Structural, Debug)]
pub struct ItemHandle {
    /// Identifier of the item, unique within one registry.
    pub id: u64,
    /// Position in the monotone registration sequence.
    pub order: u64,
    /// Whether directional navigation must skip this item.
    pub disabled: bool,
}

/// Proof that an item was registered; unregistration takes it back.
#[derive(Debug)]
pub struct RegistrationToken {
    /// The id the registration was made under.
    pub id: u64,
}

/// The one registration failure: the id is already registered. This is a
/// programmer error at setup time and is surfaced immediately rather than
/// swallowed.
#[derive(Clone, Copy, PartialEq, Eq, Structural, Debug)]
pub enum RegistryError {
    /// An item with the same id is already registered.
    DuplicateId,
}

/// Whether a sequence of handles holds an item with the given id.
pub open spec fn seq_contains_id(items: Seq<ItemHandle>, id: u64) -> bool {
    exists|i: int| 0 <= i < items.len() && items[i].id == id
}

/// The index of the item with the given id: the first match, which under the
/// registry's uniqueness invariant is the only one.
pub open spec fn seq_find_id(items: Seq<ItemHandle>, id: u64) -> Option<int>
    decreases items.len(),
{
    if items.len() == 0 {
        None
    } else if items[0].id == id {
        Some(0)
    } else {
        match seq_find_id(items.drop_first(), id) {
            Some(i) => Some(i + 1),
            None => None,
        }
    }
}

/// What `seq_find_id` finds: the unique first index holding the id, or a
/// proof that the id is absent.
pub proof fn lemma_seq_find_id(items: Seq<ItemHandle>, id: u64)
    ensures
        match seq_find_id(items, id) {
            Some(i) => 0 <= i < items.len() && items[i].id == id && (forall|j: int|
                0 <= j < i ==> items[j].id != id),
            None => !seq_contains_id(items, id),
        },
    decreases items.len(),
{
    if items.len() > 0 && items[0].id != id {
        lemma_seq_find_id(items.drop_first(), id);
        match seq_find_id(items.drop_first(), id) {
            Some(i) => {
                assert(forall|j: int|
                    1 <= j < i + 1 ==> items[j] == items.drop_first()[j - 1]);
            },
            None => {
                assert(forall|j: int|
                    1 <= j < items.len() ==> items[j] == items.drop_first()[j - 1]);
            },
        }
    }
}

/// An ordered collection of live item handles.
pub struct Collection {
    items: Vec<ItemHandle>,
    next_order: u64,
}

impl View for Collection {
    type V = Seq<ItemHandle>;

    closed spec fn view(&self) -> Seq<ItemHandle> {
        self.items@
    }
}

impl Collection {
    /// The next registration order to be assigned; it only ever grows, so an
    /// order is never reused.
    pub closed spec fn next_registration_order(self) -> u64 {
        self.next_order
    }

    /// The registry's invariant: ids unique, orders strictly increasing along
    /// the sequence, and every assigned order below the next one.
    pub open spec fn wf(self) -> bool {
        &&& forall|i: int, j: int|
            0 <= i < j < self@.len() ==> #[trigger] self@[i].id != #[trigger] self@[j].id
        &&& forall|i: int, j: int|
            0 <= i < j < self@.len() ==> #[trigger] self@[i].order < #[trigger] self@[j].order
        &&& forall|i: int|
            0 <= i < self@.len() ==> #[trigger] self@[i].order < self.next_registration_order()
    }

    /// Creates an empty registry.
    pub fn new() -> (r: Self)
        ensures
            r@ == Seq::<ItemHandle>::empty(),
            r.wf(),
            r.next_registration_order() == 0,
    {
        Collection { items: Vec::new(), next_order: 0 }
    }

    /// The number of currently registered items.
    pub fn size(&self) -> (r: usize)
        ensures
            r == self@.len(),
    {
        self.items.len()
    }

    /// Whether an item with the given id is currently registered.
    pub fn contains_id(&self, id: u64) -> (r: bool)
        ensures
            r == seq_contains_id(self@, id),
    {
        let mut k: usize = 0;
        while k < self.items.len()
            invariant
                k <= self@.len(),
                forall|j: int| 0 <= j < k ==> self@[j].id != id,
            decreases self@.len() - k,
        {
            if self.items[k].id == id {
                return true;
            }
            k = k + 1;
        }
        false
    }

    /// Registers an item under the given id, assigning it the next
    /// registration order and appending it to the sequence. Fails exactly
    /// when the id is already registered, leaving the registry unchanged:
    /// re-registering a live id is a programmer error surfaced fail-fast.
    pub fn register(&mut self, id: u64, disabled: bool) -> (r: Result<
        RegistrationToken,
        RegistryError,
    >)
        requires
            old(self).wf(),
            old(self).next_registration_order() < u64::MAX,
        ensures
            final(self).wf(),
            seq_contains_id(old(self)@, id) ==> {
                &&& r matches Err(e) && e == RegistryError::DuplicateId
                &&& final(self)@ == old(self)@
                &&& final(self).next_registration_order() == old(self).next_registration_order()
            },
            !seq_contains_id(old(self)@, id) ==> {
                &&& r matches Ok(t) && t.id == id
                &&& final(self)@ == old(self)@.push(
                    ItemHandle { id, order: old(self).next_registration_order(), disabled },
                )
                &&& final(self).next_registration_order() == old(self).next_registration_order()
                    + 1
            },
    {
        if self.contains_id(id) {
            return Err(RegistryError::DuplicateId);
        }
        let handle = ItemHandle { id, order: self.next_order, disabled };
        self.items.push(handle);
        self.next_order = self.next_order + 1;
        Ok(RegistrationToken { id })
    }

    /// The index the item with the given id currently sits at, if it is
    /// registered.
    pub fn find_index(&self, id: u64) -> (r: Option<usize>)
        ensures
            match r {
                Some(k) => seq_find_id(self@, id) == Some(k as int),
                None => seq_find_id(self@, id) is None,
            },
    {
        proof {
            lemma_seq_find_id(self@, id);
        }
        let mut k: usize = 0;
        while k < self.items.len()
            invariant
                k <= self@.len(),
                forall|j: int| 0 <= j < k ==> self@[j].id != id,
            decreases self@.len() - k,
        {
            if self.items[k].id == id {
                proof {
                    lemma_seq_find_id(self@, id);
                    assert(seq_contains_id(self@, id)) by {
                        assert(self@[k as int].id == id);
                    }
                }
                return Some(k);
            }
            k = k + 1;
        }
        None
    }

    /// Unregisters the item the token was issued for, keeping every other
    /// handle in place and in order. A second unregistration with the same
    /// token is a no-op: teardown paths may race and clean up twice.
    pub fn unregister(&mut self, token: &RegistrationToken)
        requires
            old(self).wf(),
        ensures
            final(self).wf(),
            final(self).next_registration_order() == old(self).next_registration_order(),
            match seq_find_id(old(self)@, token.id) {
                Some(i) => final(self)@ == old(self)@.remove(i),
                None => final(self)@ == old(self)@,
            },
    {
        proof {
            lemma_seq_find_id(self@, token.id);
        }
        match self.find_index(token.id) {
            Some(k) => {
                self.items.remove(k);
                proof {
                    let prev = old(self)@;
                    let cur = self@;
                    prev.remove_ensures(k as int);
                    assert forall|i: int, j: int|
                        0 <= i < j < cur.len() implies #[trigger] cur[i].id != #[trigger] cur[j].id
                            && #[trigger] cur[i].order < #[trigger] cur[j].order by {
                        let pi: int = if i < k { i } else { i + 1 };
                        let pj: int = if j < k { j } else { j + 1 };
                        assert(cur[i] == prev[pi]);
                        assert(cur[j] == prev[pj]);
                    }
                    assert forall|i: int|
                        0 <= i < cur.len() implies #[trigger] cur[i].order
                            < self.next_registration_order() by {
                        let pi: int = if i < k { i } else { i + 1 };
                        assert(cur[i] == prev[pi]);
                    }
                }
            },
            None => {},
        }
    }

    /// A snapshot of the currently registered handles in registration order.
    /// Navigation must work against one snapshot per decision, so that a
    /// registration landing mid-computation cannot make the result
    /// inconsistent.
    pub fn ordered_items(&self) -> (r: Vec<ItemHandle>)
        ensures
            r@ == self@,
    {
        let mut out: Vec<ItemHandle> = Vec::new();
        let mut k: usize = 0;
        while k < self.items.len()
            invariant
                k <= self@.len(),
                out@ == self@.subrange(0, k as int),
            decreases self@.len() - k,
        {
            out.push(self.items[k]);
            k = k + 1;
        }
        assert(out@ =~= self@);
        out
    }
}

} // verus!
