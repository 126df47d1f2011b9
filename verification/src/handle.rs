//! The two handle kinds and the relocation interface.
//!
//! [`Pass`] is the read-only handle and supports all four storage variants;
//! [`PassMut`] is the read-write handle and is restricted to the three
//! variants that admit exclusive mutation. Both are plain pointers to a cell
//! of a [`Store`]: cloning a handle shares its cell, relocating a handle
//! allocates a fresh cell and repoints only that handle.

use crate::storage::Locator;
use crate::storage::Store;
use vstd::prelude::*;

verus! {

/// A read-only handle: a shareable pointer to one storage cell, valid for
/// every active variant. Cloning is a cell-index copy, so clones observe the
/// same cell until one of them is relocated.
#[derive(Clone, Copy, Debug, PartialEq, Eq, Structural)]
pub struct Pass {
    cell: usize,
}

/// A read-write handle: a shareable pointer to one storage cell whose active
/// variant admits exclusive mutation (`ByOwned`, `ByRefMut` or `ByLock`,
/// never `ByRef`). Cloning is a cell-index copy; downgrading yields a
/// read-only handle over the identical cell.
#[derive(Clone, Copy, Debug, PartialEq, Eq, Structural)]
pub struct PassMut {
    cell: usize,
}

/// Rebinding a handle to a brand-new storage cell built from a freshly
/// supplied source. Relocation never mutates the cell the handle pointed to
/// before: it appends a new cell to the store and repoints only the handle it
/// was invoked on, so prior clones keep observing the old cell.
pub trait Relocate<T> {
    /// Which sources this handle kind may be rebound to: the read-only kind
    /// accepts all four variants, the read-write kind only the
    /// mutation-capable three.
    spec fn accepts(locator: Locator<T>) -> bool;

    /// The index of the storage cell this handle is bound to.
    spec fn cell_of(&self) -> nat;

    /// Rebinds this handle to a fresh cell holding `locator`. Every cell that
    /// was in the store before — the handle's previous cell among them — is
    /// kept unchanged, and the handle now points at the appended cell.
    fn relocate(&mut self, store: &mut Store<T>, locator: Locator<T>)
        requires
            Self::accepts(locator),
        ensures
            final(store)@ == old(store)@.push(locator),
            final(self).cell_of() == old(store)@.len(),
    ;
}

impl Pass {
    /// The index of the storage cell this handle is bound to.
    pub closed spec fn cell_index(self) -> nat {
        self.cell as nat
    }

    /// Constructs a read-only handle over a fresh cell holding `locator`:
    /// any of the four variants is admitted.
    pub fn from_locator<T>(store: &mut Store<T>, locator: Locator<T>) -> (h: Pass)
        ensures
            final(store)@ == old(store)@.push(locator),
            h.cell_index() == old(store)@.len(),
    {
        Pass { cell: store.new_cell(locator) }
    }

    /// Constructs a read-only handle over a fresh `ByOwned` cell.
    pub fn from_owned<T>(store: &mut Store<T>, v: T) -> (h: Pass)
        ensures
            final(store)@ == old(store)@.push(Locator::ByOwned(v)),
            h.cell_index() == old(store)@.len(),
    {
        Self::from_locator(store, Locator::ByOwned(v))
    }

    /// Constructs a read-only handle over a fresh `ByRef` cell, standing for
    /// an immutable borrow whose current contents are `v`.
    pub fn from_borrowed<T>(store: &mut Store<T>, v: T) -> (h: Pass)
        ensures
            final(store)@ == old(store)@.push(Locator::ByRef(v)),
            h.cell_index() == old(store)@.len(),
    {
        Self::from_locator(store, Locator::ByRef(v))
    }

    /// Constructs a read-only handle over a fresh `ByRefMut` cell, standing
    /// for a mutable borrow whose current contents are `v`.
    pub fn from_borrowed_mut<T>(store: &mut Store<T>, v: T) -> (h: Pass)
        ensures
            final(store)@ == old(store)@.push(Locator::ByRefMut(v)),
            h.cell_index() == old(store)@.len(),
    {
        Self::from_locator(store, Locator::ByRefMut(v))
    }

    /// Constructs a read-only handle over a fresh `ByLock` cell, standing for
    /// a held lock guard over a value currently equal to `v`.
    pub fn from_lock<T>(store: &mut Store<T>, v: T) -> (h: Pass)
        ensures
            final(store)@ == old(store)@.push(Locator::ByLock(v)),
            h.cell_index() == old(store)@.len(),
    {
        Self::from_locator(store, Locator::ByLock(v))
    }

    /// Read path: a read-only view of the wrapped value in this handle's
    /// cell, valid for every active variant.
    pub fn read<'a, T>(&self, store: &'a Store<T>) -> (r: &'a T)
        requires
            self.cell_index() < store@.len(),
        ensures
            *r == store@[self.cell_index() as int].spec_value(),
    {
        store.cell(self.cell).value()
    }
}

impl PassMut {
    /// The index of the storage cell this handle is bound to.
    pub closed spec fn cell_index(self) -> nat {
        self.cell as nat
    }

    /// Constructs a read-write handle over a fresh cell holding `locator`.
    /// A read-write handle must always offer a mutation path, so only the
    /// three mutation-capable variants are admitted.
    pub fn from_locator<T>(store: &mut Store<T>, locator: Locator<T>) -> (h: PassMut)
        requires
            locator.mut_capable(),
        ensures
            final(store)@ == old(store)@.push(locator),
            h.cell_index() == old(store)@.len(),
    {
        PassMut { cell: store.new_cell(locator) }
    }

    /// Constructs a read-write handle over a fresh `ByOwned` cell.
    pub fn from_owned<T>(store: &mut Store<T>, v: T) -> (h: PassMut)
        ensures
            final(store)@ == old(store)@.push(Locator::ByOwned(v)),
            h.cell_index() == old(store)@.len(),
    {
        Self::from_locator(store, Locator::ByOwned(v))
    }

    /// Constructs a read-write handle over a fresh `ByRefMut` cell, standing
    /// for a mutable borrow whose current contents are `v`.
    pub fn from_borrowed_mut<T>(store: &mut Store<T>, v: T) -> (h: PassMut)
        ensures
            final(store)@ == old(store)@.push(Locator::ByRefMut(v)),
            h.cell_index() == old(store)@.len(),
    {
        Self::from_locator(store, Locator::ByRefMut(v))
    }

    /// Constructs a read-write handle over a fresh `ByLock` cell, standing
    /// for a held lock guard over a value currently equal to `v`.
    pub fn from_lock<T>(store: &mut Store<T>, v: T) -> (h: PassMut)
        ensures
            final(store)@ == old(store)@.push(Locator::ByLock(v)),
            h.cell_index() == old(store)@.len(),
    {
        Self::from_locator(store, Locator::ByLock(v))
    }

    /// Read path: a read-only view of the wrapped value in this handle's
    /// cell, valid for every active variant.
    pub fn read<'a, T>(&self, store: &'a Store<T>) -> (r: &'a T)
        requires
            self.cell_index() < store@.len(),
        ensures
            *r == store@[self.cell_index() as int].spec_value(),
    {
        store.cell(self.cell).value()
    }

    /// Write path: an exclusive view of the wrapped value in this handle's
    /// cell. Only this handle's cell changes, only its wrapped value does —
    /// the active variant is kept — and every other cell of the store is
    /// untouched, so the mutation is observed by exactly the handles that
    /// share this cell.
    pub fn write<'a, T>(&self, store: &'a mut Store<T>) -> (r: &'a mut T)
        requires
            self.cell_index() < old(store)@.len(),
            old(store)@[self.cell_index() as int].mut_capable(),
        ensures
            *r == old(store)@[self.cell_index() as int].spec_value(),
            final(store)@ == old(store)@.update(
                self.cell_index() as int,
                old(store)@[self.cell_index() as int].with_value(*final(r)),
            ),
    {
        store.cell_mut(self.cell).value_mut()
    }

    /// Capability downgrade: a read-only handle over the identical cell. No
    /// new cell is allocated, so mutation through this handle stays visible
    /// through the downgraded handle until either is relocated.
    pub fn downgrade(&self) -> (r: Pass)
        ensures
            r.cell_index() == self.cell_index(),
    {
        Pass { cell: self.cell }
    }
}

impl<T> Relocate<T> for Pass {
    /// The read-only kind may be rebound to any of the four variants.
    open spec fn accepts(locator: Locator<T>) -> bool {
        true
    }

    open spec fn cell_of(&self) -> nat {
        self.cell_index()
    }

    fn relocate(&mut self, store: &mut Store<T>, locator: Locator<T>) {
        self.cell = store.new_cell(locator);
    }
}

impl<T> Relocate<T> for PassMut {
    /// The read-write kind may be rebound to the mutation-capable variants
    /// only.
    open spec fn accepts(locator: Locator<T>) -> bool {
        locator.mut_capable()
    }

    open spec fn cell_of(&self) -> nat {
        self.cell_index()
    }

    fn relocate(&mut self, store: &mut Store<T>, locator: Locator<T>) {
        self.cell = store.new_cell(locator);
    }
}

} // verus!
