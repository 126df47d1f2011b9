//! Storage cells and the store that holds them.
//!
//! A [`Locator`] is one storage cell: a tagged union over the four strategies
//! a cell can use to hold a value. A [`Store`] is the arena those cells live
//! in; handles address its cells by index and never mutate a cell's variant in
//! place.

use vstd::prelude::*;

verus! {

/// One storage cell: exactly one variant is active at a time, and the active
/// variant never changes in place — rebinding a handle always allocates a new
/// cell instead.
///
/// The variant records the storage strategy behind the cell and with it the
/// cell's capability: every variant offers a read path, and every variant but
/// `ByRef` offers an exclusive-mutation path. For the two borrow variants and
/// the lock variant the caller supplies the current contents of the borrowed
/// or guarded storage and remains responsible for that storage outliving the
/// cell, as for any scoped acquisition.
pub enum Locator<T> {
    /// The cell owns the value outright; no external aliasing is possible.
    ByOwned(T),
    /// The cell stands for a read-only alias into storage owned elsewhere.
    ByRef(T),
    /// The cell stands for the sole mutable alias into storage owned elsewhere.
    ByRefMut(T),
    /// The cell stands for a held mutual-exclusion guard over the value.
    ByLock(T),
}

impl<T> Locator<T> {
    /// The wrapped value, whatever the active variant.
    pub open spec fn spec_value(self) -> T {
        match self {
            Locator::ByOwned(v) => v,
            Locator::ByRef(v) => v,
            Locator::ByRefMut(v) => v,
            Locator::ByLock(v) => v,
        }
    }

    /// Whether the active variant admits exclusive mutation: true for
    /// `ByOwned`, `ByRefMut` and `ByLock`, false for the immutable borrow.
    pub open spec fn mut_capable(self) -> bool {
        !(self is ByRef)
    }

    /// The same active variant, wrapping `v` in place of the current value.
    pub open spec fn with_value(self, v: T) -> Locator<T> {
        match self {
            Locator::ByOwned(_) => Locator::ByOwned(v),
            Locator::ByRef(_) => Locator::ByRef(v),
            Locator::ByRefMut(_) => Locator::ByRefMut(v),
            Locator::ByLock(_) => Locator::ByLock(v),
        }
    }

    /// Whether `other` has the same active variant as `self`.
    pub open spec fn same_variant(self, other: Locator<T>) -> bool {
        &&& (self is ByOwned) == (other is ByOwned)
        &&& (self is ByRef) == (other is ByRef)
        &&& (self is ByRefMut) == (other is ByRefMut)
        &&& (self is ByLock) == (other is ByLock)
    }

    /// Read path of the variant dispatch: a read-only reference to the
    /// wrapped value, uniformly for all four variants. No copy is made.
    pub fn value(&self) -> (r: &T)
        ensures
            *r == self.spec_value(),
    {
        match self {
            Locator::ByOwned(v) => v,
            Locator::ByRef(v) => v,
            Locator::ByRefMut(v) => v,
            Locator::ByLock(v) => v,
        }
    }

    /// Write path of the variant dispatch: an exclusive reference to the
    /// wrapped value, for the three mutation-capable variants. Requesting
    /// write access on an immutable borrow is a contract violation, so the
    /// precondition rules the `ByRef` variant out; the arm for it is the
    /// defensive remnant of the shared dispatch and is proved unreachable.
    /// Mutation through the result changes the wrapped value only: the active
    /// variant is kept.
    pub fn value_mut(&mut self) -> (r: &mut T)
        requires
            old(self).mut_capable(),
        ensures
            *r == old(self).spec_value(),
            *final(self) == old(self).with_value(*final(r)),
    {
        match self {
            Locator::ByOwned(v) => v,
            Locator::ByRefMut(v) => v,
            Locator::ByLock(v) => v,
            Locator::ByRef(_) => {
                proof {
                    assert(false);
                }
                vstd::pervasive::unreached()
            },
        }
    }
}

/// The arena that storage cells live in. A handle addresses one cell by
/// index; cells are only ever appended, so an index stays valid for the
/// store's whole life and relocation never disturbs the cell a prior clone
/// still observes.
pub struct Store<T> {
    pub(crate) cells: Vec<Locator<T>>,
}

impl<T> View for Store<T> {
    type V = Seq<Locator<T>>;

    closed spec fn view(&self) -> Seq<Locator<T>> {
        self.cells@
    }
}

impl<T> Store<T> {
    /// An empty store, with no cells yet.
    pub fn new() -> (s: Store<T>)
        ensures
            s@ == Seq::<Locator<T>>::empty(),
    {
        Store { cells: Vec::new() }
    }

    /// How many cells the store holds.
    pub fn len(&self) -> (n: usize)
        ensures
            n == self@.len(),
    {
        self.cells.len()
    }

    /// Appends a fresh cell and returns its index. Existing cells are
    /// untouched, so every handle bound to one of them observes no change.
    pub(crate) fn new_cell(&mut self, locator: Locator<T>) -> (i: usize)
        ensures
            final(self)@ == old(self)@.push(locator),
            i == old(self)@.len(),
    {
        let i = self.cells.len();
        self.cells.push(locator);
        i
    }

    /// A read-only reference to the cell at index `i`.
    pub(crate) fn cell(&self, i: usize) -> (r: &Locator<T>)
        requires
            i < self@.len(),
        ensures
            *r == self@[i as int],
    {
        &self.cells[i]
    }

    /// An exclusive reference to the cell at index `i`; all other cells are
    /// kept as they were.
    pub(crate) fn cell_mut(&mut self, i: usize) -> (r: &mut Locator<T>)
        requires
            i < old(self)@.len(),
        ensures
            *r == old(self)@[i as int],
            final(self)@ == old(self)@.update(i as int, *final(r)),
    {
        &mut self.cells[i]
    }
}

} // verus!
