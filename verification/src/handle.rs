//! The opaque handle protocol: reference-counted native objects exposed to a
//! foreign caller as plain integer handles.
//!
//! A [`HandleTable`] is an arena of reference-counted cells.  A handle is an
//! index into the arena, shifted by one so that `0` is the null handle.  The
//! only sanctioned operations are the trio of the protocol: `borrow` (no
//! count change, bounded by the enclosing call), `clone_for_async` (count up
//! by one, to extend liveness into an async task), and `release` (count down
//! by one, destroying the cell at zero).  The arena model makes the
//! use-after-free and double-free mistakes of a raw-address scheme checkable:
//! every operation's contract is stated over the sequence of cells.

use vstd::prelude::*;
use vstd::pervasive::unreached;
use vstd::assert_seqs_equal;

verus! {

struct Cell<T> {
    value: T,
    count: u64,
}

/// An arena of reference-counted cells, addressed by integer handles.
/// Handle `0` is the null handle; handle `h >= 1` names slot `h - 1`.
pub struct HandleTable<T> {
    slots: Vec<Option<Cell<T>>>,
}

/// The model of one slot: the held value and its reference count, or
/// `None` once the cell has been destroyed.
pub type CellModel<T> = Option<(T, nat)>;

/// The arena state after a `clone_for_async` of live handle `h`: the count
/// of `h`'s cell goes up by one and nothing else changes.
pub open spec fn clone_step<T>(cells: Seq<CellModel<T>>, h: usize) -> Seq<CellModel<T>>
    recommends
        1 <= h <= cells.len(),
        cells[h - 1] is Some,
{
    let (v, c) = cells[h - 1]->Some_0;
    cells.update(h - 1, Some((v, c + 1)))
}

/// The arena state after a `release` of handle `h`: the null handle changes
/// nothing; a cell with a count above one loses one reference; a cell with a
/// count of one is destroyed.
pub open spec fn release_step<T>(cells: Seq<CellModel<T>>, h: usize) -> Seq<CellModel<T>>
    recommends
        h == 0 || (1 <= h <= cells.len() && cells[h - 1] is Some),
{
    if h == 0 {
        cells
    } else {
        let (v, c) = cells[h - 1]->Some_0;
        if c > 1 {
            cells.update(h - 1, Some((v, (c - 1) as nat)))
        } else {
            cells.update(h - 1, None)
        }
    }
}

impl<T> HandleTable<T> {
    /// The model of the arena: one cell model per slot ever allocated.
    pub closed spec fn cells(self) -> Seq<CellModel<T>> {
        self.slots@.map_values(
            |s: Option<Cell<T>>|
                match s {
                    Some(cell) => Some((cell.value, cell.count as nat)),
                    None => None,
                },
        )
    }

    /// `h` names a slot of this arena.
    pub open spec fn in_table(self, h: usize) -> bool {
        1 <= h <= self.cells().len()
    }

    /// `h` names a live (not yet destroyed) cell.
    pub open spec fn is_live(self, h: usize) -> bool {
        self.in_table(h) && self.cells()[h - 1] is Some
    }

    /// The number of outstanding references to the object behind `h`.
    pub open spec fn count_of(self, h: usize) -> nat
        recommends
            self.is_live(h),
    {
        self.cells()[h - 1]->Some_0.1
    }

    /// The value held behind `h`.
    pub open spec fn value_of(self, h: usize) -> T
        recommends
            self.is_live(h),
    {
        self.cells()[h - 1]->Some_0.0
    }

    /// An empty arena.
    pub fn new() -> (table: Self)
        ensures
            table.cells() == Seq::<CellModel<T>>::empty(),
    {
        let table = HandleTable { slots: Vec::new() };
        proof {
            assert_seqs_equal!(table.cells(), Seq::<CellModel<T>>::empty());
        }
        table
    }

    /// Constructs a new cell owning `value` with one reference, and returns
    /// its (non-null) handle.
    pub fn create(&mut self, value: T) -> (h: usize)
        requires
            old(self).cells().len() < usize::MAX,
        ensures
            final(self).cells() == old(self).cells().push(Some((value, 1nat))),
            h == old(self).cells().len() + 1,
            final(self).is_live(h),
            final(self).count_of(h) == 1,
            final(self).value_of(h) == value,
    {
        self.slots.push(Some(Cell { value, count: 1 }));
        proof {
            assert_seqs_equal!(
                self.cells(),
                old(self).cells().push(self.cells()[old(self).cells().len() as int])
            );
        }
        self.slots.len()
    }

    /// Whether `h` names a live cell of this arena.  The shell asks this
    /// before touching a handle whose history it does not track.
    pub fn contains(&self, h: usize) -> (r: bool)
        ensures
            r == self.is_live(h),
    {
        if h == 0 || h > self.slots.len() {
            false
        } else {
            match &self.slots[h - 1] {
                Some(_) => true,
                None => false,
            }
        }
    }

    /// Borrows the object behind a live handle.  The reference count does
    /// not change (the receiver is shared), and the reference is valid only
    /// within the enclosing synchronous call.  A null handle is outside the
    /// contract: the boundary shell rejects it before calling in.
    pub fn borrow(&self, h: usize) -> (r: &T)
        requires
            self.is_live(h),
        ensures
            *r == self.value_of(h),
    {
        match &self.slots[h - 1] {
            Some(cell) => &cell.value,
            None => unreached(),
        }
    }

    /// Adds one reference to the object behind a live handle, so that an
    /// async task may keep it alive past the synchronous call.  The caller's
    /// handle stays valid: cloning never consumes the input.  Returns the
    /// same handle for the task to hold.
    pub fn clone_for_async(&mut self, h: usize) -> (r: usize)
        requires
            old(self).is_live(h),
            old(self).count_of(h) < u64::MAX,
        ensures
            r == h,
            final(self).cells() == clone_step(old(self).cells(), h),
            final(self).is_live(h),
            final(self).count_of(h) == old(self).count_of(h) + 1,
            final(self).value_of(h) == old(self).value_of(h),
    {
        let slot = &mut self.slots[h - 1];
        match slot {
            Some(cell) => {
                cell.count = cell.count + 1;
            }
            None => {
                proof {
                    assert(false);
                }
            }
        }
        proof {
            assert_seqs_equal!(self.cells(), clone_step(old(self).cells(), h));
        }
        h
    }

    /// Exchanges the value behind a live handle with `value`, leaving the
    /// reference count untouched.  This is how a caller mutates an owned
    /// object in place — take it out, work on it, put it back — without
    /// ever holding two references.
    pub fn swap_value(&mut self, h: usize, value: &mut T)
        requires
            old(self).is_live(h),
        ensures
            final(self).cells() == old(self).cells().update(
                h - 1,
                Some((*old(value), old(self).count_of(h))),
            ),
            *final(value) == old(self).value_of(h),
            final(self).is_live(h),
            final(self).count_of(h) == old(self).count_of(h),
            final(self).value_of(h) == *old(value),
    {
        let slot = &mut self.slots[h - 1];
        match slot {
            Some(cell) => {
                core::mem::swap(&mut cell.value, value);
            }
            None => {
                proof {
                    assert(false);
                }
            }
        }
        proof {
            assert_seqs_equal!(
                self.cells(),
                old(self).cells().update(h - 1, Some((*old(value), old(self).count_of(h))))
            );
        }
    }

    /// Drops one reference: a no-op on the null handle, otherwise the count
    /// goes down by one and the cell is destroyed when it reaches zero.
    /// Releasing a handle that was already destroyed is out of contract.
    pub fn release(&mut self, h: usize)
        requires
            h == 0 || old(self).is_live(h),
        ensures
            final(self).cells() == release_step(old(self).cells(), h),
            h == 0 ==> final(self).cells() == old(self).cells(),
            h != 0 && old(self).count_of(h) > 1 ==> final(self).is_live(h)
                && final(self).count_of(h) == old(self).count_of(h) - 1,
            h != 0 && old(self).count_of(h) == 1 ==> !final(self).is_live(h),
    {
        if h == 0 {
            return ;
        }
        let keeps_references = match &self.slots[h - 1] {
            Some(cell) => cell.count > 1,
            None => false,
        };
        if keeps_references {
            let slot = &mut self.slots[h - 1];
            match slot {
                Some(cell) => {
                    cell.count = cell.count - 1;
                }
                None => {
                    proof {
                        assert(false);
                    }
                }
            }
        } else {
            self.slots[h - 1] = None;
        }
        proof {
            assert_seqs_equal!(self.cells(), release_step(old(self).cells(), h));
        }
    }
}

/// Law: borrowing never changes the arena — `borrow` takes the arena by
/// shared reference, so the cells before and after any row of borrows are
/// the same sequence — and a cell holding its last reference is destroyed
/// by a single `release`, and not by a release while further references
/// are outstanding.
pub proof fn lemma_last_release_destroys<T>(cells: Seq<CellModel<T>>, h: usize)
    requires
        1 <= h <= cells.len(),
        cells[h - 1] is Some,
    ensures
        cells[h - 1]->Some_0.1 == 1 ==> release_step(cells, h)[h - 1] is None,
        cells[h - 1]->Some_0.1 > 1 ==> release_step(cells, h)[h - 1] is Some,
        forall|g: int| 0 <= g < cells.len() && g != h - 1 ==> release_step(cells, h)[g] == cells[g],
{
}

/// Law: a clone made for an async task is balanced by the one release the
/// task performs when it completes — the arena returns to exactly the state
/// before the clone, so the caller's own references are neither leaked nor
/// freed early.
pub proof fn lemma_clone_release_balances<T>(cells: Seq<CellModel<T>>, h: usize)
    requires
        1 <= h <= cells.len(),
        cells[h - 1] is Some,
        cells[h - 1]->Some_0.1 >= 1,
    ensures
        release_step(clone_step(cells, h), h) == cells,
{
    assert_seqs_equal!(release_step(clone_step(cells, h), h), cells);
}

} // verus!
