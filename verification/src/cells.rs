//! The snake's two bounded collections of matrix cells, kept in the
//! `heapless` containers that hold them on the device: a FIFO queue of the
//! tail's cells and a hash set of every cell that the snake covers.
//!
//! Both containers stand behind a struct of this crate whose only field is
//! the container. What each method does to the contents is taken from the
//! `heapless` 0.9 source and is not proved here.
use vstd::prelude::*;

use heapless::index_set::FnvIndexSet;
use heapless::spsc::Queue;
use vstd::seq_lib::seq_to_set_is_finite;
use vstd::set_lib::lemma_len_subset;

verus! {

/// A cell of the matrix as (row, column).
pub type Cell = (i8, i8);

/// A `heapless::spsc::Queue<Cell, 32>`, which holds at most 31 cells.
#[verifier::external_body]
pub struct CellQueue {
    inner: Queue<Cell, 32>,
}

/// The cells in a queue, front first.
pub uninterp spec fn queue_cells(q: CellQueue) -> Seq<Cell>;

/// A `heapless::index_set::FnvIndexSet<Cell, 32>`, which holds at most 32 cells.
#[verifier::external_body]
pub struct CellSet {
    inner: FnvIndexSet<Cell, 32>,
}

/// The cells in a set.
pub uninterp spec fn set_cells(s: CellSet) -> Set<Cell>;

impl CellQueue {
    /// `Queue::new`: an empty queue.
    #[verifier::external_body]
    pub(crate) fn new() -> (q: CellQueue)
        ensures
            queue_cells(q) == Seq::<Cell>::empty(),
    {
        CellQueue { inner: Queue::new() }
    }

    /// `Queue::enqueue`: appends `cell` at the back unless the queue already
    /// holds 31 cells, in which case it hands `cell` back and changes nothing.
    #[verifier::external_body]
    pub(crate) fn enqueue(&mut self, cell: Cell) -> (r: Result<(), Cell>)
        requires
            queue_cells(*old(self)).len() <= 31,
        ensures
            r is Ok <==> queue_cells(*old(self)).len() < 31,
            r is Ok ==> queue_cells(*final(self)) == queue_cells(*old(self)).push(cell),
            r matches Err(c) ==> c == cell && queue_cells(*final(self)) == queue_cells(*old(self)),
    {
        self.inner.enqueue(cell)
    }

    /// `Queue::dequeue`: removes and returns the front cell, or `None` when the
    /// queue is empty.
    #[verifier::external_body]
    pub(crate) fn dequeue(&mut self) -> (r: Option<Cell>)
        ensures
            queue_cells(*old(self)).len() == 0 ==> r is None && queue_cells(*final(self))
                == queue_cells(*old(self)),
            queue_cells(*old(self)).len() > 0 ==> r == Some(queue_cells(*old(self))[0])
                && queue_cells(*final(self)) == queue_cells(*old(self)).drop_first(),
    {
        self.inner.dequeue()
    }

    /// `Queue::iter`: the cells from front to back, copied into a vector.
    #[verifier::external_body]
    pub(crate) fn to_vec(&self) -> (v: Vec<Cell>)
        ensures
            v@ == queue_cells(*self),
    {
        self.inner.iter().copied().collect()
    }
}

impl CellSet {
    /// `FnvIndexSet::new`: an empty set.
    #[verifier::external_body]
    pub(crate) fn new() -> (s: CellSet)
        ensures
            set_cells(s) == Set::<Cell>::empty(),
    {
        CellSet { inner: FnvIndexSet::new() }
    }

    /// A set of the given cells. A set holds at most 32 cells: where the
    /// cells hold more distinct ones, the result is the first cell that
    /// found the set full.
    pub fn from_cells(cells: &[Cell]) -> (r: Result<CellSet, Cell>)
        ensures
            r is Ok <==> cells@.to_set().len() <= 32,
            r matches Ok(s) ==> set_cells(s) == cells@.to_set(),
            r matches Err(c) ==> exists|k: int|
                0 <= k < cells@.len() && c == cells@[k] && (#[trigger] cells@.take(k)).to_set().len()
                    == 32 && !cells@.take(k).to_set().contains(c),
    {
        let mut s = CellSet::new();
        let mut i: usize = 0;
        proof {
            assert(cells@.take(0).to_set() =~= Set::<Cell>::empty());
        }
        while i < cells.len()
            invariant
                i <= cells@.len(),
                set_cells(s) == cells@.take(i as int).to_set(),
                set_cells(s).finite(),
                set_cells(s).len() <= 32,
            decreases cells@.len() - i,
        {
            let cell = cells[i];
            match s.insert(cell) {
                Ok(_) => {},
                Err(c) => {
                    proof {
                        let before = cells@.take(i as int).to_set();
                        let grown = before.insert(c);
                        assert(grown.subset_of(cells@.to_set())) by {
                            assert forall|x: Cell| grown.contains(x) implies cells@.to_set().contains(x) by {
                                if x == c {
                                    assert(cells@[i as int] == c);
                                } else {
                                    let k = choose|k: int| 0 <= k < i && cells@.take(i as int)[k] == x;
                                    assert(cells@[k] == x);
                                }
                            }
                        }
                        seq_to_set_is_finite(cells@);
                        lemma_len_subset(grown, cells@.to_set());
                    }
                    return Err(c);
                },
            }
            proof {
                assert(cells@.take(i + 1) =~= cells@.take(i as int).push(cell));
                cells@.take(i as int).lemma_push_to_set_commute(cell);
            }
            i += 1;
        }
        proof {
            assert(cells@.take(i as int) =~= cells@);
        }
        Ok(s)
    }

    /// `IndexSet::insert`: adds `cell`, returning whether it was absent. Only
    /// when the set is full (32 cells) and `cell` is not among them does it
    /// hand `cell` back and change nothing; the set never holds more than 32
    /// cells.
    #[verifier::external_body]
    pub(crate) fn insert(&mut self, cell: Cell) -> (r: Result<bool, Cell>)
        requires
            set_cells(*old(self)).finite(),
        ensures
            set_cells(*old(self)).len() < 32 ==> r is Ok,
            r matches Ok(added) ==> added == !set_cells(*old(self)).contains(cell) && set_cells(
                *final(self),
            ) == set_cells(*old(self)).insert(cell),
            r matches Err(c) ==> c == cell && set_cells(*final(self)) == set_cells(*old(self))
                && set_cells(*old(self)).len() == 32 && !set_cells(*old(self)).contains(cell),
            set_cells(*final(self)).finite(),
            set_cells(*final(self)).len() <= 32,
    {
        self.inner.insert(cell)
    }

    /// `IndexSet::contains`.
    #[verifier::external_body]
    pub(crate) fn contains(&self, cell: &Cell) -> (r: bool)
        ensures
            r == set_cells(*self).contains(*cell),
    {
        self.inner.contains(cell)
    }

    /// `IndexSet::remove`: removes `cell`, returning whether it was present.
    #[verifier::external_body]
    pub(crate) fn remove(&mut self, cell: &Cell) -> (r: bool)
        ensures
            r == set_cells(*old(self)).contains(*cell),
            set_cells(*final(self)) == set_cells(*old(self)).remove(*cell),
    {
        self.inner.remove(cell)
    }
}

} // verus!
