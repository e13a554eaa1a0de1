//! Write-once forward references.
//!
//! A record can be written at its final position before every number in it is
//! known. The unknown number is a cell of a [`DeferredTable`]: creating the
//! cell yields a [`Bound`], which can be copied into as many records as needed,
//! and a [`Vow`], which is spent to give the cell its value exactly once.

use vstd::prelude::*;

verus! {

/// Read handle of a deferred value.
#[derive(Clone, Copy, Debug, PartialEq, Eq, Structural)]
pub struct Bound {
    slot: usize,
}

/// Write handle of a deferred value. It cannot be copied, and fulfilling the
/// cell consumes it.
#[derive(Debug)]
pub struct Vow {
    slot: usize,
}

/// What a cell holds: its current value and whether the value is final.
#[derive(Clone, Copy, Debug)]
pub struct CellState {
    pub value: u64,
    pub fulfilled: bool,
}

/// The cells behind all handles issued so far.
pub struct DeferredTable {
    cells: Vec<CellState>,
}

impl Bound {
    /// Position of the cell this handle reads.
    pub closed spec fn slot(&self) -> int {
        self.slot as int
    }
}

impl Vow {
    /// Position of the cell this handle writes.
    pub closed spec fn slot(&self) -> int {
        self.slot as int
    }

    /// A read handle for the cell that this vow will fulfil.
    pub fn bind(&self) -> (bound: Bound)
        ensures
            bound.slot() == self.slot(),
    {
        Bound { slot: self.slot }
    }
}

impl View for DeferredTable {
    type V = Seq<CellState>;

    closed spec fn view(&self) -> Seq<CellState> {
        self.cells@
    }
}

impl DeferredTable {
    /// Every cell of the table has received its value.
    pub open spec fn complete(&self) -> bool {
        forall|i: int| 0 <= i < self@.len() ==> (#[trigger] self@[i]).fulfilled
    }

    /// A table without cells.
    pub fn new() -> (table: Self)
        ensures
            table@.len() == 0,
    {
        DeferredTable { cells: Vec::new() }
    }

    /// Number of cells issued so far.
    pub fn len(&self) -> (n: usize)
        ensures
            n == self@.len(),
    {
        self.cells.len()
    }

    /// Issues a new cell. Until it is fulfilled it reads as `placeholder`.
    pub fn create(&mut self, placeholder: u64) -> (handles: (Bound, Vow))
        ensures
            final(self)@ == old(self)@.push(CellState { value: placeholder, fulfilled: false }),
            handles.0.slot() == old(self)@.len(),
            handles.1.slot() == old(self)@.len(),
    {
        let slot = self.cells.len();
        self.cells.push(CellState { value: placeholder, fulfilled: false });
        (Bound { slot }, Vow { slot })
    }

    /// Gives the cell of `vow` its final value. The cell must still be open:
    /// a cell is written once.
    pub fn fulfil(&mut self, vow: Vow, value: u64)
        requires
            0 <= vow.slot() < old(self)@.len(),
            !old(self)@[vow.slot()].fulfilled,
        ensures
            final(self)@ == old(self)@.update(vow.slot(), CellState { value, fulfilled: true }),
    {
        self.cells.set(vow.slot, CellState { value, fulfilled: true });
    }

    /// Whether `vow` may still be fulfilled in this table.
    pub fn is_open(&self, vow: &Vow) -> (open: bool)
        ensures
            open <==> (0 <= vow.slot() < self@.len() && !self@[vow.slot()].fulfilled),
    {
        vow.slot < self.cells.len() && !self.cells[vow.slot].fulfilled
    }

    /// Current value of the cell: the placeholder until the cell is fulfilled,
    /// the final value afterwards.
    pub fn get(&self, bound: Bound) -> (value: u64)
        requires
            0 <= bound.slot() < self@.len(),
        ensures
            value == self@[bound.slot()].value,
    {
        self.cells[bound.slot].value
    }

    /// Final value of the cell, or `None` while the cell is open or when the
    /// handle names no cell of this table.
    pub fn resolve(&self, bound: Bound) -> (value: Option<u64>)
        ensures
            value == Self::resolved(self@, bound.slot()),
    {
        if bound.slot < self.cells.len() && self.cells[bound.slot].fulfilled {
            Some(self.cells[bound.slot].value)
        } else {
            None
        }
    }

    /// The final value held at `slot`, if there is one.
    pub open spec fn resolved(cells: Seq<CellState>, slot: int) -> Option<u64> {
        if 0 <= slot < cells.len() && cells[slot].fulfilled {
            Some(cells[slot].value)
        } else {
            None
        }
    }

    /// Whether every cell has been fulfilled, as serialising requires.
    pub fn is_complete(&self) -> (done: bool)
        ensures
            done == self.complete(),
    {
        let mut i: usize = 0;
        while i < self.cells.len()
            invariant
                i <= self.cells@.len(),
                forall|k: int| 0 <= k < i ==> (#[trigger] self@[k]).fulfilled,
            decreases self.cells@.len() - i,
        {
            if !self.cells[i].fulfilled {
                assert(!self@[i as int].fulfilled);
                return false;
            }
            i += 1;
        }
        true
    }
}

} // verus!
