//! Breadth-first flattening of a tree into an index-addressed sequence.
//!
//! Entries receive their flat index in the order in which they leave a FIFO
//! queue. The queue is seeded with the roots; popping a directory opens it,
//! its children are appended behind everything already queued, and closing it
//! fulfils the deferred number of children. Because every child is appended
//! at the end, the children of one directory occupy one contiguous range, and
//! the start of that range is known the moment the directory is popped.

use vstd::prelude::*;
use crate::deferred::{Bound, CellState, DeferredTable, Vow};

verus! {

/// Position and links of one entry of the flat sequence.
#[derive(Clone, Copy, Debug)]
pub struct FlatNode {
    /// Flat index of the directory that listed this entry; `None` for a root.
    pub parent: Option<u32>,
    /// Whether the entry is a directory.
    pub is_dir: bool,
    /// For a popped directory: the flat index its first child receives.
    pub first_child: u32,
    /// For a popped directory: the deferred number of its children.
    pub child_count: Option<Bound>,
}

/// Why the flattener refused an operation.
#[derive(Clone, Copy, Debug, PartialEq, Eq, Structural)]
pub enum FlattenError {
    /// A root was offered after the first entry had been popped.
    NotSeeding,
    /// A directory is open: its listing has to be closed first.
    DirectoryOpen,
    /// No directory is open to take a child or to be closed.
    NoDirectoryOpen,
    /// All flat indices are used.
    Full,
}

/// The flattener as contracts see it.
pub struct FlatView {
    /// Every entry that has a flat index, popped or still queued, by index.
    pub nodes: Seq<FlatNode>,
    /// Number of entries popped so far; the queue is `nodes[popped..]`.
    pub popped: nat,
    /// Number of roots.
    pub root_count: nat,
    /// The deferred child counts.
    pub cells: Seq<CellState>,
    /// Whether the directory popped last is still being listed.
    pub open: bool,
    /// Number of children appended to the open directory.
    pub added: nat,
}

impl FlatView {
    /// The directory at `i` is the one being listed.
    pub open spec fn is_open_dir(self, i: int) -> bool {
        self.open && i == self.popped - 1
    }

    /// The cell that holds the number of children of directory `i`.
    pub open spec fn slot_of(self, i: int) -> int {
        self.nodes[i].child_count->0.slot()
    }

    /// Number of children of the popped directory `i`, as far as listed.
    pub open spec fn range_len(self, i: int) -> int {
        if self.is_open_dir(i) {
            self.added as int
        } else {
            self.cells[self.slot_of(i)].value as int
        }
    }

    /// `i` is a directory that has been popped.
    pub open spec fn is_popped_dir(self, i: int) -> bool {
        0 <= i < self.popped && self.nodes[i].is_dir
    }

    /// `j` lies in the child range of the popped directory `i`.
    pub open spec fn in_range(self, i: int, j: int) -> bool {
        self.nodes[i].first_child <= j < self.nodes[i].first_child + self.range_len(i)
    }

    /// What holds of the entry at `j`: roots come first, and any other entry
    /// lies in the child range of a popped directory with a smaller index.
    pub open spec fn node_ok(self, j: int) -> bool {
        match self.nodes[j].parent {
            None => j < self.root_count,
            Some(p) => {
                &&& self.root_count <= j
                &&& self.is_popped_dir(p as int)
                &&& p < j
                &&& self.in_range(p as int, j)
            },
        }
    }

    /// What holds of the popped directory at `i`: it owns a cell, which is
    /// fulfilled unless the directory is open, and its child range starts
    /// behind it and ends within the sequence.
    pub open spec fn dir_ok(self, i: int) -> bool {
        &&& self.nodes[i].child_count is Some
        &&& 0 <= self.slot_of(i) < self.cells.len()
        &&& self.cells[self.slot_of(i)].fulfilled <==> !self.is_open_dir(i)
        &&& i < self.nodes[i].first_child
        &&& self.nodes[i].first_child + self.range_len(i) <= self.nodes.len()
        &&& (self.is_open_dir(i) ==> self.nodes[i].first_child + self.added == self.nodes.len())
    }

    /// The invariant of the flattening.
    pub open spec fn wf(self) -> bool {
        &&& self.popped <= self.nodes.len() <= u32::MAX
        &&& self.root_count <= self.nodes.len()
        &&& (self.open ==> self.popped >= 1 && self.nodes[self.popped - 1].is_dir)
        &&& forall|j: int| 0 <= j < self.nodes.len() ==> #[trigger] self.node_ok(j)
        &&& forall|i: int| self.is_popped_dir(i) ==> #[trigger] self.dir_ok(i)
        &&& forall|i: int, j: int|
            self.is_popped_dir(i) && #[trigger] self.in_range(i, j) ==> self.nodes[j].parent
                == Some(i as u32)
        &&& forall|i: int, k: int|
            self.is_popped_dir(i) && self.is_popped_dir(k) && i != k ==> #[trigger] self.slot_of(i)
                != #[trigger] self.slot_of(k)
    }

    /// No entry has been popped and no directory is open: roots may be added.
    pub open spec fn seeding(self) -> bool {
        self.popped == 0 && !self.open
    }

    /// Every entry has been popped and every listing is closed.
    pub open spec fn finished(self) -> bool {
        self.popped == self.nodes.len() && !self.open
    }

    /// `later` keeps the parent and kind of every entry of `self`, and the
    /// child range of every directory popped in `self`.
    pub open spec fn kept_by(self, later: FlatView) -> bool {
        &&& self.nodes.len() <= later.nodes.len()
        &&& self.popped <= later.popped
        &&& forall|j: int|
            0 <= j < self.nodes.len() ==> {
                &&& (#[trigger] later.nodes[j]).parent == self.nodes[j].parent
                &&& later.nodes[j].is_dir == self.nodes[j].is_dir
            }
        &&& forall|i: int|
            self.is_popped_dir(i) ==> {
                &&& (#[trigger] later.nodes[i]).first_child == self.nodes[i].first_child
                &&& later.nodes[i].child_count == self.nodes[i].child_count
            }
    }
}

/// Breadth-first index allocation over a tree that is listed on demand.
pub struct Flattener {
    nodes: Vec<FlatNode>,
    popped: usize,
    root_count: usize,
    cells: DeferredTable,
    open: Option<Vow>,
    added: u32,
}

impl View for Flattener {
    type V = FlatView;

    closed spec fn view(&self) -> FlatView {
        FlatView {
            nodes: self.nodes@,
            popped: self.popped as nat,
            root_count: self.root_count as nat,
            cells: self.cells@,
            open: self.open is Some,
            added: self.added as nat,
        }
    }
}

impl Flattener {
    /// The invariant, with what ties the write handle to the open directory.
    pub closed spec fn wf(&self) -> bool {
        &&& self@.wf()
        &&& (self.open matches Some(vow) ==> vow.slot() == self@.slot_of(self.popped - 1))
    }

    /// An empty flattener, ready to take roots: nothing queued, popped or open, and no cell.
    pub fn new() -> (flattener: Self)
        ensures
            flattener.wf(),
            flattener@.seeding(),
            flattener@ == (FlatView {
                nodes: Seq::empty(),
                popped: 0,
                root_count: 0,
                cells: Seq::empty(),
                open: false,
                added: 0,
            }),
    {
        let flattener = Flattener {
            nodes: Vec::new(),
            popped: 0,
            root_count: 0,
            cells: DeferredTable::new(),
            open: None,
            added: 0,
        };
        assert(flattener@.nodes =~= Seq::empty());
        assert(flattener@.cells =~= Seq::empty());
        flattener
    }

    /// Queues a root and returns its flat index. Roots are accepted until the
    /// first entry is popped, so that they occupy the first indices in the
    /// order in which they were given.
    pub fn push_root(&mut self, is_dir: bool) -> (index: Result<u32, FlattenError>)
        requires
            old(self).wf(),
        ensures
            final(self).wf(),
            match index {
                Ok(i) => {
                    &&& old(self)@.seeding()
                    &&& old(self)@.nodes.len() < u32::MAX
                    &&& i == old(self)@.root_count
                    &&& final(self)@ == (FlatView {
                        nodes: old(self)@.nodes.push(
                            FlatNode { parent: None, is_dir, first_child: 0, child_count: None },
                        ),
                        root_count: old(self)@.root_count + 1,
                        ..old(self)@
                    })
                },
                Err(e) => {
                    &&& final(self)@ == old(self)@
                    &&& e == FlattenError::NotSeeding || e == FlattenError::Full
                    &&& e == FlattenError::NotSeeding <==> !old(self)@.seeding()
                    &&& e == FlattenError::Full <==> old(self)@.seeding() && old(self)@.nodes.len()
                        == u32::MAX
                },
            },
    {
        if self.popped != 0 || self.open.is_some() {
            return Err(FlattenError::NotSeeding);
        }
        if self.nodes.len() >= u32::MAX as usize {
            return Err(FlattenError::Full);
        }
        proof {
            Self::lemma_seeding_is_all_roots(self@);
        }
        let index = self.nodes.len() as u32;
        self.nodes.push(FlatNode { parent: None, is_dir, first_child: 0, child_count: None });
        self.root_count = self.root_count + 1;
        proof {
            let before = old(self)@;
            let after = self@;
            assert forall|j: int| 0 <= j < after.nodes.len() implies #[trigger] after.node_ok(
                j,
            ) by {
                if j < before.nodes.len() {
                    assert(before.node_ok(j));
                }
            }
        }
        Ok(index)
    }

    /// While roots are being added every entry is a root.
    proof fn lemma_seeding_is_all_roots(v: FlatView)
        requires
            v.wf(),
            v.popped == 0,
        ensures
            v.root_count == v.nodes.len(),
    {
        if v.root_count < v.nodes.len() {
            assert(v.node_ok(v.root_count as int));
        }
    }

    /// Pops the front of the queue and returns its flat index, or `None` when
    /// the queue is empty. A popped directory is opened: its child range
    /// starts at the end of the sequence as it stands, which is the number
    /// of entries popped before it, plus the number of entries still queued
    /// behind it, plus one for the directory itself; and the number of its
    /// children is a fresh, unfulfilled cell.
    pub fn pop(&mut self) -> (index: Result<Option<u32>, FlattenError>)
        requires
            old(self).wf(),
        ensures
            final(self).wf(),
            old(self)@.kept_by(final(self)@),
            final(self)@.root_count == old(self)@.root_count,
            final(self)@.nodes.len() == old(self)@.nodes.len(),
            match index {
                Err(e) => e == FlattenError::DirectoryOpen && old(self)@.open && final(self)@
                    == old(self)@,
                Ok(None) => old(self)@.finished() && final(self)@ == old(self)@,
                Ok(Some(i)) => {
                    &&& !old(self)@.open
                    &&& i == old(self)@.popped
                    &&& i < old(self)@.nodes.len()
                    &&& final(self)@.popped == i + 1
                    &&& final(self)@.open == old(self)@.nodes[i as int].is_dir
                    &&& final(self)@.added == 0
                    &&& (old(self)@.nodes[i as int].is_dir ==> {
                        &&& final(self)@.nodes[i as int].first_child == old(self)@.nodes.len()
                        &&& final(self)@.nodes[i as int].first_child == old(self)@.popped + (old(self)@.nodes.len() - old(self)@.popped - 1) + 1
                        &&& final(self)@.cells == old(self)@.cells.push(
                            CellState { value: 0, fulfilled: false },
                        )
                        &&& final(self)@.slot_of(i as int) == old(self)@.cells.len()
                    })
                    &&& (!old(self)@.nodes[i as int].is_dir ==> final(self)@.nodes == old(self)@.nodes && final(self)@.cells == old(self)@.cells)
                },
            },
    {
        if self.open.is_some() {
            return Err(FlattenError::DirectoryOpen);
        }
        if self.popped >= self.nodes.len() {
            return Ok(None);
        }
        let i = self.popped;
        let node = self.nodes[i];
        self.popped = i + 1;
        self.added = 0;
        if node.is_dir {
            let first_child = self.nodes.len() as u32;
            let (bound, vow) = self.cells.create(0);
            self.nodes.set(
                i,
                FlatNode {
                    parent: node.parent,
                    is_dir: true,
                    first_child,
                    child_count: Some(bound),
                },
            );
            self.open = Some(vow);
        }
        proof {
            let before = old(self)@;
            let after = self@;
            assert forall|k: int| before.is_popped_dir(k) implies after.is_popped_dir(k)
                && after.nodes[k] == before.nodes[k] && after.range_len(k) == before.range_len(k)
                && after.dir_ok(k) by {
                assert(before.dir_ok(k));
            }
            assert forall|k: int| after.is_popped_dir(k) implies #[trigger] after.dir_ok(k) by {
                if k != i {
                    assert(before.is_popped_dir(k));
                }
            }
            assert forall|j: int| 0 <= j < after.nodes.len() implies #[trigger] after.node_ok(
                j,
            ) by {
                assert(before.node_ok(j));
            }
            assert forall|a: int, j: int|
                after.is_popped_dir(a) && #[trigger] after.in_range(a, j) implies after.nodes[j].parent
                == Some(a as u32) by {
                if a != i {
                    assert(before.is_popped_dir(a));
                    assert(before.in_range(a, j));
                }
            }
            assert forall|a: int, k: int|
                after.is_popped_dir(a) && after.is_popped_dir(k) && a != k implies #[trigger] after.slot_of(
                a,
            ) != #[trigger] after.slot_of(k) by {
                if a != i {
                    assert(before.is_popped_dir(a));
                    assert(before.dir_ok(a));
                }
                if k != i {
                    assert(before.is_popped_dir(k));
                    assert(before.dir_ok(k));
                }
            }
        }
        Ok(Some(i as u32))
    }

    /// Appends a child of the open directory to the queue and returns the
    /// flat index it will be popped with.
    pub fn push_child(&mut self, is_dir: bool) -> (index: Result<u32, FlattenError>)
        requires
            old(self).wf(),
        ensures
            final(self).wf(),
            old(self)@.kept_by(final(self)@),
            match index {
                Ok(j) => {
                    &&& old(self)@.open
                    &&& j == old(self)@.nodes.len()
                    &&& j == old(self)@.nodes[old(self)@.popped - 1].first_child + old(self)@.added
                    &&& final(self)@ == (FlatView {
                        nodes: old(self)@.nodes.push(
                            FlatNode {
                                parent: Some((old(self)@.popped - 1) as u32),
                                is_dir,
                                first_child: 0,
                                child_count: None,
                            },
                        ),
                        added: old(self)@.added + 1,
                        ..old(self)@
                    })
                },
                Err(e) => {
                    &&& final(self)@ == old(self)@
                    &&& e == FlattenError::NoDirectoryOpen || e == FlattenError::Full
                    &&& e == FlattenError::NoDirectoryOpen <==> !old(self)@.open
                    &&& e == FlattenError::Full <==> old(self)@.open && old(self)@.nodes.len()
                        == u32::MAX
                },
            },
    {
        if self.open.is_none() {
            return Err(FlattenError::NoDirectoryOpen);
        }
        if self.nodes.len() >= u32::MAX as usize {
            return Err(FlattenError::Full);
        }
        let dir = self.popped - 1;
        assert(self@.dir_ok(dir as int));
        let index = self.nodes.len() as u32;
        self.nodes.push(
            FlatNode { parent: Some(dir as u32), is_dir, first_child: 0, child_count: None },
        );
        self.added = self.added + 1;
        proof {
            let before = old(self)@;
            let after = self@;
            assert forall|k: int| before.is_popped_dir(k) implies #[trigger] after.range_len(k)
                == before.range_len(k) + (if k == dir {
                1int
            } else {
                0int
            }) by {
                assert(before.dir_ok(k));
            }
            assert forall|k: int| after.is_popped_dir(k) implies #[trigger] after.dir_ok(k) by {
                assert(before.dir_ok(k));
                assert(after.range_len(k) <= before.range_len(k) + 1);
            }
            assert forall|j: int| 0 <= j < after.nodes.len() implies #[trigger] after.node_ok(
                j,
            ) by {
                if j < before.nodes.len() {
                    assert(before.node_ok(j));
                    if let Some(p) = before.nodes[j].parent {
                        assert(after.range_len(p as int) >= before.range_len(p as int));
                    }
                } else {
                    assert(after.range_len(dir as int) == before.added + 1);
                }
            }
            assert forall|a: int, j: int|
                after.is_popped_dir(a) && #[trigger] after.in_range(a, j) implies after.nodes[j].parent
                == Some(a as u32) by {
                assert(before.dir_ok(a));
                assert(after.range_len(a) <= before.range_len(a) + 1);
                if j < before.nodes.len() {
                    assert(before.in_range(a, j));
                }
            }
            assert forall|a: int, k: int|
                after.is_popped_dir(a) && after.is_popped_dir(k) && a != k implies #[trigger] after.slot_of(
                a,
            ) != #[trigger] after.slot_of(k) by {
                assert(before.slot_of(a) != before.slot_of(k));
            }
        }
        Ok(index)
    }

    /// Closes the open directory: fulfils its deferred child count with the
    /// number of children appended since it was popped, and returns that
    /// number.
    pub fn close(&mut self) -> (count: Result<u32, FlattenError>)
        requires
            old(self).wf(),
        ensures
            final(self).wf(),
            old(self)@.kept_by(final(self)@),
            match count {
                Ok(n) => {
                    &&& old(self)@.open
                    &&& n == old(self)@.added
                    &&& final(self)@ == (FlatView {
                        cells: old(self)@.cells.update(
                            old(self)@.slot_of(old(self)@.popped - 1),
                            CellState { value: n as u64, fulfilled: true },
                        ),
                        open: false,
                        ..old(self)@
                    })
                    &&& final(self)@.range_len(old(self)@.popped - 1) == n
                },
                Err(e) => e == FlattenError::NoDirectoryOpen && !old(self)@.open && final(self)@
                    == old(self)@,
            },
    {
        let vow = match self.open.take() {
            Some(vow) => vow,
            None => {
                return Err(FlattenError::NoDirectoryOpen);
            },
        };
        let ghost dir = self.popped - 1;
        assert(old(self)@.dir_ok(dir));
        let count = self.added;
        self.cells.fulfil(vow, count as u64);
        proof {
            let before = old(self)@;
            let after = self@;
            assert forall|k: int| before.is_popped_dir(k) implies #[trigger] after.range_len(k)
                == before.range_len(k) by {
                assert(before.dir_ok(k));
                if k != dir {
                    assert(before.is_popped_dir(dir));
                    assert(before.slot_of(k) != before.slot_of(dir));
                }
            }
            assert forall|k: int| after.is_popped_dir(k) implies #[trigger] after.dir_ok(k) by {
                assert(before.dir_ok(k));
                assert(after.range_len(k) == before.range_len(k));
                if k != dir {
                    assert(before.is_popped_dir(dir));
                    assert(before.slot_of(k) != before.slot_of(dir));
                }
            }
            assert forall|j: int| 0 <= j < after.nodes.len() implies #[trigger] after.node_ok(
                j,
            ) by {
                assert(before.node_ok(j));
                if let Some(p) = before.nodes[j].parent {
                    assert(after.range_len(p as int) == before.range_len(p as int));
                }
            }
            assert forall|a: int, j: int|
                after.is_popped_dir(a) && #[trigger] after.in_range(a, j) implies after.nodes[j].parent
                == Some(a as u32) by {
                assert(after.range_len(a) == before.range_len(a));
                assert(before.in_range(a, j));
            }
            assert forall|a: int, k: int|
                after.is_popped_dir(a) && after.is_popped_dir(k) && a != k implies #[trigger] after.slot_of(
                a,
            ) != #[trigger] after.slot_of(k) by {
                assert(before.slot_of(a) != before.slot_of(k));
            }
        }
        Ok(count)
    }

    /// What the invariant says of the view.
    pub proof fn lemma_view_wf(&self)
        requires
            self.wf(),
        ensures
            self@.wf(),
    {
    }

    /// Number of entries that have a flat index, popped or queued.
    pub fn len(&self) -> (n: usize)
        ensures
            n == self@.nodes.len(),
    {
        self.nodes.len()
    }

    /// Number of entries popped so far.
    pub fn popped(&self) -> (n: usize)
        ensures
            n == self@.popped,
    {
        self.popped
    }

    /// Number of roots.
    pub fn root_count(&self) -> (n: usize)
        ensures
            n == self@.root_count,
    {
        self.root_count
    }

    /// Whether a directory is waiting for its listing.
    pub fn is_open(&self) -> (open: bool)
        ensures
            open == self@.open,
    {
        self.open.is_some()
    }

    /// Whether every entry has been popped and every listing closed.
    pub fn is_finished(&self) -> (done: bool)
        ensures
            done == self@.finished(),
    {
        self.popped == self.nodes.len() && self.open.is_none()
    }

    /// The entry at flat index `index`.
    pub fn node(&self, index: u32) -> (node: Option<FlatNode>)
        ensures
            node == (if index < self@.nodes.len() {
                Some(self@.nodes[index as int])
            } else {
                None
            }),
    {
        if (index as usize) < self.nodes.len() {
            Some(self.nodes[index as usize])
        } else {
            None
        }
    }

    /// The cells that hold the deferred child counts.
    pub fn cells(&self) -> (cells: &DeferredTable)
        ensures
            cells@ == self@.cells,
    {
        &self.cells
    }

    /// Number of children of the directory at `index`, once its listing is
    /// closed; `None` for anything else.
    pub fn child_count(&self, index: u32) -> (count: Option<u32>)
        requires
            self.wf(),
        ensures
            count is Some <==> self@.is_popped_dir(index as int) && !self@.is_open_dir(
                index as int,
            ),
            count matches Some(n) ==> n == self@.range_len(index as int),
    {
        if (index as usize) >= self.popped {
            return None;
        }
        let node = self.nodes[index as usize];
        if !node.is_dir {
            return None;
        }
        assert(self@.is_popped_dir(index as int));
        assert(self@.dir_ok(index as int));
        match node.child_count {
            Some(bound) => match self.cells.resolve(bound) {
                Some(n) => Some(n as u32),
                None => None,
            },
            None => None,
        }
    }
}

/// The entries whose parent is a popped directory are exactly the entries of
/// that directory's child range: the range is contiguous, holds nothing
/// else, and is as long as the number of children listed.
pub proof fn lemma_children_are_one_range(v: FlatView, d: int, j: int)
    requires
        v.wf(),
        v.is_popped_dir(d),
        0 <= j < v.nodes.len(),
    ensures
        v.nodes[j].parent == Some(d as u32) <==> v.in_range(d, j),
{
    assert(v.node_ok(j));
}

/// The child range of a popped directory starts behind the directory and
/// ends within the sequence.
pub proof fn lemma_child_range_follows(v: FlatView, d: int)
    requires
        v.wf(),
        v.is_popped_dir(d),
    ensures
        d < v.nodes[d].first_child,
        0 <= v.range_len(d),
        v.nodes[d].first_child + v.range_len(d) <= v.nodes.len(),
{
    assert(v.dir_ok(d));
}

/// The parent recorded for an entry is a directory that was popped before
/// the entry was queued, so its flat index is smaller and already final.
pub proof fn lemma_parent_precedes(v: FlatView, j: int)
    requires
        v.wf(),
        0 <= j < v.nodes.len(),
        v.nodes[j].parent is Some,
    ensures
        v.is_popped_dir(v.nodes[j].parent->0 as int),
        v.nodes[j].parent->0 < j,
        v.in_range(v.nodes[j].parent->0 as int, j),
{
    assert(v.node_ok(j));
}

/// The roots are the entries without a parent, and they occupy the indices
/// below the root count.
pub proof fn lemma_roots_come_first(v: FlatView, j: int)
    requires
        v.wf(),
        0 <= j < v.nodes.len(),
    ensures
        v.nodes[j].parent is None <==> j < v.root_count,
{
    assert(v.node_ok(j));
}

/// Once the flattening is finished every directory's child count is
/// fulfilled, with the length of its child range.
pub proof fn lemma_finished_is_resolved(v: FlatView, d: int)
    requires
        v.wf(),
        v.finished(),
        0 <= d < v.nodes.len(),
        v.nodes[d].is_dir,
    ensures
        v.nodes[d].child_count is Some,
        DeferredTable::resolved(v.cells, v.slot_of(d)) == Some(v.range_len(d) as u64),
{
    assert(v.is_popped_dir(d));
    assert(v.dir_ok(d));
}

} // verus!
