//! The traversal that fills the tables.
//!
//! The tree is walked breadth first. The caller lists directories; this
//! module decides everything else. Roots are queued first; a root that is
//! the stripped prefix itself is listed in their place. Then, one entry
//! at a time, the front of the queue receives the next flat index, its
//! content goes to the content store if it is a file, and its records go
//! into the tables. A directory is recorded before it is listed: its record
//! names the index that its first child will receive and holds the number
//! of its children as a deferred value, which is fulfilled when the caller
//! ends the listing.

pub use crate::fs_entry::{Adder, FsEntry, FsEntryKind};
use std::collections::VecDeque;
use vstd::prelude::*;
use crate::arx_creator::{resolvable, ArxRowView};
use crate::create::{arx_after, jim_after, unrecordable, EntryStoreCreator, StoresView};
use crate::deferred::{CellState, DeferredTable};
use crate::flatten::{
    lemma_children_are_one_range, lemma_finished_is_resolved, FlatNode, FlatView, FlattenError,
    Flattener,
};
use crate::fs_entry::{
    entry_of, needs_content, ContentAddress, StoreError, WalkEntry, WalkView,
};
use crate::jim_creator::MAX_TEXT;
use crate::paths::{bytes_of, file_name, file_name_of, strip_prefix, stripped_path};

verus! {

/// Why the traversal refused a step.
#[derive(Debug)]
pub enum AddError {
    /// The path does not lie under the prefix that names are stripped of.
    NotUnderPrefix,
    /// The name of the entry in the archive has no final component.
    NoFileName,
    /// A root was offered after the first entry had been recorded.
    NotSeeding,
    /// A directory waits for its listing to be ended.
    ListingExpected,
    /// No directory waits for children.
    NoListingExpected,
    /// All flat indices are used.
    Full,
    /// Entries are still queued, or a listing is not ended.
    Unfinished,
    /// A regular file is to be recorded, and the address of its content is
    /// missing.
    ContentExpected,
    /// The path of the entry, or the target of a link, has more bytes than a
    /// record of the web schema can hold; the run cannot go on.
    TooLong,
    /// The content store failed; the run cannot go on.
    Store(StoreError),
}

/// What became of a path offered as a root or as a child.
#[derive(Clone, Copy, Debug, PartialEq, Eq, Structural)]
pub enum Seeded {
    /// The entry is queued and will receive this flat index.
    Queued(u32),
    /// The entry is neither a directory, a file nor a link: no schema
    /// records it, and it is left out.
    Skipped,
    /// The path is the stripped prefix itself, so the entry has no name in
    /// the archive. It is left out, and it is not listed.
    Prefix,
    /// The path is the stripped prefix itself, and it is a directory to be
    /// listed. It is left out and is now open: the children found at the
    /// path are to be added, and the listing ended. They are the roots.
    Listing,
    /// The filter turned the entry down.
    Filtered,
}

/// What the traversal did, and what it needs next.
#[derive(Debug)]
pub enum Step {
    /// The queue is empty: every entry is recorded.
    Done,
    /// The entry with this flat index is recorded.
    Recorded(u32),
    /// The directory with this flat index is recorded and is now open: the
    /// children found at the path are to be added, and the listing ended.
    List(u32, String),
}

/// An entry that waits in the queue.
struct Queued {
    walk: WalkEntry,
    name: String,
    recurse: bool,
}

/// A queued entry as contracts see it.
pub struct QueuedView {
    /// What the walker reported.
    pub walk: WalkView,
    /// The path of the entry in the archive.
    pub name: Seq<char>,
    /// Whether the entry is listed if it is a directory.
    pub recurse: bool,
}

impl View for Queued {
    type V = QueuedView;

    closed spec fn view(&self) -> QueuedView {
        QueuedView { walk: self.walk@, name: self.name@, recurse: self.recurse }
    }
}

/// The traversal as contracts see it.
pub struct AdderView {
    /// The prefix that names in the archive are stripped of.
    pub prefix: Seq<char>,
    /// The flat sequence.
    pub flat: FlatView,
    /// The entries that wait for their turn, the next one first.
    pub queue: Seq<QueuedView>,
    /// The tables.
    pub stores: StoresView,
    /// Whether the stripped prefix itself is being listed: the children
    /// that are added are roots.
    pub listing_roots: bool,
    /// Number of roots queued since the listing of the prefix began.
    pub roots_added: nat,
}

/// Some schema records a node of this kind.
pub open spec fn recorded(walk: WalkView) -> bool {
    walk.is_dir || walk.is_file || walk.is_symlink
}

/// The record and the place of one entry agree: the record names the
/// parent of the place, it is a directory record exactly for a directory,
/// and then it holds the child range of the place.
pub open spec fn row_tied(row: ArxRowView, node: FlatNode) -> bool {
    &&& row.parent() == node.parent
    &&& row is Dir <==> node.is_dir
    &&& row matches ArxRowView::Dir { first_entry, nb_entries, .. } ==> first_entry
        == node.first_child && node.child_count == Some(nb_entries)
}

/// The filesystem table holds, at each flat index that has been given out,
/// the record of the entry at that index.
pub open spec fn tied(flat: FlatView, rows: Seq<ArxRowView>) -> bool {
    &&& rows.len() == flat.popped
    &&& forall|i: int| 0 <= i < rows.len() ==> row_tied(#[trigger] rows[i], flat.nodes[i])
}

impl AdderView {
    /// The queued entry at `k` is of the kind that the flat sequence has
    /// noted for it, some schema records it, and it has a name to be
    /// recorded by.
    pub open spec fn queued_ok(self, k: int) -> bool {
        &&& self.queue[k].walk.is_dir == self.flat.nodes[self.flat.popped + k].is_dir
        &&& recorded(self.queue[k].walk)
        &&& file_name_of(self.queue[k].name) is Some
    }

    /// The queue, the flat sequence and the tables describe one traversal.
    pub open spec fn coherent(self) -> bool {
        &&& self.flat.wf()
        &&& self.queue.len() == self.flat.nodes.len() - self.flat.popped
        &&& forall|k: int| 0 <= k < self.queue.len() ==> #[trigger] self.queued_ok(k)
        &&& tied(self.flat, self.stores.arx.rows)
        &&& self.stores.waj.rows.len() <= self.flat.popped
        &&& self.stores.jim.rows.len() <= self.flat.popped
        &&& (self.listing_roots ==> self.flat.seeding() && self.roots_added
            <= self.flat.nodes.len())
    }

    /// Every entry is recorded and every listing ended.
    pub open spec fn finished(self) -> bool {
        self.flat.finished() && !self.listing_roots
    }

    /// The web schema cannot record the entry at the front of the queue.
    pub open spec fn front_unrecordable(self) -> bool {
        unrecordable(
            entry_of(
                self.queue[0].walk,
                self.queue[0].name,
                ContentAddress { pack_id: 0, content_id: 0 },
            ),
        )
    }
}

/// Why the path `walk`, whose name in the archive is `name`, is not
/// queued, if it is not: it is refused, or it is left out. `None` means
/// that the path may be queued. `name` is `None` for a path that does not
/// lie under the prefix.
pub open spec fn screened(walk: WalkView, name: Option<Seq<char>>) -> Option<
    Result<Seeded, AddError>,
> {
    match name {
        None => Some(Err(AddError::NotUnderPrefix)),
        Some(name) => if name.len() == 0 {
            Some(Ok(Seeded::Prefix))
        } else if !recorded(walk) {
            Some(Ok(Seeded::Skipped))
        } else if file_name_of(name) is None {
            Some(Err(AddError::NoFileName))
        } else {
            None
        },
    }
}

/// Breadth-first traversal of the input tree into the tables.
pub struct FsAdder {
    creator: EntryStoreCreator,
    strip_prefix: String,
    flattener: Flattener,
    queue: VecDeque<Queued>,
    listing_roots: bool,
    roots_added: u32,
}

impl View for FsAdder {
    type V = AdderView;

    closed spec fn view(&self) -> AdderView {
        AdderView {
            prefix: self.strip_prefix@,
            flat: self.flattener@,
            queue: self.queue@.map_values(|q: Queued| q@),
            stores: self.creator@,
            listing_roots: self.listing_roots,
            roots_added: self.roots_added as nat,
        }
    }
}

impl FsAdder {
    /// The invariant of the traversal.
    pub closed spec fn wf(&self) -> bool {
        &&& self.flattener.wf()
        &&& self.creator.wf()
        &&& self@.coherent()
    }

    /// What the invariant says of the view.
    pub proof fn lemma_view_coherent(&self)
        requires
            self.wf(),
        ensures
            self@.coherent(),
    {
    }

    /// A traversal that fills `creator`, which must be empty, and strips
    /// `strip_prefix` from the paths it is given.
    pub fn new(creator: EntryStoreCreator, strip_prefix: String) -> (adder: Self)
        requires
            creator.wf(),
            creator@.arx.rows.len() == 0,
            creator@.waj.rows.len() == 0,
            creator@.jim.rows.len() == 0,
        ensures
            adder.wf(),
            adder@.prefix == strip_prefix@,
            adder@.stores == creator@,
            adder@.queue.len() == 0,
            adder@.flat.seeding(),
            adder@.flat.nodes.len() == 0,
            adder@.flat.root_count == 0,
            !adder@.listing_roots,
            adder@.roots_added == 0,
    {
        let flattener = Flattener::new();
        proof {
            flattener.lemma_view_wf();
        }
        FsAdder {
            creator,
            strip_prefix,
            flattener,
            queue: VecDeque::new(),
            listing_roots: false,
            roots_added: 0,
        }
    }

    /// Whether the web schema cannot record the entry at the front of the
    /// queue.
    fn front_too_long(&self) -> (too_long: bool)
        requires
            self.queue@.len() > 0,
        ensures
            too_long == self@.front_unrecordable(),
    {
        let front = &self.queue[0];
        if front.walk.is_dir {
            false
        } else if front.walk.is_file {
            bytes_of(front.name.as_str()).len() > MAX_TEXT
        } else if front.walk.is_symlink {
            bytes_of(front.name.as_str()).len() > MAX_TEXT || bytes_of(
                front.walk.link_target.as_str(),
            ).len() > MAX_TEXT
        } else {
            false
        }
    }

    /// Queues `walk` as a root under the name `name`.
    fn queue_root(&mut self, walk: WalkEntry, name: String, recurse: bool) -> (done: Result<
        Seeded,
        AddError,
    >)
        requires
            old(self).wf(),
            screened(walk@, Some(name@)) is None,
        ensures
            final(self).wf(),
            Self::root_queued(old(self)@, final(self)@, walk@, name@, recurse, done),
    {
        let ghost before = self@;
        let index = match self.flattener.push_root(walk.is_dir) {
            Ok(index) => index,
            Err(FlattenError::Full) => {
                return Err(AddError::Full);
            },
            Err(_) => {
                return Err(AddError::NotSeeding);
            },
        };
        let ghost queued = QueuedView { walk: walk@, name: name@, recurse };
        self.queue.push_back(Queued { walk, name, recurse });
        proof {
            self.flattener.lemma_view_wf();
            let after = self@;
            assert(after.queue =~= before.queue.push(queued));
            assert forall|k: int| 0 <= k < after.queue.len() implies #[trigger] after.queued_ok(
                k,
            ) by {
                if k < before.queue.len() {
                    assert(before.queued_ok(k));
                }
            }
        }
        Ok(Seeded::Queued(index))
    }

    /// How queueing a root changed the traversal, and what the answer was.
    /// A root is accepted while no entry has been recorded; it is queued
    /// behind the roots given before, and its flat index is their number.
    pub open spec fn root_queued(
        before: AdderView,
        after: AdderView,
        walk: WalkView,
        name: Seq<char>,
        recurse: bool,
        done: Result<Seeded, AddError>,
    ) -> bool {
        if !before.flat.seeding() {
            (done matches Err(AddError::NotSeeding)) && after == before
        } else if before.flat.nodes.len() >= u32::MAX {
            (done matches Err(AddError::Full)) && after == before
        } else {
            &&& done == Ok::<Seeded, AddError>(Seeded::Queued(before.flat.root_count as u32))
            &&& after == (AdderView {
                flat: FlatView {
                    nodes: before.flat.nodes.push(
                        FlatNode {
                            parent: None,
                            is_dir: walk.is_dir,
                            first_child: 0,
                            child_count: None,
                        },
                    ),
                    root_count: before.flat.root_count + 1,
                    ..before.flat
                },
                queue: before.queue.push(QueuedView { walk, name, recurse }),
                ..before
            })
        }
    }

    /// Decides what becomes of `walk`: its name in the archive, if it is to
    /// be queued, or why it is left out or refused.
    fn screen(&self, walk: &WalkEntry) -> (outcome: Result<String, Result<Seeded, AddError>>)
        ensures
            match outcome {
                Ok(name) => {
                    &&& stripped_path(walk@.path, self@.prefix) == Some(name@)
                    &&& screened(walk@, Some(name@)) is None
                },
                Err(early) => screened(walk@, stripped_path(walk@.path, self@.prefix)) == Some(
                    early,
                ),
            },
    {
        let name = match strip_prefix(walk.path.as_str(), self.strip_prefix.as_str()) {
            Some(name) => name,
            None => {
                return Err(Err(AddError::NotUnderPrefix));
            },
        };
        if name.as_str().is_empty() {
            return Err(Ok(Seeded::Prefix));
        }
        if !(walk.is_dir || walk.is_file || walk.is_symlink) {
            return Err(Ok(Seeded::Skipped));
        }
        if file_name(name.as_str()).is_none() {
            return Err(Err(AddError::NoFileName));
        }
        Ok(name)
    }

    /// Offers `root` as a root of the archive. A root that is accepted is
    /// queued behind the roots given before and receives the next flat
    /// index; its name is its path without the prefix. `recurse` says
    /// whether the root, if it is a directory, is to be listed.
    ///
    /// A root that is the prefix itself has no name and is left out. If it
    /// is a directory to be listed, what it contains are the roots: it is
    /// opened, and every child added until the listing is ended is a root.
    pub fn add_from_path(&mut self, root: WalkEntry, recurse: bool) -> (done: Result<Seeded, AddError>)
        requires
            old(self).wf(),
        ensures
            final(self).wf(),
            Self::seeded_as(old(self)@, final(self)@, root@, recurse, done),
    {
        if self.listing_roots {
            return Err(AddError::ListingExpected);
        }
        let name = match self.screen(&root) {
            Ok(name) => name,
            Err(Ok(Seeded::Prefix)) => {
                if !(root.is_dir && recurse) {
                    return Ok(Seeded::Prefix);
                }
                if self.flattener.popped() != 0 || self.flattener.is_open() {
                    return Err(AddError::NotSeeding);
                }
                let ghost before = self@;
                self.listing_roots = true;
                self.roots_added = 0;
                proof {
                    self.flattener.lemma_view_wf();
                    lemma_flags_keep_coherent(before, self@);
                }
                return Ok(Seeded::Listing);
            },
            Err(early) => {
                return early;
            },
        };
        self.queue_root(root, name, recurse)
    }

    /// Offers `root` as a root of the archive if `filter` lets it pass.
    /// What passes is treated as by [`FsAdder::add_from_path`]; what does
    /// not is left out, and nothing changes.
    pub fn add_from_path_with_filter<F: Fn(&WalkEntry) -> bool>(
        &mut self,
        root: WalkEntry,
        recurse: bool,
        filter: F,
    ) -> (done: Result<Seeded, AddError>)
        requires
            old(self).wf(),
            filter.requires((&root,)),
        ensures
            final(self).wf(),
            (done matches Ok(Seeded::Filtered)) ==> filter.ensures((&root,), false) && final(self)@
                == old(self)@,
            !(done matches Ok(Seeded::Filtered)) ==> filter.ensures((&root,), true)
                && Self::seeded_as(old(self)@, final(self)@, root@, recurse, done),
    {
        if !filter(&root) {
            return Ok(Seeded::Filtered);
        }
        self.add_from_path(root, recurse)
    }

    /// Offers `child` as a child of the open directory if `filter` lets it
    /// pass. What passes is treated as by [`FsAdder::add_child`]; what does
    /// not is left out, it is not counted as a child, and what it contains
    /// is never listed.
    pub fn add_child_with_filter<F: Fn(&WalkEntry) -> bool>(&mut self, child: WalkEntry, filter: F) -> (done:
        Result<Seeded, AddError>)
        requires
            old(self).wf(),
            filter.requires((&child,)),
        ensures
            final(self).wf(),
            (done matches Ok(Seeded::Filtered)) ==> filter.ensures((&child,), false) && final(self)@ == old(self)@,
            !(done matches Ok(Seeded::Filtered)) ==> filter.ensures((&child,), true)
                && Self::child_added(old(self)@, final(self)@, child@, done),
    {
        if !filter(&child) {
            return Ok(Seeded::Filtered);
        }
        self.add_child(child)
    }

    /// The path whose bytes the next step hands to the content store: that
    /// of the entry at the front of the queue, if it is a regular file that
    /// can be recorded and nothing is being listed.
    pub fn content_request(&self) -> (path: Option<&str>)
        ensures
            path is Some <==> Self::wants_content(self@),
            path matches Some(p) ==> p@ == self@.queue[0].walk.path,
    {
        if self.listing_roots || self.flattener.is_open() || self.queue.len() == 0 {
            None
        } else if self.front_too_long() {
            None
        } else {
            self.queue[0].walk.content_request()
        }
    }

    /// Records the entry at the front of the queue. It receives the next
    /// flat index, and every table takes its record of the entry; `address`
    /// is what the content store answered if the entry is a regular file.
    /// A directory that is to be listed is left open, and the step asks for
    /// its listing; any other directory is closed at once, with no
    /// children. An entry that the web schema cannot record, because its
    /// path or target is too long, is refused, and nothing changes.
    pub fn record(&mut self, address: Option<ContentAddress>) -> (step: Result<Step, AddError>)
        requires
            old(self).wf(),
        ensures
            final(self).wf(),
            Self::recorded_as(old(self)@, final(self)@, address, step),
    {
        if self.listing_roots || self.flattener.is_open() {
            return Err(AddError::ListingExpected);
        }
        proof {
            self.flattener.lemma_view_wf();
        }
        if self.queue.len() == 0 {
            return Ok(Step::Done);
        }
        let ghost before = self@;
        assert(before.queued_ok(0));
        if self.front_too_long() {
            return Err(AddError::TooLong);
        }
        if address.is_none() && self.queue[0].walk.content_request().is_some() {
            return Err(AddError::ContentExpected);
        }
        let queued = self.queue.pop_front().unwrap();
        assert(queued@ == before.queue[0]);
        let recurse = queued.recurse;
        let entry = FsEntry::assemble(queued.walk, queued.name, address).unwrap();
        let index = self.flattener.pop().unwrap().unwrap();
        proof {
            self.flattener.lemma_view_wf();
        }
        let node = self.flattener.node(index).unwrap();
        let ghost popped = self.flattener@;
        assert(popped.node_ok(index as int));
        assert(node.is_dir ==> popped.dir_ok(index as int));
        self.creator.add_entry(&entry, node).unwrap();
        proof {
            let rows = self.creator@.arx.rows;
            assert forall|i: int| 0 <= i < rows.len() implies row_tied(
                #[trigger] rows[i],
                popped.nodes[i],
            ) by {
                if i < index {
                    assert(row_tied(before.stores.arx.rows[i], before.flat.nodes[i]));
                    if before.flat.nodes[i].is_dir {
                        assert(before.flat.is_popped_dir(i));
                    }
                }
            }
            assert(self@.queue =~= before.queue.skip(1));
            assert forall|k: int| 0 <= k < self@.queue.len() implies #[trigger] self@.queued_ok(
                k,
            ) by {
                assert(before.queued_ok(k + 1));
            }
        }
        if !node.is_dir {
            return Ok(Step::Recorded(index));
        }
        if recurse {
            let path = entry.path().to_owned();
            return Ok(Step::List(index, path));
        }
        self.flattener.close().unwrap();
        proof {
            self.flattener.lemma_view_wf();
            let after = self@;
            assert forall|i: int| 0 <= i < after.stores.arx.rows.len() implies row_tied(
                #[trigger] after.stores.arx.rows[i],
                after.flat.nodes[i],
            ) by {
                assert(row_tied(after.stores.arx.rows[i], popped.nodes[i]));
                if popped.nodes[i].is_dir {
                    assert(popped.is_popped_dir(i));
                }
            }
            assert forall|k: int| 0 <= k < after.queue.len() implies #[trigger] after.queued_ok(
                k,
            ) by {
                assert(before.queued_ok(k + 1));
            }
        }
        Ok(Step::Recorded(index))
    }

    /// Records the entry at the front of the queue, as [`FsAdder::record`]
    /// does, after handing its bytes to `adder` if it is a regular file. The
    /// store is asked at most once, for the path that
    /// [`FsAdder::content_request`] names. If the store fails, nothing has
    /// changed.
    pub fn next<A: Adder>(&mut self, adder: &mut A) -> (step: Result<Step, AddError>)
        requires
            old(self).wf(),
        ensures
            final(self).wf(),
            Self::stepped(old(self)@, final(self)@, step),
    {
        let address = match self.content_request() {
            Some(path) => match adder.add(path) {
                Ok(address) => Some(address),
                Err(error) => {
                    return Err(AddError::Store(error));
                },
            },
            None => None,
        };
        self.record(address)
    }

    /// How offering `root` as a root changed the traversal, and what the
    /// answer was. While the prefix is being listed no other root is taken.
    /// A path that is left out or refused changes nothing. A root that is
    /// the prefix itself and a directory to be listed is opened, while no
    /// entry has been recorded. Any other root is queued: see
    /// [`FsAdder::root_queued`].
    pub open spec fn seeded_as(
        before: AdderView,
        after: AdderView,
        root: WalkView,
        recurse: bool,
        done: Result<Seeded, AddError>,
    ) -> bool {
        if before.listing_roots {
            (done matches Err(AddError::ListingExpected)) && after == before
        } else {
            match screened(root, stripped_path(root.path, before.prefix)) {
                None => Self::root_queued(
                    before,
                    after,
                    root,
                    stripped_path(root.path, before.prefix)->0,
                    recurse,
                    done,
                ),
                Some(Ok(Seeded::Prefix)) => if !(root.is_dir && recurse) {
                    done == Ok::<Seeded, AddError>(Seeded::Prefix) && after == before
                } else if !before.flat.seeding() {
                    (done matches Err(AddError::NotSeeding)) && after == before
                } else {
                    done == Ok::<Seeded, AddError>(Seeded::Listing) && after == (AdderView {
                        listing_roots: true,
                        roots_added: 0,
                        ..before
                    })
                },
                Some(early) => done == early && after == before,
            }
        }
    }

    /// How offering `child` as a child changed the traversal, and what the
    /// answer was. A child that is left out or refused changes nothing.
    /// While the prefix is being listed the child is a root and is queued as
    /// one. Otherwise it is a child of the open directory: it is queued
    /// last, its flat index is the next free one, and its parent is the open
    /// directory.
    pub open spec fn child_added(
        before: AdderView,
        after: AdderView,
        child: WalkView,
        done: Result<Seeded, AddError>,
    ) -> bool {
        match screened(child, stripped_path(child.path, before.prefix)) {
            Some(early) => done == early && after == before,
            None => if before.listing_roots {
                if before.flat.nodes.len() >= u32::MAX {
                    (done matches Err(AddError::Full)) && after == before
                } else {
                    &&& done == Ok::<Seeded, AddError>(Seeded::Queued(before.flat.root_count as u32))
                    &&& after == (AdderView {
                        flat: FlatView {
                            nodes: before.flat.nodes.push(
                                FlatNode {
                                    parent: None,
                                    is_dir: child.is_dir,
                                    first_child: 0,
                                    child_count: None,
                                },
                            ),
                            root_count: before.flat.root_count + 1,
                            ..before.flat
                        },
                        queue: before.queue.push(
                            QueuedView {
                                walk: child,
                                name: stripped_path(child.path, before.prefix)->0,
                                recurse: true,
                            },
                        ),
                        roots_added: before.roots_added + 1,
                        ..before
                    })
                }
            } else if !before.flat.open {
                (done matches Err(AddError::NoListingExpected)) && after == before
            } else if before.flat.nodes.len() >= u32::MAX {
                (done matches Err(AddError::Full)) && after == before
            } else {
                &&& done == Ok::<Seeded, AddError>(Seeded::Queued(before.flat.nodes.len() as u32))
                &&& after == (AdderView {
                    flat: FlatView {
                        nodes: before.flat.nodes.push(
                            FlatNode {
                                parent: Some((before.flat.popped - 1) as u32),
                                is_dir: child.is_dir,
                                first_child: 0,
                                child_count: None,
                            },
                        ),
                        added: before.flat.added + 1,
                        ..before.flat
                    },
                    queue: before.queue.push(
                        QueuedView {
                            walk: child,
                            name: stripped_path(child.path, before.prefix)->0,
                            recurse: true,
                        },
                    ),
                    ..before
                })
            },
        }
    }

    /// The next step hands a file to the content store: nothing is being
    /// listed, and the entry at the front of the queue is a regular file
    /// that can be recorded.
    pub open spec fn wants_content(view: AdderView) -> bool {
        &&& !view.listing_roots
        &&& !view.flat.open
        &&& view.queue.len() > 0
        &&& needs_content(view.queue[0].walk)
        &&& !view.front_unrecordable()
    }

    /// How recording with the store's answer `address` changed the
    /// traversal, and what the answer was. While a listing is open no entry
    /// is recorded. An empty queue means that everything is recorded. An
    /// entry whose path or target is too long for the web schema is refused.
    /// A regular file is not recorded without the address of its content.
    /// Otherwise the front of the queue is recorded, and its listing is
    /// asked for exactly if it is a directory that is to be listed.
    pub open spec fn recorded_as(
        before: AdderView,
        after: AdderView,
        address: Option<ContentAddress>,
        step: Result<Step, AddError>,
    ) -> bool {
        &&& after.prefix == before.prefix
        &&& if before.flat.open || before.listing_roots {
            (step matches Err(AddError::ListingExpected)) && after == before
        } else if before.queue.len() == 0 {
            (step matches Ok(Step::Done)) && after == before
        } else if before.front_unrecordable() {
            (step matches Err(AddError::TooLong)) && after == before
        } else if needs_content(before.queue[0].walk) && address is None {
            (step matches Err(AddError::ContentExpected)) && after == before
        } else {
            let given = match address {
                Some(given) => given,
                None => ContentAddress { pack_id: 0, content_id: 0 },
            };
            let index = before.flat.popped as u32;
            &&& Self::advanced(before, after, index, given)
            &&& if before.queue[0].walk.is_dir && before.queue[0].recurse {
                after.flat.open && (step matches Ok(Step::List(i, path)) && i == index && path@
                    == before.queue[0].walk.path)
            } else {
                !after.flat.open && (step matches Ok(Step::Recorded(i)) && i == index)
            }
        }
    }

    /// How one step changed the traversal, and what the answer was: either
    /// the content store failed on the file at the front of the queue, and
    /// nothing changed, or the step recorded with what the store answered,
    /// which it was asked exactly if the front of the queue is a file.
    pub open spec fn stepped(before: AdderView, after: AdderView, step: Result<Step, AddError>) -> bool {
        ||| (step matches Err(AddError::Store(_))) && Self::wants_content(before) && after
            == before
        ||| exists|address: Option<ContentAddress>|
            (address is Some <==> Self::wants_content(before)) && #[trigger] Self::recorded_as(
                before,
                after,
                address,
                step,
            )
    }

    /// How ending the listing changed the traversal, and what the answer
    /// was. The listing of the prefix ends with the number of roots queued
    /// since it began. Otherwise the open directory is closed, and the
    /// number of its children is the number of children queued since it was
    /// opened.
    pub open spec fn listing_ended(before: AdderView, after: AdderView, count: Result<u32, AddError>) -> bool {
        if before.listing_roots {
            &&& count matches Ok(n) && n == before.roots_added
            &&& after == (AdderView { listing_roots: false, roots_added: 0, ..before })
        } else {
            &&& after == (AdderView { flat: after.flat, ..before })
            &&& before.flat.kept_by(after.flat)
            &&& match count {
                Ok(n) => {
                    &&& before.flat.open
                    &&& !after.flat.open
                    &&& n == before.flat.added
                    &&& after.flat.nodes == before.flat.nodes
                    &&& after.flat.popped == before.flat.popped
                    &&& after.flat.root_count == before.flat.root_count
                    &&& after.flat.range_len(before.flat.popped - 1) == n
                },
                Err(e) => (e matches AddError::NoListingExpected) && !before.flat.open && after
                    == before,
            }
        }
    }

    /// The step from `before` to `after` recorded the front of the queue
    /// at flat index `index`: the entry left the queue, the flat sequence
    /// advanced by one without losing what it held, and each table took
    /// its record of the entry, made with the address `address` if the
    /// entry is a file.
    pub open spec fn advanced(before: AdderView, after: AdderView, index: u32, address: ContentAddress) -> bool {
        let entry = entry_of(before.queue[0].walk, before.queue[0].name, address);
        &&& before.queue.len() > 0
        &&& !before.flat.open
        &&& index == before.flat.popped
        &&& after.flat.popped == before.flat.popped + 1
        &&& after.flat.root_count == before.flat.root_count
        &&& before.flat.kept_by(after.flat)
        &&& after.queue == before.queue.skip(1)
        &&& after.stores.arx == arx_after(before.stores.arx, entry, after.flat.nodes[index as int])
        &&& after.stores.waj == jim_after(before.stores.waj, entry)
        &&& after.stores.jim == jim_after(before.stores.jim, entry)
        &&& after.listing_roots == before.listing_roots
        &&& after.roots_added == before.roots_added
    }

    /// Offers `child` as a child of what is being listed. A child that is
    /// accepted is queued behind everything queued before and receives the
    /// next free flat index; its parent is the open directory, or it is a
    /// root if the prefix itself is being listed.
    pub fn add_child(&mut self, child: WalkEntry) -> (done: Result<Seeded, AddError>)
        requires
            old(self).wf(),
        ensures
            final(self).wf(),
            Self::child_added(old(self)@, final(self)@, child@, done),
    {
        let name = match self.screen(&child) {
            Ok(name) => name,
            Err(early) => {
                return early;
            },
        };
        if self.listing_roots {
            proof {
                self.flattener.lemma_view_wf();
            }
            let done = self.queue_root(child, name, true);
            if done.is_ok() {
                let ghost queued = self@;
                self.roots_added = self.roots_added + 1;
                proof {
                    lemma_flags_keep_coherent(queued, self@);
                }
            }
            return done;
        }
        let ghost before = self@;
        proof {
            self.flattener.lemma_view_wf();
        }
        let index = match self.flattener.push_child(child.is_dir) {
            Ok(index) => index,
            Err(FlattenError::Full) => {
                return Err(AddError::Full);
            },
            Err(_) => {
                return Err(AddError::NoListingExpected);
            },
        };
        let ghost queued = QueuedView { walk: child@, name: name@, recurse: true };
        self.queue.push_back(Queued { walk: child, name, recurse: true });
        proof {
            self.flattener.lemma_view_wf();
            let after = self@;
            assert(after.queue =~= before.queue.push(queued));
            assert forall|k: int| 0 <= k < after.queue.len() implies #[trigger] after.queued_ok(
                k,
            ) by {
                if k < before.queue.len() {
                    assert(before.queued_ok(k));
                }
            }
            assert forall|i: int| 0 <= i < after.stores.arx.rows.len() implies row_tied(
                #[trigger] after.stores.arx.rows[i],
                after.flat.nodes[i],
            ) by {
                assert(row_tied(before.stores.arx.rows[i], before.flat.nodes[i]));
            }
        }
        Ok(Seeded::Queued(index))
    }

    /// Ends the listing. For the open directory, the deferred number of its
    /// children is fulfilled with the number of children queued since it
    /// was opened, and that number is returned. For the prefix, the number
    /// of roots queued since its listing began is returned.
    pub fn end_listing(&mut self) -> (count: Result<u32, AddError>)
        requires
            old(self).wf(),
        ensures
            final(self).wf(),
            Self::listing_ended(old(self)@, final(self)@, count),
    {
        if self.listing_roots {
            let ghost before = self@;
            let count = self.roots_added;
            self.listing_roots = false;
            self.roots_added = 0;
            proof {
                lemma_flags_keep_coherent(before, self@);
            }
            return Ok(count);
        }
        let ghost before = self@;
        proof {
            self.flattener.lemma_view_wf();
        }
        let count = match self.flattener.close() {
            Ok(count) => count,
            Err(_) => {
                return Err(AddError::NoListingExpected);
            },
        };
        proof {
            self.flattener.lemma_view_wf();
            let after = self@;
            assert forall|k: int| 0 <= k < after.queue.len() implies #[trigger] after.queued_ok(
                k,
            ) by {
                assert(before.queued_ok(k));
            }
            assert forall|i: int| 0 <= i < after.stores.arx.rows.len() implies row_tied(
                #[trigger] after.stores.arx.rows[i],
                after.flat.nodes[i],
            ) by {
                assert(row_tied(before.stores.arx.rows[i], before.flat.nodes[i]));
            }
        }
        Ok(count)
    }

    /// Whether every entry is recorded and every listing ended.
    pub fn is_finished(&self) -> (done: bool)
        ensures
            done == self@.finished(),
    {
        self.flattener.is_finished() && !self.listing_roots
    }

    /// Number of roots queued.
    pub fn root_count(&self) -> (count: usize)
        ensures
            count == self@.flat.root_count,
    {
        self.flattener.root_count()
    }

    /// The tables as they stand.
    pub fn creator(&self) -> (creator: &EntryStoreCreator)
        ensures
            creator@ == self@.stores,
            self.wf() ==> creator.wf(),
    {
        &self.creator
    }

    /// The flat sequence as it stands.
    pub fn flattener(&self) -> (flattener: &Flattener)
        ensures
            flattener@ == self@.flat,
            self.wf() ==> flattener.wf(),
    {
        &self.flattener
    }

    /// Ends the traversal and hands out the tables and the flat sequence.
    /// The traversal has to be finished: nothing queued, no listing open.
    pub fn finish(self) -> (parts: Result<(EntryStoreCreator, Flattener), AddError>)
        requires
            self.wf(),
        ensures
            parts is Ok <==> self@.finished(),
            parts matches Err(e) ==> e matches AddError::Unfinished,
            parts matches Ok(p) ==> {
                &&& p.0.wf()
                &&& p.1.wf()
                &&& p.0@ == self@.stores
                &&& p.1@ == self@.flat
                &&& self@.coherent()
            },
    {
        if !self.flattener.is_finished() || self.listing_roots {
            return Err(AddError::Unfinished);
        }
        let FsAdder { creator, strip_prefix, flattener, queue, listing_roots, roots_added } = self;
        Ok((creator, flattener))
    }
}

/// The number of children that `cells` hold for a directory record; 0 for
/// any other record.
pub open spec fn children_of(row: ArxRowView, cells: Seq<CellState>) -> int {
    match row {
        ArxRowView::Dir { nb_entries, .. } => match DeferredTable::resolved(cells, nb_entries.slot()) {
            Some(n) => n as int,
            None => 0,
        },
        _ => 0,
    }
}

/// The index that the first child of a directory record has; 0 for any
/// other record.
pub open spec fn first_child_of(row: ArxRowView) -> int {
    match row {
        ArxRowView::Dir { first_entry, .. } => first_entry as int,
        _ => 0,
    }
}

/// `j` lies in the child range that the record `row` holds.
pub open spec fn in_child_range(row: ArxRowView, cells: Seq<CellState>, j: int) -> bool {
    first_child_of(row) <= j < first_child_of(row) + children_of(row, cells)
}

/// The records are a tree laid out breadth first: the roots are the first
/// `root_count` records and the only ones without a parent; the parent of
/// any other record is a directory record with a smaller index; every
/// directory record holds a resolved number of children, and the records
/// that name it as their parent are exactly those of its child range, which
/// starts behind the directory and ends within the table.
pub open spec fn is_flat_tree(rows: Seq<ArxRowView>, cells: Seq<CellState>, root_count: nat) -> bool {
    &&& root_count <= rows.len()
    &&& forall|j: int|
        0 <= j < rows.len() ==> ((#[trigger] rows[j]).parent() is None <==> j < root_count)
    &&& forall|j: int|
        0 <= j < rows.len() && (#[trigger] rows[j]).parent() is Some ==> {
            let p = rows[j].parent()->0 as int;
            p < j && rows[p] is Dir
        }
    &&& forall|d: int|
        0 <= d < rows.len() && (#[trigger] rows[d]) is Dir ==> {
            &&& resolvable(rows[d], cells)
            &&& d < first_child_of(rows[d])
            &&& first_child_of(rows[d]) + children_of(rows[d], cells) <= rows.len()
        }
    &&& forall|d: int, j: int|
        0 <= d < rows.len() && rows[d] is Dir && 0 <= j < rows.len() ==> (rows[j].parent() == Some(
            d as u32,
        ) <==> #[trigger] in_child_range(rows[d], cells, j))
}

/// Beginning or ending the listing of the prefix, or counting a root, keeps
/// the traversal coherent.
proof fn lemma_flags_keep_coherent(before: AdderView, after: AdderView)
    requires
        before.coherent(),
        after == (AdderView {
            listing_roots: after.listing_roots,
            roots_added: after.roots_added,
            ..before
        }),
        after.listing_roots ==> after.flat.seeding() && after.roots_added <= after.flat.nodes.len(),
    ensures
        after.coherent(),
{
    assert forall|k: int| 0 <= k < after.queue.len() implies #[trigger] after.queued_ok(k) by {
        assert(before.queued_ok(k));
    }
}

/// While a directory is open, the next free flat index is the start of its
/// child range plus the number of children queued so far: the children
/// receive the indices of the range one after the other, the first child
/// the first index.
pub proof fn lemma_children_fill_the_range(adder: AdderView)
    requires
        adder.coherent(),
        adder.flat.open,
    ensures
        adder.flat.nodes.len() == adder.flat.nodes[adder.flat.popped - 1].first_child
            + adder.flat.added,
        adder.flat.nodes[adder.flat.popped - 1].is_dir,
{
    assert(adder.flat.is_popped_dir(adder.flat.popped - 1));
    assert(adder.flat.dir_ok(adder.flat.popped - 1));
}

/// When the traversal is finished, the filesystem table is a tree laid out
/// breadth first.
pub proof fn lemma_finished_table_is_flat_tree(flat: FlatView, rows: Seq<ArxRowView>)
    requires
        flat.wf(),
        flat.finished(),
        tied(flat, rows),
    ensures
        is_flat_tree(rows, flat.cells, flat.root_count),
        forall|i: int| 0 <= i < rows.len() ==> resolvable(#[trigger] rows[i], flat.cells),
{
    let cells = flat.cells;
    assert forall|d: int| 0 <= d < rows.len() && (#[trigger] rows[d]) is Dir implies {
        &&& resolvable(rows[d], cells)
        &&& d < first_child_of(rows[d])
        &&& first_child_of(rows[d]) + children_of(rows[d], cells) <= rows.len()
        &&& children_of(rows[d], cells) == flat.range_len(d)
        &&& first_child_of(rows[d]) == flat.nodes[d].first_child
    } by {
        assert(row_tied(rows[d], flat.nodes[d]));
        assert(flat.is_popped_dir(d));
        assert(flat.dir_ok(d));
        lemma_finished_is_resolved(flat, d);
    }
    assert forall|j: int| 0 <= j < rows.len() implies ((#[trigger] rows[j]).parent() is None <==> j
        < flat.root_count) by {
        assert(row_tied(rows[j], flat.nodes[j]));
        assert(flat.node_ok(j));
    }
    assert forall|j: int| 0 <= j < rows.len() && (#[trigger] rows[j]).parent() is Some implies {
        let p = rows[j].parent()->0 as int;
        p < j && rows[p] is Dir
    } by {
        assert(row_tied(rows[j], flat.nodes[j]));
        assert(flat.node_ok(j));
        let p = rows[j].parent()->0 as int;
        assert(row_tied(rows[p], flat.nodes[p]));
    }
    assert forall|d: int, j: int|
        0 <= d < rows.len() && rows[d] is Dir && 0 <= j < rows.len() implies (rows[j].parent()
        == Some(d as u32) <==> #[trigger] in_child_range(rows[d], cells, j)) by {
        assert(row_tied(rows[d], flat.nodes[d]));
        assert(row_tied(rows[j], flat.nodes[j]));
        assert(flat.is_popped_dir(d));
        lemma_children_are_one_range(flat, d, j);
        assert(in_child_range(rows[d], cells, j) == flat.in_range(d, j));
    }
    assert forall|i: int| 0 <= i < rows.len() implies resolvable(#[trigger] rows[i], cells) by {
        if rows[i] is Dir {
        }
    }
}

} // verus!
