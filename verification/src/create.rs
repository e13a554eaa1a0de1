//! The creation of an archive: the record tables, filled entry by entry,
//! and the creator that drives the traversal and hands everything over to
//! be written.

pub use crate::layout::ConcatMode;
use vstd::prelude::*;
use vstd::utf8::encode_utf8;
use crate::arx_creator::{resolvable, resolved_rows, ArxCreator, ArxRowView, ArxView, TableError};
use crate::deferred::DeferredTable;
use crate::flatten::FlatNode;
use crate::fs_adder::{
    is_flat_tree, lemma_finished_table_is_flat_tree, AddError, AdderView, FsAdder, Seeded, Step,
};
use crate::fs_entry::{
    arx_projection, waj_projection, Adder, ArxKind, ArxKindView, ContentAddress, EntryView,
    FsEntry, WajKind, WajKindView, WalkEntry, DIRECTORY_PACK_ID,
};
use crate::jim_creator::{
    content_row, fits_record, packed_rows, redirect_row, JimCreator, JimRowView, JimView,
    MAX_TEXT,
};
use crate::layout::{
    file_of, finalize_steps, layout_of, lemma_same_writes_in_every_mode, locator_of,
    manifest_entries, manifest_of, manifest_views, pack_file_name, steps_of, writes_in,
    FinalizeStep, Layout, ManifestEntry, Pack,
};
use crate::paths::{bytes_of, copy_bytes, file_name, file_name_of, parent, parent_of};
use crate::store::{
    new_pack, pack_indexes, pack_number, pack_tables, pack_value_stores, pack_vendor, IndexView,
    RowView,
};

verus! {

/// The tables as contracts see them.
pub struct StoresView {
    /// The table of the filesystem schema.
    pub arx: ArxView,
    /// The table of the web schema.
    pub waj: JimView,
    /// The table of the presentation schema.
    pub jim: JimView,
}

/// The record that the filesystem table takes of `entry`, which stands at
/// the place `node` of the flat sequence; `None` for an entry that the
/// filesystem schema does not record.
pub open spec fn arx_row_of(entry: EntryView, node: FlatNode) -> Option<ArxRowView> {
    let name = encode_utf8(file_name_of(entry.name)->0);
    match arx_projection(entry.kind) {
        None => None,
        Some(ArxKindView::Dir) => Some(
            ArxRowView::Dir {
                name,
                parent: node.parent,
                first_entry: node.first_child,
                nb_entries: node.child_count->0,
            },
        ),
        Some(ArxKindView::File { size, address }) => Some(
            ArxRowView::File { name, parent: node.parent, content: address, size },
        ),
        Some(ArxKindView::Link { target }) => Some(
            ArxRowView::Link { name, parent: node.parent, target: encode_utf8(target) },
        ),
    }
}

/// The record that the web table and the presentation table take of
/// `entry`; `None` for an entry that the web schema does not record.
pub open spec fn jim_row_of(entry: EntryView) -> Option<JimRowView> {
    match waj_projection(entry.kind) {
        None => None,
        Some(WajKindView::Content { address, mime }) => Some(content_row(entry.name, mime, address)),
        Some(WajKindView::Redirect { target }) => Some(
            redirect_row(entry.name, encode_utf8(target)),
        ),
    }
}

/// The filesystem table after it has recorded `entry`.
pub open spec fn arx_after(arx: ArxView, entry: EntryView, node: FlatNode) -> ArxView {
    match arx_row_of(entry, node) {
        Some(row) => ArxView { rows: arx.rows.push(row), ..arx },
        None => arx,
    }
}

/// A web or presentation table after it has recorded `entry`. In a
/// presentation table a file recorded under the main path becomes the entry
/// point.
pub open spec fn jim_after(jim: JimView, entry: EntryView) -> JimView {
    match jim_row_of(entry) {
        Some(row) => JimView {
            rows: jim.rows.push(row),
            main_entry_id: if waj_projection(entry.kind) is Some && waj_projection(
                entry.kind,
            )->0 is Content && jim.main_entry_path == Some(entry.name) {
                jim.rows.len() as u32
            } else {
                jim.main_entry_id
            },
            ..jim
        },
        None => jim,
    }
}

/// The web schema cannot record `entry`: its path, or the target of a
/// link, has more bytes than a record can hold.
pub open spec fn unrecordable(entry: EntryView) -> bool {
    match waj_projection(entry.kind) {
        Some(WajKindView::Content { .. }) => !fits_record(encode_utf8(entry.name)),
        Some(WajKindView::Redirect { target }) => !fits_record(encode_utf8(entry.name))
            || !fits_record(encode_utf8(target)),
        None => false,
    }
}

/// Why the tables refuse `entry` at the place `node`, if they do. An entry
/// that no schema records is not refused: it leaves no trace.
pub open spec fn add_refusal(stores: StoresView, entry: EntryView, node: FlatNode) -> Option<
    TableError,
> {
    if arx_projection(entry.kind) is None {
        None
    } else if file_name_of(entry.name) is None {
        Some(TableError::NoFileName)
    } else if arx_projection(entry.kind) == Some(ArxKindView::Dir) && node.child_count is None {
        Some(TableError::Unresolved)
    } else if unrecordable(entry) {
        Some(TableError::TooLong)
    } else if stores.arx.rows.len() >= u32::MAX || (waj_projection(entry.kind) is Some && (
    stores.waj.rows.len() >= u32::MAX || stores.jim.rows.len() >= u32::MAX)) {
        Some(TableError::Full)
    } else {
        None
    }
}

/// The tables of all schemas. One entry is offered to all of them; each
/// takes its own projection of it or nothing.
pub struct EntryStoreCreator {
    arx_creator: ArxCreator,
    waj_creator: JimCreator,
    jim_creator: JimCreator,
}

impl View for EntryStoreCreator {
    type V = StoresView;

    closed spec fn view(&self) -> StoresView {
        StoresView { arx: self.arx_creator@, waj: self.waj_creator@, jim: self.jim_creator@ }
    }
}

impl EntryStoreCreator {
    /// Every table is well formed, the web table marks no entry and the
    /// presentation table does.
    pub closed spec fn wf(&self) -> bool {
        &&& self.arx_creator.wf()
        &&& self.waj_creator.wf()
        &&& self.jim_creator.wf()
        &&& self.waj_creator@.main_entry_path is None
        &&& self.jim_creator@.main_entry_path is Some
    }

    /// Empty tables. `main_entry` is the path, in the archive, of the file
    /// that the presentation schema marks as the entry point.
    pub fn new(main_entry: String) -> (creator: Self)
        ensures
            creator.wf(),
            creator@.arx.rows.len() == 0,
            creator@.arx.root_count == 0,
            creator@.waj.rows.len() == 0,
            creator@.waj.main_entry_path is None,
            creator@.jim.rows.len() == 0,
            creator@.jim.main_entry_path == Some(main_entry@),
            creator@.jim.main_entry_id == 0,
    {
        EntryStoreCreator {
            arx_creator: ArxCreator::new(),
            waj_creator: JimCreator::web(),
            jim_creator: JimCreator::new(main_entry),
        }
    }

    /// The filesystem table.
    pub fn arx_creator(&self) -> (table: &ArxCreator)
        ensures
            table@ == self@.arx,
            self.wf() ==> table.wf(),
    {
        &self.arx_creator
    }

    /// The web table.
    pub fn waj_creator(&self) -> (table: &JimCreator)
        ensures
            table@ == self@.waj,
            self.wf() ==> table.wf(),
    {
        &self.waj_creator
    }

    /// The presentation table.
    pub fn jim_creator(&self) -> (table: &JimCreator)
        ensures
            table@ == self@.jim,
            self.wf() ==> table.wf(),
    {
        &self.jim_creator
    }

    /// Number of records of the filesystem table.
    pub fn arx_count(&self) -> (count: u32)
        requires
            self.wf(),
        ensures
            count == self@.arx.rows.len(),
    {
        self.arx_creator.entry_count()
    }

    /// Number of records of the web table.
    pub fn waj_count(&self) -> (count: u32)
        requires
            self.wf(),
        ensures
            count == self@.waj.rows.len(),
    {
        self.waj_creator.entry_count()
    }

    /// Number of records of the presentation table.
    pub fn jim_count(&self) -> (count: u32)
        requires
            self.wf(),
        ensures
            count == self@.jim.rows.len(),
    {
        self.jim_creator.entry_count()
    }

    /// Position of the entry point in the presentation table.
    pub fn main_entry_id(&self) -> (position: u32)
        ensures
            position == self@.jim.main_entry_id,
    {
        self.jim_creator.main_entry_id()
    }

    /// Records how many of the first records of the filesystem table are
    /// roots.
    pub fn set_root_count(&mut self, root_count: u32)
        requires
            old(self).wf(),
        ensures
            final(self).wf(),
            final(self)@ == (StoresView {
                arx: ArxView { root_count: root_count as nat, ..old(self)@.arx },
                ..old(self)@
            }),
    {
        self.arx_creator.set_root_count(root_count);
    }

    /// Offers `entry`, which stands at the place `node` of the flat
    /// sequence, to every table. Each table takes the record that its
    /// schema makes of the entry, if it makes one. A refused entry leaves
    /// every table as it was.
    pub fn add_entry(&mut self, entry: &FsEntry, node: FlatNode) -> (done: Result<(), TableError>)
        requires
            old(self).wf(),
        ensures
            final(self).wf(),
            match done {
                Ok(()) => {
                    &&& add_refusal(old(self)@, entry@, node) is None
                    &&& final(self)@.arx == arx_after(old(self)@.arx, entry@, node)
                    &&& final(self)@.waj == jim_after(old(self)@.waj, entry@)
                    &&& final(self)@.jim == jim_after(old(self)@.jim, entry@)
                },
                Err(e) => add_refusal(old(self)@, entry@, node) == Some(e) && final(self)@ == old(self)@,
            },
    {
        let arx_kind = match entry.arx_kind() {
            Some(kind) => kind,
            None => {
                return Ok(());
            },
        };
        if file_name(entry.name()).is_none() {
            return Err(TableError::NoFileName);
        }
        let waj_kind = entry.waj_kind();
        let is_dir = match &arx_kind {
            ArxKind::Dir => true,
            _ => false,
        };
        if is_dir && node.child_count.is_none() {
            return Err(TableError::Unresolved);
        }
        let too_long = match &waj_kind {
            Some(WajKind::Content(_, _)) => bytes_of(entry.name()).len() > MAX_TEXT,
            Some(WajKind::Redirect(target)) => bytes_of(entry.name()).len() > MAX_TEXT || bytes_of(
                target.as_str(),
            ).len() > MAX_TEXT,
            None => false,
        };
        if too_long {
            return Err(TableError::TooLong);
        }
        if self.arx_creator.entry_count() == u32::MAX || (waj_kind.is_some() && (
        self.waj_creator.entry_count() == u32::MAX || self.jim_creator.entry_count()
            == u32::MAX)) {
            return Err(TableError::Full);
        }
        match waj_kind {
            Some(WajKind::Content(address, mime)) => {
                self.waj_creator.add_content(entry.name().to_owned(), &mime, address).unwrap();
                self.jim_creator.add_content(entry.name().to_owned(), &mime, address).unwrap();
            },
            Some(WajKind::Redirect(target)) => {
                let target = bytes_of(target.as_str());
                self.waj_creator.add_redirect(entry.name().to_owned(), copy_bytes(&target)).unwrap();
                self.jim_creator.add_redirect(entry.name().to_owned(), target).unwrap();
            },
            None => {},
        }
        match arx_kind {
            ArxKind::Dir => {
                match node.child_count {
                    Some(bound) => {
                        self.arx_creator.add_directory(
                            entry.name(),
                            node.parent,
                            node.first_child,
                            bound,
                        ).unwrap();
                    },
                    None => {},
                }
            },
            ArxKind::File(size, address) => {
                self.arx_creator.add_content(entry.name(), node.parent, address, size).unwrap();
            },
            ArxKind::Link(target) => {
                let target = bytes_of(target.as_str());
                self.arx_creator.add_redirect(entry.name(), node.parent, target).unwrap();
            },
        }
        Ok(())
    }

    /// Whether every deferred value that the tables hold has been fulfilled
    /// in `cells`.
    pub fn is_resolved(&self, cells: &DeferredTable) -> (done: bool)
        ensures
            done <==> forall|i: int|
                0 <= i < self@.arx.rows.len() ==> resolvable(#[trigger] self@.arx.rows[i], cells@),
    {
        assert(self@.arx.rows == self.arx_creator@.rows);
        self.arx_creator.is_resolved(cells)
    }

    /// Hands the tables to the directory pack: first the web table with its
    /// two stores and its index `waj_entries`, then the presentation table
    /// with its two stores and its indexes `jim_entries` and `jim_main`,
    /// then the filesystem table with its store and its indexes
    /// `arx_entries` and `arx_root`. Where a deferred value is still open,
    /// the pack is left as it was.
    pub fn finalize(
        self,
        cells: &DeferredTable,
        directory_pack: &mut jubako::creator::DirectoryPackCreator,
    ) -> (done: Result<(), TableError>)
        requires
            self.wf(),
            pack_tables(*old(directory_pack)).len() + 2 < u32::MAX,
        ensures
            pack_number(*final(directory_pack)) == pack_number(*old(directory_pack)),
            pack_vendor(*final(directory_pack)) == pack_vendor(*old(directory_pack)),
            done is Ok <==> forall|i: int|
                0 <= i < self@.arx.rows.len() ==> resolvable(#[trigger] self@.arx.rows[i], cells@),
            done matches Err(e) ==> {
                &&& e == TableError::Unresolved
                &&& pack_tables(*final(directory_pack)) == pack_tables(*old(directory_pack))
                &&& pack_indexes(*final(directory_pack)) == pack_indexes(*old(directory_pack))
                &&& pack_value_stores(*final(directory_pack)) == pack_value_stores(
                    *old(directory_pack),
                )
            },
            done is Ok ==> {
                &&& pack_tables(*final(directory_pack)) == pack_tables(*old(directory_pack)).push(
                    packed_rows(self@.waj.rows),
                ).push(packed_rows(self@.jim.rows)).push(resolved_rows(self@.arx.rows, cells@))
                &&& pack_value_stores(*final(directory_pack)) == pack_value_stores(
                    *old(directory_pack),
                ) + sealed_stores(self@)
                &&& pack_indexes(*final(directory_pack)) == pack_indexes(
                    *old(directory_pack),
                ) + sealed_indexes(self@, pack_tables(*old(directory_pack)).len())
            },
    {
        assert(self@.arx.rows == self.arx_creator@.rows);
        if !self.arx_creator.is_resolved(cells) {
            return Err(TableError::Unresolved);
        }
        let EntryStoreCreator { arx_creator, waj_creator, jim_creator } = self;
        waj_creator.finalize(directory_pack);
        jim_creator.finalize(directory_pack);
        let done = arx_creator.finalize(cells, directory_pack);
        assert(pack_value_stores(*directory_pack) =~= pack_value_stores(*old(directory_pack))
            + sealed_stores(self@));
        assert(pack_indexes(*directory_pack) =~= pack_indexes(*old(directory_pack))
            + sealed_indexes(self@, pack_tables(*old(directory_pack)).len()));
        done
    }
}

/// The value stores that the tables hand to a pack: paths and media types
/// of the web table, paths and media types of the presentation table, names
/// of the filesystem table.
pub open spec fn sealed_stores(stores: StoresView) -> Seq<jubako::creator::StoreHandle> {
    seq![
        stores.waj.path_store,
        stores.waj.mime_store,
        stores.jim.path_store,
        stores.jim.mime_store,
        stores.arx.path_store,
    ]
}

/// The indexes that the tables declare in a pack that holds `before` tables
/// already: all records of the web table, all records and the entry point
/// of the presentation table, all records and the roots of the filesystem
/// table. Each is keyed by the first property, the path or name.
pub open spec fn sealed_indexes(stores: StoresView, before: nat) -> Seq<IndexView> {
    seq![
        IndexView {
            name: "waj_entries"@,
            key: 0,
            table: before,
            count: stores.waj.rows.len(),
            offset: 0,
        },
        IndexView {
            name: "jim_entries"@,
            key: 0,
            table: before + 1,
            count: stores.jim.rows.len(),
            offset: 0,
        },
        IndexView {
            name: "jim_main"@,
            key: 0,
            table: before + 1,
            count: 1,
            offset: stores.jim.main_entry_id as nat,
        },
        IndexView {
            name: "arx_entries"@,
            key: 0,
            table: before + 2,
            count: stores.arx.rows.len(),
            offset: 0,
        },
        IndexView {
            name: "arx_root"@,
            key: 0,
            table: before + 2,
            count: stores.arx.root_count,
            offset: 0,
        },
    ]
}

/// Recording is a function of the entry and of its place: two entries
/// that are alike, and so one entry recorded twice, give the same record in
/// each table.
pub proof fn lemma_records_repeat(first: EntryView, second: EntryView, node: FlatNode)
    requires
        first == second,
    ensures
        arx_row_of(first, node) == arx_row_of(second, node),
        jim_row_of(first) == jim_row_of(second),
{
}

/// The web table and the presentation table hold the same records: the
/// two schemas differ in the entry point alone.
pub proof fn lemma_presentation_is_web_with_main(waj: JimView, jim: JimView, entry: EntryView)
    requires
        waj.rows == jim.rows,
    ensures
        jim_after(waj, entry).rows == jim_after(jim, entry).rows,
        waj.main_entry_path is None ==> jim_after(waj, entry).main_entry_id == waj.main_entry_id,
{
}

/// The tables of a finished traversal as the directory pack holds them:
/// the web table, the presentation table, then the filesystem table with
/// its deferred values resolved.
pub open spec fn archive_tables(adder: AdderView) -> Seq<Seq<RowView>> {
    seq![
        packed_rows(adder.stores.waj.rows),
        packed_rows(adder.stores.jim.rows),
        resolved_rows(adder.stores.arx.rows, adder.flat.cells),
    ]
}

/// The indexes of a finished traversal as the directory pack holds them.
/// The number of roots is the number of roots that were queued.
pub open spec fn archive_indexes(adder: AdderView) -> Seq<IndexView> {
    sealed_indexes(
        StoresView {
            arx: ArxView { root_count: adder.flat.root_count, ..adder.stores.arx },
            ..adder.stores
        },
        0,
    )
}

/// The concatenation mode moves packs and changes nothing else. Two
/// archives made of one traversal in two modes hold the same tables and the
/// same indexes, and the same packs are written in the same order; what
/// the manifest records for a pack differs only where the pack is placed
/// differently.
pub proof fn lemma_mode_moves_packs_only(first: CreatorView, second: CreatorView, out_name: Seq<char>)
    requires
        first.adder == second.adder,
    ensures
        archive_tables(first.adder) == archive_tables(second.adder),
        archive_indexes(first.adder) == archive_indexes(second.adder),
        writes_in(steps_of(layout_of(first.mode))) == writes_in(steps_of(layout_of(second.mode))),
        forall|pack: Pack| #[trigger]
            layout_of(first.mode).spec_placement(pack) == layout_of(second.mode).spec_placement(
                pack,
            ) ==> locator_of(layout_of(first.mode), out_name, pack) == locator_of(
                layout_of(second.mode),
                out_name,
                pack,
            ),
{
    lemma_same_writes_in_every_mode(first.mode);
    lemma_same_writes_in_every_mode(second.mode);
}

/// Why an archive could not be started or finalized.
#[derive(Clone, Copy, Debug, PartialEq, Eq, Structural)]
pub enum CreateError {
    /// The output path has no parent directory to hold the files.
    NoParent,
    /// The output path has no final component to name the files by.
    NoFileName,
    /// Entries are still queued, or a directory is still being listed.
    Unfinished,
}

/// The creator as contracts see it.
pub struct CreatorView {
    pub adder: AdderView,
    pub mode: ConcatMode,
    /// The directory that receives the files of the archive.
    pub out_dir: Seq<char>,
}

/// What a finalized archive consists of: the directory pack, ready to be
/// written, and where everything goes.
pub struct Finalized {
    /// The directory pack with the tables in it.
    pub directory_pack: jubako::creator::DirectoryPackCreator,
    /// Where each pack goes.
    pub layout: Layout,
    /// The steps that commit the archive, in order.
    pub steps: Vec<FinalizeStep>,
    /// The directory in which every file is written and put in place.
    pub out_dir: String,
    /// The name of the directory pack's file, if it stands alone.
    pub directory_file: String,
    /// The name of the content pack's file, if it stands alone.
    pub content_file: String,
    /// The name of the manifest's file, if it stands alone.
    pub manifest_file: String,
    /// What the manifest lists: the directory pack, then the content pack.
    pub manifest: Vec<ManifestEntry>,
}

/// The creator of one archive. It owns the traversal and the directory
/// pack; the content pack and all files are the caller's.
pub struct Creator {
    fs_adder: FsAdder,
    directory_pack: jubako::creator::DirectoryPackCreator,
    concat_mode: ConcatMode,
    out_dir: String,
}

impl View for Creator {
    type V = CreatorView;

    closed spec fn view(&self) -> CreatorView {
        CreatorView { adder: self.fs_adder@, mode: self.concat_mode, out_dir: self.out_dir@ }
    }
}

/// The mark that the packs of this engine carry: the bytes of `prez`.
pub fn vendor_id() -> (mark: [u8; 4])
    ensures
        mark@ == seq![0x70u8, 0x72u8, 0x65u8, 0x7au8],
{
    let mark = [0x70, 0x72, 0x65, 0x7a];
    assert(mark@ =~= seq![0x70u8, 0x72u8, 0x65u8, 0x7au8]);
    mark
}

impl Creator {
    /// The traversal is well formed and the directory pack is still empty.
    pub closed spec fn wf(&self) -> bool {
        &&& self.fs_adder.wf()
        &&& pack_tables(self.directory_pack).len() == 0
        &&& pack_indexes(self.directory_pack).len() == 0
        &&& pack_value_stores(self.directory_pack).len() == 0
        &&& pack_number(self.directory_pack) == DIRECTORY_PACK_ID
        &&& pack_vendor(self.directory_pack) == seq![0x70u8, 0x72u8, 0x65u8, 0x7au8]
    }

    /// The directory pack that will take the tables.
    pub closed spec fn directory_pack(&self) -> jubako::creator::DirectoryPackCreator {
        self.directory_pack
    }

    /// What the invariant says of the view.
    pub proof fn lemma_view_coherent(&self)
        requires
            self.wf(),
        ensures
            self@.adder.coherent(),
    {
        self.fs_adder.lemma_view_coherent();
    }

    /// A creator for the archive at `outfile`. Names in the archive are the
    /// paths given without `strip_prefix`; `main_entry` is the name of the
    /// file that the presentation schema marks as the entry point. All files
    /// of the archive will stand in the parent directory of `outfile`.
    pub fn new(outfile: &str, strip_prefix: String, main_entry: String, concat_mode: ConcatMode) -> (creator:
        Result<Self, CreateError>)
        ensures
            creator is Ok <==> parent_of(outfile@) is Some,
            creator matches Err(e) ==> e == CreateError::NoParent,
            creator matches Ok(c) ==> {
                &&& c.wf()
                &&& pack_number(c.directory_pack()) == DIRECTORY_PACK_ID
                &&& pack_vendor(c.directory_pack()) == seq![0x70u8, 0x72u8, 0x65u8, 0x7au8]
                &&& pack_value_stores(c.directory_pack()).len() == 0
                &&& pack_tables(c.directory_pack()).len() == 0
                &&& pack_indexes(c.directory_pack()).len() == 0
                &&& c@.mode == concat_mode
                &&& c@.out_dir == parent_of(outfile@)->0
                &&& c@.adder.prefix == strip_prefix@
                &&& c@.adder.queue.len() == 0
                &&& c@.adder.flat.seeding()
                &&& c@.adder.flat.nodes.len() == 0
                &&& c@.adder.flat.root_count == 0
                &&& !c@.adder.listing_roots
                &&& c@.adder.stores.arx.rows.len() == 0
                &&& c@.adder.stores.waj.rows.len() == 0
                &&& c@.adder.stores.jim.rows.len() == 0
                &&& c@.adder.stores.jim.main_entry_path == Some(main_entry@)
                &&& c@.adder.stores.jim.main_entry_id == 0
            },
    {
        let out_dir = match parent(outfile) {
            Some(dir) => dir,
            None => {
                return Err(CreateError::NoParent);
            },
        };
        let directory_pack = new_pack(DIRECTORY_PACK_ID, vendor_id());
        let entry_store_creator = EntryStoreCreator::new(main_entry);
        let fs_adder = FsAdder::new(entry_store_creator, strip_prefix);
        Ok(Creator { fs_adder, directory_pack, concat_mode, out_dir })
    }

    /// Offers `root` as a root of the archive: see
    /// [`FsAdder::add_from_path`].
    pub fn add_from_path(&mut self, root: WalkEntry, recurse: bool) -> (done: Result<Seeded, AddError>)
        requires
            old(self).wf(),
        ensures
            final(self).wf(),
            final(self)@.mode == old(self)@.mode,
            final(self)@.out_dir == old(self)@.out_dir,
            FsAdder::seeded_as(old(self)@.adder, final(self)@.adder, root@, recurse, done),
    {
        self.fs_adder.add_from_path(root, recurse)
    }

    /// Records the entry at the front of the queue: see [`FsAdder::next`].
    pub fn next<A: Adder>(&mut self, adder: &mut A) -> (step: Result<Step, AddError>)
        requires
            old(self).wf(),
        ensures
            final(self).wf(),
            final(self)@.mode == old(self)@.mode,
            final(self)@.out_dir == old(self)@.out_dir,
            FsAdder::stepped(old(self)@.adder, final(self)@.adder, step),
    {
        self.fs_adder.next(adder)
    }

    /// The path whose bytes the next step hands to the content store: see
    /// [`FsAdder::content_request`].
    pub fn content_request(&self) -> (path: Option<&str>)
        ensures
            path is Some <==> FsAdder::wants_content(self@.adder),
            path matches Some(p) ==> p@ == self@.adder.queue[0].walk.path,
    {
        self.fs_adder.content_request()
    }

    /// Records the entry at the front of the queue with what the content
    /// store answered: see [`FsAdder::record`].
    pub fn record(&mut self, address: Option<ContentAddress>) -> (step: Result<Step, AddError>)
        requires
            old(self).wf(),
        ensures
            final(self).wf(),
            final(self)@.mode == old(self)@.mode,
            final(self)@.out_dir == old(self)@.out_dir,
            FsAdder::recorded_as(old(self)@.adder, final(self)@.adder, address, step),
    {
        self.fs_adder.record(address)
    }

    /// Offers `child` as a child of the open directory: see
    /// [`FsAdder::add_child`].
    pub fn add_child(&mut self, child: WalkEntry) -> (done: Result<Seeded, AddError>)
        requires
            old(self).wf(),
        ensures
            final(self).wf(),
            final(self)@.mode == old(self)@.mode,
            final(self)@.out_dir == old(self)@.out_dir,
            FsAdder::child_added(old(self)@.adder, final(self)@.adder, child@, done),
    {
        self.fs_adder.add_child(child)
    }

    /// Ends the listing of the open directory: see
    /// [`FsAdder::end_listing`].
    pub fn end_listing(&mut self) -> (count: Result<u32, AddError>)
        requires
            old(self).wf(),
        ensures
            final(self).wf(),
            final(self)@.mode == old(self)@.mode,
            final(self)@.out_dir == old(self)@.out_dir,
            FsAdder::listing_ended(old(self)@.adder, final(self)@.adder, count),
    {
        self.fs_adder.end_listing()
    }

    /// Whether every entry is recorded and every listing ended.
    pub fn is_finished(&self) -> (done: bool)
        ensures
            done == self@.adder.finished(),
    {
        self.fs_adder.is_finished()
    }

    /// The traversal as it stands.
    pub fn fs_adder(&self) -> (adder: &FsAdder)
        ensures
            adder@ == self@.adder,
            self.wf() ==> adder.wf(),
    {
        &self.fs_adder
    }

    /// Finalizes the archive at `outfile`. The tables go into the directory
    /// pack, the presentation table first, each record of the filesystem
    /// table with its deferred values resolved; the number of roots is the
    /// number of roots that were queued. The layout, the steps that commit
    /// the archive and the locators follow from the concatenation mode and
    /// the name of the output file alone.
    ///
    /// The traversal has to be finished. The filesystem table is then a
    /// tree laid out breadth first.
    pub fn finalize(self, outfile: &str) -> (archive: Result<Finalized, CreateError>)
        requires
            self.wf(),
        ensures
            archive is Ok <==> file_name_of(outfile@) is Some && self@.adder.finished(),
            archive matches Err(e) ==> (e == CreateError::NoFileName <==> file_name_of(outfile@)
                is None) && (e == CreateError::Unfinished <==> file_name_of(outfile@) is Some),
            archive matches Ok(a) ==> {
                let stores = self@.adder.stores;
                let flat = self@.adder.flat;
                let name = file_name_of(outfile@)->0;
                &&& is_flat_tree(stores.arx.rows, flat.cells, flat.root_count)
                &&& pack_tables(a.directory_pack) == archive_tables(self@.adder)
                &&& pack_value_stores(a.directory_pack) == sealed_stores(stores)
                &&& pack_number(a.directory_pack) == DIRECTORY_PACK_ID
                &&& pack_vendor(a.directory_pack) == seq![0x70u8, 0x72u8, 0x65u8, 0x7au8]
                &&& pack_indexes(a.directory_pack) == archive_indexes(self@.adder)
                &&& a.layout == layout_of(self@.mode)
                &&& a.steps@ == steps_of(a.layout)
                &&& a.out_dir@ == self@.out_dir
                &&& a.directory_file@ == file_of(name, Pack::Directory)
                &&& a.content_file@ == file_of(name, Pack::Content)
                &&& a.manifest_file@ == file_of(name, Pack::Manifest)
                &&& manifest_views(a.manifest@) == manifest_of(a.layout, name)
            },
    {
        let out_name = match file_name(outfile) {
            Some(name) => name,
            None => {
                return Err(CreateError::NoFileName);
            },
        };
        let Creator { fs_adder, directory_pack, concat_mode, out_dir } = self;
        let mut directory_pack = directory_pack;
        let (stores, flattener) = match fs_adder.finish() {
            Ok(parts) => parts,
            Err(_) => {
                return Err(CreateError::Unfinished);
            },
        };
        let mut stores = stores;
        proof {
            flattener.lemma_view_wf();
            lemma_finished_table_is_flat_tree(flattener@, stores@.arx.rows);
        }
        let ghost before = stores@;
        stores.set_root_count(flattener.root_count() as u32);
        stores.finalize(flattener.cells(), &mut directory_pack).unwrap();
        proof {
            assert(pack_tables(directory_pack) =~= seq![
                packed_rows(before.waj.rows),
                packed_rows(before.jim.rows),
                resolved_rows(before.arx.rows, flattener@.cells),
            ]);
            assert(pack_indexes(directory_pack) =~= sealed_indexes(
                StoresView {
                    arx: ArxView { root_count: flattener@.root_count, ..before.arx },
                    ..before
                },
                0,
            ));
        }
        let layout = concat_mode.layout();
        let name = out_name.as_str();
        Ok(
            Finalized {
                directory_pack,
                layout,
                steps: finalize_steps(layout),
                out_dir,
                directory_file: pack_file_name(name, Pack::Directory),
                content_file: pack_file_name(name, Pack::Content),
                manifest_file: pack_file_name(name, Pack::Manifest),
                manifest: manifest_entries(layout, name),
            },
        )
    }
}

} // verus!
