//! The table of the filesystem schema.
//!
//! Every entry of the flat sequence has one record here, at the position of
//! its flat index: a file with its content, a directory with its child
//! range, or a link with its target. A directory's record is taken before
//! its children are listed, so the number of its children is a deferred
//! value. The records are therefore kept as they come and handed to the
//! directory pack when the table is finalized, each with its deferred value
//! resolved.

use vstd::prelude::*;
use vstd::utf8::encode_utf8;
use crate::deferred::{Bound, CellState, DeferredTable};
use crate::fs_entry::ContentAddress;
use crate::paths::{bytes_of, copy_bytes, file_name, file_name_of};
use crate::store::{
    build_table, conforms, conforms_at, described, names_of, pack_add_table, pack_add_value_store,
    pack_create_index, pack_indexes, pack_number, pack_tables, pack_value_stores, pack_vendor,
    row_of, table_add,
    table_rows, table_shape, value_store_plain, views_of, EntryTable, FieldValue, FieldView,
    IndexView, PropertyDesc, PropertyKind, PropertyShape, RowView, Schema, SchemaShape,
    VariantDesc,
};

verus! {

/// What a root records in place of the index of a parent.
pub const NO_PARENT: u64 = 0xFFFF_FFFF;

/// One record of the filesystem table.
#[derive(Debug)]
pub enum ArxRow {
    File { name: Vec<u8>, parent: Option<u32>, content: ContentAddress, size: u64 },
    Dir { name: Vec<u8>, parent: Option<u32>, first_entry: u32, nb_entries: Bound },
    Link { name: Vec<u8>, parent: Option<u32>, target: Vec<u8> },
}

/// An [`ArxRow`] as contracts see it.
pub enum ArxRowView {
    File { name: Seq<u8>, parent: Option<u32>, content: ContentAddress, size: u64 },
    Dir { name: Seq<u8>, parent: Option<u32>, first_entry: u32, nb_entries: Bound },
    Link { name: Seq<u8>, parent: Option<u32>, target: Seq<u8> },
}

impl View for ArxRow {
    type V = ArxRowView;

    open spec fn view(&self) -> ArxRowView {
        match self {
            ArxRow::File { name, parent, content, size } => ArxRowView::File {
                name: name@,
                parent: *parent,
                content: *content,
                size: *size,
            },
            ArxRow::Dir { name, parent, first_entry, nb_entries } => ArxRowView::Dir {
                name: name@,
                parent: *parent,
                first_entry: *first_entry,
                nb_entries: *nb_entries,
            },
            ArxRow::Link { name, parent, target } => ArxRowView::Link {
                name: name@,
                parent: *parent,
                target: target@,
            },
        }
    }
}

impl ArxRowView {
    /// The parent that the record names.
    pub open spec fn parent(self) -> Option<u32> {
        match self {
            ArxRowView::File { parent, .. } => parent,
            ArxRowView::Dir { parent, .. } => parent,
            ArxRowView::Link { parent, .. } => parent,
        }
    }
}

/// Why a table refused a record or could not be finalized.
#[derive(Clone, Copy, Debug, PartialEq, Eq, Structural)]
pub enum TableError {
    /// The path of the entry has no final component to name the record by.
    NoFileName,
    /// The table holds as many records as can be numbered.
    Full,
    /// A record holds a deferred value that was never fulfilled.
    Unresolved,
    /// A path or a target has more bytes than a record can hold.
    TooLong,
}

/// The schema of the filesystem table. Every record has a name and the
/// index of its parent; a file adds its content address and size, a
/// directory the index of its first child and the number of its children, a
/// link its target. Of a name and of a target the first byte stands in the
/// record; the others stand in `store`.
pub open spec fn arx_schema(store: jubako::creator::StoreHandle) -> SchemaShape {
    SchemaShape {
        common: seq![
            PropertyShape::Bytes { name: "name"@, inline: 1, store },
            PropertyShape::Unsigned { name: "parent"@ },
        ],
        variants: seq![
            (
                "file"@,
                seq![
                    PropertyShape::Content { name: "content"@ },
                    PropertyShape::Unsigned { name: "size"@ },
                ],
            ),
            (
                "dir"@,
                seq![
                    PropertyShape::Unsigned { name: "first_child"@ },
                    PropertyShape::Unsigned { name: "nb_children"@ },
                ],
            ),
            ("link"@, seq![PropertyShape::Bytes { name: "target"@, inline: 1, store }]),
        ],
    }
}

/// What a record holds as its parent: the parent's flat index, or
/// [`NO_PARENT`] for a root.
pub open spec fn parent_field(parent: Option<u32>) -> u64 {
    match parent {
        Some(p) => p as u64,
        None => NO_PARENT,
    }
}

/// Every deferred value of the record has been fulfilled.
pub open spec fn resolvable(row: ArxRowView, cells: Seq<CellState>) -> bool {
    row matches ArxRowView::Dir { nb_entries, .. } ==> DeferredTable::resolved(
        cells,
        nb_entries.slot(),
    ) is Some
}

/// The record as the directory pack takes it, with the values that `cells`
/// hold for its deferred ones.
pub open spec fn resolved_row(row: ArxRowView, cells: Seq<CellState>) -> RowView {
    match row {
        ArxRowView::File { name, parent, content, size } => row_of(
            "file"@,
            seq!["name"@, "parent"@, "content"@, "size"@],
            seq![
                FieldView::Bytes(name),
                FieldView::Unsigned(parent_field(parent)),
                FieldView::Content(content),
                FieldView::Unsigned(size),
            ],
        ),
        ArxRowView::Dir { name, parent, first_entry, nb_entries } => row_of(
            "dir"@,
            seq!["name"@, "parent"@, "first_child"@, "nb_children"@],
            seq![
                FieldView::Bytes(name),
                FieldView::Unsigned(parent_field(parent)),
                FieldView::Unsigned(first_entry as u64),
                FieldView::Unsigned(DeferredTable::resolved(cells, nb_entries.slot())->0),
            ],
        ),
        ArxRowView::Link { name, parent, target } => row_of(
            "link"@,
            seq!["name"@, "parent"@, "target"@],
            seq![
                FieldView::Bytes(name),
                FieldView::Unsigned(parent_field(parent)),
                FieldView::Bytes(target),
            ],
        ),
    }
}

/// The views of a list of records.
pub open spec fn row_views(rows: Seq<ArxRow>) -> Seq<ArxRowView> {
    rows.map_values(|r: ArxRow| r@)
}

/// The records as the directory pack takes them.
pub open spec fn resolved_rows(rows: Seq<ArxRowView>, cells: Seq<CellState>) -> Seq<RowView> {
    rows.map_values(|r: ArxRowView| resolved_row(r, cells))
}

/// The filesystem table as contracts see it.
pub struct ArxView {
    /// The records, by flat index.
    pub rows: Seq<ArxRowView>,
    /// Number of records at the front of the table that are roots.
    pub root_count: nat,
    /// The value store that keeps the names and targets.
    pub path_store: jubako::creator::StoreHandle,
}

/// Builder of the filesystem table.
pub struct ArxCreator {
    table: EntryTable,
    schema: Schema,
    path_store: jubako::creator::StoreHandle,
    rows: Vec<ArxRow>,
    root_count: u32,
}

impl View for ArxCreator {
    type V = ArxView;

    closed spec fn view(&self) -> ArxView {
        ArxView {
            rows: row_views(self.rows@),
            root_count: self.root_count as nat,
            path_store: self.path_store,
        }
    }
}

/// The fields of `row` as the table takes them, or `None` where a deferred
/// value of the record is still open.
fn fields_of(
    row: &ArxRow,
    cells: &DeferredTable,
    Ghost(store): Ghost<jubako::creator::StoreHandle>,
) -> (fields: Option<(&'static str, Vec<&'static str>, Vec<FieldValue>)>)
    ensures
        fields is Some <==> resolvable(row@, cells@),
        fields matches Some(f) ==> {
            &&& conforms(arx_schema(store), f.0@, names_of(f.1@), views_of(f.2@))
            &&& row_of(f.0@, names_of(f.1@), views_of(f.2@)) == resolved_row(row@, cells@)
        },
{
    proof {
        reveal_strlit("name");
        reveal_strlit("parent");
        reveal_strlit("content");
        reveal_strlit("size");
        reveal_strlit("first_child");
        reveal_strlit("nb_children");
        reveal_strlit("target");
        reveal_strlit("file");
        reveal_strlit("dir");
        reveal_strlit("link");
        assert("name"@.len() == 4 && "parent"@.len() == 6 && "content"@.len() == 7);
        assert("size"@.len() == 4 && "target"@.len() == 6);
        assert("first_child"@.len() == 11 && "nb_children"@.len() == 11);
    }
    let mut names: Vec<&'static str> = Vec::new();
    let mut values: Vec<FieldValue> = Vec::new();
    names.push("name");
    names.push("parent");
    match row {
        ArxRow::File { name, parent, content, size } => {
            values.push(FieldValue::Bytes(copy_bytes(name)));
            values.push(FieldValue::Unsigned(parent_value(*parent)));
            names.push("content");
            values.push(FieldValue::Content(*content));
            names.push("size");
            values.push(FieldValue::Unsigned(*size));
            proof {
                let shape = arx_schema(store);
                assert(names_of(names@) =~= seq!["name"@, "parent"@, "content"@, "size"@]);
                assert(views_of(values@) =~= seq![
                    FieldView::Bytes(name@),
                    FieldView::Unsigned(parent_field(*parent)),
                    FieldView::Content(*content),
                    FieldView::Unsigned(*size),
                ]);
                assert(shape.common + shape.variants[0].1 =~= seq![
                    PropertyShape::Bytes { name: "name"@, inline: 1, store },
                    PropertyShape::Unsigned { name: "parent"@ },
                    PropertyShape::Content { name: "content"@ },
                    PropertyShape::Unsigned { name: "size"@ },
                ]);
                assert("name"@[0] != "size"@[0]);
                assert(conforms_at(shape, 0, "file"@, names_of(names@), views_of(values@)));
            }
            Some(("file", names, values))
        },
        ArxRow::Dir { name, parent, first_entry, nb_entries } => {
            let count = match cells.resolve(*nb_entries) {
                Some(count) => count,
                None => {
                    return None;
                },
            };
            values.push(FieldValue::Bytes(copy_bytes(name)));
            values.push(FieldValue::Unsigned(parent_value(*parent)));
            names.push("first_child");
            values.push(FieldValue::Unsigned(*first_entry as u64));
            names.push("nb_children");
            values.push(FieldValue::Unsigned(count));
            proof {
                let shape = arx_schema(store);
                assert(names_of(names@) =~= seq![
                    "name"@,
                    "parent"@,
                    "first_child"@,
                    "nb_children"@,
                ]);
                assert(views_of(values@) =~= seq![
                    FieldView::Bytes(name@),
                    FieldView::Unsigned(parent_field(*parent)),
                    FieldView::Unsigned(*first_entry as u64),
                    FieldView::Unsigned(count),
                ]);
                assert(shape.common + shape.variants[1].1 =~= seq![
                    PropertyShape::Bytes { name: "name"@, inline: 1, store },
                    PropertyShape::Unsigned { name: "parent"@ },
                    PropertyShape::Unsigned { name: "first_child"@ },
                    PropertyShape::Unsigned { name: "nb_children"@ },
                ]);
                assert("first_child"@[0] != "nb_children"@[0]);
                assert("file"@[0] != "dir"@[0]);
                assert(conforms_at(shape, 1, "dir"@, names_of(names@), views_of(values@)));
            }
            Some(("dir", names, values))
        },
        ArxRow::Link { name, parent, target } => {
            values.push(FieldValue::Bytes(copy_bytes(name)));
            values.push(FieldValue::Unsigned(parent_value(*parent)));
            names.push("target");
            values.push(FieldValue::Bytes(copy_bytes(target)));
            proof {
                let shape = arx_schema(store);
                assert(names_of(names@) =~= seq!["name"@, "parent"@, "target"@]);
                assert(views_of(values@) =~= seq![
                    FieldView::Bytes(name@),
                    FieldView::Unsigned(parent_field(*parent)),
                    FieldView::Bytes(target@),
                ]);
                assert(shape.common + shape.variants[2].1 =~= seq![
                    PropertyShape::Bytes { name: "name"@, inline: 1, store },
                    PropertyShape::Unsigned { name: "parent"@ },
                    PropertyShape::Bytes { name: "target"@, inline: 1, store },
                ]);
                assert("parent"@[0] != "target"@[0]);
                assert("file"@[0] != "link"@[0]);
                assert("dir"@[0] != "link"@[0]);
                assert(conforms_at(shape, 2, "link"@, names_of(names@), views_of(values@)));
            }
            Some(("link", names, values))
        },
    }
}

/// What a record holds as its parent.
fn parent_value(parent: Option<u32>) -> (value: u64)
    ensures
        value == parent_field(parent),
{
    match parent {
        Some(p) => p as u64,
        None => NO_PARENT,
    }
}

impl ArxCreator {
    /// The table behind the builder has the filesystem schema and is empty
    /// until the builder is finalized, and the records can be numbered.
    pub closed spec fn wf(&self) -> bool {
        &&& table_shape(self.table) == arx_schema(self.path_store)
        &&& self.schema.shape(self.path_store, self.path_store) == arx_schema(self.path_store)
        &&& table_rows(self.table).len() == 0
        &&& self.rows@.len() <= u32::MAX
    }

    /// The description of the filesystem schema.
    fn describe(Ghost(store): Ghost<jubako::creator::StoreHandle>) -> (schema: Schema)
        ensures
            schema.shape(store, store) == arx_schema(store),
    {
        let text = PropertyKind::Bytes { inline: 1, indexed: false };
        let mut common: Vec<PropertyDesc> = Vec::new();
        common.push(PropertyDesc { name: "name", kind: text });
        common.push(PropertyDesc { name: "parent", kind: PropertyKind::Unsigned });
        let mut file: Vec<PropertyDesc> = Vec::new();
        file.push(PropertyDesc { name: "content", kind: PropertyKind::Content });
        file.push(PropertyDesc { name: "size", kind: PropertyKind::Unsigned });
        let mut dir: Vec<PropertyDesc> = Vec::new();
        dir.push(PropertyDesc { name: "first_child", kind: PropertyKind::Unsigned });
        dir.push(PropertyDesc { name: "nb_children", kind: PropertyKind::Unsigned });
        let mut link: Vec<PropertyDesc> = Vec::new();
        link.push(PropertyDesc { name: "target", kind: text });
        let mut variants: Vec<VariantDesc> = Vec::new();
        variants.push(VariantDesc { name: "file", properties: file });
        variants.push(VariantDesc { name: "dir", properties: dir });
        variants.push(VariantDesc { name: "link", properties: link });
        let schema = Schema { common, variants };
        proof {
            let wanted = arx_schema(store);
            assert(described(schema.common@, store, store) =~= wanted.common);
            assert(described(schema.variants@[0].properties@, store, store)
                =~= wanted.variants[0].1);
            assert(described(schema.variants@[1].properties@, store, store)
                =~= wanted.variants[1].1);
            assert(described(schema.variants@[2].properties@, store, store)
                =~= wanted.variants[2].1);
            assert(schema.shape(store, store).variants =~= wanted.variants);
        }
        schema
    }

    /// The schema of the table.
    pub fn schema(&self) -> (schema: &Schema)
        requires
            self.wf(),
        ensures
            schema.shape(self@.path_store, self@.path_store) == arx_schema(self@.path_store),
    {
        &self.schema
    }

    /// An empty table of the filesystem schema.
    pub fn new() -> (creator: Self)
        ensures
            creator.wf(),
            creator@.rows.len() == 0,
            creator@.root_count == 0,
    {
        let path_store = value_store_plain();
        let schema = Self::describe(Ghost(path_store));
        let table = build_table(&schema, &path_store, &path_store);
        ArxCreator { table, schema, path_store, rows: Vec::new(), root_count: 0 }
    }

    /// Records how many of the first records are roots.
    pub fn set_root_count(&mut self, root_count: u32)
        requires
            old(self).wf(),
        ensures
            final(self).wf(),
            final(self)@ == (ArxView { root_count: root_count as nat, ..old(self)@ }),
    {
        self.root_count = root_count;
    }

    /// Number of records.
    pub fn entry_count(&self) -> (count: u32)
        requires
            self.wf(),
        ensures
            count == self@.rows.len(),
    {
        self.rows.len() as u32
    }

    /// Number of records at the front of the table that are roots.
    pub fn root_count(&self) -> (count: u32)
        ensures
            count == self@.root_count,
    {
        self.root_count
    }

    /// The record at `position`.
    pub fn row(&self, position: u32) -> (row: Option<&ArxRow>)
        ensures
            row is Some <==> position < self@.rows.len(),
            row matches Some(r) ==> r@ == self@.rows[position as int],
    {
        if (position as usize) < self.rows.len() {
            Some(&self.rows[position as usize])
        } else {
            None
        }
    }

    /// Appends `row` and returns its position.
    fn add_entry(&mut self, row: ArxRow) -> (position: Result<u32, TableError>)
        requires
            old(self).wf(),
        ensures
            final(self).wf(),
            match position {
                Ok(i) => i == old(self)@.rows.len() && i < u32::MAX && final(self)@ == (ArxView {
                    rows: old(self)@.rows.push(row@),
                    ..old(self)@
                }),
                Err(e) => e == TableError::Full && old(self)@.rows.len() == u32::MAX && final(self)@ == old(self)@,
            },
    {
        if self.rows.len() >= u32::MAX as usize {
            return Err(TableError::Full);
        }
        let position = self.rows.len() as u32;
        self.rows.push(row);
        assert(row_views(self.rows@) =~= row_views(old(self).rows@).push(row@));
        Ok(position)
    }

    /// Records the directory at `entry_path` under the final component of
    /// that path. `first_entry` is the flat index that its first child
    /// receives, `nb_entries` the deferred number of its children. The
    /// result is the position of the record, which is the flat index of the
    /// directory.
    pub fn add_directory(
        &mut self,
        entry_path: &str,
        parent: Option<u32>,
        first_entry: u32,
        nb_entries: Bound,
    ) -> (position: Result<u32, TableError>)
        requires
            old(self).wf(),
        ensures
            final(self).wf(),
            position is Err ==> final(self)@ == old(self)@,
            position matches Err(e) ==> e == TableError::NoFileName || e == TableError::Full,
            position == Err::<u32, TableError>(TableError::NoFileName) <==> file_name_of(
                entry_path@,
            ) is None,
            position == Err::<u32, TableError>(TableError::Full) <==> file_name_of(entry_path@)
                is Some && old(self)@.rows.len() == u32::MAX,
            position matches Ok(i) ==> i == old(self)@.rows.len() && final(self)@ == (ArxView {
                rows: old(self)@.rows.push(
                    ArxRowView::Dir {
                        name: encode_utf8(file_name_of(entry_path@)->0),
                        parent,
                        first_entry,
                        nb_entries,
                    },
                ),
                ..old(self)@
            }),
    {
        let name = match file_name(entry_path) {
            Some(name) => bytes_of(name.as_str()),
            None => {
                return Err(TableError::NoFileName);
            },
        };
        self.add_entry(ArxRow::Dir { name, parent, first_entry, nb_entries })
    }

    /// Records the file at `entry_path` under the final component of that
    /// path, with the address of its content and its size.
    pub fn add_content(
        &mut self,
        entry_path: &str,
        parent: Option<u32>,
        content_address: ContentAddress,
        size: u64,
    ) -> (position: Result<u32, TableError>)
        requires
            old(self).wf(),
        ensures
            final(self).wf(),
            position is Err ==> final(self)@ == old(self)@,
            position matches Err(e) ==> e == TableError::NoFileName || e == TableError::Full,
            position == Err::<u32, TableError>(TableError::NoFileName) <==> file_name_of(
                entry_path@,
            ) is None,
            position == Err::<u32, TableError>(TableError::Full) <==> file_name_of(entry_path@)
                is Some && old(self)@.rows.len() == u32::MAX,
            position matches Ok(i) ==> i == old(self)@.rows.len() && final(self)@ == (ArxView {
                rows: old(self)@.rows.push(
                    ArxRowView::File {
                        name: encode_utf8(file_name_of(entry_path@)->0),
                        parent,
                        content: content_address,
                        size,
                    },
                ),
                ..old(self)@
            }),
    {
        let name = match file_name(entry_path) {
            Some(name) => bytes_of(name.as_str()),
            None => {
                return Err(TableError::NoFileName);
            },
        };
        self.add_entry(ArxRow::File { name, parent, content: content_address, size })
    }

    /// Records the link at `entry_path` under the final component of that
    /// path, with its target.
    pub fn add_redirect(&mut self, entry_path: &str, parent: Option<u32>, redirect: Vec<u8>) -> (position:
        Result<u32, TableError>)
        requires
            old(self).wf(),
        ensures
            final(self).wf(),
            position is Err ==> final(self)@ == old(self)@,
            position matches Err(e) ==> e == TableError::NoFileName || e == TableError::Full,
            position == Err::<u32, TableError>(TableError::NoFileName) <==> file_name_of(
                entry_path@,
            ) is None,
            position == Err::<u32, TableError>(TableError::Full) <==> file_name_of(entry_path@)
                is Some && old(self)@.rows.len() == u32::MAX,
            position matches Ok(i) ==> i == old(self)@.rows.len() && final(self)@ == (ArxView {
                rows: old(self)@.rows.push(
                    ArxRowView::Link {
                        name: encode_utf8(file_name_of(entry_path@)->0),
                        parent,
                        target: redirect@,
                    },
                ),
                ..old(self)@
            }),
    {
        let name = match file_name(entry_path) {
            Some(name) => bytes_of(name.as_str()),
            None => {
                return Err(TableError::NoFileName);
            },
        };
        self.add_entry(ArxRow::Link { name, parent, target: redirect })
    }

    /// Whether every deferred value in the table has been fulfilled in
    /// `cells`.
    pub fn is_resolved(&self, cells: &DeferredTable) -> (done: bool)
        ensures
            done <==> forall|i: int|
                0 <= i < self@.rows.len() ==> resolvable(#[trigger] self@.rows[i], cells@),
    {
        let mut i: usize = 0;
        while i < self.rows.len()
            invariant
                i <= self.rows@.len(),
                forall|k: int| 0 <= k < i ==> resolvable(#[trigger] self@.rows[k], cells@),
            decreases self.rows@.len() - i,
        {
            let open = match &self.rows[i] {
                ArxRow::Dir { nb_entries, .. } => cells.resolve(*nb_entries).is_none(),
                _ => false,
            };
            if open {
                assert(!resolvable(self@.rows[i as int], cells@));
                return false;
            }
            i += 1;
        }
        true
    }

    /// Hands the table to the directory pack. Every record goes into the
    /// pack's table in the order of its position, with the values that
    /// `cells` hold for its deferred ones. The pack gains the store of the
    /// names, the table, an index `arx_entries` over all records and an index
    /// `arx_root` over the roots. Where a deferred value is still open the
    /// pack is left as it was.
    pub fn finalize(
        self,
        cells: &DeferredTable,
        directory_pack: &mut jubako::creator::DirectoryPackCreator,
    ) -> (done: Result<(), TableError>)
        requires
            self.wf(),
            pack_tables(*old(directory_pack)).len() < u32::MAX,
        ensures
            pack_number(*final(directory_pack)) == pack_number(*old(directory_pack)),
            pack_vendor(*final(directory_pack)) == pack_vendor(*old(directory_pack)),
            done is Ok <==> forall|i: int|
                0 <= i < self@.rows.len() ==> resolvable(#[trigger] self@.rows[i], cells@),
            done matches Err(e) ==> {
                &&& e == TableError::Unresolved
                &&& pack_tables(*final(directory_pack)) == pack_tables(*old(directory_pack))
                &&& pack_indexes(*final(directory_pack)) == pack_indexes(*old(directory_pack))
                &&& pack_value_stores(*final(directory_pack)) == pack_value_stores(
                    *old(directory_pack),
                )
            },
            done is Ok ==> {
                &&& pack_tables(*final(directory_pack)) == pack_tables(*old(directory_pack)).push(
                    resolved_rows(self@.rows, cells@),
                )
                &&& pack_value_stores(*final(directory_pack)) == pack_value_stores(
                    *old(directory_pack),
                ).push(self@.path_store)
                &&& pack_indexes(*final(directory_pack)) == pack_indexes(
                    *old(directory_pack),
                ).push(
                    IndexView {
                        name: "arx_entries"@,
                        key: 0,
                        table: pack_tables(*old(directory_pack)).len(),
                        count: self@.rows.len(),
                        offset: 0,
                    },
                ).push(
                    IndexView {
                        name: "arx_root"@,
                        key: 0,
                        table: pack_tables(*old(directory_pack)).len(),
                        count: self@.root_count,
                        offset: 0,
                    },
                )
            },
    {
        let ArxCreator { table, schema, path_store, rows, root_count } = self;
        let mut table = table;
        let ghost views = row_views(rows@);
        assert(views == self@.rows);
        let mut i: usize = 0;
        while i < rows.len()
            invariant
                i <= rows@.len() <= u32::MAX,
                views == row_views(rows@),
                views == self@.rows,
                table_shape(table) == arx_schema(path_store),
                table_rows(table) == resolved_rows(views.take(i as int), cells@),
                forall|k: int| 0 <= k < i ==> resolvable(#[trigger] views[k], cells@),
            decreases rows@.len() - i,
        {
            match fields_of(&rows[i], cells, Ghost(path_store)) {
                Some((variant, names, values)) => {
                    let ghost before = table_rows(table);
                    table_add(&mut table, variant, names, values);
                    proof {
                        assert(views.take(i + 1) =~= views.take(i as int).push(views[i as int]));
                        assert(resolved_rows(views.take(i + 1), cells@) =~= before.push(
                            resolved_row(views[i as int], cells@),
                        ));
                    }
                },
                None => {
                    assert(!resolvable(views[i as int], cells@));
                    return Err(TableError::Unresolved);
                },
            }
            i += 1;
        }
        assert(views.take(i as int) =~= views);
        let count = rows.len() as u32;
        pack_add_value_store(directory_pack, path_store);
        let number = pack_add_table(directory_pack, table);
        pack_create_index(directory_pack, "arx_entries", 0, number, count, 0);
        pack_create_index(directory_pack, "arx_root", 0, number, root_count, 0);
        Ok(())
    }
}

} // verus!
