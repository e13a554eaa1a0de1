//! The tables of the web schema and of the presentation schema.
//!
//! In the web schema a file is recorded under its whole path in the archive
//! with its media type and content address, a link under its path with its
//! target; directories have no record. The presentation schema is the web
//! schema with one entry marked as the entry point: the file whose path is
//! the configured main path.

use vstd::prelude::*;
use vstd::utf8::encode_utf8;
use crate::fs_entry::ContentAddress;
use crate::arx_creator::TableError;
use crate::mime::Mime;
use crate::paths::{bytes_of, copy_bytes};
use crate::store::{
    build_table, conforms, conforms_at, described, names_of, pack_add_table, pack_add_value_store,
    pack_create_index, pack_indexes, pack_number, pack_tables, pack_value_stores, pack_vendor,
    row_of, table_add,
    table_rows, table_shape, value_store_indexed, value_store_plain, views_of, EntryTable,
    FieldValue, FieldView, IndexView, PropertyDesc, PropertyKind, PropertyShape, RowView, Schema,
    SchemaShape, VariantDesc,
};

verus! {

/// The longest path or target, in bytes, that a record holds. What is
/// longer cannot be recorded, and is refused.
pub const MAX_TEXT: usize = 255;

/// The schema of the web and presentation tables. Every record has a path;
/// a content record adds the media type and the content address, a
/// redirection its target. Paths and targets stand in `paths` but for the
/// first byte of a path, media types in `mimes`.
pub open spec fn jim_schema(
    paths: jubako::creator::StoreHandle,
    mimes: jubako::creator::StoreHandle,
) -> SchemaShape {
    SchemaShape {
        common: seq![PropertyShape::Bytes { name: "path"@, inline: 1, store: paths }],
        variants: seq![
            (
                "content"@,
                seq![
                    PropertyShape::Bytes { name: "mimetype"@, inline: 0, store: mimes },
                    PropertyShape::Content { name: "address"@ },
                ],
            ),
            (
                "redirect"@,
                seq![PropertyShape::Bytes { name: "target"@, inline: 0, store: paths }],
            ),
        ],
    }
}

/// `bytes` are few enough to stand in a record.
pub open spec fn fits_record(bytes: Seq<u8>) -> bool {
    bytes.len() <= MAX_TEXT
}

/// One record of the presentation table.
#[derive(Debug)]
pub enum JimRow {
    Content { path: Vec<u8>, mimetype: Vec<u8>, content: ContentAddress },
    Redirect { path: Vec<u8>, target: Vec<u8> },
}

/// A [`JimRow`] as contracts see it.
pub enum JimRowView {
    Content { path: Seq<u8>, mimetype: Seq<u8>, content: ContentAddress },
    Redirect { path: Seq<u8>, target: Seq<u8> },
}

impl View for JimRow {
    type V = JimRowView;

    open spec fn view(&self) -> JimRowView {
        match self {
            JimRow::Content { path, mimetype, content } => JimRowView::Content {
                path: path@,
                mimetype: mimetype@,
                content: *content,
            },
            JimRow::Redirect { path, target } => JimRowView::Redirect {
                path: path@,
                target: target@,
            },
        }
    }
}

/// The record of the file at `path`: the path, the media type and the
/// content address.
pub open spec fn content_row(path: Seq<char>, mime: Seq<char>, address: ContentAddress) -> JimRowView {
    JimRowView::Content {
        path: encode_utf8(path),
        mimetype: encode_utf8(mime),
        content: address,
    }
}

/// The record of the link at `path`: the path and the target.
pub open spec fn redirect_row(path: Seq<char>, target: Seq<u8>) -> JimRowView {
    JimRowView::Redirect { path: encode_utf8(path), target }
}

/// The record as the directory pack takes it.
pub open spec fn packed_row(row: JimRowView) -> RowView {
    match row {
        JimRowView::Content { path, mimetype, content } => row_of(
            "content"@,
            seq!["path"@, "mimetype"@, "address"@],
            seq![FieldView::Bytes(path), FieldView::Bytes(mimetype), FieldView::Content(content)],
        ),
        JimRowView::Redirect { path, target } => row_of(
            "redirect"@,
            seq!["path"@, "target"@],
            seq![FieldView::Bytes(path), FieldView::Bytes(target)],
        ),
    }
}

/// The views of a list of records.
pub open spec fn row_views(rows: Seq<JimRow>) -> Seq<JimRowView> {
    rows.map_values(|r: JimRow| r@)
}

/// The records as the directory pack takes them.
pub open spec fn packed_rows(rows: Seq<JimRowView>) -> Seq<RowView> {
    rows.map_values(|r: JimRowView| packed_row(r))
}

/// A web or presentation table as contracts see it.
pub struct JimView {
    /// The records, in the order in which they were added.
    pub rows: Seq<JimRowView>,
    /// The path of the file that is the entry point, in a presentation
    /// table; `None` in a web table, which marks no entry.
    pub main_entry_path: Option<Seq<char>>,
    /// The position of the entry point: that of the last file recorded under
    /// the main path, 0 while there is none.
    pub main_entry_id: u32,
    /// The value store that keeps the paths and targets.
    pub path_store: jubako::creator::StoreHandle,
    /// The value store that keeps the media types.
    pub mime_store: jubako::creator::StoreHandle,
}

/// The indexes that a table declares in a pack, where it is the table with
/// number `table`: all its records and, for a presentation table, the one
/// record that is the entry point.
pub open spec fn indexes_of(view: JimView, table: nat) -> Seq<IndexView> {
    match view.main_entry_path {
        Some(_) => seq![
            IndexView { name: "jim_entries"@, key: 0, table, count: view.rows.len(), offset: 0 },
            IndexView {
                name: "jim_main"@,
                key: 0,
                table,
                count: 1,
                offset: view.main_entry_id as nat,
            },
        ],
        None => seq![
            IndexView { name: "waj_entries"@, key: 0, table, count: view.rows.len(), offset: 0 },
        ],
    }
}

/// Builder of a web or presentation table.
pub struct JimCreator {
    table: EntryTable,
    schema: Schema,
    path_store: jubako::creator::StoreHandle,
    mime_store: jubako::creator::StoreHandle,
    rows: Vec<JimRow>,
    main_entry_path: Option<String>,
    main_entry_id: u32,
}

impl View for JimCreator {
    type V = JimView;

    closed spec fn view(&self) -> JimView {
        JimView {
            rows: row_views(self.rows@),
            main_entry_path: match self.main_entry_path {
                Some(path) => Some(path@),
                None => None,
            },
            main_entry_id: self.main_entry_id,
            path_store: self.path_store,
            mime_store: self.mime_store,
        }
    }
}

/// The fields of `row` as the table takes them.
fn fields_of(
    row: &JimRow,
    Ghost(paths): Ghost<jubako::creator::StoreHandle>,
    Ghost(mimes): Ghost<jubako::creator::StoreHandle>,
) -> (fields: (&'static str, Vec<&'static str>, Vec<FieldValue>))
    ensures
        conforms(jim_schema(paths, mimes), fields.0@, names_of(fields.1@), views_of(fields.2@)),
        row_of(fields.0@, names_of(fields.1@), views_of(fields.2@)) == packed_row(row@),
{
    proof {
        reveal_strlit("path");
        reveal_strlit("mimetype");
        reveal_strlit("address");
        reveal_strlit("target");
        reveal_strlit("content");
        reveal_strlit("redirect");
        assert("path"@.len() == 4 && "mimetype"@.len() == 8 && "address"@.len() == 7);
        assert("target"@.len() == 6 && "content"@.len() == 7 && "redirect"@.len() == 8);
    }
    let mut names: Vec<&'static str> = Vec::new();
    let mut values: Vec<FieldValue> = Vec::new();
    names.push("path");
    match row {
        JimRow::Content { path, mimetype, content } => {
            values.push(FieldValue::Bytes(copy_bytes(path)));
            names.push("mimetype");
            values.push(FieldValue::Bytes(copy_bytes(mimetype)));
            names.push("address");
            values.push(FieldValue::Content(*content));
            proof {
                let shape = jim_schema(paths, mimes);
                assert(names_of(names@) =~= seq!["path"@, "mimetype"@, "address"@]);
                assert(views_of(values@) =~= seq![
                    FieldView::Bytes(path@),
                    FieldView::Bytes(mimetype@),
                    FieldView::Content(*content),
                ]);
                assert(shape.common + shape.variants[0].1 =~= seq![
                    PropertyShape::Bytes { name: "path"@, inline: 1, store: paths },
                    PropertyShape::Bytes { name: "mimetype"@, inline: 0, store: mimes },
                    PropertyShape::Content { name: "address"@ },
                ]);
                assert(conforms_at(shape, 0, "content"@, names_of(names@), views_of(values@)));
            }
            ("content", names, values)
        },
        JimRow::Redirect { path, target } => {
            values.push(FieldValue::Bytes(copy_bytes(path)));
            names.push("target");
            values.push(FieldValue::Bytes(copy_bytes(target)));
            proof {
                let shape = jim_schema(paths, mimes);
                assert(names_of(names@) =~= seq!["path"@, "target"@]);
                assert(views_of(values@) =~= seq![
                    FieldView::Bytes(path@),
                    FieldView::Bytes(target@),
                ]);
                assert(shape.common + shape.variants[1].1 =~= seq![
                    PropertyShape::Bytes { name: "path"@, inline: 1, store: paths },
                    PropertyShape::Bytes { name: "target"@, inline: 0, store: paths },
                ]);
                assert(conforms_at(shape, 1, "redirect"@, names_of(names@), views_of(values@)));
            }
            ("redirect", names, values)
        },
    }
}

impl JimCreator {
    /// The table behind the builder has the presentation schema and is
    /// empty until the builder is finalized, and the records can be
    /// numbered.
    pub closed spec fn wf(&self) -> bool {
        &&& table_shape(self.table) == jim_schema(self.path_store, self.mime_store)
        &&& self.schema.shape(self.path_store, self.mime_store) == jim_schema(
            self.path_store,
            self.mime_store,
        )
        &&& table_rows(self.table).len() == 0
        &&& self.rows@.len() <= u32::MAX
    }

    /// The description of the presentation schema.
    fn describe(
        Ghost(paths): Ghost<jubako::creator::StoreHandle>,
        Ghost(mimes): Ghost<jubako::creator::StoreHandle>,
    ) -> (schema: Schema)
        ensures
            schema.shape(paths, mimes) == jim_schema(paths, mimes),
    {
        let mut common: Vec<PropertyDesc> = Vec::new();
        common.push(
            PropertyDesc { name: "path", kind: PropertyKind::Bytes { inline: 1, indexed: false } },
        );
        let mut content: Vec<PropertyDesc> = Vec::new();
        content.push(
            PropertyDesc {
                name: "mimetype",
                kind: PropertyKind::Bytes { inline: 0, indexed: true },
            },
        );
        content.push(PropertyDesc { name: "address", kind: PropertyKind::Content });
        let mut redirect: Vec<PropertyDesc> = Vec::new();
        redirect.push(
            PropertyDesc {
                name: "target",
                kind: PropertyKind::Bytes { inline: 0, indexed: false },
            },
        );
        let mut variants: Vec<VariantDesc> = Vec::new();
        variants.push(VariantDesc { name: "content", properties: content });
        variants.push(VariantDesc { name: "redirect", properties: redirect });
        let schema = Schema { common, variants };
        proof {
            let wanted = jim_schema(paths, mimes);
            assert(described(schema.common@, paths, mimes) =~= wanted.common);
            assert(described(schema.variants@[0].properties@, paths, mimes)
                =~= wanted.variants[0].1);
            assert(described(schema.variants@[1].properties@, paths, mimes)
                =~= wanted.variants[1].1);
            assert(schema.shape(paths, mimes).variants =~= wanted.variants);
        }
        schema
    }

    /// The schema of the table.
    pub fn schema(&self) -> (schema: &Schema)
        requires
            self.wf(),
        ensures
            schema.shape(self@.path_store, self@.mime_store) == jim_schema(
                self@.path_store,
                self@.mime_store,
            ),
    {
        &self.schema
    }

    /// An empty presentation table, with `main_entry` as the path of the
    /// entry point.
    pub fn new(main_entry: String) -> (creator: Self)
        ensures
            creator.wf(),
            creator@.rows.len() == 0,
            creator@.main_entry_path == Some(main_entry@),
            creator@.main_entry_id == 0,
    {
        Self::with_main(Some(main_entry))
    }

    /// An empty web table: a table of the same schema that marks no entry.
    pub fn web() -> (creator: Self)
        ensures
            creator.wf(),
            creator@.rows.len() == 0,
            creator@.main_entry_path is None,
            creator@.main_entry_id == 0,
    {
        Self::with_main(None)
    }

    /// An empty table.
    fn with_main(main_entry_path: Option<String>) -> (creator: Self)
        ensures
            creator.wf(),
            creator@.rows.len() == 0,
            creator@.main_entry_path == (match main_entry_path {
                Some(path) => Some(path@),
                None => None,
            }),
            creator@.main_entry_id == 0,
    {
        let path_store = value_store_plain();
        let mime_store = value_store_indexed();
        let schema = Self::describe(Ghost(path_store), Ghost(mime_store));
        let table = build_table(&schema, &path_store, &mime_store);
        JimCreator {
            table,
            schema,
            path_store,
            mime_store,
            rows: Vec::new(),
            main_entry_path,
            main_entry_id: 0,
        }
    }

    /// Number of records.
    pub fn entry_count(&self) -> (count: u32)
        requires
            self.wf(),
        ensures
            count == self@.rows.len(),
    {
        self.rows.len() as u32
    }

    /// Position of the entry point.
    pub fn main_entry_id(&self) -> (position: u32)
        ensures
            position == self@.main_entry_id,
    {
        self.main_entry_id
    }

    /// The record at `position`.
    pub fn row(&self, position: u32) -> (row: Option<&JimRow>)
        ensures
            row is Some <==> position < self@.rows.len(),
            row matches Some(r) ==> r@ == self@.rows[position as int],
    {
        if (position as usize) < self.rows.len() {
            Some(&self.rows[position as usize])
        } else {
            None
        }
    }

    /// Appends `row` and returns its position.
    fn add_entry(&mut self, row: JimRow) -> (position: u32)
        requires
            old(self).wf(),
            old(self)@.rows.len() < u32::MAX,
        ensures
            final(self).wf(),
            position == old(self)@.rows.len(),
            final(self)@ == (JimView { rows: old(self)@.rows.push(row@), ..old(self)@ }),
    {
        let position = self.rows.len() as u32;
        self.rows.push(row);
        assert(row_views(self.rows@) =~= row_views(old(self).rows@).push(row@));
        position
    }

    /// Records the file at `entry_path` with its media type and the address
    /// of its content. If `entry_path` is the main path, the record becomes
    /// the entry point. A path of more than [`MAX_TEXT`] bytes cannot be
    /// recorded and is refused; so is any record by a full table. A refusal
    /// leaves the table as it was.
    pub fn add_content(&mut self, entry_path: String, mimetype: &Mime, content_address: ContentAddress) -> (position:
        Result<u32, TableError>)
        requires
            old(self).wf(),
        ensures
            final(self).wf(),
            position is Err ==> final(self)@ == old(self)@,
            position == Err::<u32, TableError>(TableError::TooLong) <==> !fits_record(
                encode_utf8(entry_path@),
            ),
            position == Err::<u32, TableError>(TableError::Full) <==> fits_record(
                encode_utf8(entry_path@),
            ) && old(self)@.rows.len() == u32::MAX,
            position matches Err(e) ==> e == TableError::TooLong || e == TableError::Full,
            position matches Ok(i) ==> {
                &&& i == old(self)@.rows.len()
                &&& i < u32::MAX
                &&& final(self)@ == (JimView {
                    rows: old(self)@.rows.push(
                        content_row(entry_path@, mimetype@, content_address),
                    ),
                    main_entry_id: if old(self)@.main_entry_path == Some(entry_path@) {
                        i
                    } else {
                        old(self)@.main_entry_id
                    },
                    ..old(self)@
                })
            },
    {
        let path = bytes_of(entry_path.as_str());
        if path.len() > MAX_TEXT {
            return Err(TableError::TooLong);
        }
        if self.rows.len() >= u32::MAX as usize {
            return Err(TableError::Full);
        }
        let is_main = match &self.main_entry_path {
            Some(main) => entry_path == *main,
            None => false,
        };
        if is_main {
            self.main_entry_id = self.rows.len() as u32;
        }
        let mimetype = bytes_of(mimetype.as_str());
        Ok(self.add_entry(JimRow::Content { path, mimetype, content: content_address }))
    }

    /// Records the link at `entry_path` with its target. A path or a target
    /// of more than [`MAX_TEXT`] bytes cannot be recorded and is refused; so
    /// is any record by a full table. A refusal leaves the table as it was.
    pub fn add_redirect(&mut self, entry_path: String, redirect: Vec<u8>) -> (position: Result<
        u32,
        TableError,
    >)
        requires
            old(self).wf(),
        ensures
            final(self).wf(),
            position is Err ==> final(self)@ == old(self)@,
            position == Err::<u32, TableError>(TableError::TooLong) <==> !(fits_record(
                encode_utf8(entry_path@),
            ) && fits_record(redirect@)),
            position == Err::<u32, TableError>(TableError::Full) <==> fits_record(
                encode_utf8(entry_path@),
            ) && fits_record(redirect@) && old(self)@.rows.len() == u32::MAX,
            position matches Err(e) ==> e == TableError::TooLong || e == TableError::Full,
            position matches Ok(i) ==> {
                &&& i == old(self)@.rows.len()
                &&& i < u32::MAX
                &&& final(self)@ == (JimView {
                    rows: old(self)@.rows.push(redirect_row(entry_path@, redirect@)),
                    ..old(self)@
                })
            },
    {
        let path = bytes_of(entry_path.as_str());
        if path.len() > MAX_TEXT || redirect.len() > MAX_TEXT {
            return Err(TableError::TooLong);
        }
        if self.rows.len() >= u32::MAX as usize {
            return Err(TableError::Full);
        }
        Ok(self.add_entry(JimRow::Redirect { path, target: redirect }))
    }

    /// Hands the table to the directory pack. Every record goes into the
    /// pack's table in the order of its position. The pack gains the stores
    /// of the paths and of the media types, the table, and its indexes: for
    /// a presentation table an index `jim_entries` over all records and an
    /// index `jim_main` over the one record that is the entry point, for a
    /// web table an index `waj_entries` over all records.
    pub fn finalize(self, directory_pack: &mut jubako::creator::DirectoryPackCreator)
        requires
            self.wf(),
            pack_tables(*old(directory_pack)).len() < u32::MAX,
        ensures
            pack_tables(*final(directory_pack)) == pack_tables(*old(directory_pack)).push(
                packed_rows(self@.rows),
            ),
            pack_value_stores(*final(directory_pack)) == pack_value_stores(
                *old(directory_pack),
            ).push(self@.path_store).push(self@.mime_store),
            pack_number(*final(directory_pack)) == pack_number(*old(directory_pack)),
            pack_vendor(*final(directory_pack)) == pack_vendor(*old(directory_pack)),
            pack_indexes(*final(directory_pack)) == pack_indexes(*old(directory_pack))
                + indexes_of(self@, pack_tables(*old(directory_pack)).len()),
    {
        let JimCreator {
            table,
            schema,
            path_store,
            mime_store,
            rows,
            main_entry_path,
            main_entry_id,
        } = self;
        let mut table = table;
        let ghost views = row_views(rows@);
        assert(views == self@.rows);
        let mut i: usize = 0;
        while i < rows.len()
            invariant
                i <= rows@.len() <= u32::MAX,
                views == row_views(rows@),
                table_shape(table) == jim_schema(path_store, mime_store),
                table_rows(table) == packed_rows(views.take(i as int)),
            decreases rows@.len() - i,
        {
            let (variant, names, values) = fields_of(
                &rows[i],
                Ghost(path_store),
                Ghost(mime_store),
            );
            let ghost before = table_rows(table);
            table_add(&mut table, variant, names, values);
            proof {
                assert(views.take(i + 1) =~= views.take(i as int).push(views[i as int]));
                assert(packed_rows(views.take(i + 1)) =~= before.push(packed_row(views[i as int])));
            }
            i += 1;
        }
        assert(views.take(i as int) =~= views);
        let count = rows.len() as u32;
        pack_add_value_store(directory_pack, path_store);
        pack_add_value_store(directory_pack, mime_store);
        let number = pack_add_table(directory_pack, table);
        match main_entry_path {
            Some(_) => {
                pack_create_index(directory_pack, "jim_entries", 0, number, count, 0);
                pack_create_index(directory_pack, "jim_main", 0, number, 1, main_entry_id);
            },
            None => {
                pack_create_index(directory_pack, "waj_entries", 0, number, count, 0);
            },
        }
        assert(pack_indexes(*directory_pack) =~= pack_indexes(*old(directory_pack)) + indexes_of(
            self@,
            pack_tables(*old(directory_pack)).len(),
        ));
    }
}

} // verus!
