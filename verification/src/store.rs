//! The directory pack builder of `jubako`, as far as the record tables use it.
//!
//! A schema is described as plain data, and a table is built from the
//! description. The steps of the builder themselves are not proved: each
//! function marked `external_body` makes one step available to verified
//! code and says what that step does, as the source of `jubako` shows it.
//! What a property, a schema, a table and a pack hold is named by the spec
//! functions [`property_shape`], [`schema_shape`], [`table_shape`],
//! [`table_rows`], [`pack_number`], [`pack_vendor`], [`pack_value_stores`],
//! [`pack_tables`] and [`pack_indexes`].

use vstd::prelude::*;
use crate::fs_entry::ContentAddress;

verus! {

/// A handle on a value store, in which a pack keeps the bytes of its array
/// properties.
#[verifier::external_type_specification]
#[verifier::external_body]
pub struct ExStoreHandle(jubako::creator::StoreHandle);

/// The value store behind a [`jubako::creator::StoreHandle`].
#[verifier::external_type_specification]
#[verifier::external_body]
pub struct ExValueStore(jubako::creator::ValueStore);

/// The lock through which a handle reaches its value store.
#[verifier::external_type_specification]
#[verifier::external_body]
#[verifier::reject_recursive_types(T)]
pub struct ExRwLock<T: ?Sized>(std::sync::RwLock<T>);

/// The builder of a directory pack.
#[verifier::external_type_specification]
#[verifier::external_body]
pub struct ExDirectoryPackCreator(jubako::creator::DirectoryPackCreator);

/// One property of a schema: a `jubako::creator::schema::Property` named by
/// a string. The type is generic over `jubako`'s naming traits, which the
/// verifier does not take as bounds, so it is kept behind this opaque
/// struct.
#[verifier::external_body]
pub struct PropertyDef {
    inner: jubako::creator::schema::Property<&'static str>,
}

/// A schema: a `jubako::creator::schema::Schema` whose properties and
/// variants are named by strings, kept opaque for the same reason.
#[verifier::external_body]
pub struct SchemaDef {
    inner: jubako::creator::schema::Schema<&'static str, &'static str>,
}

/// A table of records: a `jubako::creator::EntryStore` of basic entries,
/// kept opaque for the same reason.
#[verifier::external_body]
pub struct EntryTable {
    inner: jubako::creator::EntryStore<
        &'static str,
        &'static str,
        jubako::creator::BasicEntry<&'static str, &'static str>,
    >,
}

/// What a property records, and under which name. Of bytes, the first
/// `inline` stand in the record and the others in the value store `store`.
pub enum PropertyShape {
    Unsigned { name: Seq<char> },
    Bytes { name: Seq<char>, inline: nat, store: jubako::creator::StoreHandle },
    Content { name: Seq<char> },
}

impl PropertyShape {
    pub open spec fn name(self) -> Seq<char> {
        match self {
            PropertyShape::Unsigned { name } => name,
            PropertyShape::Bytes { name, .. } => name,
            PropertyShape::Content { name } => name,
        }
    }
}

/// The properties every record has, and those of each variant.
pub struct SchemaShape {
    pub common: Seq<PropertyShape>,
    pub variants: Seq<(Seq<char>, Seq<PropertyShape>)>,
}

/// What sort of value a property records.
#[derive(Clone, Copy, Debug, PartialEq, Eq, Structural)]
pub enum PropertyKind {
    /// An unsigned number.
    Unsigned,
    /// Bytes. The first `inline` of them stand in the record; the others
    /// stand in the indexed value store if `indexed`, else in the plain one.
    Bytes { inline: usize, indexed: bool },
    /// A content address.
    Content,
}

/// The description of one property of a schema.
#[derive(Clone, Copy, Debug)]
pub struct PropertyDesc {
    pub name: &'static str,
    pub kind: PropertyKind,
}

/// The description of one variant of a schema.
#[derive(Debug)]
pub struct VariantDesc {
    pub name: &'static str,
    pub properties: Vec<PropertyDesc>,
}

/// The description of a schema: the properties that every record has and,
/// for each variant, those that its records add.
#[derive(Debug)]
pub struct Schema {
    pub common: Vec<PropertyDesc>,
    pub variants: Vec<VariantDesc>,
}

impl PropertyDesc {
    /// What the described property records, where `plain` and `indexed`
    /// are the two value stores that bytes can go to.
    pub open spec fn shape(
        self,
        plain: jubako::creator::StoreHandle,
        indexed: jubako::creator::StoreHandle,
    ) -> PropertyShape {
        match self.kind {
            PropertyKind::Unsigned => PropertyShape::Unsigned { name: self.name@ },
            PropertyKind::Bytes { inline, indexed: to_indexed } => PropertyShape::Bytes {
                name: self.name@,
                inline: inline as nat,
                store: if to_indexed {
                    indexed
                } else {
                    plain
                },
            },
            PropertyKind::Content => PropertyShape::Content { name: self.name@ },
        }
    }
}

/// The shapes of a list of described properties.
pub open spec fn described(
    properties: Seq<PropertyDesc>,
    plain: jubako::creator::StoreHandle,
    indexed: jubako::creator::StoreHandle,
) -> Seq<PropertyShape> {
    properties.map_values(|p: PropertyDesc| p.shape(plain, indexed))
}

impl VariantDesc {
    /// The name of the described variant and what its properties record.
    pub open spec fn shape(
        self,
        plain: jubako::creator::StoreHandle,
        indexed: jubako::creator::StoreHandle,
    ) -> (Seq<char>, Seq<PropertyShape>) {
        (self.name@, described(self.properties@, plain, indexed))
    }
}

impl Schema {
    /// The properties and variants of the described schema.
    pub open spec fn shape(
        self,
        plain: jubako::creator::StoreHandle,
        indexed: jubako::creator::StoreHandle,
    ) -> SchemaShape {
        SchemaShape {
            common: described(self.common@, plain, indexed),
            variants: self.variants@.map_values(|v: VariantDesc| v.shape(plain, indexed)),
        }
    }
}

/// The value of one property of a record.
#[derive(Debug)]
pub enum FieldValue {
    Unsigned(u64),
    Bytes(Vec<u8>),
    Content(ContentAddress),
}

/// A [`FieldValue`] as contracts see it.
pub enum FieldView {
    Unsigned(u64),
    Bytes(Seq<u8>),
    Content(ContentAddress),
}

impl View for FieldValue {
    type V = FieldView;

    open spec fn view(&self) -> FieldView {
        match self {
            FieldValue::Unsigned(n) => FieldView::Unsigned(*n),
            FieldValue::Bytes(b) => FieldView::Bytes(b@),
            FieldValue::Content(a) => FieldView::Content(*a),
        }
    }
}

/// One record of a table: its variant and the value it holds under each
/// property name. No name occurs twice.
pub struct RowView {
    pub variant: Seq<char>,
    pub fields: Seq<(Seq<char>, FieldView)>,
}

/// One index of a pack: a named range of a table, keyed by the property with
/// number `key`.
pub struct IndexView {
    pub name: Seq<char>,
    pub key: nat,
    pub table: nat,
    pub count: nat,
    pub offset: nat,
}

/// What `property` records and under which name.
pub uninterp spec fn property_shape(property: PropertyDef) -> PropertyShape;

/// The properties and variants of `schema`.
pub uninterp spec fn schema_shape(schema: SchemaDef) -> SchemaShape;

/// The properties and variants of the schema that `table` was made with.
pub uninterp spec fn table_shape(table: EntryTable) -> SchemaShape;

/// The records of `table`, in the order in which they were added.
pub uninterp spec fn table_rows(table: EntryTable) -> Seq<RowView>;

/// The number that `pack` has among the packs of its archive.
pub uninterp spec fn pack_number(pack: jubako::creator::DirectoryPackCreator) -> u16;

/// The four bytes by which `pack` names the application that made it.
pub uninterp spec fn pack_vendor(pack: jubako::creator::DirectoryPackCreator) -> Seq<u8>;

/// The value stores handed to `pack`, in the order in which they were
/// handed over.
pub uninterp spec fn pack_value_stores(pack: jubako::creator::DirectoryPackCreator) -> Seq<
    jubako::creator::StoreHandle,
>;

/// The tables handed to `pack`, each as its records.
pub uninterp spec fn pack_tables(pack: jubako::creator::DirectoryPackCreator) -> Seq<Seq<RowView>>;

/// The indexes declared in `pack`.
pub uninterp spec fn pack_indexes(pack: jubako::creator::DirectoryPackCreator) -> Seq<IndexView>;

/// The shapes of a list of properties.
pub open spec fn shapes_of(properties: Seq<PropertyDef>) -> Seq<PropertyShape> {
    properties.map_values(|p: PropertyDef| property_shape(p))
}

/// The shapes of a list of named variants.
pub open spec fn variant_shapes_of(variants: Seq<(&'static str, Vec<PropertyDef>)>) -> Seq<
    (Seq<char>, Seq<PropertyShape>),
> {
    variants.map_values(|v: (&'static str, Vec<PropertyDef>)| (v.0@, shapes_of(v.1@)))
}

/// `value` is of the sort that `property` records.
pub open spec fn fits(property: PropertyShape, value: FieldView) -> bool {
    match property {
        PropertyShape::Unsigned { .. } => value is Unsigned,
        PropertyShape::Bytes { .. } => value is Bytes,
        PropertyShape::Content { .. } => value is Content,
    }
}

/// The variant at position `at` is the first one called `variant`, and the
/// fields are the common properties followed by those of that variant, each
/// under its name and of its sort, no name twice.
pub open spec fn conforms_at(
    shape: SchemaShape,
    at: int,
    variant: Seq<char>,
    names: Seq<Seq<char>>,
    values: Seq<FieldView>,
) -> bool {
    &&& 0 <= at < shape.variants.len()
    &&& shape.variants[at].0 == variant
    &&& forall|k: int| 0 <= k < at ==> (#[trigger] shape.variants[k]).0 != variant
    &&& names.len() == shape.common.len() + shape.variants[at].1.len()
    &&& values.len() == names.len()
    &&& forall|k: int|
        0 <= k < names.len() ==> names[k] == (#[trigger] (shape.common + shape.variants[at].1)[k]).name()
            && fits((shape.common + shape.variants[at].1)[k], values[k])
    &&& forall|k: int, l: int| 0 <= k < l < names.len() ==> names[k] != names[l]
}

/// A record of variant `variant` with these fields is one that a table of
/// this shape takes.
pub open spec fn conforms(
    shape: SchemaShape,
    variant: Seq<char>,
    names: Seq<Seq<char>>,
    values: Seq<FieldView>,
) -> bool {
    exists|at: int| conforms_at(shape, at, variant, names, values)
}

/// The record with these fields.
pub open spec fn row_of(variant: Seq<char>, names: Seq<Seq<char>>, values: Seq<FieldView>) -> RowView {
    RowView { variant, fields: names.zip_with(values) }
}

/// The views of a list of field values.
pub open spec fn views_of(values: Seq<FieldValue>) -> Seq<FieldView> {
    values.map_values(|v: FieldValue| v@)
}

/// The views of a list of names.
pub open spec fn names_of(names: Seq<&'static str>) -> Seq<Seq<char>> {
    names.map_values(|n: &'static str| n@)
}

/// Calls `DirectoryPackCreator::new`: a directory pack with the given number
/// and vendor mark, which holds no value store, no table and no index.
#[verifier::external_body]
pub(crate) fn pack_new(pack_id: u16, vendor: [u8; 4]) -> (pack: jubako::creator::DirectoryPackCreator)
    ensures
        pack_number(pack) == pack_id,
        pack_vendor(pack) == vendor@,
        pack_value_stores(pack).len() == 0,
        pack_tables(pack).len() == 0,
        pack_indexes(pack).len() == 0,
{
    let vendor = jubako::VendorId::new(vendor);
    jubako::creator::DirectoryPackCreator::new(pack_id.into(), vendor, Default::default())
}

/// Calls `ValueStore::new_plain(None)`: a new, empty value store that keeps
/// its values one behind the other.
#[verifier::external_body]
pub(crate) fn value_store_plain() -> jubako::creator::StoreHandle {
    jubako::creator::ValueStore::new_plain(None)
}

/// Calls `ValueStore::new_indexed()`: a new, empty value store that keeps an
/// index of its values.
#[verifier::external_body]
pub(crate) fn value_store_indexed() -> jubako::creator::StoreHandle {
    jubako::creator::ValueStore::new_indexed()
}

/// Calls `Property::new_uint`: a property that records an unsigned number
/// under `name`.
#[verifier::external_body]
pub(crate) fn property_uint(name: &'static str) -> (property: PropertyDef)
    ensures
        property_shape(property) == (PropertyShape::Unsigned { name: name@ }),
{
    PropertyDef { inner: jubako::creator::schema::Property::new_uint(name) }
}

/// Calls `Property::new_array` with a handle on `store`: a property that
/// records bytes under `name`. The first `inline` bytes stand in the record,
/// the others in `store`.
#[verifier::external_body]
pub(crate) fn property_array(
    inline: usize,
    store: &jubako::creator::StoreHandle,
    name: &'static str,
) -> (property: PropertyDef)
    ensures
        property_shape(property) == (PropertyShape::Bytes {
            name: name@,
            inline: inline as nat,
            store: *store,
        }),
{
    PropertyDef { inner: jubako::creator::schema::Property::new_array(inline, store.clone(), name) }
}

/// Calls `Property::new_content_address`: a property that records a content
/// address under `name`.
#[verifier::external_body]
pub(crate) fn property_content(name: &'static str) -> (property: PropertyDef)
    ensures
        property_shape(property) == (PropertyShape::Content { name: name@ }),
{
    PropertyDef { inner: jubako::creator::schema::Property::new_content_address(name) }
}

/// Calls `Schema::new` on the common properties and the variants, without
/// sort keys: the records of a table of this schema stay in the order in
/// which they are added.
#[verifier::external_body]
pub(crate) fn schema_new(
    common: Vec<PropertyDef>,
    variants: Vec<(&'static str, Vec<PropertyDef>)>,
) -> (schema: SchemaDef)
    ensures
        schema_shape(schema) == (SchemaShape {
            common: shapes_of(common@),
            variants: variant_shapes_of(variants@),
        }),
{
    let common = common.into_iter().map(|p| p.inner).collect();
    let variants = variants.into_iter().map(
        |(name, own)| {
            let own = own.into_iter().map(|p| p.inner).collect();
            (name, jubako::creator::schema::VariantProperties::new(own))
        },
    ).collect();
    let common = jubako::creator::schema::CommonProperties::new(common);
    SchemaDef { inner: jubako::creator::schema::Schema::new(common, variants, None) }
}

/// Calls `EntryStore::new`: an empty table of the given schema.
#[verifier::external_body]
pub(crate) fn table_new(schema: SchemaDef) -> (table: EntryTable)
    ensures
        table_shape(table) == schema_shape(schema),
        table_rows(table).len() == 0,
{
    EntryTable { inner: jubako::creator::EntryStore::new(schema.inner, None) }
}

/// Calls `BasicEntry::new_from_schema` and hands the entry to
/// `EntryStore::add_entry`: the table gains one record, behind those it has,
/// and the result is the position of that record. `new_from_schema` panics
/// on a variant that the schema lacks and on a property without a value of
/// its sort; a conforming record has neither.
#[verifier::external_body]
pub(crate) fn table_add(
    table: &mut EntryTable,
    variant: &'static str,
    names: Vec<&'static str>,
    values: Vec<FieldValue>,
) -> (position: u32)
    requires
        conforms(table_shape(*old(table)), variant@, names_of(names@), views_of(values@)),
        table_rows(*old(table)).len() < u32::MAX,
    ensures
        table_rows(*final(table)) == table_rows(*old(table)).push(
            row_of(variant@, names_of(names@), views_of(values@)),
        ),
        table_shape(*final(table)) == table_shape(*old(table)),
        position == table_rows(*old(table)).len(),
{
    let fields = names.into_iter().zip(values).map(
        |(name, value)| (name, match value {
            FieldValue::Unsigned(n) => jubako::Value::Unsigned(n),
            FieldValue::Bytes(b) => jubako::Value::Array(b.into()),
            FieldValue::Content(a) => jubako::Value::Content(
                jubako::ContentAddress::new(a.pack_id.into(), a.content_id.into()),
            ),
        }),
    ).collect();
    let schema = &table.inner.schema;
    let entry = jubako::creator::BasicEntry::new_from_schema(schema, Some(variant), fields);
    table.inner.add_entry(entry).get().into_u32()
}

/// An empty directory pack with the number `pack_id` and the vendor mark
/// `vendor`: the pack to hand to the tables when they are finalized.
pub fn new_pack(pack_id: u16, vendor: [u8; 4]) -> (pack: jubako::creator::DirectoryPackCreator)
    ensures
        pack_number(pack) == pack_id,
        pack_vendor(pack) == vendor@,
        pack_value_stores(pack) == Seq::<jubako::creator::StoreHandle>::empty(),
        pack_tables(pack) == Seq::<Seq<RowView>>::empty(),
        pack_indexes(pack) == Seq::<IndexView>::empty(),
{
    let pack = pack_new(pack_id, vendor);
    assert(pack_value_stores(pack) =~= Seq::<jubako::creator::StoreHandle>::empty());
    assert(pack_tables(pack) =~= Seq::<Seq<RowView>>::empty());
    assert(pack_indexes(pack) =~= Seq::<IndexView>::empty());
    pack
}

/// Makes the properties that `described` describes. Bytes that do not stand
/// in the record go to `plain` or to `indexed`, as the description says.
fn properties_of(
    described: &Vec<PropertyDesc>,
    plain: &jubako::creator::StoreHandle,
    indexed: &jubako::creator::StoreHandle,
) -> (properties: Vec<PropertyDef>)
    ensures
        shapes_of(properties@) == self::described(described@, *plain, *indexed),
{
    let mut properties: Vec<PropertyDef> = Vec::new();
    let mut i: usize = 0;
    while i < described.len()
        invariant
            i <= described@.len(),
            properties@.len() == i,
            forall|k: int|
                0 <= k < i ==> property_shape(#[trigger] properties@[k]) == described@[k].shape(
                    *plain,
                    *indexed,
                ),
        decreases described@.len() - i,
    {
        let desc = described[i];
        let property = match desc.kind {
            PropertyKind::Unsigned => property_uint(desc.name),
            PropertyKind::Bytes { inline, indexed: true } => property_array(
                inline,
                indexed,
                desc.name,
            ),
            PropertyKind::Bytes { inline, indexed: false } => property_array(
                inline,
                plain,
                desc.name,
            ),
            PropertyKind::Content => property_content(desc.name),
        };
        properties.push(property);
        i += 1;
    }
    assert(shapes_of(properties@) =~= self::described(described@, *plain, *indexed));
    properties
}

/// An empty table of the schema that `schema` describes.
pub fn build_table(
    schema: &Schema,
    plain: &jubako::creator::StoreHandle,
    indexed: &jubako::creator::StoreHandle,
) -> (table: EntryTable)
    ensures
        table_shape(table) == schema.shape(*plain, *indexed),
        table_rows(table).len() == 0,
{
    let common = properties_of(&schema.common, plain, indexed);
    let mut variants: Vec<(&'static str, Vec<PropertyDef>)> = Vec::new();
    let mut i: usize = 0;
    while i < schema.variants.len()
        invariant
            i <= schema.variants@.len(),
            variants@.len() == i,
            forall|k: int|
                0 <= k < i ==> (#[trigger] variants@[k]).0@ == schema.variants@[k].name@
                    && shapes_of(variants@[k].1@) == described(
                    schema.variants@[k].properties@,
                    *plain,
                    *indexed,
                ),
        decreases schema.variants@.len() - i,
    {
        let own = properties_of(&schema.variants[i].properties, plain, indexed);
        variants.push((schema.variants[i].name, own));
        i += 1;
    }
    assert(variant_shapes_of(variants@) =~= schema.shape(*plain, *indexed).variants);
    table_new(schema_new(common, variants))
}

/// Calls `DirectoryPackCreator::add_value_store`: the pack gains the value
/// store, behind those it has.
#[verifier::external_body]
pub(crate) fn pack_add_value_store(
    pack: &mut jubako::creator::DirectoryPackCreator,
    store: jubako::creator::StoreHandle,
)
    ensures
        pack_value_stores(*final(pack)) == pack_value_stores(*old(pack)).push(store),
        pack_tables(*final(pack)) == pack_tables(*old(pack)),
        pack_indexes(*final(pack)) == pack_indexes(*old(pack)),
        pack_number(*final(pack)) == pack_number(*old(pack)),
        pack_vendor(*final(pack)) == pack_vendor(*old(pack)),
{
    pack.add_value_store(store)
}

/// Calls `DirectoryPackCreator::add_entry_store`: the pack gains the table,
/// behind those it has, and the result is the table's number in the pack.
#[verifier::external_body]
pub(crate) fn pack_add_table(pack: &mut jubako::creator::DirectoryPackCreator, table: EntryTable) -> (number:
    u32)
    requires
        pack_tables(*old(pack)).len() < u32::MAX,
    ensures
        pack_tables(*final(pack)) == pack_tables(*old(pack)).push(table_rows(table)),
        pack_value_stores(*final(pack)) == pack_value_stores(*old(pack)),
        pack_indexes(*final(pack)) == pack_indexes(*old(pack)),
        pack_number(*final(pack)) == pack_number(*old(pack)),
        pack_vendor(*final(pack)) == pack_vendor(*old(pack)),
        number == pack_tables(*old(pack)).len(),
{
    pack.add_entry_store(Box::new(table.inner)).into_u32()
}

/// Calls `DirectoryPackCreator::create_index`: the pack gains an index
/// called `name` over `count` records of table `table`, from `offset` on,
/// keyed by the property with number `key`.
#[verifier::external_body]
pub(crate) fn pack_create_index(
    pack: &mut jubako::creator::DirectoryPackCreator,
    name: &str,
    key: u8,
    table: u32,
    count: u32,
    offset: u32,
)
    ensures
        pack_indexes(*final(pack)) == pack_indexes(*old(pack)).push(
            IndexView {
                name: name@,
                key: key as nat,
                table: table as nat,
                count: count as nat,
                offset: offset as nat,
            },
        ),
        pack_tables(*final(pack)) == pack_tables(*old(pack)),
        pack_value_stores(*final(pack)) == pack_value_stores(*old(pack)),
        pack_number(*final(pack)) == pack_number(*old(pack)),
        pack_vendor(*final(pack)) == pack_vendor(*old(pack)),
{
    let offset = jubako::EntryIdx::from(offset).into();
    let key = jubako::PropertyIdx::from(key);
    pack.create_index(name, Default::default(), key, table.into(), count.into(), offset)
}

} // verus!
