//! Schema metadata: what a client can look up of the keyspaces, tables and columns of a
//! cluster.

use crate::cass_types::{CassDataType, CassDataTypeArc, CqlType, UDTDataType};
use crate::text::{ptr_to_cstr_n, strlen};
use crate::udt::{get_column_type_from_cql_type, UserDefinedTypes};
use std::sync::Arc;
use vstd::hash_map::StringHashMap;
use vstd::prelude::*;

#[allow(unused_imports)]
use crate::cass_types::{CqlTypeView, DataTypeView};
#[allow(unused_imports)]
use crate::text::{length_to_zero, readable, terminated, text_at};
#[allow(unused_imports)]
use crate::udt::{acyclic, data_type_of, entries_map, Definitions};

verus! {

/// The part that a column plays in its table, as the server names it.
#[derive(Clone, Copy, Debug, PartialEq, Eq, Structural)]
pub enum ColumnKind {
    Regular,
    Static,
    Clustering,
    PartitionKey,
}

/// The part that a column plays in its table, as a client names it.
#[allow(non_camel_case_types)]
#[derive(Clone, Copy, Debug, PartialEq, Eq, Structural)]
pub enum CassColumnType {
    CASS_COLUMN_TYPE_REGULAR,
    CASS_COLUMN_TYPE_PARTITION_KEY,
    CASS_COLUMN_TYPE_CLUSTERING_KEY,
    CASS_COLUMN_TYPE_STATIC,
}

/// A column of a table, as the server describes it.
pub struct Column {
    pub type_: CqlType,
    pub kind: ColumnKind,
}

/// A table, as the server describes it, with its columns under their names.
pub struct Table {
    pub columns: Vec<(String, Column)>,
    pub partition_key: Vec<String>,
    pub clustering_key: Vec<String>,
}

/// A keyspace, as the server describes it, with its tables under their names.
pub struct Keyspace {
    pub tables: Vec<(String, Table)>,
    pub user_defined_types: UserDefinedTypes,
}

/// What a client can look up of a column.
pub struct CassColumnMeta {
    pub name: String,
    pub column_type: CassDataType,
    pub column_kind: CassColumnType,
}

/// What a client can look up of a table.
pub struct CassTableMeta {
    pub name: String,
    pub columns_metadata: StringHashMap<CassColumnMeta>,
    pub partition_keys: Vec<String>,
    pub clustering_keys: Vec<String>,
}

/// What a client can look up of a keyspace.
pub struct CassKeyspaceMeta {
    pub name: String,
    /// The data type of each user defined type, by its name.
    pub user_defined_type_data_type: StringHashMap<CassDataTypeArc>,
    pub tables: StringHashMap<CassTableMeta>,
}

/// What a client can look up of a cluster.
pub struct CassSchemaMeta {
    pub keyspaces: StringHashMap<CassKeyspaceMeta>,
}

/// What a [`CassColumnMeta`] says.
pub struct ColumnMetaView {
    pub name: Seq<char>,
    pub column_type: DataTypeView,
    pub column_kind: CassColumnType,
}

/// What a [`CassTableMeta`] says.
pub struct TableMetaView {
    pub name: Seq<char>,
    pub columns: Map<Seq<char>, ColumnMetaView>,
    pub partition_keys: Seq<Seq<char>>,
    pub clustering_keys: Seq<Seq<char>>,
}

/// What a [`CassKeyspaceMeta`] says.
pub struct KeyspaceMetaView {
    pub name: Seq<char>,
    pub user_defined_types: Map<Seq<char>, DataTypeView>,
    pub tables: Map<Seq<char>, TableMetaView>,
}

/// The texts of the strings.
pub open spec fn texts(strings: Seq<String>) -> Seq<Seq<char>> {
    Seq::new(strings.len(), |i: int| strings[i]@)
}

impl CassColumnMeta {
    /// The mathematical value.
    pub open spec fn model(&self) -> ColumnMetaView {
        ColumnMetaView {
            name: self.name@,
            column_type: self.column_type.model(),
            column_kind: self.column_kind,
        }
    }
}

impl CassTableMeta {
    /// The mathematical value.
    pub open spec fn model(&self) -> TableMetaView {
        TableMetaView {
            name: self.name@,
            columns: self.columns_metadata@.map_values(|column: CassColumnMeta| column.model()),
            partition_keys: texts(self.partition_keys@),
            clustering_keys: texts(self.clustering_keys@),
        }
    }
}

impl CassKeyspaceMeta {
    /// The mathematical value.
    pub open spec fn model(&self) -> KeyspaceMetaView {
        KeyspaceMetaView {
            name: self.name@,
            user_defined_types: self.user_defined_type_data_type@.map_values(
                |data_type: CassDataTypeArc| data_type.model(),
            ),
            tables: self.tables@.map_values(|table: CassTableMeta| table.model()),
        }
    }
}

impl CassSchemaMeta {
    /// The mathematical value.
    pub open spec fn model(&self) -> Map<Seq<char>, KeyspaceMetaView> {
        self.keyspaces@.map_values(|keyspace: CassKeyspaceMeta| keyspace.model())
    }
}

/// The name that a client has for the part that a column plays.
pub open spec fn column_type_of(kind: ColumnKind) -> CassColumnType {
    match kind {
        ColumnKind::Regular => CassColumnType::CASS_COLUMN_TYPE_REGULAR,
        ColumnKind::Static => CassColumnType::CASS_COLUMN_TYPE_STATIC,
        ColumnKind::Clustering => CassColumnType::CASS_COLUMN_TYPE_CLUSTERING_KEY,
        ColumnKind::PartitionKey => CassColumnType::CASS_COLUMN_TYPE_PARTITION_KEY,
    }
}

/// What a client can look up of a column with the given name and description.
pub open spec fn column_meta(
    name: Seq<char>,
    column: Column,
    definitions: Definitions,
    keyspace: Seq<char>,
) -> ColumnMetaView {
    ColumnMetaView {
        name,
        column_type: data_type_of(column.type_.model(), definitions, keyspace),
        column_kind: column_type_of(column.kind),
    }
}

/// What a client can look up of a table with the given name and description.
pub open spec fn table_meta(
    name: Seq<char>,
    table: Table,
    definitions: Definitions,
    keyspace: Seq<char>,
) -> TableMetaView {
    TableMetaView {
        name,
        columns: entries_map(column_entries(table.columns@, definitions, keyspace)),
        partition_keys: texts(table.partition_key@),
        clustering_keys: texts(table.clustering_key@),
    }
}

/// The columns under their names.
pub open spec fn column_entries(
    columns: Seq<(String, Column)>,
    definitions: Definitions,
    keyspace: Seq<char>,
) -> Seq<(Seq<char>, ColumnMetaView)> {
    Seq::new(
        columns.len(),
        |i: int|
            (columns[i].0@, column_meta(columns[i].0@, columns[i].1, definitions, keyspace)),
    )
}

/// The tables under their names.
pub open spec fn table_entries(
    tables: Seq<(String, Table)>,
    definitions: Definitions,
    keyspace: Seq<char>,
) -> Seq<(Seq<char>, TableMetaView)> {
    Seq::new(
        tables.len(),
        |i: int| (tables[i].0@, table_meta(tables[i].0@, tables[i].1, definitions, keyspace)),
    )
}

/// What a client can look up of a keyspace with the given name and description.
pub open spec fn keyspace_meta(name: Seq<char>, keyspace: Keyspace) -> KeyspaceMetaView {
    let definitions = keyspace.user_defined_types@;
    KeyspaceMetaView {
        name,
        user_defined_types: Map::new(
            |type_: Seq<char>| definitions.contains_key(type_),
            |type_: Seq<char>| data_type_of(CqlTypeView::UDT(type_), definitions, name),
        ),
        tables: entries_map(table_entries(keyspace.tables@, definitions, name)),
    }
}

/// The keyspaces under their names.
pub open spec fn keyspace_entries(keyspaces: Seq<(String, Keyspace)>) -> Seq<
    (Seq<char>, KeyspaceMetaView),
> {
    Seq::new(
        keyspaces.len(),
        |i: int| (keyspaces[i].0@, keyspace_meta(keyspaces[i].0@, keyspaces[i].1)),
    )
}

/// What a client can look up of a cluster with the given keyspaces.
pub open spec fn schema_meta(keyspaces: Seq<(String, Keyspace)>) -> Map<
    Seq<char>,
    KeyspaceMetaView,
> {
    entries_map(keyspace_entries(keyspaces))
}

/// Returns the name that a client has for the part that a column plays.
pub fn column_type_from_kind(kind: &ColumnKind) -> (column_type: CassColumnType)
    ensures
        column_type == column_type_of(*kind),
{
    match kind {
        ColumnKind::Regular => CassColumnType::CASS_COLUMN_TYPE_REGULAR,
        ColumnKind::Static => CassColumnType::CASS_COLUMN_TYPE_STATIC,
        ColumnKind::Clustering => CassColumnType::CASS_COLUMN_TYPE_CLUSTERING_KEY,
        ColumnKind::PartitionKey => CassColumnType::CASS_COLUMN_TYPE_PARTITION_KEY,
    }
}

/// One more entry is one more insertion.
proof fn lemma_entries_step<V>(entries: Seq<(Seq<char>, V)>, n: int)
    requires
        0 <= n < entries.len(),
    ensures
        entries_map(entries.take(n + 1)) == entries_map(entries.take(n)).insert(
            entries[n].0,
            entries[n].1,
        ),
{
    assert(entries.take(n + 1).drop_last() =~= entries.take(n));
}

/// Returns a copy of the names.
fn clone_names(names: &Vec<String>) -> (copy: Vec<String>)
    ensures
        texts(copy@) == texts(names@),
{
    let copy = names.clone();
    assert(texts(copy@) =~= texts(names@));
    copy
}

/// Describes a table for clients.
fn create_table_meta(
    table_name: &String,
    table: &Table,
    user_defined_types: &UserDefinedTypes,
    keyspace_name: &str,
) -> (meta: CassTableMeta)
    requires
        acyclic(user_defined_types@),
    ensures
        meta.model() == table_meta(
            table_name@,
            *table,
            user_defined_types@,
            keyspace_name@,
        ),
{
    let ghost definitions = user_defined_types@;
    let ghost entries = column_entries(table.columns@, definitions, keyspace_name@);
    let mut columns_metadata: StringHashMap<CassColumnMeta> = StringHashMap::new();
    assert(columns_metadata@.map_values(|column: CassColumnMeta| column.model()) =~= entries_map(
        entries.take(0),
    ));
    for i in 0..table.columns.len()
        invariant
            acyclic(user_defined_types@),
            definitions == user_defined_types@,
            entries == column_entries(table.columns@, definitions, keyspace_name@),
            columns_metadata@.map_values(|column: CassColumnMeta| column.model()) == entries_map(
                entries.take(i as int),
            ),
    {
        let column_name = &table.columns[i].0;
        let column_metadata = &table.columns[i].1;
        let cass_column_meta = CassColumnMeta {
            name: column_name.clone(),
            column_type: get_column_type_from_cql_type(
                &column_metadata.type_,
                user_defined_types,
                keyspace_name,
            ),
            column_kind: column_type_from_kind(&column_metadata.kind),
        };
        let ghost before = columns_metadata@;
        let ghost meta = cass_column_meta;
        columns_metadata.insert(column_name.clone(), cass_column_meta);
        proof {
            lemma_entries_step(entries, i as int);
            assert(entries[i as int] == (column_name@, meta.model()));
            assert(columns_metadata@.map_values(|column: CassColumnMeta| column.model())
                =~= before.map_values(|column: CassColumnMeta| column.model()).insert(
                column_name@,
                meta.model(),
            ));
        }
    }
    assert(entries.take(entries.len() as int) =~= entries);
    CassTableMeta {
        name: table_name.clone(),
        columns_metadata,
        partition_keys: clone_names(&table.partition_key),
        clustering_keys: clone_names(&table.clustering_key),
    }
}

/// Describes a keyspace for clients.
fn create_keyspace_meta(keyspace_name: &String, keyspace: &Keyspace) -> (meta: CassKeyspaceMeta)
    requires
        acyclic(keyspace.user_defined_types@),
    ensures
        meta.model() == keyspace_meta(keyspace_name@, *keyspace),
{
    let ghost definitions = keyspace.user_defined_types@;
    let ghost expected = keyspace_meta(keyspace_name@, *keyspace);
    let mut user_defined_type_data_type: StringHashMap<CassDataTypeArc> = StringHashMap::new();
    let names = keyspace.user_defined_types.keys();
    for i in 0..names.len()
        invariant
            acyclic(keyspace.user_defined_types@),
            definitions == keyspace.user_defined_types@,
            expected == keyspace_meta(keyspace_name@, *keyspace),
            forall|j: int|
                0 <= j < names@.len() ==> definitions.contains_key((#[trigger] names@[j])@),
            forall|type_: Seq<char>| #[trigger]
                user_defined_type_data_type@.contains_key(type_) <==> exists|j: int|
                    0 <= j < i && (#[trigger] names@[j])@ == type_,
            forall|type_: Seq<char>| #[trigger]
                user_defined_type_data_type@.contains_key(type_)
                    ==> user_defined_type_data_type@[type_].model()
                    == expected.user_defined_types[type_],
    {
        let udt_name = &names[i];
        let udt = UDTDataType::create_with_params(
            &keyspace.user_defined_types,
            keyspace_name.as_str(),
            udt_name.as_str(),
        );
        let ghost before = user_defined_type_data_type@;
        user_defined_type_data_type.insert(udt_name.clone(), Arc::new(CassDataType::UDT(udt)));
        proof {
            assert forall|type_: Seq<char>| #[trigger]
                user_defined_type_data_type@.contains_key(type_) implies exists|j: int|
                0 <= j < i + 1 && (#[trigger] names@[j])@ == type_ by {
                if type_ == udt_name@ {
                    assert(names@[i as int]@ == type_);
                } else {
                    assert(before.contains_key(type_));
                }
            }
            assert forall|type_: Seq<char>|
                (exists|j: int| 0 <= j < i + 1 && (#[trigger] names@[j])@
                    == type_) implies #[trigger] user_defined_type_data_type@.contains_key(
                type_,
            ) by {
                if type_ != udt_name@ {
                    assert(before.contains_key(type_));
                }
            }
        }
    }
    assert(user_defined_type_data_type@.map_values(|data_type: CassDataTypeArc| data_type.model())
        =~= expected.user_defined_types);
    let ghost entries = table_entries(keyspace.tables@, definitions, keyspace_name@);
    let mut tables: StringHashMap<CassTableMeta> = StringHashMap::new();
    assert(tables@.map_values(|table: CassTableMeta| table.model()) =~= entries_map(
        entries.take(0),
    ));
    for i in 0..keyspace.tables.len()
        invariant
            acyclic(keyspace.user_defined_types@),
            definitions == keyspace.user_defined_types@,
            entries == table_entries(keyspace.tables@, definitions, keyspace_name@),
            tables@.map_values(|table: CassTableMeta| table.model()) == entries_map(
                entries.take(i as int),
            ),
    {
        let table_name = &keyspace.tables[i].0;
        let cass_table_meta = create_table_meta(
            table_name,
            &keyspace.tables[i].1,
            &keyspace.user_defined_types,
            keyspace_name.as_str(),
        );
        let ghost before = tables@;
        let ghost meta = cass_table_meta;
        tables.insert(table_name.clone(), cass_table_meta);
        proof {
            lemma_entries_step(entries, i as int);
            assert(entries[i as int] == (table_name@, meta.model()));
            assert(tables@.map_values(|table: CassTableMeta| table.model()) =~= before.map_values(
                |table: CassTableMeta| table.model(),
            ).insert(table_name@, meta.model()));
        }
    }
    assert(entries.take(entries.len() as int) =~= entries);
    CassKeyspaceMeta { name: keyspace_name.clone(), user_defined_type_data_type, tables }
}

/// Describes the keyspaces of a cluster for clients.
pub fn cass_session_get_schema_meta(keyspaces: &Vec<(String, Keyspace)>) -> (meta: CassSchemaMeta)
    requires
        forall|i: int|
            #![trigger keyspaces@[i]]
            0 <= i < keyspaces@.len() ==> acyclic(keyspaces@[i].1.user_defined_types@),
    ensures
        meta.model() == schema_meta(keyspaces@),
{
    let ghost entries = keyspace_entries(keyspaces@);
    let mut metas: StringHashMap<CassKeyspaceMeta> = StringHashMap::new();
    assert(metas@.map_values(|keyspace: CassKeyspaceMeta| keyspace.model()) =~= entries_map(
        entries.take(0),
    ));
    for i in 0..keyspaces.len()
        invariant
            forall|j: int|
                #![trigger keyspaces@[j]]
                0 <= j < keyspaces@.len() ==> acyclic(keyspaces@[j].1.user_defined_types@),
            entries == keyspace_entries(keyspaces@),
            metas@.map_values(|keyspace: CassKeyspaceMeta| keyspace.model()) == entries_map(
                entries.take(i as int),
            ),
    {
        let keyspace_name = &keyspaces[i].0;
        let keyspace_meta = create_keyspace_meta(keyspace_name, &keyspaces[i].1);
        let ghost before = metas@;
        let ghost meta = keyspace_meta;
        metas.insert(keyspace_name.clone(), keyspace_meta);
        proof {
            lemma_entries_step(entries, i as int);
            assert(entries[i as int] == (keyspace_name@, meta.model()));
            assert(metas@.map_values(|keyspace: CassKeyspaceMeta| keyspace.model())
                =~= before.map_values(|keyspace: CassKeyspaceMeta| keyspace.model()).insert(
                keyspace_name@,
                meta.model(),
            ));
        }
    }
    assert(entries.take(entries.len() as int) =~= entries);
    CassSchemaMeta { keyspaces: metas }
}

/// What the map holds under the name, where there is a name and the map holds it.
pub open spec fn lookup<V>(map: Map<Seq<char>, V>, name: Option<Seq<char>>) -> Option<V> {
    match name {
        Some(name) if map.contains_key(name) => Some(map[name]),
        _ => None,
    }
}

/// Whether a name of the given length can be read at its start: the start is null, or the
/// bytes are there and are valid UTF-8.
pub open spec fn is_name(start: Option<&[u8]>, length: usize) -> bool {
    readable(start, length) && (start is Some ==> text_at(start, length as int) is Some)
}

/// Whether a name that ends with a zero byte can be read at its start: the start is null, or
/// a zero byte follows and the bytes before it are valid UTF-8.
pub open spec fn is_terminated_name(start: Option<&[u8]>) -> bool {
    terminated(start) && (start is Some ==> text_at(start, length_to_zero(start)) is Some)
}

/// Returns the metadata of the keyspace with the given name, which ends with a zero byte.
pub fn cass_schema_meta_keyspace_by_name<'a>(
    schema_meta: &'a CassSchemaMeta,
    keyspace_name: Option<&[u8]>,
) -> (found: Option<&'a CassKeyspaceMeta>)
    requires
        is_terminated_name(keyspace_name),
    ensures
        found == match lookup(
            schema_meta.keyspaces@,
            text_at(keyspace_name, length_to_zero(keyspace_name)),
        ) {
            Some(meta) => Some(&meta),
            None => None,
        },
{
    cass_schema_meta_keyspace_by_name_n(schema_meta, keyspace_name, strlen(keyspace_name))
}

/// Returns the metadata of the keyspace with the given name, which has the given number of bytes.
pub fn cass_schema_meta_keyspace_by_name_n<'a>(
    schema_meta: &'a CassSchemaMeta,
    keyspace_name: Option<&[u8]>,
    keyspace_name_length: usize,
) -> (found: Option<&'a CassKeyspaceMeta>)
    requires
        is_name(keyspace_name, keyspace_name_length),
    ensures
        found == match lookup(
            schema_meta.keyspaces@,
            text_at(keyspace_name, keyspace_name_length as int),
        ) {
            Some(meta) => Some(&meta),
            None => None,
        },
{
    match ptr_to_cstr_n(keyspace_name, keyspace_name_length) {
        Some(name) => schema_meta.keyspaces.get(name),
        None => None,
    }
}

/// Returns the name of the keyspace.
pub fn cass_keyspace_meta_name(keyspace_meta: &CassKeyspaceMeta) -> (name: &str)
    ensures
        name@ == keyspace_meta.name@,
{
    keyspace_meta.name.as_str()
}

/// Returns the data type of the user defined type with the given name, which ends with a zero
/// byte.
pub fn cass_keyspace_meta_user_type_by_name(
    keyspace_meta: &CassKeyspaceMeta,
    type_: Option<&[u8]>,
) -> (found: Option<CassDataTypeArc>)
    requires
        is_terminated_name(type_),
    ensures
        found == lookup(
            keyspace_meta.user_defined_type_data_type@,
            text_at(type_, length_to_zero(type_)),
        ),
{
    cass_keyspace_meta_user_type_by_name_n(keyspace_meta, type_, strlen(type_))
}

/// Returns the data type of the user defined type with the given name, which has the given
/// number of bytes.
pub fn cass_keyspace_meta_user_type_by_name_n(
    keyspace_meta: &CassKeyspaceMeta,
    type_: Option<&[u8]>,
    type_length: usize,
) -> (found: Option<CassDataTypeArc>)
    requires
        is_name(type_, type_length),
    ensures
        found == lookup(
            keyspace_meta.user_defined_type_data_type@,
            text_at(type_, type_length as int),
        ),
{
    match ptr_to_cstr_n(type_, type_length) {
        Some(name) => match keyspace_meta.user_defined_type_data_type.get(name) {
            Some(udt) => Some(udt.clone()),
            None => None,
        },
        None => None,
    }
}

/// Returns the metadata of the table with the given name, which ends with a zero byte.
pub fn cass_keyspace_meta_table_by_name<'a>(
    keyspace_meta: &'a CassKeyspaceMeta,
    table: Option<&[u8]>,
) -> (found: Option<&'a CassTableMeta>)
    requires
        is_terminated_name(table),
    ensures
        found == match lookup(
            keyspace_meta.tables@,
            text_at(table, length_to_zero(table)),
        ) {
            Some(meta) => Some(&meta),
            None => None,
        },
{
    cass_keyspace_meta_table_by_name_n(keyspace_meta, table, strlen(table))
}

/// Returns the metadata of the table with the given name, which has the given number of bytes.
pub fn cass_keyspace_meta_table_by_name_n<'a>(
    keyspace_meta: &'a CassKeyspaceMeta,
    table: Option<&[u8]>,
    table_length: usize,
) -> (found: Option<&'a CassTableMeta>)
    requires
        is_name(table, table_length),
    ensures
        found == match lookup(
            keyspace_meta.tables@,
            text_at(table, table_length as int),
        ) {
            Some(meta) => Some(&meta),
            None => None,
        },
{
    match ptr_to_cstr_n(table, table_length) {
        Some(name) => keyspace_meta.tables.get(name),
        None => None,
    }
}

/// Returns the name of the table.
pub fn cass_table_meta_name(table_meta: &CassTableMeta) -> (name: &str)
    ensures
        name@ == table_meta.name@,
{
    table_meta.name.as_str()
}

/// Returns the number of columns of the table.
pub fn cass_table_meta_column_count(table_meta: &CassTableMeta) -> (count: usize)
    ensures
        count == table_meta.columns_metadata@.len(),
{
    table_meta.columns_metadata.len()
}

/// The column that the key names at the given place, where the key is that long and the table
/// has the column.
pub open spec fn key_column(
    keys: Seq<String>,
    columns: Map<Seq<char>, CassColumnMeta>,
    index: int,
) -> Option<CassColumnMeta> {
    if 0 <= index < keys.len() {
        lookup(columns, Some(keys[index]@))
    } else {
        None
    }
}

/// Returns the column at the given place of the partition key.
pub fn cass_table_meta_partition_key(table_meta: &CassTableMeta, index: usize) -> (column: Option<
    &CassColumnMeta,
>)
    ensures
        column == match key_column(
            table_meta.partition_keys@,
            table_meta.columns_metadata@,
            index as int,
        ) {
            Some(meta) => Some(&meta),
            None => None,
        },
{
    if index < table_meta.partition_keys.len() {
        table_meta.columns_metadata.get(table_meta.partition_keys[index].as_str())
    } else {
        None
    }
}

/// Returns the number of columns of the partition key.
pub fn cass_table_meta_partition_key_count(table_meta: &CassTableMeta) -> (count: usize)
    ensures
        count == table_meta.partition_keys@.len(),
{
    table_meta.partition_keys.len()
}

/// Returns the column at the given place of the clustering key.
pub fn cass_table_meta_clustering_key(table_meta: &CassTableMeta, index: usize) -> (column: Option<
    &CassColumnMeta,
>)
    ensures
        column == match key_column(
            table_meta.clustering_keys@,
            table_meta.columns_metadata@,
            index as int,
        ) {
            Some(meta) => Some(&meta),
            None => None,
        },
{
    if index < table_meta.clustering_keys.len() {
        table_meta.columns_metadata.get(table_meta.clustering_keys[index].as_str())
    } else {
        None
    }
}

/// Returns the number of columns of the clustering key.
pub fn cass_table_meta_clustering_key_count(table_meta: &CassTableMeta) -> (count: usize)
    ensures
        count == table_meta.clustering_keys@.len(),
{
    table_meta.clustering_keys.len()
}

/// Returns the metadata of the column with the given name, which ends with a zero byte.
pub fn cass_table_meta_column_by_name<'a>(
    table_meta: &'a CassTableMeta,
    column: Option<&[u8]>,
) -> (found: Option<&'a CassColumnMeta>)
    requires
        is_terminated_name(column),
    ensures
        found == match lookup(
            table_meta.columns_metadata@,
            text_at(column, length_to_zero(column)),
        ) {
            Some(meta) => Some(&meta),
            None => None,
        },
{
    cass_table_meta_column_by_name_n(table_meta, column, strlen(column))
}

/// Returns the metadata of the column with the given name, which has the given number of bytes.
pub fn cass_table_meta_column_by_name_n<'a>(
    table_meta: &'a CassTableMeta,
    column: Option<&[u8]>,
    column_length: usize,
) -> (found: Option<&'a CassColumnMeta>)
    requires
        is_name(column, column_length),
    ensures
        found == match lookup(
            table_meta.columns_metadata@,
            text_at(column, column_length as int),
        ) {
            Some(meta) => Some(&meta),
            None => None,
        },
{
    match ptr_to_cstr_n(column, column_length) {
        Some(name) => table_meta.columns_metadata.get(name),
        None => None,
    }
}

/// Returns the name of the column.
pub fn cass_column_meta_name(column_meta: &CassColumnMeta) -> (name: &str)
    ensures
        name@ == column_meta.name@,
{
    column_meta.name.as_str()
}

/// Returns the data type of the column.
pub fn cass_column_meta_data_type(column_meta: &CassColumnMeta) -> (data_type: &CassDataType)
    ensures
        *data_type == column_meta.column_type,
{
    &column_meta.column_type
}

/// Returns the part that the column plays in its table.
pub fn cass_column_meta_type(column_meta: &CassColumnMeta) -> (column_type: CassColumnType)
    ensures
        column_type == column_meta.column_kind,
{
    column_meta.column_kind
}

} // verus!
