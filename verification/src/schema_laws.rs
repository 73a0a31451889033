//! What holds of the metadata of every cluster.

use crate::schema::{
    CassColumnMeta, CassColumnType, CassKeyspaceMeta, CassSchemaMeta, CassTableMeta, Column,
    ColumnKind, Keyspace, Table,
};
use vstd::prelude::*;

#[allow(unused_imports)]
use crate::schema::{
    column_entries, column_meta, column_type_of, is_name, is_terminated_name, key_column,
    keyspace_entries, keyspace_meta, lookup, schema_meta, table_entries, table_meta, texts,
};
#[allow(unused_imports)]
use crate::cass_types::{CqlTypeView, DataTypeView};
#[allow(unused_imports)]
use crate::text::{length_to_zero, readable, terminated, text_at};
#[allow(unused_imports)]
use crate::type_laws::law_last_entry_counts;
#[allow(unused_imports)]
use crate::udt::{acyclic, data_type_of, entries_map, law_definitions_unfold, Definitions};
#[allow(unused_imports)]
use vstd::utf8::{encode_utf8, valid_utf8};

verus! {

/// Whether no two entries have the same name.
pub open spec fn distinct_names<V>(entries: Seq<(Seq<char>, V)>) -> bool {
    forall|i: int, j: int|
        0 <= i < j < entries.len() ==> (#[trigger] entries[i]).0 != (#[trigger] entries[j]).0
}

/// What a map of entries holds under a name is one of the entries.
pub(crate) proof fn lemma_held_is_entry<V>(
    entries: Seq<(Seq<char>, V)>,
    name: Seq<char>,
) -> (i: int)
    requires
        entries_map(entries).contains_key(name),
    ensures
        0 <= i < entries.len(),
        entries[i] == (name, entries_map(entries)[name]),
    decreases entries.len(),
{
    let last = entries.len() - 1;
    if entries.last().0 == name {
        last
    } else {
        lemma_held_is_entry(entries.drop_last(), name)
    }
}

/// The map of entries with distinct names holds each of them, and nothing else.
pub proof fn law_entries_are_held<V>(entries: Seq<(Seq<char>, V)>)
    requires
        distinct_names(entries),
    ensures
        entries_map(entries).dom().finite(),
        entries_map(entries).len() == entries.len(),
        forall|i: int|
            #![trigger entries[i]]
            0 <= i < entries.len() ==> entries_map(entries).contains_key(entries[i].0)
                && entries_map(entries)[entries[i].0] == entries[i].1,
        forall|name: Seq<char>| #[trigger]
            entries_map(entries).contains_key(name) ==> exists|i: int|
                #![trigger entries[i]]
                0 <= i < entries.len() && entries[i].0 == name,
    decreases entries.len(),
{
    if entries.len() > 0 {
        let rest = entries.drop_last();
        law_entries_are_held(rest);
        assert forall|i: int|
            #![trigger entries[i]]
            0 <= i < entries.len() implies entries_map(entries).contains_key(entries[i].0)
            && entries_map(entries)[entries[i].0] == entries[i].1 by {
            if i < rest.len() {
                assert(rest[i] == entries[i]);
                assert(entries[i].0 != entries[entries.len() - 1].0);
            }
        }
        assert(!entries_map(rest).contains_key(entries.last().0)) by {
            if entries_map(rest).contains_key(entries.last().0) {
                let i = lemma_held_is_entry(rest, entries.last().0);
                assert(entries[i].0 == entries[entries.len() - 1].0);
            }
        }
        assert(entries_map(entries).dom() =~= entries_map(rest).dom().insert(entries.last().0));
    }
    assert forall|name: Seq<char>| #[trigger]
        entries_map(entries).contains_key(name) implies exists|i: int|
        #![trigger entries[i]]
        0 <= i < entries.len() && entries[i].0 == name by {
        let i = lemma_held_is_entry(entries, name);
        assert(entries[i].0 == name);
    }
}

/// Keyspaces, tables and columns are found under the names that they bear.
pub proof fn law_found_under_own_name(keyspaces: Seq<(String, Keyspace)>)
    ensures
        forall|k: Seq<char>| #[trigger]
            schema_meta(keyspaces).contains_key(k) ==> schema_meta(keyspaces)[k].name == k,
        forall|k: Seq<char>, t: Seq<char>|
            #![trigger schema_meta(keyspaces)[k].tables.contains_key(t)]
            schema_meta(keyspaces).contains_key(k) && schema_meta(
                keyspaces,
            )[k].tables.contains_key(t) ==> schema_meta(keyspaces)[k].tables[t].name == t,
        forall|k: Seq<char>, t: Seq<char>, c: Seq<char>|
            #![trigger schema_meta(keyspaces)[k].tables[t].columns.contains_key(c)]
            schema_meta(keyspaces).contains_key(k) && schema_meta(
                keyspaces,
            )[k].tables.contains_key(t) && schema_meta(
                keyspaces,
            )[k].tables[t].columns.contains_key(c) ==> schema_meta(
                keyspaces,
            )[k].tables[t].columns[c].name == c,
{
    let schema = schema_meta(keyspaces);
    assert forall|k: Seq<char>| #[trigger] schema.contains_key(k) implies schema[k].name == k by {
        let i = lemma_held_is_entry(keyspace_entries(keyspaces), k);
    }
    assert forall|k: Seq<char>, t: Seq<char>|
        #![trigger schema[k].tables.contains_key(t)]
        schema.contains_key(k) && schema[k].tables.contains_key(t) implies schema[k].tables[t].name
        == t by {
        let i = lemma_held_is_entry(keyspace_entries(keyspaces), k);
        let keyspace = keyspaces[i].1;
        let j = lemma_held_is_entry(
            table_entries(keyspace.tables@, keyspace.user_defined_types@, k),
            t,
        );
    }
    assert forall|k: Seq<char>, t: Seq<char>, c: Seq<char>|
        #![trigger schema[k].tables[t].columns.contains_key(c)]
        schema.contains_key(k) && schema[k].tables.contains_key(t)
            && schema[k].tables[t].columns.contains_key(
            c,
        ) implies schema[k].tables[t].columns[c].name == c by {
        let i = lemma_held_is_entry(keyspace_entries(keyspaces), k);
        let keyspace = keyspaces[i].1;
        let j = lemma_held_is_entry(
            table_entries(keyspace.tables@, keyspace.user_defined_types@, k),
            t,
        );
        let table = keyspace.tables@[j].1;
        let n = lemma_held_is_entry(
            column_entries(table.columns@, keyspace.user_defined_types@, k),
            c,
        );
    }
}

/// Whether the names of the keyspaces, of the tables in each and of the columns in each table
/// are distinct.
pub open spec fn names_are_distinct(keyspaces: Seq<(String, Keyspace)>) -> bool {
    &&& distinct_names(keyspace_entries(keyspaces))
    &&& forall|i: int|
        #![trigger keyspaces[i]]
        0 <= i < keyspaces.len() ==> distinct_names(
            table_entries(
                keyspaces[i].1.tables@,
                keyspaces[i].1.user_defined_types@,
                keyspaces[i].0@,
            ),
        )
    &&& forall|i: int, j: int|
        #![trigger keyspaces[i].1.tables@[j]]
        0 <= i < keyspaces.len() && 0 <= j < keyspaces[i].1.tables@.len() ==> distinct_names(
            column_entries(
                keyspaces[i].1.tables@[j].1.columns@,
                keyspaces[i].1.user_defined_types@,
                keyspaces[i].0@,
            ),
        )
}

/// Every keyspace that the server describes is found in the schema, as it is described, and
/// the schema holds no other.
pub proof fn law_every_keyspace_is_found(keyspaces: Seq<(String, Keyspace)>, i: int)
    requires
        names_are_distinct(keyspaces),
        0 <= i < keyspaces.len(),
    ensures
        schema_meta(keyspaces).len() == keyspaces.len(),
        lookup(schema_meta(keyspaces), Some(keyspaces[i].0@)) == Some(
            keyspace_meta(keyspaces[i].0@, keyspaces[i].1),
        ),
{
    let entries = keyspace_entries(keyspaces);
    law_entries_are_held(entries);
    assert(entries[i].0 == keyspaces[i].0@);
}

/// Every table that the server describes is found in its keyspace, as it is described, and
/// the keyspace holds no other.
pub proof fn law_every_table_is_found(keyspaces: Seq<(String, Keyspace)>, i: int, j: int)
    requires
        names_are_distinct(keyspaces),
        0 <= i < keyspaces.len(),
        0 <= j < keyspaces[i].1.tables@.len(),
    ensures
        ({
            let (k, keyspace) = (keyspaces[i].0@, keyspaces[i].1);
            let (t, table) = (keyspace.tables@[j].0@, keyspace.tables@[j].1);
            let tables = schema_meta(keyspaces)[k].tables;
            &&& tables.len() == keyspace.tables@.len()
            &&& lookup(tables, Some(t)) == Some(
                table_meta(t, table, keyspace.user_defined_types@, k),
            )
        }),
{
    law_every_keyspace_is_found(keyspaces, i);
    let keyspace = keyspaces[i].1;
    let entries = table_entries(
        keyspace.tables@,
        keyspace.user_defined_types@,
        keyspaces[i].0@,
    );
    law_entries_are_held(entries);
    assert(entries[j].0 == keyspace.tables@[j].0@);
}

/// Every column that the server describes is found in its table, as it is described, and the
/// table holds no other.
pub proof fn law_every_column_is_found(
    keyspaces: Seq<(String, Keyspace)>,
    i: int,
    j: int,
    n: int,
)
    requires
        names_are_distinct(keyspaces),
        0 <= i < keyspaces.len(),
        0 <= j < keyspaces[i].1.tables@.len(),
        0 <= n < keyspaces[i].1.tables@[j].1.columns@.len(),
    ensures
        ({
            let (k, keyspace) = (keyspaces[i].0@, keyspaces[i].1);
            let (t, table) = (keyspace.tables@[j].0@, keyspace.tables@[j].1);
            let (c, column) = (table.columns@[n].0@, table.columns@[n].1);
            let columns = schema_meta(keyspaces)[k].tables[t].columns;
            &&& columns.len() == table.columns@.len()
            &&& lookup(columns, Some(c)) == Some(
                column_meta(c, column, keyspace.user_defined_types@, k),
            )
        }),
{
    law_every_table_is_found(keyspaces, i, j);
    let keyspace = keyspaces[i].1;
    let table = keyspace.tables@[j].1;
    let entries = column_entries(
        table.columns@,
        keyspace.user_defined_types@,
        keyspaces[i].0@,
    );
    law_entries_are_held(entries);
    assert(entries[n].0 == table.columns@[n].0@);
}

/// A client that looks a column up, by way of its keyspace and its table, finds the column
/// that the server describes.
pub proof fn law_client_finds_what_is_described(
    meta: CassSchemaMeta,
    keyspaces: Seq<(String, Keyspace)>,
    i: int,
    j: int,
    n: int,
)
    requires
        meta.model() == schema_meta(keyspaces),
        names_are_distinct(keyspaces),
        0 <= i < keyspaces.len(),
        0 <= j < keyspaces[i].1.tables@.len(),
        0 <= n < keyspaces[i].1.tables@[j].1.columns@.len(),
    ensures
        ({
            let (k, keyspace) = (keyspaces[i].0@, keyspaces[i].1);
            let (t, table) = (keyspace.tables@[j].0@, keyspace.tables@[j].1);
            let (c, column) = (table.columns@[n].0@, table.columns@[n].1);
            let found_keyspace = lookup(meta.keyspaces@, Some(k));
            let found_table = lookup(found_keyspace->0.tables@, Some(t));
            let found_column = lookup(found_table->0.columns_metadata@, Some(c));
            &&& found_keyspace is Some
            &&& found_table is Some
            &&& found_column is Some
            &&& found_column->0.model() == column_meta(c, column, keyspace.user_defined_types@, k)
        }),
{
    law_every_keyspace_is_found(keyspaces, i);
    law_every_table_is_found(keyspaces, i, j);
    law_every_column_is_found(keyspaces, i, j, n);
    let k = keyspaces[i].0@;
    let t = keyspaces[i].1.tables@[j].0@;
    let c = keyspaces[i].1.tables@[j].1.columns@[n].0@;
    assert(meta.model().contains_key(k));
    assert(meta.model()[k] == meta.keyspaces@[k].model());
    assert(meta.model()[k].tables.contains_key(t));
    assert(meta.model()[k].tables[t] == meta.keyspaces@[k].tables@[t].model());
    assert(meta.model()[k].tables[t].columns.contains_key(c));
}

/// A name that no keyspace has is not found.
pub proof fn law_other_keyspaces_are_not_found(
    meta: CassSchemaMeta,
    keyspaces: Seq<(String, Keyspace)>,
    name: Seq<char>,
)
    requires
        meta.model() == schema_meta(keyspaces),
    ensures
        lookup(meta.keyspaces@, Some(name)) is None <==> forall|i: int|
            0 <= i < keyspaces.len() ==> (#[trigger] keyspaces[i]).0@ != name,
{
    let entries = keyspace_entries(keyspaces);
    assert(meta.model().contains_key(name) <==> meta.keyspaces@.contains_key(name));
    if entries_map(entries).contains_key(name) {
        let i = lemma_held_is_entry(entries, name);
        assert(keyspaces[i].0@ == name);
    } else {
        assert forall|i: int| 0 <= i < keyspaces.len() implies (#[trigger] keyspaces[i]).0@
            != name by {
            lemma_name_is_held(entries, i);
            assert(entries[i].0 == keyspaces[i].0@);
        }
    }
}

/// A client finds a user defined type if and only if the keyspace defines it, and then with
/// the fields of its definition, each with the data type that a column of the same type has.
pub proof fn law_user_types_are_found(
    meta: CassKeyspaceMeta,
    name: Seq<char>,
    keyspace: Keyspace,
    type_: Seq<char>,
)
    requires
        meta.model() == keyspace_meta(name, keyspace),
        keyspace.user_defined_types@.dom().finite(),
        acyclic(keyspace.user_defined_types@),
    ensures
        ({
            let definitions = keyspace.user_defined_types@;
            let found = lookup(meta.user_defined_type_data_type@, Some(type_));
            &&& found is Some <==> definitions.contains_key(type_)
            &&& found is Some ==> found->0.model() == (DataTypeView::UDT {
                fields: Seq::new(
                    definitions[type_].len(),
                    |i: int|
                        (
                            definitions[type_][i].0,
                            data_type_of(definitions[type_][i].1, definitions, name),
                        ),
                ),
                keyspace: name,
                name: type_,
            })
        }),
{
    let definitions = keyspace.user_defined_types@;
    let held = meta.user_defined_type_data_type@;
    assert(meta.model().user_defined_types.contains_key(type_) <==> held.contains_key(type_));
    assert(keyspace_meta(name, keyspace).user_defined_types.contains_key(type_)
        <==> definitions.contains_key(type_));
    if definitions.contains_key(type_) {
        law_definitions_unfold(type_, definitions, name);
        assert(meta.model().user_defined_types[type_] == held[type_].model());
    }
}

/// Whether the table has a column with the given name.
pub open spec fn has_column(table: Table, name: Seq<char>) -> bool {
    exists|n: int| 0 <= n < table.columns@.len() && (#[trigger] table.columns@[n]).0@ == name
}

/// An entry is held under its name, be it this one or a later one.
pub(crate) proof fn lemma_name_is_held<V>(entries: Seq<(Seq<char>, V)>, i: int)
    requires
        0 <= i < entries.len(),
    ensures
        entries_map(entries).contains_key(entries[i].0),
    decreases entries.len(),
{
    if i < entries.len() - 1 {
        lemma_name_is_held(entries.drop_last(), i);
        assert(entries.drop_last()[i] == entries[i]);
    }
}

/// Whether the column is the one of the table with the given name: there is one where the
/// table has it.
pub open spec fn is_column_named(
    column: Option<CassColumnMeta>,
    table: Table,
    name: Seq<char>,
) -> bool {
    &&& column is Some <==> has_column(table, name)
    &&& column is Some ==> column->0.name@ == name
}

/// Whether the metadata gives the columns of a key: for every place in the key the column that
/// is named there, where the table has it, and none beyond the end of the key.
pub open spec fn key_gives_columns(
    keys: Seq<String>,
    meta: CassTableMeta,
    key: Seq<String>,
    table: Table,
) -> bool {
    &&& keys.len() == key.len()
    &&& forall|i: int|
        #![trigger key_column(keys, meta.columns_metadata@, i)]
        0 <= i < key.len() ==> is_column_named(
            key_column(keys, meta.columns_metadata@, i),
            table,
            key[i]@,
        )
    &&& forall|i: int|
        #![trigger key_column(keys, meta.columns_metadata@, i)]
        i >= key.len() ==> key_column(keys, meta.columns_metadata@, i) is None
}

/// The metadata of a table gives the columns of its partition key and of its clustering key,
/// in the order of the key.
pub proof fn law_keys_give_columns(
    meta: CassTableMeta,
    name: Seq<char>,
    table: Table,
    definitions: Definitions,
    keyspace: Seq<char>,
)
    requires
        meta.model() == table_meta(name, table, definitions, keyspace),
    ensures
        key_gives_columns(meta.partition_keys@, meta, table.partition_key@, table),
        key_gives_columns(meta.clustering_keys@, meta, table.clustering_key@, table),
{
    assert(meta.model().partition_keys == texts(table.partition_key@));
    assert(meta.model().clustering_keys == texts(table.clustering_key@));
    lemma_key_gives_columns(
        meta.partition_keys@,
        meta,
        table.partition_key@,
        table,
        definitions,
        keyspace,
    );
    lemma_key_gives_columns(
        meta.clustering_keys@,
        meta,
        table.clustering_key@,
        table,
        definitions,
        keyspace,
    );
}

/// Metadata with the columns of a table gives those of a key with the same names.
proof fn lemma_key_gives_columns(
    keys: Seq<String>,
    meta: CassTableMeta,
    key: Seq<String>,
    table: Table,
    definitions: Definitions,
    keyspace: Seq<char>,
)
    requires
        texts(keys) == texts(key),
        meta.model().columns == entries_map(column_entries(table.columns@, definitions, keyspace)),
    ensures
        key_gives_columns(keys, meta, key, table),
{
    let columns = column_entries(table.columns@, definitions, keyspace);
    let held = meta.columns_metadata@;
    assert(texts(keys).len() == keys.len() && texts(key).len() == key.len());
    assert forall|i: int|
        #![trigger key_column(keys, held, i)]
        0 <= i < key.len() implies is_column_named(
        key_column(keys, held, i),
        table,
        key[i]@,
    ) by {
        assert(texts(keys)[i] == keys[i]@);
        assert(texts(key)[i] == key[i]@);
        let c = key[i]@;
        assert(meta.model().columns.contains_key(c) <==> held.contains_key(c));
        if has_column(table, c) {
            let n = choose|n: int|
                0 <= n < table.columns@.len() && (#[trigger] table.columns@[n]).0@ == c;
            lemma_name_is_held(columns, n);
            assert(columns[n].0 == c);
        }
        if held.contains_key(c) {
            let m = lemma_held_is_entry(columns, c);
            assert(table.columns@[m].0@ == c);
            assert(meta.model().columns[c] == held[c].model());
        }
    }
}

/// A name that is handed over in UTF-8 is read as it was written.
pub proof fn law_name_reads_back(bytes: &[u8], name: Seq<char>)
    requires
        bytes@ == encode_utf8(name),
    ensures
        text_at(Some(bytes), bytes@.len() as int) == Some(name),
{
    vstd::utf8::encode_utf8_valid_utf8(name);
    vstd::utf8::encode_utf8_decode_utf8(name);
    assert(bytes@.take(bytes@.len() as int) =~= bytes@);
}

/// A name that is handed over in UTF-8 with a zero byte behind it is read as it was written,
/// whatever follows, unless it holds a zero itself.
pub proof fn law_terminated_name_reads_back(bytes: &[u8], name: Seq<char>, rest: Seq<u8>)
    requires
        bytes@ == encode_utf8(name).push(0u8) + rest,
        !encode_utf8(name).contains(0u8),
    ensures
        terminated(Some(bytes)),
        text_at(Some(bytes), length_to_zero(Some(bytes))) == Some(name),
{
    let encoded = encode_utf8(name);
    vstd::utf8::encode_utf8_valid_utf8(name);
    vstd::utf8::encode_utf8_decode_utf8(name);
    bytes@.index_of_first_ensures(0u8);
    assert(bytes@[encoded.len() as int] == 0u8);
    assert forall|i: int| 0 <= i < encoded.len() implies bytes@[i] != 0u8 by {
        assert(bytes@[i] == encoded[i]);
    }
    assert(bytes@.take(encoded.len() as int) =~= encoded);
}

/// A column is regular, static, of the clustering key or of the partition key for a client if
/// and only if it is for the server.
pub proof fn law_kinds_keep_their_names(kind: ColumnKind, column_type: CassColumnType)
    requires
        column_type == column_type_of(kind),
    ensures
        column_type is CASS_COLUMN_TYPE_REGULAR <==> kind is Regular,
        column_type is CASS_COLUMN_TYPE_STATIC <==> kind is Static,
        column_type is CASS_COLUMN_TYPE_CLUSTERING_KEY <==> kind is Clustering,
        column_type is CASS_COLUMN_TYPE_PARTITION_KEY <==> kind is PartitionKey,
{
}

/// The metadata of a column has its name, plays the part that the server names, whatever the
/// name and the type are, and has the data type of the column's type.
pub proof fn law_column_is_as_described(
    meta: CassColumnMeta,
    name: Seq<char>,
    column: Column,
    definitions: Definitions,
    keyspace: Seq<char>,
)
    requires
        meta.model() == column_meta(name, column, definitions, keyspace),
    ensures
        meta.name@ == name,
        meta.column_kind is CASS_COLUMN_TYPE_REGULAR <==> column.kind is Regular,
        meta.column_kind is CASS_COLUMN_TYPE_STATIC <==> column.kind is Static,
        meta.column_kind is CASS_COLUMN_TYPE_CLUSTERING_KEY <==> column.kind is Clustering,
        meta.column_kind is CASS_COLUMN_TYPE_PARTITION_KEY <==> column.kind is PartitionKey,
        meta.column_type.model() == data_type_of(column.type_.model(), definitions, keyspace),
{
}

/// The metadata of a table has its name, the names of its partition key and of its clustering
/// key in their order, and under every name the last column that is described with it, and no
/// other.
pub proof fn law_table_is_as_described(
    meta: CassTableMeta,
    name: Seq<char>,
    table: Table,
    definitions: Definitions,
    keyspace: Seq<char>,
    c: Seq<char>,
)
    requires
        meta.model() == table_meta(name, table, definitions, keyspace),
    ensures
        meta.name@ == name,
        meta.partition_keys@.len() == table.partition_key@.len(),
        forall|i: int|
            #![trigger meta.partition_keys@[i]]
            0 <= i < meta.partition_keys@.len() ==> meta.partition_keys@[i]@
                == table.partition_key@[i]@,
        meta.clustering_keys@.len() == table.clustering_key@.len(),
        forall|i: int|
            #![trigger meta.clustering_keys@[i]]
            0 <= i < meta.clustering_keys@.len() ==> meta.clustering_keys@[i]@
                == table.clustering_key@[i]@,
        meta.columns_metadata@.contains_key(c) <==> exists|n: int|
            0 <= n < table.columns@.len() && (#[trigger] table.columns@[n]).0@ == c,
        forall|n: int|
            #![trigger table.columns@[n]]
            0 <= n < table.columns@.len() && table.columns@[n].0@ == c && (forall|m: int|
                n < m < table.columns@.len() ==> (#[trigger] table.columns@[m]).0@ != c)
                ==> meta.columns_metadata@[c].model() == column_meta(
                c,
                table.columns@[n].1,
                definitions,
                keyspace,
            ),
{
    let entries = column_entries(table.columns@, definitions, keyspace);
    let model = meta.model();
    let (partition, clustering) = (texts(meta.partition_keys@), texts(meta.clustering_keys@));
    assert(partition == texts(table.partition_key@));
    assert(clustering == texts(table.clustering_key@));
    assert(partition.len() == meta.partition_keys@.len());
    assert(texts(table.partition_key@).len() == table.partition_key@.len());
    assert(clustering.len() == meta.clustering_keys@.len());
    assert(texts(table.clustering_key@).len() == table.clustering_key@.len());
    assert forall|i: int|
        #![trigger meta.partition_keys@[i]]
        0 <= i < meta.partition_keys@.len() implies meta.partition_keys@[i]@
        == table.partition_key@[i]@ by {
        assert(partition[i] == meta.partition_keys@[i]@);
        assert(texts(table.partition_key@)[i] == table.partition_key@[i]@);
    }
    assert forall|i: int|
        #![trigger meta.clustering_keys@[i]]
        0 <= i < meta.clustering_keys@.len() implies meta.clustering_keys@[i]@
        == table.clustering_key@[i]@ by {
        assert(clustering[i] == meta.clustering_keys@[i]@);
        assert(texts(table.clustering_key@)[i] == table.clustering_key@[i]@);
    }
    assert(model.columns == entries_map(entries));
    assert(model.columns.contains_key(c) <==> meta.columns_metadata@.contains_key(c));
    if has_column(table, c) {
        let n = choose|n: int|
            0 <= n < table.columns@.len() && (#[trigger] table.columns@[n]).0@ == c;
        lemma_name_is_held(entries, n);
        assert(entries[n].0 == c);
    }
    if entries_map(entries).contains_key(c) {
        let n = lemma_held_is_entry(entries, c);
        assert(table.columns@[n].0@ == c);
    }
    assert forall|n: int|
        #![trigger table.columns@[n]]
        0 <= n < table.columns@.len() && table.columns@[n].0@ == c && (forall|m: int|
            n < m < table.columns@.len() ==> (#[trigger] table.columns@[m]).0@
                != c) implies meta.columns_metadata@[c].model() == column_meta(
        c,
        table.columns@[n].1,
        definitions,
        keyspace,
    ) by {
        assert forall|m: int| n < m < entries.len() implies (#[trigger] entries[m]).0 != c by {
            assert(table.columns@[m].0@ != c);
        }
        law_last_entry_counts(entries, c);
        assert(entries[n].0 == c);
        assert(model.columns.contains_key(c));
        assert(model.columns[c] == meta.columns_metadata@[c].model());
    }
}

/// The metadata of a keyspace has its name, the data type of every user defined type that it
/// defines, and no other, and under every name the last table that is described with it, and
/// no other.
pub proof fn law_keyspace_is_as_described(
    meta: CassKeyspaceMeta,
    name: Seq<char>,
    keyspace: Keyspace,
    type_: Seq<char>,
    t: Seq<char>,
)
    requires
        meta.model() == keyspace_meta(name, keyspace),
    ensures
        meta.name@ == name,
        meta.user_defined_type_data_type@.contains_key(type_)
            <==> keyspace.user_defined_types@.contains_key(type_),
        meta.user_defined_type_data_type@.contains_key(type_)
            ==> meta.user_defined_type_data_type@[type_].model() == data_type_of(
            CqlTypeView::UDT(type_),
            keyspace.user_defined_types@,
            name,
        ),
        meta.tables@.contains_key(t) <==> exists|j: int|
            0 <= j < keyspace.tables@.len() && (#[trigger] keyspace.tables@[j]).0@ == t,
        forall|j: int|
            #![trigger keyspace.tables@[j]]
            0 <= j < keyspace.tables@.len() && keyspace.tables@[j].0@ == t && (forall|m: int|
                j < m < keyspace.tables@.len() ==> (#[trigger] keyspace.tables@[m]).0@ != t)
                ==> meta.tables@[t].model() == table_meta(
                t,
                keyspace.tables@[j].1,
                keyspace.user_defined_types@,
                name,
            ),
{
    let definitions = keyspace.user_defined_types@;
    let entries = table_entries(keyspace.tables@, definitions, name);
    let model = meta.model();
    let held = meta.user_defined_type_data_type@;
    assert(model.user_defined_types.contains_key(type_) <==> held.contains_key(type_));
    assert(keyspace_meta(name, keyspace).user_defined_types.contains_key(type_)
        <==> definitions.contains_key(type_));
    if held.contains_key(type_) {
        assert(model.user_defined_types[type_] == held[type_].model());
    }
    assert(model.tables == entries_map(entries));
    assert(model.tables.contains_key(t) <==> meta.tables@.contains_key(t));
    if exists|j: int|
        0 <= j < keyspace.tables@.len() && (#[trigger] keyspace.tables@[j]).0@ == t {
        let j = choose|j: int|
            0 <= j < keyspace.tables@.len() && (#[trigger] keyspace.tables@[j]).0@ == t;
        lemma_name_is_held(entries, j);
        assert(entries[j].0 == t);
    }
    if entries_map(entries).contains_key(t) {
        let j = lemma_held_is_entry(entries, t);
        assert(keyspace.tables@[j].0@ == t);
    }
    assert forall|j: int|
        #![trigger keyspace.tables@[j]]
        0 <= j < keyspace.tables@.len() && keyspace.tables@[j].0@ == t && (forall|m: int|
            j < m < keyspace.tables@.len() ==> (#[trigger] keyspace.tables@[m]).0@
                != t) implies meta.tables@[t].model() == table_meta(
        t,
        keyspace.tables@[j].1,
        definitions,
        name,
    ) by {
        assert forall|m: int| j < m < entries.len() implies (#[trigger] entries[m]).0 != t by {
            assert(keyspace.tables@[m].0@ != t);
        }
        law_last_entry_counts(entries, t);
        assert(entries[j].0 == t);
        assert(model.tables.contains_key(t));
        assert(model.tables[t] == meta.tables@[t].model());
    }
}

/// The metadata of a cluster has under every name the last keyspace that is described with it,
/// and no other.
pub proof fn law_schema_is_as_described(
    meta: CassSchemaMeta,
    keyspaces: Seq<(String, Keyspace)>,
    k: Seq<char>,
)
    requires
        meta.model() == schema_meta(keyspaces),
    ensures
        meta.keyspaces@.contains_key(k) <==> exists|i: int|
            0 <= i < keyspaces.len() && (#[trigger] keyspaces[i]).0@ == k,
        forall|i: int|
            #![trigger keyspaces[i]]
            0 <= i < keyspaces.len() && keyspaces[i].0@ == k && (forall|m: int|
                i < m < keyspaces.len() ==> (#[trigger] keyspaces[m]).0@ != k)
                ==> meta.keyspaces@[k].model() == keyspace_meta(k, keyspaces[i].1),
{
    let entries = keyspace_entries(keyspaces);
    let model = meta.model();
    assert(model.contains_key(k) <==> meta.keyspaces@.contains_key(k));
    if exists|i: int| 0 <= i < keyspaces.len() && (#[trigger] keyspaces[i]).0@ == k {
        let i = choose|i: int| 0 <= i < keyspaces.len() && (#[trigger] keyspaces[i]).0@ == k;
        lemma_name_is_held(entries, i);
        assert(entries[i].0 == k);
    }
    if entries_map(entries).contains_key(k) {
        let i = lemma_held_is_entry(entries, k);
        assert(keyspaces[i].0@ == k);
    }
    assert forall|i: int|
        #![trigger keyspaces[i]]
        0 <= i < keyspaces.len() && keyspaces[i].0@ == k && (forall|m: int|
            i < m < keyspaces.len() ==> (#[trigger] keyspaces[m]).0@
                != k) implies meta.keyspaces@[k].model() == keyspace_meta(k, keyspaces[i].1) by {
        assert forall|m: int| i < m < entries.len() implies (#[trigger] entries[m]).0 != k by {
            assert(keyspaces[m].0@ != k);
        }
        law_last_entry_counts(entries, k);
        assert(entries[i].0 == k);
        assert(model.contains_key(k));
        assert(model[k] == meta.keyspaces@[k].model());
    }
}

/// For every column that the server describes, where no later keyspace, table or column takes
/// its place, the column that a client finds by way of its keyspace and its table has its name,
/// plays the part that the server names, and has the data type of its type among the user
/// defined types of its keyspace.
pub proof fn law_every_column_keeps_kind_and_type(
    meta: CassSchemaMeta,
    keyspaces: Seq<(String, Keyspace)>,
    i: int,
    j: int,
    n: int,
)
    requires
        meta.model() == schema_meta(keyspaces),
        0 <= i < keyspaces.len(),
        0 <= j < keyspaces[i].1.tables@.len(),
        0 <= n < keyspaces[i].1.tables@[j].1.columns@.len(),
        forall|m: int|
            i < m < keyspaces.len() ==> (#[trigger] keyspaces[m]).0@ != keyspaces[i].0@,
        forall|m: int|
            j < m < keyspaces[i].1.tables@.len() ==> (#[trigger] keyspaces[i].1.tables@[m]).0@
                != keyspaces[i].1.tables@[j].0@,
        forall|m: int|
            n < m < keyspaces[i].1.tables@[j].1.columns@.len() ==> (
            #[trigger] keyspaces[i].1.tables@[j].1.columns@[m]).0@
                != keyspaces[i].1.tables@[j].1.columns@[n].0@,
    ensures
        ({
            let (k, keyspace) = (keyspaces[i].0@, keyspaces[i].1);
            let (t, table) = (keyspace.tables@[j].0@, keyspace.tables@[j].1);
            let (c, column) = (table.columns@[n].0@, table.columns@[n].1);
            let found = meta.keyspaces@[k].tables@[t].columns_metadata@[c];
            &&& meta.keyspaces@.contains_key(k)
            &&& meta.keyspaces@[k].name@ == k
            &&& meta.keyspaces@[k].tables@.contains_key(t)
            &&& meta.keyspaces@[k].tables@[t].name@ == t
            &&& meta.keyspaces@[k].tables@[t].columns_metadata@.contains_key(c)
            &&& found.name@ == c
            &&& found.column_kind is CASS_COLUMN_TYPE_REGULAR <==> column.kind is Regular
            &&& found.column_kind is CASS_COLUMN_TYPE_STATIC <==> column.kind is Static
            &&& found.column_kind is CASS_COLUMN_TYPE_CLUSTERING_KEY
                <==> column.kind is Clustering
            &&& found.column_kind is CASS_COLUMN_TYPE_PARTITION_KEY
                <==> column.kind is PartitionKey
            &&& found.column_type.model() == data_type_of(
                column.type_.model(),
                keyspace.user_defined_types@,
                k,
            )
        }),
{
    let (k, keyspace) = (keyspaces[i].0@, keyspaces[i].1);
    let (t, table) = (keyspace.tables@[j].0@, keyspace.tables@[j].1);
    let (c, column) = (table.columns@[n].0@, table.columns@[n].1);
    let definitions = keyspace.user_defined_types@;
    law_schema_is_as_described(meta, keyspaces, k);
    let found_keyspace = meta.keyspaces@[k];
    law_keyspace_is_as_described(found_keyspace, k, keyspace, t, t);
    let found_table = found_keyspace.tables@[t];
    law_table_is_as_described(found_table, t, table, definitions, k, c);
    law_column_is_as_described(found_table.columns_metadata@[c], c, column, definitions, k);
}

/// What is looked up is found if and only if there is a name and something is held under it,
/// and then it is that.
pub proof fn law_lookup_gives_what_is_held<V>(map: Map<Seq<char>, V>, name: Option<Seq<char>>)
    ensures
        lookup(map, name) is Some <==> name is Some && map.contains_key(name->0),
        lookup(map, name) is Some ==> lookup(map, name)->0 == map[name->0],
{
}

/// A place in a key gives a column if and only if the key is that long and a column is held
/// under the name at that place, and then it is that column.
pub proof fn law_key_column_is_the_named_one(
    keys: Seq<String>,
    columns: Map<Seq<char>, CassColumnMeta>,
    index: int,
)
    requires
        index >= 0,
    ensures
        key_column(keys, columns, index) is Some <==> index < keys.len() && columns.contains_key(
            keys[index]@,
        ),
        key_column(keys, columns, index) is Some ==> key_column(keys, columns, index)->0
            == columns[keys[index]@],
{
}

/// Text can be read if and only if there is a start, the bytes are there, and they are what
/// some text is written as in UTF-8, and then it is that text.
pub proof fn law_text_is_what_was_written(start: Option<&[u8]>, length: usize, text: Seq<char>)
    requires
        readable(start, length),
    ensures
        text_at(start, length as int) == Some(text) <==> start is Some && start->0@.take(
            length as int,
        ) == encode_utf8(text),
        text_at(start, length as int) is Some <==> start is Some && valid_utf8(
            start->0@.take(length as int),
        ),
{
    if let Some(bytes) = start {
        let taken = bytes@.take(length as int);
        if valid_utf8(taken) {
            vstd::utf8::decode_utf8_encode_utf8(taken);
        }
        vstd::utf8::encode_utf8_valid_utf8(text);
        vstd::utf8::encode_utf8_decode_utf8(text);
    }
}

/// Text that ends with a zero byte has all of the bytes before the first zero, and none where
/// the start is null.
pub proof fn law_terminated_text_ends_at_the_first_zero(start: Option<&[u8]>)
    requires
        terminated(start),
    ensures
        start is None ==> length_to_zero(start) == 0,
        start matches Some(bytes) ==> {
            let length = length_to_zero(start);
            &&& 0 <= length < bytes@.len()
            &&& bytes@[length] == 0
            &&& forall|i: int| 0 <= i < length ==> bytes@[i] != 0
        },
{
    if let Some(bytes) = start {
        bytes@.index_of_first_ensures(0u8);
    }
}

/// A name can be handed over if it is null or its bytes are there and are valid UTF-8: the
/// given number of bytes, or those before a zero byte.
pub proof fn law_names_that_can_be_handed_over(start: Option<&[u8]>, length: usize)
    ensures
        readable(start, length) <==> (start matches Some(bytes) ==> length <= bytes@.len()),
        terminated(start) <==> (start matches Some(bytes) ==> exists|i: int|
            0 <= i < bytes@.len() && #[trigger] bytes@[i] == 0),
        is_name(start, length) <==> (start matches Some(bytes) ==> length <= bytes@.len()
            && valid_utf8(bytes@.take(length as int))),
        is_terminated_name(start) <==> terminated(start) && (start matches Some(bytes)
            ==> valid_utf8(bytes@.take(length_to_zero(start)))),
{
}

} // verus!
