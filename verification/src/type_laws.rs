//! What holds of every data type that a client sees.

use crate::cass_types::{
    CassDataType, CassDataTypeArc, CassValueType, ColumnType, CollectionType, CqlType, NativeType,
    UDTDataType,
};
use vstd::prelude::*;

#[allow(unused_imports)]
use crate::cass_types::{type_of_column, value_type_of, CqlTypeView, DataTypeView};
#[allow(unused_imports)]
use crate::schema_laws::{lemma_held_is_entry, lemma_name_is_held};
#[allow(unused_imports)]
use crate::udt::{
    acyclic, data_type_of, entries_map, fields_model, law_definitions_unfold, ordered_by,
    refers_below, Definitions,
};

verus! {

/// A client has the same name for a simple type as the server.
pub proof fn law_simple_types_keep_their_names(native: NativeType, value_type: CassValueType)
    requires
        value_type == value_type_of(native),
    ensures
        native is Ascii <==> value_type is CASS_VALUE_TYPE_ASCII,
        native is Boolean <==> value_type is CASS_VALUE_TYPE_BOOLEAN,
        native is Blob <==> value_type is CASS_VALUE_TYPE_BLOB,
        native is Counter <==> value_type is CASS_VALUE_TYPE_COUNTER,
        native is Date <==> value_type is CASS_VALUE_TYPE_DATE,
        native is Decimal <==> value_type is CASS_VALUE_TYPE_DECIMAL,
        native is Double <==> value_type is CASS_VALUE_TYPE_DOUBLE,
        native is Duration <==> value_type is CASS_VALUE_TYPE_DURATION,
        native is Float <==> value_type is CASS_VALUE_TYPE_FLOAT,
        native is Int <==> value_type is CASS_VALUE_TYPE_INT,
        native is BigInt <==> value_type is CASS_VALUE_TYPE_BIGINT,
        native is Text <==> value_type is CASS_VALUE_TYPE_TEXT,
        native is Timestamp <==> value_type is CASS_VALUE_TYPE_TIMESTAMP,
        native is Inet <==> value_type is CASS_VALUE_TYPE_INET,
        native is SmallInt <==> value_type is CASS_VALUE_TYPE_SMALL_INT,
        native is TinyInt <==> value_type is CASS_VALUE_TYPE_TINY_INT,
        native is Time <==> value_type is CASS_VALUE_TYPE_TIME,
        native is Timeuuid <==> value_type is CASS_VALUE_TYPE_TIMEUUID,
        native is Uuid <==> value_type is CASS_VALUE_TYPE_UUID,
        native is Varint <==> value_type is CASS_VALUE_TYPE_VARINT,
{
}

/// Two data types that say the same are built alike: the same kind of type, with the same
/// names, and with parts that say the same in the same places.
pub proof fn law_alike_data_types_are_built_alike(one: CassDataType, other: CassDataType)
    requires
        one.model() == other.model(),
    ensures
        match one {
            CassDataType::Value(a) => other matches CassDataType::Value(b) && a == b,
            CassDataType::Custom(a) => other matches CassDataType::Custom(b) && a@ == b@,
            CassDataType::List(None) => other matches CassDataType::List(None),
            CassDataType::List(Some(a)) => other matches CassDataType::List(Some(b)) && a.model()
                == b.model(),
            CassDataType::SetOf(None) => other matches CassDataType::SetOf(None),
            CassDataType::SetOf(Some(a)) => other matches CassDataType::SetOf(Some(b)) && a.model()
                == b.model(),
            CassDataType::MapOf(k, v) => other matches CassDataType::MapOf(l, w) && {
                &&& k is Some <==> l is Some
                &&& v is Some <==> w is Some
                &&& k is Some ==> k->0.model() == l->0.model()
                &&& v is Some ==> v->0.model() == w->0.model()
            },
            CassDataType::Tuple(a) => other matches CassDataType::Tuple(b) && a@.len() == b@.len()
                && forall|i: int|
                #![trigger a@[i]]
                #![trigger b@[i]]
                0 <= i < a@.len() ==> a@[i].model() == b@[i].model(),
            CassDataType::UDT(a) => other matches CassDataType::UDT(b) && {
                &&& a.keyspace@ == b.keyspace@
                &&& a.name@ == b.name@
                &&& a.field_types@.len() == b.field_types@.len()
                &&& forall|i: int|
                    #![trigger a.field_types@[i]]
                    #![trigger b.field_types@[i]]
                    0 <= i < a.field_types@.len() ==> a.field_types@[i].0@ == b.field_types@[i].0@
                        && a.field_types@[i].1.model() == b.field_types@[i].1.model()
            },
        },
{
    match (one, other) {
        (CassDataType::Tuple(a), CassDataType::Tuple(b)) => {
            let (m, n) = (one.model()->Tuple_0, other.model()->Tuple_0);
            assert(m.len() == a@.len() && n.len() == b@.len());
            assert forall|i: int|
                #![trigger a@[i]]
                #![trigger b@[i]]
                0 <= i < a@.len() implies a@[i].model() == b@[i].model() by {
                assert(m[i] == n[i]);
            }
        },
        (CassDataType::UDT(a), CassDataType::UDT(b)) => {
            let (m, n) = (one.model()->UDT_fields, other.model()->UDT_fields);
            assert(m.len() == a.field_types@.len() && n.len() == b.field_types@.len());
            assert forall|i: int|
                #![trigger a.field_types@[i]]
                #![trigger b.field_types@[i]]
                0 <= i < a.field_types@.len() implies a.field_types@[i].0@ == b.field_types@[i].0@
                && a.field_types@[i].1.model() == b.field_types@[i].1.model() by {
                assert(m[i] == n[i]);
            }
        },
        _ => {},
    }
}

/// The data type of a result column is built as the type of the column: a list or set has the
/// type of its elements, a map that of its keys first and that of its values second, a tuple
/// those of its parts in order, and a user defined type its keyspace, its name, and at every
/// place the name of the field with the type of the field.
pub proof fn law_column_types_are_built_alike(column_type: ColumnType, data_type: CassDataType)
    requires
        data_type.model() == type_of_column(column_type.model()),
    ensures
        match column_type {
            ColumnType::Custom(name) => data_type matches CassDataType::Custom(n) && n@ == name@,
            ColumnType::Native(native) => data_type matches CassDataType::Value(v) && v
                == value_type_of(native),
            ColumnType::List(element) => data_type matches CassDataType::List(Some(e)) && e.model()
                == type_of_column(element.model()),
            ColumnType::SetOf(element) => data_type matches CassDataType::SetOf(Some(e))
                && e.model() == type_of_column(element.model()),
            ColumnType::MapOf(key, value) => data_type matches CassDataType::MapOf(Some(k), Some(v))
                && k.model() == type_of_column(key.model()) && v.model() == type_of_column(
                value.model(),
            ),
            ColumnType::Tuple(columns) => data_type matches CassDataType::Tuple(types)
                && types@.len() == columns@.len() && forall|i: int|
                #![trigger types@[i]]
                #![trigger columns@[i]]
                0 <= i < columns@.len() ==> types@[i].model() == type_of_column(
                    columns@[i].model(),
                ),
            ColumnType::UserDefinedType { name, keyspace, field_types } => data_type matches
                CassDataType::UDT(udt) && {
                &&& udt.keyspace@ == keyspace@
                &&& udt.name@ == name@
                &&& udt.field_types@.len() == field_types@.len()
                &&& forall|i: int|
                    #![trigger udt.field_types@[i]]
                    #![trigger field_types@[i]]
                    0 <= i < field_types@.len() ==> udt.field_types@[i].0@ == field_types@[i].0@
                        && udt.field_types@[i].1.model() == type_of_column(
                        field_types@[i].1.model(),
                    )
            },
        },
{
    let expected = type_of_column(column_type.model());
    match (column_type, data_type) {
        (ColumnType::Tuple(columns), CassDataType::Tuple(types)) => {
            assert(expected->Tuple_0.len() == columns@.len());
            assert(data_type.model()->Tuple_0.len() == types@.len());
            assert forall|i: int|
                #![trigger types@[i]]
                #![trigger columns@[i]]
                0 <= i < columns@.len() implies types@[i].model() == type_of_column(
                columns@[i].model(),
            ) by {
                assert(column_type.model()->Tuple_0[i] == columns@[i].model());
                assert(data_type.model()->Tuple_0[i] == types@[i].model());
                assert(data_type.model()->Tuple_0[i] == expected->Tuple_0[i]);
            }
        },
        (
            ColumnType::UserDefinedType { name, keyspace, field_types },
            CassDataType::UDT(udt),
        ) => {
            assert(expected->UDT_fields.len() == field_types@.len());
            assert forall|i: int|
                #![trigger udt.field_types@[i]]
                #![trigger field_types@[i]]
                0 <= i < field_types@.len() implies udt.field_types@[i].0@ == field_types@[i].0@
                && udt.field_types@[i].1.model() == type_of_column(field_types@[i].1.model()) by {
                assert(data_type.model()->UDT_fields[i] == expected->UDT_fields[i]);
            }
        },
        _ => {},
    }
}

/// The data type of a table column is built as its type in the schema, with the parts in the
/// same places. A user defined type has the keyspace and its own name; where it is defined, it
/// has at every place the name of the field with the type of the field, and else no fields.
/// Whether a type is frozen changes nothing.
pub proof fn law_schema_types_are_built_alike(
    cql_type: CqlType,
    definitions: Definitions,
    keyspace: Seq<char>,
    data_type: CassDataType,
)
    requires
        definitions.dom().finite(),
        acyclic(definitions),
        data_type.model() == data_type_of(cql_type.model(), definitions, keyspace),
    ensures
        match cql_type {
            CqlType::Native(native) => data_type matches CassDataType::Value(v) && v
                == value_type_of(native),
            CqlType::Collection { frozen: _, type_: CollectionType::List(element) } => data_type
                matches CassDataType::List(Some(e)) && e.model() == data_type_of(
                element.model(),
                definitions,
                keyspace,
            ),
            CqlType::Collection { frozen: _, type_: CollectionType::SetOf(element) } => data_type
                matches CassDataType::SetOf(Some(e)) && e.model() == data_type_of(
                element.model(),
                definitions,
                keyspace,
            ),
            CqlType::Collection { frozen: _, type_: CollectionType::MapOf(key, value) } => data_type
                matches CassDataType::MapOf(Some(k), Some(v)) && k.model() == data_type_of(
                key.model(),
                definitions,
                keyspace,
            ) && v.model() == data_type_of(value.model(), definitions, keyspace),
            CqlType::Tuple(parts) => data_type matches CassDataType::Tuple(types) && types@.len()
                == parts@.len() && forall|i: int|
                #![trigger types@[i]]
                #![trigger parts@[i]]
                0 <= i < parts@.len() ==> types@[i].model() == data_type_of(
                    parts@[i].model(),
                    definitions,
                    keyspace,
                ),
            CqlType::UserDefinedType { frozen: _, name } => data_type matches CassDataType::UDT(udt)
                && {
                &&& udt.keyspace@ == keyspace
                &&& udt.name@ == name@
                &&& !definitions.contains_key(name@) ==> udt.field_types@.len() == 0
                &&& definitions.contains_key(name@) ==> udt.field_types@.len()
                    == definitions[name@].len() && forall|i: int|
                    #![trigger udt.field_types@[i]]
                    #![trigger definitions[name@][i]]
                    0 <= i < udt.field_types@.len() ==> udt.field_types@[i].0@
                        == definitions[name@][i].0 && udt.field_types@[i].1.model()
                        == data_type_of(definitions[name@][i].1, definitions, keyspace)
            },
        },
{
    let expected = data_type_of(cql_type.model(), definitions, keyspace);
    match (cql_type, data_type) {
        (CqlType::Tuple(parts), CassDataType::Tuple(types)) => {
            assert(expected->Tuple_0.len() == parts@.len());
            assert(data_type.model()->Tuple_0.len() == types@.len());
            assert forall|i: int|
                #![trigger types@[i]]
                #![trigger parts@[i]]
                0 <= i < parts@.len() implies types@[i].model() == data_type_of(
                parts@[i].model(),
                definitions,
                keyspace,
            ) by {
                assert(cql_type.model()->Tuple_0[i] == parts@[i].model());
                assert(data_type.model()->Tuple_0[i] == types@[i].model());
                assert(data_type.model()->Tuple_0[i] == expected->Tuple_0[i]);
            }
        },
        (CqlType::UserDefinedType { frozen: _, name }, CassDataType::UDT(udt)) => {
            assert(data_type.model()->UDT_fields.len() == udt.field_types@.len());
            if definitions.contains_key(name@) {
                law_definitions_unfold(name@, definitions, keyspace);
                assert(expected->UDT_fields.len() == definitions[name@].len());
                assert forall|i: int|
                    #![trigger udt.field_types@[i]]
                    #![trigger definitions[name@][i]]
                    0 <= i < udt.field_types@.len() implies udt.field_types@[i].0@
                    == definitions[name@][i].0 && udt.field_types@[i].1.model() == data_type_of(
                    definitions[name@][i].1,
                    definitions,
                    keyspace,
                ) by {
                    assert(data_type.model()->UDT_fields[i] == expected->UDT_fields[i]);
                }
            }
        },
        _ => {},
    }
}

/// The user defined type that is created for a name is the data type of a column of that type,
/// with the keyspace and the name that were given.
pub proof fn law_user_type_bears_its_name(
    udt: UDTDataType,
    name: Seq<char>,
    definitions: Definitions,
    keyspace: Seq<char>,
)
    requires
        definitions.dom().finite(),
        acyclic(definitions),
        CassDataType::UDT(udt).model() == data_type_of(
            CqlTypeView::UDT(name),
            definitions,
            keyspace,
        ),
    ensures
        udt.keyspace@ == keyspace,
        udt.name@ == name,
        udt.field_types@.len() == (if definitions.contains_key(name) {
            definitions[name].len()
        } else {
            0
        }),
        forall|i: int|
            #![trigger udt.field_types@[i]]
            0 <= i < udt.field_types@.len() ==> udt.field_types@[i].0@ == definitions[name][i].0
                && udt.field_types@[i].1.model() == data_type_of(
                definitions[name][i].1,
                definitions,
                keyspace,
            ),
{
    let model = CassDataType::UDT(udt).model();
    assert(model->UDT_fields.len() == udt.field_types@.len());
    if definitions.contains_key(name) {
        law_definitions_unfold(name, definitions, keyspace);
        assert forall|i: int|
            #![trigger udt.field_types@[i]]
            0 <= i < udt.field_types@.len() implies udt.field_types@[i].0@ == definitions[name][i].0
            && udt.field_types@[i].1.model() == data_type_of(
            definitions[name][i].1,
            definitions,
            keyspace,
        ) by {
            let field = model->UDT_fields[i];
            assert(field == (udt.field_types@[i].0@, udt.field_types@[i].1.model()));
        }
    }
}

/// An entry that no later one has the name of is held.
proof fn lemma_last_entry_is_held<V>(entries: Seq<(Seq<char>, V)>, i: int)
    requires
        0 <= i < entries.len(),
        forall|j: int| i < j < entries.len() ==> (#[trigger] entries[j]).0 != entries[i].0,
    ensures
        entries_map(entries).contains_key(entries[i].0),
        entries_map(entries)[entries[i].0] == entries[i].1,
    decreases entries.len(),
{
    if i < entries.len() - 1 {
        let rest = entries.drop_last();
        assert forall|j: int| i < j < rest.len() implies (#[trigger] rest[j]).0 != rest[i].0 by {
            assert(entries[j].0 != entries[i].0);
        }
        lemma_last_entry_is_held(rest, i);
        assert(entries[entries.len() - 1].0 != entries[i].0);
    }
}

/// What the entries hold under a name is the last entry with that name.
pub proof fn law_last_entry_counts<V>(entries: Seq<(Seq<char>, V)>, name: Seq<char>)
    ensures
        entries_map(entries).contains_key(name) <==> exists|i: int|
            0 <= i < entries.len() && (#[trigger] entries[i]).0 == name,
        forall|i: int|
            #![trigger entries[i]]
            0 <= i < entries.len() && entries[i].0 == name && (forall|j: int|
                i < j < entries.len() ==> (#[trigger] entries[j]).0 != name) ==> entries_map(
                entries,
            )[name] == entries[i].1,
{
    if entries_map(entries).contains_key(name) {
        let i = lemma_held_is_entry(entries, name);
        assert(entries[i].0 == name);
    }
    if exists|i: int| 0 <= i < entries.len() && (#[trigger] entries[i]).0 == name {
        let i = choose|i: int| 0 <= i < entries.len() && (#[trigger] entries[i]).0 == name;
        lemma_name_is_held(entries, i);
    }
    assert forall|i: int|
        #![trigger entries[i]]
        0 <= i < entries.len() && entries[i].0 == name && (forall|j: int|
            i < j < entries.len() ==> (#[trigger] entries[j]).0 != name) implies entries_map(
        entries,
    )[name] == entries[i].1 by {
        lemma_last_entry_is_held(entries, i);
    }
}

/// A type is defined if and only if there is an entry with its name, and then by the last one:
/// with as many fields, under the same names and with the same types, in the same order.
pub proof fn law_definitions_are_the_entries(
    entries: Seq<(String, Vec<(String, CqlType)>)>,
    definitions: Definitions,
    name: Seq<char>,
)
    requires
        definitions == entries_map(
            Seq::new(entries.len(), |i: int| (entries[i].0@, fields_model(entries[i].1@))),
        ),
    ensures
        definitions.contains_key(name) <==> exists|i: int|
            0 <= i < entries.len() && (#[trigger] entries[i]).0@ == name,
        forall|i: int|
            #![trigger entries[i]]
            0 <= i < entries.len() && entries[i].0@ == name && (forall|j: int|
                i < j < entries.len() ==> (#[trigger] entries[j]).0@ != name) ==> {
                &&& definitions[name].len() == entries[i].1@.len()
                &&& forall|f: int|
                    #![trigger definitions[name][f]]
                    0 <= f < definitions[name].len() ==> definitions[name][f].0
                        == entries[i].1@[f].0@ && definitions[name][f].1
                        == entries[i].1@[f].1.model()
            },
{
    let model = Seq::new(entries.len(), |i: int| (entries[i].0@, fields_model(entries[i].1@)));
    law_last_entry_counts(model, name);
    assert(forall|i: int|
        0 <= i < entries.len() ==> model[i] == (
            (#[trigger] entries[i]).0@,
            fields_model(entries[i].1@),
        ));
    if definitions.contains_key(name) {
        let i = choose|i: int| 0 <= i < model.len() && (#[trigger] model[i]).0 == name;
        assert(entries[i].0@ == name);
    }
    if exists|i: int| 0 <= i < entries.len() && (#[trigger] entries[i]).0@ == name {
        let i = choose|i: int| 0 <= i < entries.len() && (#[trigger] entries[i]).0@ == name;
        assert(model[i].0 == name);
    }
    assert forall|i: int|
        #![trigger entries[i]]
        0 <= i < entries.len() && entries[i].0@ == name && (forall|j: int|
            i < j < entries.len() ==> (#[trigger] entries[j]).0@
                != name) implies definitions[name].len() == entries[i].1@.len() && (forall|f: int|
        #![trigger definitions[name][f]]
        0 <= f < definitions[name].len() ==> definitions[name][f].0 == entries[i].1@[f].0@
            && definitions[name][f].1 == entries[i].1@[f].1.model()) by {
        assert(model[i].0 == name);
        assert forall|j: int| i < j < model.len() implies (#[trigger] model[j]).0 != name by {
            assert(entries[j].0@ != name);
        }
        assert(definitions[name] == fields_model(entries[i].1@));
    }
}

/// The fields that are given out for a type are those that say what the definition says, one
/// for one: under the same names and with types that say the same.
pub proof fn law_fields_are_given_one_for_one(
    fields: Seq<(String, CqlType)>,
    definition: Seq<(Seq<char>, CqlTypeView)>,
)
    requires
        fields_model(fields) == definition,
    ensures
        fields.len() == definition.len(),
        forall|i: int|
            #![trigger fields[i]]
            #![trigger definition[i]]
            0 <= i < fields.len() ==> fields[i].0@ == definition[i].0 && fields[i].1.model()
                == definition[i].1,
{
    assert(fields_model(fields).len() == fields.len());
    assert forall|i: int|
        #![trigger fields[i]]
        #![trigger definition[i]]
        0 <= i < fields.len() implies fields[i].0@ == definition[i].0 && fields[i].1.model()
        == definition[i].1 by {
        assert(fields_model(fields)[i] == definition[i]);
    }
}

/// Whether the name of a user defined type occurs in the type.
pub open spec fn mentions(cql_type: CqlTypeView, name: Seq<char>) -> bool
    decreases cql_type,
{
    match cql_type {
        CqlTypeView::Native(_) => false,
        CqlTypeView::List(element) => mentions(*element, name),
        CqlTypeView::SetOf(element) => mentions(*element, name),
        CqlTypeView::MapOf(key, value) => mentions(*key, name) || mentions(*value, name),
        CqlTypeView::Tuple(types) => exists|i: int|
            0 <= i < types.len() && mentions(#[trigger] types[i], name),
        CqlTypeView::UDT(other) => other == name,
    }
}

/// A type refers below a bound if and only if every defined name in it ranks below the bound.
proof fn lemma_refers_below_is_mentions(
    cql_type: CqlTypeView,
    definitions: Definitions,
    rank: spec_fn(Seq<char>) -> nat,
    bound: nat,
)
    ensures
        refers_below(cql_type, definitions, rank, bound) <==> forall|name: Seq<char>|
            definitions.contains_key(name) && #[trigger] mentions(cql_type, name) ==> rank(name)
                < bound,
    decreases cql_type,
{
    match cql_type {
        CqlTypeView::Native(_) => {
            assert(forall|name: Seq<char>| !#[trigger] mentions(cql_type, name));
        },
        CqlTypeView::List(element) => {
            lemma_refers_below_is_mentions(*element, definitions, rank, bound);
            assert(forall|name: Seq<char>|
                #[trigger] mentions(*element, name) <==> mentions(cql_type, name));
            assert(forall|name: Seq<char>|
                #[trigger] mentions(cql_type, name) ==> mentions(*element, name));
        },
        CqlTypeView::SetOf(element) => {
            lemma_refers_below_is_mentions(*element, definitions, rank, bound);
            assert(forall|name: Seq<char>|
                #[trigger] mentions(*element, name) <==> mentions(cql_type, name));
            assert(forall|name: Seq<char>|
                #[trigger] mentions(cql_type, name) ==> mentions(*element, name));
        },
        CqlTypeView::MapOf(key, value) => {
            lemma_refers_below_is_mentions(*key, definitions, rank, bound);
            lemma_refers_below_is_mentions(*value, definitions, rank, bound);
            assert(forall|name: Seq<char>|
                #[trigger] mentions(*key, name) ==> mentions(cql_type, name));
            assert(forall|name: Seq<char>|
                #[trigger] mentions(*value, name) ==> mentions(cql_type, name));
            assert(forall|name: Seq<char>| #[trigger]
                mentions(cql_type, name) ==> mentions(*key, name) || mentions(*value, name));
        },
        CqlTypeView::Tuple(types) => {
            if refers_below(cql_type, definitions, rank, bound) {
                assert forall|name: Seq<char>|
                    definitions.contains_key(name) && #[trigger] mentions(
                        cql_type,
                        name,
                    ) implies rank(name) < bound by {
                    let i = choose|i: int|
                        0 <= i < types.len() && mentions(#[trigger] types[i], name);
                    lemma_refers_below_is_mentions(types[i], definitions, rank, bound);
                }
            } else {
                let i = choose|i: int|
                    0 <= i < types.len() && !refers_below(
                        #[trigger] types[i],
                        definitions,
                        rank,
                        bound,
                    );
                lemma_refers_below_is_mentions(types[i], definitions, rank, bound);
                let name = choose|name: Seq<char>|
                    definitions.contains_key(name) && #[trigger] mentions(types[i], name) && rank(
                        name,
                    ) >= bound;
                assert(mentions(cql_type, name));
            }
        },
        CqlTypeView::UDT(name) => {
            assert(mentions(cql_type, name));
        },
    }
}

/// Whether every defined type whose name occurs in a field of a type ranks below that type.
pub open spec fn ranks_mentioned_below(
    definitions: Definitions,
    rank: spec_fn(Seq<char>) -> nat,
) -> bool {
    forall|name: Seq<char>, i: int, other: Seq<char>|
        #![trigger mentions(definitions[name][i].1, other)]
        definitions.contains_key(name) && 0 <= i < definitions[name].len()
            && definitions.contains_key(other) && mentions(definitions[name][i].1, other) ==> rank(
            other,
        ) < rank(name)
}

/// No type holds itself if and only if the types can be ranked so that every defined type whose
/// name occurs in a field of a type ranks below that type.
pub proof fn law_acyclic_types_can_be_ranked(definitions: Definitions)
    ensures
        acyclic(definitions) <==> exists|rank: spec_fn(Seq<char>) -> nat| #[trigger]
            ranks_mentioned_below(definitions, rank),
{
    if acyclic(definitions) {
        let rank = choose|rank: spec_fn(Seq<char>) -> nat| #[trigger] ordered_by(definitions, rank);
        assert forall|name: Seq<char>, i: int, other: Seq<char>|
            #![trigger mentions(definitions[name][i].1, other)]
            definitions.contains_key(name) && 0 <= i < definitions[name].len()
                && definitions.contains_key(other) && mentions(
                definitions[name][i].1,
                other,
            ) implies rank(other) < rank(name) by {
            lemma_refers_below_is_mentions(
                definitions[name][i].1,
                definitions,
                rank,
                rank(name),
            );
        }
        assert(ranks_mentioned_below(definitions, rank));
    }
    if exists|rank: spec_fn(Seq<char>) -> nat| #[trigger] ranks_mentioned_below(definitions, rank) {
        let rank = choose|rank: spec_fn(Seq<char>) -> nat| #[trigger]
            ranks_mentioned_below(definitions, rank);
        assert forall|name: Seq<char>, i: int|
            #![trigger definitions[name][i]]
            definitions.contains_key(name) && 0 <= i < definitions[name].len() implies refers_below(
            definitions[name][i].1,
            definitions,
            rank,
            rank(name),
        ) by {
            lemma_refers_below_is_mentions(
                definitions[name][i].1,
                definitions,
                rank,
                rank(name),
            );
        }
        assert(ordered_by(definitions, rank));
    }
}

/// The type of a field is the one at its place, and there is none beyond the last field.
pub proof fn law_field_types_are_in_their_places(udt: UDTDataType, index: int)
    requires
        index >= 0,
    ensures
        udt.field_type(index) is Some <==> index < udt.field_types@.len(),
        index < udt.field_types@.len() ==> udt.field_type(index) == Some::<CassDataTypeArc>(
            udt.field_types@[index].1,
        ),
{
}

} // verus!
