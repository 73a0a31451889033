//! What holds of every value that a client reads from a result.

use crate::cass_types::CassDataType;
use crate::query_result::{
    CassResultData, CassRow, CassValue, Collection, ColumnSpec, CqlValue, Row, Value,
};
use std::sync::Arc;
use vstd::prelude::*;

#[allow(unused_imports)]
use crate::cass_types::{type_of_column, ColumnTypeView, DataTypeView};
#[allow(unused_imports)]
use crate::query_result::{
    are_cass_rows, column_value, row_columns, typed, CassValueView, CqlView, ValueView,
};

verus! {

/// The value that the server sent, with the data types taken off again.
pub open spec fn untyped(value: ValueView) -> CqlView
    decreases value,
{
    match value {
        ValueView::Regular(column) => column,
        ValueView::List(items) => CqlView::List(
            Seq::new(
                items.len(),
                |i: int|
                    if 0 <= i < items.len() && items[i].value is Some {
                        untyped(items[i].value->0)
                    } else {
                        arbitrary()
                    },
            ),
        ),
        ValueView::MapOf(entries) => CqlView::MapOf(
            Seq::new(
                entries.len(),
                |i: int|
                    if 0 <= i < entries.len() && entries[i].0.value is Some
                        && entries[i].1.value is Some {
                        (untyped(entries[i].0.value->0), untyped(entries[i].1.value->0))
                    } else {
                        arbitrary()
                    },
            ),
        ),
        ValueView::SetOf(items) => CqlView::SetOf(
            Seq::new(
                items.len(),
                |i: int|
                    if 0 <= i < items.len() && items[i].value is Some {
                        untyped(items[i].value->0)
                    } else {
                        arbitrary()
                    },
            ),
        ),
        ValueView::UDT { keyspace, name, fields } => CqlView::UDT {
            keyspace,
            name,
            fields: Seq::new(
                fields.len(),
                |i: int|
                    if 0 <= i < fields.len() {
                        (
                            fields[i].0,
                            match fields[i].1 {
                                Some(CassValueView { value: Some(value), value_type: _ }) => Some(
                                    untyped(value),
                                ),
                                _ => None,
                            },
                        )
                    } else {
                        arbitrary()
                    },
            ),
        },
        ValueView::Tuple(items) => CqlView::Tuple(
            Seq::new(
                items.len(),
                |i: int|
                    if 0 <= i < items.len() {
                        match items[i] {
                            Some(CassValueView { value: Some(value), value_type: _ }) => Some(
                                untyped(value),
                            ),
                            _ => None,
                        }
                    } else {
                        arbitrary()
                    },
            ),
        ),
    }
}

/// Whether the data type has a place for every part of the value: no user defined type and no
/// tuple in it has a field that is not null beyond the fields of its type.
pub open spec fn has_room(column: CqlView, column_type: DataTypeView) -> bool
    decreases column,
{
    match (column, column_type) {
        (CqlView::List(items), DataTypeView::List(Some(element))) => forall|i: int|
            0 <= i < items.len() ==> has_room(#[trigger] items[i], *element),
        (CqlView::MapOf(entries), DataTypeView::MapOf(Some(key), Some(value))) => forall|i: int|
            #![trigger entries[i]]
            0 <= i < entries.len() ==> has_room(entries[i].0, *key) && has_room(
                entries[i].1,
                *value,
            ),
        (CqlView::SetOf(items), DataTypeView::SetOf(Some(element))) => forall|i: int|
            0 <= i < items.len() ==> has_room(#[trigger] items[i], *element),
        (
            CqlView::UDT { keyspace: _, name: _, fields },
            DataTypeView::UDT { fields: types, keyspace: _, name: _ },
        ) => forall|i: int|
            #![trigger fields[i]]
            0 <= i < fields.len() ==> match fields[i].1 {
                Some(value) => i < types.len() && has_room(value, types[i].1),
                None => true,
            },
        (CqlView::Tuple(items), DataTypeView::Tuple(types)) => forall|i: int|
            #![trigger items[i]]
            0 <= i < items.len() ==> match items[i] {
                Some(value) => i < types.len() && has_room(value, types[i]),
                None => true,
            },
        _ => true,
    }
}

/// A value that a client reads, with its data types taken off, is the value that the server
/// sent if and only if the data type has a place for every part of it.
pub proof fn law_typing_loses_nothing(column: CqlView, column_type: DataTypeView)
    ensures
        untyped(column_value(column, column_type)) == column <==> has_room(column, column_type),
    decreases column,
{
    let back = untyped(column_value(column, column_type));
    match (column, column_type) {
        (CqlView::List(items), DataTypeView::List(Some(element))) => {
            assert forall|i: int| 0 <= i < items.len() implies (back->List_0[i] == items[i]
                <==> has_room(#[trigger] items[i], *element)) by {
                law_typing_loses_nothing(items[i], *element);
            }
            if has_room(column, column_type) {
                assert(back->List_0 =~= items);
            }
        },
        (CqlView::MapOf(entries), DataTypeView::MapOf(Some(key), Some(value))) => {
            assert forall|i: int| 0 <= i < entries.len() implies (back->MapOf_0[i]
                == #[trigger] entries[i] <==> has_room(entries[i].0, *key) && has_room(
                entries[i].1,
                *value,
            )) by {
                law_typing_loses_nothing(entries[i].0, *key);
                law_typing_loses_nothing(entries[i].1, *value);
            }
            if has_room(column, column_type) {
                assert(back->MapOf_0 =~= entries);
            }
        },
        (CqlView::SetOf(items), DataTypeView::SetOf(Some(element))) => {
            assert forall|i: int| 0 <= i < items.len() implies (back->SetOf_0[i] == items[i]
                <==> has_room(#[trigger] items[i], *element)) by {
                law_typing_loses_nothing(items[i], *element);
            }
            if has_room(column, column_type) {
                assert(back->SetOf_0 =~= items);
            }
        },
        (
            CqlView::UDT { keyspace, name, fields },
            DataTypeView::UDT { fields: types, keyspace: _, name: _ },
        ) => {
            assert forall|i: int| 0 <= i < fields.len() implies (back->UDT_fields[i]
                == #[trigger] fields[i] <==> match fields[i].1 {
                Some(value) => i < types.len() && has_room(value, types[i].1),
                None => true,
            }) by {
                if fields[i].1 is Some && i < types.len() {
                    law_typing_loses_nothing(fields[i].1->0, types[i].1);
                }
            }
            if has_room(column, column_type) {
                assert(back->UDT_fields =~= fields);
            }
        },
        (CqlView::Tuple(items), DataTypeView::Tuple(types)) => {
            assert forall|i: int| 0 <= i < items.len() implies (back->Tuple_0[i]
                == #[trigger] items[i] <==> match items[i] {
                Some(value) => i < types.len() && has_room(value, types[i]),
                None => true,
            }) by {
                if items[i] is Some && i < types.len() {
                    law_typing_loses_nothing(items[i]->0, types[i]);
                }
            }
            if has_room(column, column_type) {
                assert(back->Tuple_0 =~= items);
            }
        },
        _ => {},
    }
}

/// Whether the value is a collection and the data type the one that types its items.
pub open spec fn types_items_of(column_type: DataTypeView, column: CqlView) -> bool {
    match (column, column_type) {
        (CqlView::List(_), DataTypeView::List(Some(_))) => true,
        (CqlView::MapOf(_), DataTypeView::MapOf(Some(_), Some(_))) => true,
        (CqlView::SetOf(_), DataTypeView::SetOf(Some(_))) => true,
        (
            CqlView::UDT { keyspace: _, name: _, fields: _ },
            DataTypeView::UDT { fields: _, keyspace: _, name: _ },
        ) => true,
        (CqlView::Tuple(_), DataTypeView::Tuple(_)) => true,
        _ => false,
    }
}

/// A value is handed over as it came if and only if its data type does not type its items.
pub proof fn law_regular_unless_items_are_typed(column: CqlView, column_type: DataTypeView)
    ensures
        column_value(column, column_type) is Regular <==> !types_items_of(column_type, column),
        column_value(column, column_type) is Regular ==> column_value(column, column_type)
            == ValueView::Regular(column),
{
}

/// Whether every item in the value, at every depth, carries the type that the data type
/// declares for it.
pub open spec fn labelled(value: ValueView, value_type: DataTypeView) -> bool
    decreases value,
{
    match (value, value_type) {
        (ValueView::Regular(_), _) => true,
        (ValueView::List(items), DataTypeView::List(Some(element))) => forall|i: int|
            #![trigger items[i]]
            0 <= i < items.len() ==> items[i].value_type == *element && items[i].value is Some
                && labelled(items[i].value->0, *element),
        (
            ValueView::MapOf(entries),
            DataTypeView::MapOf(Some(key), Some(value)),
        ) => forall|i: int|
            #![trigger entries[i]]
            0 <= i < entries.len() ==> {
                &&& entries[i].0.value_type == *key && entries[i].0.value is Some
                &&& labelled(entries[i].0.value->0, *key)
                &&& entries[i].1.value_type == *value && entries[i].1.value is Some
                &&& labelled(entries[i].1.value->0, *value)
            },
        (ValueView::SetOf(items), DataTypeView::SetOf(Some(element))) => forall|i: int|
            #![trigger items[i]]
            0 <= i < items.len() ==> items[i].value_type == *element && items[i].value is Some
                && labelled(items[i].value->0, *element),
        (
            ValueView::UDT { keyspace: _, name: _, fields },
            DataTypeView::UDT { fields: types, keyspace: _, name: _ },
        ) => forall|i: int|
            #![trigger fields[i]]
            0 <= i < fields.len() ==> match fields[i].1 {
                Some(field) => i < types.len() && field.value_type == types[i].1
                    && field.value is Some && labelled(field.value->0, types[i].1),
                None => true,
            },
        (ValueView::Tuple(items), DataTypeView::Tuple(types)) => forall|i: int|
            #![trigger items[i]]
            0 <= i < items.len() ==> match items[i] {
                Some(item) => i < types.len() && item.value_type == types[i] && item.value is Some
                    && labelled(item.value->0, types[i]),
                None => true,
            },
        _ => false,
    }
}

/// Every item in a value that a client reads carries the type that is declared for it.
pub proof fn law_items_carry_their_types(column: CqlView, column_type: DataTypeView)
    ensures
        labelled(column_value(column, column_type), column_type),
    decreases column,
{
    let value = column_value(column, column_type);
    match (column, column_type) {
        (CqlView::List(items), DataTypeView::List(Some(element))) => {
            assert forall|i: int| 0 <= i < items.len() implies labelled(
                (#[trigger] value->List_0[i]).value->0,
                *element,
            ) by {
                law_items_carry_their_types(items[i], *element);
            }
        },
        (CqlView::MapOf(entries), DataTypeView::MapOf(Some(key_type), Some(value_type))) => {
            assert forall|i: int| 0 <= i < entries.len() implies labelled(
                (#[trigger] value->MapOf_0[i]).0.value->0,
                *key_type,
            ) && labelled(value->MapOf_0[i].1.value->0, *value_type) by {
                law_items_carry_their_types(entries[i].0, *key_type);
                law_items_carry_their_types(entries[i].1, *value_type);
            }
        },
        (CqlView::SetOf(items), DataTypeView::SetOf(Some(element))) => {
            assert forall|i: int| 0 <= i < items.len() implies labelled(
                (#[trigger] value->SetOf_0[i]).value->0,
                *element,
            ) by {
                law_items_carry_their_types(items[i], *element);
            }
        },
        (
            CqlView::UDT { keyspace: _, name: _, fields },
            DataTypeView::UDT { fields: types, keyspace: _, name: _ },
        ) => {
            assert forall|i: int|
                0 <= i < fields.len() && fields[i].1 is Some && i < types.len() implies labelled(
                (#[trigger] value->UDT_fields[i]).1->0.value->0,
                types[i].1,
            ) by {
                law_items_carry_their_types(fields[i].1->0, types[i].1);
            }
        },
        (CqlView::Tuple(items), DataTypeView::Tuple(types)) => {
            assert forall|i: int|
                0 <= i < items.len() && items[i] is Some && i < types.len() implies labelled(
                (#[trigger] value->Tuple_0[i])->0.value->0,
                types[i],
            ) by {
                law_items_carry_their_types(items[i]->0, types[i]);
            }
        },
        _ => {},
    }
}

/// Whether the value is built as its column type says: each collection under the same kind of
/// collection type, with null in any field beyond those of the type.
pub open spec fn conforms(column: CqlView, column_type: ColumnTypeView) -> bool
    decreases column,
{
    match (column, column_type) {
        (CqlView::List(items), ColumnTypeView::List(element)) => forall|i: int|
            0 <= i < items.len() ==> conforms(#[trigger] items[i], *element),
        (CqlView::MapOf(entries), ColumnTypeView::MapOf(key, value)) => forall|i: int|
            #![trigger entries[i]]
            0 <= i < entries.len() ==> conforms(entries[i].0, *key) && conforms(
                entries[i].1,
                *value,
            ),
        (CqlView::SetOf(items), ColumnTypeView::SetOf(element)) => forall|i: int|
            0 <= i < items.len() ==> conforms(#[trigger] items[i], *element),
        (
            CqlView::UDT { keyspace: _, name: _, fields },
            ColumnTypeView::UDT { fields: types, keyspace: _, name: _ },
        ) => forall|i: int|
            #![trigger fields[i]]
            0 <= i < fields.len() ==> match fields[i].1 {
                Some(value) => i < types.len() && conforms(value, types[i].1),
                None => true,
            },
        (CqlView::Tuple(items), ColumnTypeView::Tuple(types)) => forall|i: int|
            #![trigger items[i]]
            0 <= i < items.len() ==> match items[i] {
                Some(value) => i < types.len() && conforms(value, types[i]),
                None => true,
            },
        (CqlView::Scalar(_), _) => true,
        _ => false,
    }
}

/// Whether no collection in the value, at any depth, was left without typed items.
pub open spec fn fully_typed(value: ValueView) -> bool
    decreases value,
{
    match value {
        ValueView::Regular(column) => column is Scalar,
        ValueView::List(items) => forall|i: int|
            #![trigger items[i]]
            0 <= i < items.len() ==> items[i].value is Some && fully_typed(items[i].value->0),
        ValueView::MapOf(entries) => forall|i: int|
            #![trigger entries[i]]
            0 <= i < entries.len() ==> {
                &&& entries[i].0.value is Some && fully_typed(entries[i].0.value->0)
                &&& entries[i].1.value is Some && fully_typed(entries[i].1.value->0)
            },
        ValueView::SetOf(items) => forall|i: int|
            #![trigger items[i]]
            0 <= i < items.len() ==> items[i].value is Some && fully_typed(items[i].value->0),
        ValueView::UDT { keyspace: _, name: _, fields } => forall|i: int|
            #![trigger fields[i]]
            0 <= i < fields.len() ==> match fields[i].1 {
                Some(field) => field.value is Some && fully_typed(field.value->0),
                None => true,
            },
        ValueView::Tuple(items) => forall|i: int|
            #![trigger items[i]]
            0 <= i < items.len() ==> match items[i] {
                Some(item) => item.value is Some && fully_typed(item.value->0),
                None => true,
            },
    }
}

/// A value reaches the client whole, with all of its collections typed, if and only if it is
/// built as its column type says.
pub proof fn law_conforming_value_reads_back(column: CqlView, column_type: ColumnTypeView)
    ensures
        conforms(column, column_type) <==> untyped(
            column_value(column, type_of_column(column_type)),
        ) == column && fully_typed(column_value(column, type_of_column(column_type))),
    decreases column,
{
    let data_type = type_of_column(column_type);
    let value = column_value(column, data_type);
    law_typing_loses_nothing(column, data_type);
    match (column, column_type) {
        (CqlView::List(items), ColumnTypeView::List(element)) => {
            let item_type = type_of_column(*element);
            assert forall|i: int| 0 <= i < items.len() implies (conforms(
                #[trigger] items[i],
                *element,
            ) <==> has_room(items[i], item_type) && fully_typed(value->List_0[i].value->0)) by {
                law_conforming_value_reads_back(items[i], *element);
                law_typing_loses_nothing(items[i], item_type);
            }
        },
        (CqlView::MapOf(entries), ColumnTypeView::MapOf(key, val)) => {
            let key_type = type_of_column(*key);
            let val_type = type_of_column(*val);
            assert forall|i: int|
                #![trigger entries[i]]
                0 <= i < entries.len() implies (conforms(entries[i].0, *key) && conforms(
                entries[i].1,
                *val,
            ) <==> has_room(entries[i].0, key_type) && has_room(entries[i].1, val_type)
                && fully_typed(value->MapOf_0[i].0.value->0) && fully_typed(
                value->MapOf_0[i].1.value->0,
            )) by {
                law_conforming_value_reads_back(entries[i].0, *key);
                law_typing_loses_nothing(entries[i].0, key_type);
                law_conforming_value_reads_back(entries[i].1, *val);
                law_typing_loses_nothing(entries[i].1, val_type);
            }
        },
        (CqlView::SetOf(items), ColumnTypeView::SetOf(element)) => {
            let item_type = type_of_column(*element);
            assert forall|i: int| 0 <= i < items.len() implies (conforms(
                #[trigger] items[i],
                *element,
            ) <==> has_room(items[i], item_type) && fully_typed(value->SetOf_0[i].value->0)) by {
                law_conforming_value_reads_back(items[i], *element);
                law_typing_loses_nothing(items[i], item_type);
            }
        },
        (
            CqlView::UDT { keyspace: _, name: _, fields },
            ColumnTypeView::UDT { fields: types, keyspace: _, name: _ },
        ) => {
            assert forall|i: int|
                #![trigger fields[i]]
                0 <= i < fields.len() && fields[i].1 is Some && i < types.len() implies (conforms(
                fields[i].1->0,
                types[i].1,
            ) <==> has_room(fields[i].1->0, type_of_column(types[i].1)) && fully_typed(
                value->UDT_fields[i].1->0.value->0,
            )) by {
                law_conforming_value_reads_back(fields[i].1->0, types[i].1);
                law_typing_loses_nothing(fields[i].1->0, type_of_column(types[i].1));
            }
        },
        (CqlView::Tuple(items), ColumnTypeView::Tuple(types)) => {
            assert forall|i: int|
                #![trigger items[i]]
                0 <= i < items.len() && items[i] is Some && i < types.len() implies (conforms(
                items[i]->0,
                types[i],
            ) <==> has_room(items[i]->0, type_of_column(types[i])) && fully_typed(
                value->Tuple_0[i]->0.value->0,
            )) by {
                law_conforming_value_reads_back(items[i]->0, types[i]);
                law_typing_loses_nothing(items[i]->0, type_of_column(types[i]));
            }
        },
        _ => {},
    }
}

/// Whether the columns of the result have a place for all of the row: there is one for each of
/// its values, with a type that has a place for every part of the value.
pub open spec fn row_fits(row: Row, col_specs: Seq<ColumnSpec>) -> bool {
    &&& row.columns@.len() <= col_specs.len()
    &&& forall|i: int|
        #![trigger row.columns@[i]]
        0 <= i < row.columns@.len() ==> match row.columns@[i] {
            Some(value) => has_room(value.model(), type_of_column(col_specs[i].typ.model())),
            None => true,
        }
}

/// Whether the columns that a client reads are those of the row: no column is lost, null stays
/// null, and every other value, with its data types taken off, is the one in the row.
pub open spec fn row_reads_back(row: Row, read: Seq<CassValueView>) -> bool {
    &&& read.len() == row.columns@.len()
    &&& forall|i: int|
        #![trigger row.columns@[i]]
        0 <= i < row.columns@.len() ==> match row.columns@[i] {
            Some(value) => read[i].value is Some && untyped(read[i].value->0) == value.model(),
            None => read[i].value is None,
        }
}

/// A row reaches the client whole if and only if the columns of the result have a place for
/// all of it.
pub proof fn law_row_reads_back_if_it_fits(row: Row, col_specs: Seq<ColumnSpec>)
    ensures
        row_reads_back(row, row_columns(row, col_specs)) <==> row_fits(row, col_specs),
{
    let read = row_columns(row, col_specs);
    assert forall|i: int|
        #![trigger row.columns@[i]]
        0 <= i < read.len() && row.columns@[i] is Some implies (untyped(read[i].value->0)
        == row.columns@[i]->0.model() <==> has_room(
        row.columns@[i]->0.model(),
        type_of_column(col_specs[i].typ.model()),
    )) by {
        law_typing_loses_nothing(
            row.columns@[i]->0.model(),
            type_of_column(col_specs[i].typ.model()),
        );
    }
}

/// Two values that say the same are built alike: the same kind of collection, with parts that
/// say the same in the same places, or the same value.
pub proof fn law_alike_values_are_built_alike(one: CqlValue, other: CqlValue)
    requires
        one.model() == other.model(),
    ensures
        match one {
            CqlValue::List(a) => other matches CqlValue::List(b) && a@.len() == b@.len()
                && forall|i: int|
                #![trigger a@[i]]
                #![trigger b@[i]]
                0 <= i < a@.len() ==> a@[i].model() == b@[i].model(),
            CqlValue::SetOf(a) => other matches CqlValue::SetOf(b) && a@.len() == b@.len()
                && forall|i: int|
                #![trigger a@[i]]
                #![trigger b@[i]]
                0 <= i < a@.len() ==> a@[i].model() == b@[i].model(),
            CqlValue::MapOf(a) => other matches CqlValue::MapOf(b) && a@.len() == b@.len()
                && forall|i: int|
                #![trigger a@[i]]
                #![trigger b@[i]]
                0 <= i < a@.len() ==> a@[i].0.model() == b@[i].0.model() && a@[i].1.model()
                    == b@[i].1.model(),
            CqlValue::Tuple(a) => other matches CqlValue::Tuple(b) && a@.len() == b@.len()
                && forall|i: int|
                #![trigger a@[i]]
                #![trigger b@[i]]
                0 <= i < a@.len() ==> (a@[i] is Some <==> b@[i] is Some) && (a@[i] is Some
                    ==> a@[i]->0.model() == b@[i]->0.model()),
            CqlValue::UserDefinedType { keyspace: k, name: n, fields: a } => other matches
                CqlValue::UserDefinedType { keyspace: l, name: m, fields: b } && {
                &&& k@ == l@
                &&& n@ == m@
                &&& a@.len() == b@.len()
                &&& forall|i: int|
                    #![trigger a@[i]]
                    #![trigger b@[i]]
                    0 <= i < a@.len() ==> a@[i].0@ == b@[i].0@ && (a@[i].1 is Some
                        <==> b@[i].1 is Some) && (a@[i].1 is Some ==> a@[i].1->0.model()
                        == b@[i].1->0.model())
            },
            _ => other == one,
        },
{
    let (m, n) = (one.model(), other.model());
    match (one, other) {
        (CqlValue::List(a), CqlValue::List(b)) => {
            assert(m->List_0.len() == a@.len() && n->List_0.len() == b@.len());
            assert forall|i: int|
                #![trigger a@[i]]
                #![trigger b@[i]]
                0 <= i < a@.len() implies a@[i].model() == b@[i].model() by {
                assert(m->List_0[i] == n->List_0[i]);
            }
        },
        (CqlValue::SetOf(a), CqlValue::SetOf(b)) => {
            assert(m->SetOf_0.len() == a@.len() && n->SetOf_0.len() == b@.len());
            assert forall|i: int|
                #![trigger a@[i]]
                #![trigger b@[i]]
                0 <= i < a@.len() implies a@[i].model() == b@[i].model() by {
                assert(m->SetOf_0[i] == n->SetOf_0[i]);
            }
        },
        (CqlValue::MapOf(a), CqlValue::MapOf(b)) => {
            assert(m->MapOf_0.len() == a@.len() && n->MapOf_0.len() == b@.len());
            assert forall|i: int|
                #![trigger a@[i]]
                #![trigger b@[i]]
                0 <= i < a@.len() implies a@[i].0.model() == b@[i].0.model() && a@[i].1.model()
                == b@[i].1.model() by {
                assert(m->MapOf_0[i] == n->MapOf_0[i]);
            }
        },
        (CqlValue::Tuple(a), CqlValue::Tuple(b)) => {
            assert(m->Tuple_0.len() == a@.len() && n->Tuple_0.len() == b@.len());
            assert forall|i: int|
                #![trigger a@[i]]
                #![trigger b@[i]]
                0 <= i < a@.len() implies (a@[i] is Some <==> b@[i] is Some) && (a@[i] is Some
                ==> a@[i]->0.model() == b@[i]->0.model()) by {
                assert(m->Tuple_0[i] == n->Tuple_0[i]);
            }
        },
        (
            CqlValue::UserDefinedType { keyspace: _, name: _, fields: a },
            CqlValue::UserDefinedType { keyspace: _, name: _, fields: b },
        ) => {
            assert(m->UDT_fields.len() == a@.len() && n->UDT_fields.len() == b@.len());
            assert forall|i: int|
                #![trigger a@[i]]
                #![trigger b@[i]]
                0 <= i < a@.len() implies a@[i].0@ == b@[i].0@ && (a@[i].1 is Some
                <==> b@[i].1 is Some) && (a@[i].1 is Some ==> a@[i].1->0.model()
                == b@[i].1->0.model()) by {
                assert(m->UDT_fields[i] == n->UDT_fields[i]);
            }
        },
        _ => {},
    }
}

/// Whether the item that a client reads is not null, has the given type, and is what the
/// client sees of the value under that type.
pub open spec fn is_item_of(item: CassValue, value: CqlValue, value_type: CassDataType) -> bool {
    &&& item.value_type.model() == value_type.model()
    &&& item.value is Some
    &&& item.value->0.model() == column_value(value.model(), value_type.model())
}

/// A collection whose type is the matching one, with its element types known, reaches the
/// client as the same kind of collection: with as many items, in the same order, each with the
/// type that is declared for its place, the keys of a map with the type of keys and its values
/// with that of values. A field or part is null if and only if it was sent as null or its type
/// has no such place; the names of a user defined type and of its fields are those that were
/// sent. Any other value is handed over as it came.
pub proof fn law_collections_are_typed_item_by_item(
    column: CqlValue,
    column_type: CassDataType,
    value: Value,
)
    requires
        value.model() == column_value(column.model(), column_type.model()),
    ensures
        match (column, column_type) {
            (CqlValue::List(sent), CassDataType::List(Some(element))) => value matches
                Value::CollectionValue(Collection::List(read)) && read@.len() == sent@.len()
                && forall|i: int|
                #![trigger read@[i]]
                #![trigger sent@[i]]
                0 <= i < sent@.len() ==> is_item_of(read@[i], sent@[i], *element),
            (CqlValue::SetOf(sent), CassDataType::SetOf(Some(element))) => value matches
                Value::CollectionValue(Collection::SetOf(read)) && read@.len() == sent@.len()
                && forall|i: int|
                #![trigger read@[i]]
                #![trigger sent@[i]]
                0 <= i < sent@.len() ==> is_item_of(read@[i], sent@[i], *element),
            (
                CqlValue::MapOf(sent),
                CassDataType::MapOf(Some(key_type), Some(value_type)),
            ) => value matches Value::CollectionValue(Collection::MapOf(read)) && read@.len()
                == sent@.len() && forall|i: int|
                #![trigger read@[i]]
                #![trigger sent@[i]]
                0 <= i < sent@.len() ==> is_item_of(read@[i].0, sent@[i].0, *key_type)
                    && is_item_of(read@[i].1, sent@[i].1, *value_type),
            (CqlValue::Tuple(sent), CassDataType::Tuple(types)) => value matches
                Value::CollectionValue(Collection::Tuple(read)) && read@.len() == sent@.len()
                && forall|i: int|
                #![trigger read@[i]]
                #![trigger sent@[i]]
                0 <= i < sent@.len() ==> (read@[i] is Some <==> sent@[i] is Some && i
                    < types@.len()) && (read@[i] is Some ==> is_item_of(
                    read@[i]->0,
                    sent@[i]->0,
                    *types@[i],
                )),
            (
                CqlValue::UserDefinedType { keyspace, name, fields: sent },
                CassDataType::UDT(udt),
            ) => value matches Value::CollectionValue(
                Collection::UserDefinedType { keyspace: k, name: n, fields: read },
            ) && {
                &&& k@ == keyspace@
                &&& n@ == name@
                &&& read@.len() == sent@.len()
                &&& forall|i: int|
                    #![trigger read@[i]]
                    #![trigger sent@[i]]
                    0 <= i < sent@.len() ==> read@[i].0@ == sent@[i].0@ && (read@[i].1 is Some
                        <==> sent@[i].1 is Some && i < udt.field_types@.len()) && (
                    read@[i].1 is Some ==> is_item_of(
                        read@[i].1->0,
                        sent@[i].1->0,
                        *udt.field_types@[i].1,
                    ))
            },
            _ => value matches Value::RegularValue(kept) && kept.model() == column.model(),
        },
{
    let read = value.model();
    let expected = column_value(column.model(), column_type.model());
    match (column, column_type, value) {
        (
            CqlValue::List(sent),
            CassDataType::List(Some(element)),
            Value::CollectionValue(Collection::List(items)),
        ) => {
            assert(read->List_0.len() == items@.len() && expected->List_0.len() == sent@.len());
            assert forall|i: int|
                #![trigger items@[i]]
                #![trigger sent@[i]]
                0 <= i < sent@.len() implies is_item_of(items@[i], sent@[i], *element) by {
                assert(column.model()->List_0[i] == sent@[i].model());
                assert(read->List_0[i] == items@[i].model());
                assert(read->List_0[i] == expected->List_0[i]);
            }
        },
        (
            CqlValue::SetOf(sent),
            CassDataType::SetOf(Some(element)),
            Value::CollectionValue(Collection::SetOf(items)),
        ) => {
            assert(read->SetOf_0.len() == items@.len() && expected->SetOf_0.len() == sent@.len());
            assert forall|i: int|
                #![trigger items@[i]]
                #![trigger sent@[i]]
                0 <= i < sent@.len() implies is_item_of(items@[i], sent@[i], *element) by {
                assert(column.model()->SetOf_0[i] == sent@[i].model());
                assert(read->SetOf_0[i] == items@[i].model());
                assert(read->SetOf_0[i] == expected->SetOf_0[i]);
            }
        },
        (
            CqlValue::MapOf(sent),
            CassDataType::MapOf(Some(key_type), Some(value_type)),
            Value::CollectionValue(Collection::MapOf(items)),
        ) => {
            assert(read->MapOf_0.len() == items@.len() && expected->MapOf_0.len() == sent@.len());
            assert forall|i: int|
                #![trigger items@[i]]
                #![trigger sent@[i]]
                0 <= i < sent@.len() implies is_item_of(items@[i].0, sent@[i].0, *key_type)
                && is_item_of(items@[i].1, sent@[i].1, *value_type) by {
                assert(column.model()->MapOf_0[i] == (sent@[i].0.model(), sent@[i].1.model()));
                assert(read->MapOf_0[i] == (items@[i].0.model(), items@[i].1.model()));
                assert(read->MapOf_0[i] == expected->MapOf_0[i]);
            }
        },
        (
            CqlValue::Tuple(sent),
            CassDataType::Tuple(types),
            Value::CollectionValue(Collection::Tuple(items)),
        ) => {
            assert(read->Tuple_0.len() == items@.len() && expected->Tuple_0.len() == sent@.len());
            assert(column_type.model()->Tuple_0.len() == types@.len());
            assert forall|i: int|
                #![trigger items@[i]]
                #![trigger sent@[i]]
                0 <= i < sent@.len() implies (items@[i] is Some <==> sent@[i] is Some && i
                < types@.len()) && (items@[i] is Some ==> is_item_of(
                items@[i]->0,
                sent@[i]->0,
                *types@[i],
            )) by {
                assert(column.model()->Tuple_0[i] is Some <==> sent@[i] is Some);
                assert(sent@[i] is Some ==> column.model()->Tuple_0[i]->0 == sent@[i]->0.model());
                assert(i < types@.len() ==> column_type.model()->Tuple_0[i] == types@[i].model());
                assert(read->Tuple_0[i] is Some <==> items@[i] is Some);
                assert(items@[i] is Some ==> read->Tuple_0[i]->0 == items@[i]->0.model());
                assert(read->Tuple_0[i] == expected->Tuple_0[i]);
            }
        },
        (
            CqlValue::UserDefinedType { keyspace: _, name: _, fields: sent },
            CassDataType::UDT(udt),
            Value::CollectionValue(
                Collection::UserDefinedType { keyspace: _, name: _, fields: items },
            ),
        ) => {
            assert(read->UDT_fields.len() == items@.len() && expected->UDT_fields.len()
                == sent@.len());
            let types = column_type.model()->UDT_fields;
            assert(types.len() == udt.field_types@.len());
            assert forall|i: int|
                #![trigger items@[i]]
                #![trigger sent@[i]]
                0 <= i < sent@.len() implies items@[i].0@ == sent@[i].0@ && (items@[i].1 is Some
                <==> sent@[i].1 is Some && i < udt.field_types@.len()) && (items@[i].1 is Some
                ==> is_item_of(items@[i].1->0, sent@[i].1->0, *udt.field_types@[i].1)) by {
                let field = column.model()->UDT_fields[i];
                assert(field.0 == sent@[i].0@ && (field.1 is Some <==> sent@[i].1 is Some));
                assert(sent@[i].1 is Some ==> field.1->0 == sent@[i].1->0.model());
                assert(i < types.len() ==> types[i].1 == udt.field_types@[i].1.model());
                let item = read->UDT_fields[i];
                assert(item.0 == items@[i].0@ && (item.1 is Some <==> items@[i].1 is Some));
                assert(items@[i].1 is Some ==> item.1->0 == items@[i].1->0.model());
                assert(item == expected->UDT_fields[i]);
            }
        },
        _ => {},
    }
}

/// A row has a column for every place that has both a value, null or not, and a specification,
/// and no other. The column at a place carries the data type of the specification there, is
/// null if and only if the value there is, and is else what the client sees of that value under
/// that type.
pub proof fn law_columns_carry_their_types(
    row: Row,
    col_specs: Seq<ColumnSpec>,
    columns: Seq<CassValue>,
)
    requires
        Seq::new(columns.len(), |i: int| columns[i].model()) == row_columns(row, col_specs),
    ensures
        columns.len() <= row.columns@.len(),
        columns.len() <= col_specs.len(),
        columns.len() == row.columns@.len() || columns.len() == col_specs.len(),
        forall|i: int|
            #![trigger columns[i]]
            #![trigger row.columns@[i]]
            #![trigger col_specs[i]]
            0 <= i < columns.len() ==> {
                &&& columns[i].value_type.model() == type_of_column(col_specs[i].typ.model())
                &&& columns[i].value is Some <==> row.columns@[i] is Some
                &&& row.columns@[i] is Some ==> columns[i].value->0.model() == column_value(
                    row.columns@[i]->0.model(),
                    type_of_column(col_specs[i].typ.model()),
                )
            },
{
    let read = Seq::new(columns.len(), |i: int| columns[i].model());
    assert(read.len() == columns.len());
    assert forall|i: int|
        #![trigger columns[i]]
        #![trigger row.columns@[i]]
        #![trigger col_specs[i]]
        0 <= i < columns.len() implies {
        &&& columns[i].value_type.model() == type_of_column(col_specs[i].typ.model())
        &&& columns[i].value is Some <==> row.columns@[i] is Some
        &&& row.columns@[i] is Some ==> columns[i].value->0.model() == column_value(
            row.columns@[i]->0.model(),
            type_of_column(col_specs[i].typ.model()),
        )
    } by {
        assert(read[i] == columns[i].model());
        assert(read[i] == row_columns(row, col_specs)[i]);
    }
}

/// A client reads one row for every row that was sent, in the same order. Every row has the
/// metadata of the result, and at every place the column that belongs there.
pub proof fn law_rows_are_read_one_for_one(
    rows: &Option<Vec<Row>>,
    cass_rows: &Option<Vec<CassRow>>,
    metadata: &Arc<CassResultData>,
)
    requires
        are_cass_rows(*cass_rows, *rows, *metadata),
    ensures
        cass_rows is Some <==> rows is Some,
        rows is Some ==> {
            let (sent, read) = (rows->0@, cass_rows->0@);
            &&& read.len() == sent.len()
            &&& forall|r: int|
                #![trigger read[r]]
                #![trigger sent[r]]
                0 <= r < sent.len() ==> {
                    &&& read[r].result_metadata == *metadata
                    &&& read[r].columns@.len() <= sent[r].columns@.len()
                    &&& read[r].columns@.len() <= metadata.col_specs@.len()
                    &&& read[r].columns@.len() == sent[r].columns@.len() || read[r].columns@.len()
                        == metadata.col_specs@.len()
                }
            &&& forall|r: int, i: int|
                #![trigger read[r].columns@[i]]
                0 <= r < sent.len() && 0 <= i < read[r].columns@.len() ==> {
                    let column = read[r].columns@[i];
                    let typ = type_of_column(metadata.col_specs@[i].typ.model());
                    &&& column.value_type.model() == typ
                    &&& column.value is Some <==> sent[r].columns@[i] is Some
                    &&& column.value is Some ==> column.value->0.model() == column_value(
                        sent[r].columns@[i]->0.model(),
                        typ,
                    )
                }
        },
{
    if rows is Some {
        let (sent, read) = (rows->0@, cass_rows->0@);
        let specs = metadata.col_specs@;
        assert forall|r: int|
            #![trigger read[r]]
            #![trigger sent[r]]
            0 <= r < sent.len() implies {
            &&& read[r].result_metadata == *metadata
            &&& read[r].columns@.len() <= sent[r].columns@.len()
            &&& read[r].columns@.len() <= specs.len()
            &&& read[r].columns@.len() == sent[r].columns@.len() || read[r].columns@.len()
                == specs.len()
        } by {
            assert(read[r].columns_model() == row_columns(sent[r], specs));
            assert(Seq::new(read[r].columns@.len(), |i: int| read[r].columns@[i].model())
                =~= read[r].columns_model());
            law_columns_carry_their_types(sent[r], specs, read[r].columns@);
        }
        assert forall|r: int, i: int|
            #![trigger read[r].columns@[i]]
            0 <= r < sent.len() && 0 <= i < read[r].columns@.len() implies {
            let column = read[r].columns@[i];
            let typ = type_of_column(specs[i].typ.model());
            &&& column.value_type.model() == typ
            &&& column.value is Some <==> sent[r].columns@[i] is Some
            &&& column.value is Some ==> column.value->0.model() == column_value(
                sent[r].columns@[i]->0.model(),
                typ,
            )
        } by {
            assert(read[r].columns_model() == row_columns(sent[r], specs));
            assert(Seq::new(read[r].columns@.len(), |i: int| read[r].columns@[i].model())
                =~= read[r].columns_model());
            law_columns_carry_their_types(sent[r], specs, read[r].columns@);
        }
    }
}

} // verus!
