//! Query results: how the rows that the server sends become rows whose values carry
//! their data types.

use crate::cass_types::{
    get_column_type, CassDataType, CassDataTypeArc, ColumnType, UDTDataType,
};
use std::sync::Arc;
use vstd::prelude::*;

#[allow(unused_imports)]
use crate::cass_types::{type_of_column, ColumnTypeView, DataTypeView};

verus! {

/// A value as the server sent it. Numbers that the machine has no exact integer for are
/// held as their bits or bytes.
#[derive(Debug, PartialEq, Eq)]
pub enum CqlValue {
    Ascii(String),
    Boolean(bool),
    Blob(Vec<u8>),
    Counter(i64),
    /// The unscaled value, as big-endian bytes in two's complement, and the scale.
    Decimal { unscaled: Vec<u8>, scale: i64 },
    /// Days, with the first of January 1970 at 2^31.
    Date(u32),
    /// The bits of a floating-point number of 64 bits.
    Double(u64),
    Duration { months: i32, days: i32, nanoseconds: i64 },
    Empty,
    /// The bits of a floating-point number of 32 bits.
    Float(u32),
    Int(i32),
    BigInt(i64),
    Text(String),
    /// Milliseconds since the Unix epoch.
    Timestamp(i64),
    /// The bytes of an address: four or sixteen of them.
    Inet(Vec<u8>),
    List(Vec<CqlValue>),
    MapOf(Vec<(CqlValue, CqlValue)>),
    SetOf(Vec<CqlValue>),
    UserDefinedType { keyspace: String, name: String, fields: Vec<(String, Option<CqlValue>)> },
    SmallInt(i16),
    TinyInt(i8),
    /// Nanoseconds since midnight.
    Time(i64),
    Timeuuid(u128),
    Tuple(Vec<Option<CqlValue>>),
    Uuid(u128),
    /// Big-endian bytes in two's complement.
    Varint(Vec<u8>),
}

/// A row as the server sent it: a column without a value is null.
#[derive(Debug, PartialEq, Eq)]
pub struct Row {
    pub columns: Vec<Option<CqlValue>>,
}

/// The table that a result column comes from.
#[derive(Debug, PartialEq, Eq)]
pub struct TableSpec {
    pub ks_name: String,
    pub table_name: String,
}

/// What the server says of a result column.
#[derive(Debug, PartialEq, Eq)]
pub struct ColumnSpec {
    pub table_spec: TableSpec,
    pub name: String,
    pub typ: ColumnType,
}

/// A result as the server sent it. A statement that reads nothing has no rows.
#[derive(Debug, PartialEq, Eq)]
pub struct QueryResult {
    pub rows: Option<Vec<Row>>,
    pub tracing_id: Option<u128>,
    pub paging_state: Option<Vec<u8>>,
    pub col_specs: Vec<ColumnSpec>,
}

/// What all rows of a result share.
#[derive(Debug, PartialEq, Eq)]
pub struct CassResultData {
    pub paging_state: Option<Vec<u8>>,
    pub col_specs: Vec<ColumnSpec>,
    pub tracing_id: Option<u128>,
}

/// A row as a client sees it.
#[derive(Debug, PartialEq, Eq)]
pub struct CassRow {
    pub columns: Vec<CassValue>,
    pub result_metadata: Arc<CassResultData>,
}

/// A result as a client sees it.
#[derive(Debug, PartialEq, Eq)]
pub struct CassResult {
    pub rows: Option<Vec<CassRow>>,
    pub metadata: Arc<CassResultData>,
}

/// A value with its data type; without a value it is null.
#[derive(Debug, PartialEq, Eq)]
pub struct CassValue {
    pub value: Option<Value>,
    pub value_type: CassDataTypeArc,
}

/// A value as a client sees it.
#[derive(Debug, PartialEq, Eq)]
pub enum Value {
    RegularValue(CqlValue),
    CollectionValue(Collection),
}

/// A collection whose items carry their data types.
#[derive(Debug, PartialEq, Eq)]
pub enum Collection {
    List(Vec<CassValue>),
    MapOf(Vec<(CassValue, CassValue)>),
    SetOf(Vec<CassValue>),
    UserDefinedType { keyspace: String, name: String, fields: Vec<(String, Option<CassValue>)> },
    Tuple(Vec<Option<CassValue>>),
}

/// What a [`CqlValue`] says: the structure of a collection, and the value itself otherwise.
pub enum CqlView {
    List(Seq<CqlView>),
    MapOf(Seq<(CqlView, CqlView)>),
    SetOf(Seq<CqlView>),
    UDT { keyspace: Seq<char>, name: Seq<char>, fields: Seq<(Seq<char>, Option<CqlView>)> },
    Tuple(Seq<Option<CqlView>>),
    Scalar(CqlValue),
}

/// What a [`Value`] says.
pub enum ValueView {
    Regular(CqlView),
    List(Seq<CassValueView>),
    MapOf(Seq<(CassValueView, CassValueView)>),
    SetOf(Seq<CassValueView>),
    UDT { keyspace: Seq<char>, name: Seq<char>, fields: Seq<(Seq<char>, Option<CassValueView>)> },
    Tuple(Seq<Option<CassValueView>>),
}

/// What a [`CassValue`] says.
pub struct CassValueView {
    pub value: Option<ValueView>,
    pub value_type: DataTypeView,
}

impl CqlValue {
    /// The mathematical value.
    pub open spec fn model(&self) -> CqlView
        decreases self,
    {
        match self {
            CqlValue::List(items) => CqlView::List(
                Seq::new(
                    items@.len(),
                    |i: int|
                        if 0 <= i < items@.len() {
                            items@[i].model()
                        } else {
                            arbitrary()
                        },
                ),
            ),
            CqlValue::MapOf(entries) => CqlView::MapOf(
                Seq::new(
                    entries@.len(),
                    |i: int|
                        if 0 <= i < entries@.len() {
                            (entries@[i].0.model(), entries@[i].1.model())
                        } else {
                            arbitrary()
                        },
                ),
            ),
            CqlValue::SetOf(items) => CqlView::SetOf(
                Seq::new(
                    items@.len(),
                    |i: int|
                        if 0 <= i < items@.len() {
                            items@[i].model()
                        } else {
                            arbitrary()
                        },
                ),
            ),
            CqlValue::UserDefinedType { keyspace, name, fields } => CqlView::UDT {
                keyspace: keyspace@,
                name: name@,
                fields: Seq::new(
                    fields@.len(),
                    |i: int|
                        if 0 <= i < fields@.len() {
                            (
                                fields@[i].0@,
                                match fields@[i].1 {
                                    Some(value) => Some(value.model()),
                                    None => None,
                                },
                            )
                        } else {
                            arbitrary()
                        },
                ),
            },
            CqlValue::Tuple(items) => CqlView::Tuple(
                Seq::new(
                    items@.len(),
                    |i: int|
                        if 0 <= i < items@.len() {
                            match items@[i] {
                                Some(value) => Some(value.model()),
                                None => None,
                            }
                        } else {
                            arbitrary()
                        },
                ),
            ),
            _ => CqlView::Scalar(*self),
        }
    }
}

impl CassValue {
    /// The mathematical value.
    pub open spec fn model(&self) -> CassValueView
        decreases self,
    {
        CassValueView {
            value: match self.value {
                Some(value) => Some(value.model()),
                None => None,
            },
            value_type: self.value_type.model(),
        }
    }
}

impl Value {
    /// The mathematical value.
    pub open spec fn model(&self) -> ValueView
        decreases self,
    {
        match self {
            Value::RegularValue(value) => ValueView::Regular(value.model()),
            Value::CollectionValue(Collection::List(items)) => ValueView::List(
                Seq::new(
                    items@.len(),
                    |i: int|
                        if 0 <= i < items@.len() {
                            items@[i].model()
                        } else {
                            arbitrary()
                        },
                ),
            ),
            Value::CollectionValue(Collection::MapOf(entries)) => ValueView::MapOf(
                Seq::new(
                    entries@.len(),
                    |i: int|
                        if 0 <= i < entries@.len() {
                            (entries@[i].0.model(), entries@[i].1.model())
                        } else {
                            arbitrary()
                        },
                ),
            ),
            Value::CollectionValue(Collection::SetOf(items)) => ValueView::SetOf(
                Seq::new(
                    items@.len(),
                    |i: int|
                        if 0 <= i < items@.len() {
                            items@[i].model()
                        } else {
                            arbitrary()
                        },
                ),
            ),
            Value::CollectionValue(
                Collection::UserDefinedType { keyspace, name, fields },
            ) => ValueView::UDT {
                keyspace: keyspace@,
                name: name@,
                fields: Seq::new(
                    fields@.len(),
                    |i: int|
                        if 0 <= i < fields@.len() {
                            (
                                fields@[i].0@,
                                match fields@[i].1 {
                                    Some(value) => Some(value.model()),
                                    None => None,
                                },
                            )
                        } else {
                            arbitrary()
                        },
                ),
            },
            Value::CollectionValue(Collection::Tuple(items)) => ValueView::Tuple(
                Seq::new(
                    items@.len(),
                    |i: int|
                        if 0 <= i < items@.len() {
                            match items@[i] {
                                Some(value) => Some(value.model()),
                                None => None,
                            }
                        } else {
                            arbitrary()
                        },
                ),
            ),
        }
    }
}

/// A value that is not null, with its data type.
pub open spec fn typed(value: ValueView, value_type: DataTypeView) -> CassValueView {
    CassValueView { value: Some(value), value_type }
}

/// A value of the server as a client sees it under the given data type. A collection whose
/// type is the matching one, with its element types known, has its items typed one by one;
/// an item for which a user defined type or a tuple type has no field becomes null. Any other
/// value is kept as it is.
pub open spec fn column_value(column: CqlView, column_type: DataTypeView) -> ValueView
    decreases column,
{
    match (column, column_type) {
        (CqlView::List(items), DataTypeView::List(Some(element))) => ValueView::List(
            Seq::new(
                items.len(),
                |i: int|
                    if 0 <= i < items.len() {
                        typed(column_value(items[i], *element), *element)
                    } else {
                        arbitrary()
                    },
            ),
        ),
        (
            CqlView::MapOf(entries),
            DataTypeView::MapOf(Some(key), Some(value)),
        ) => ValueView::MapOf(
            Seq::new(
                entries.len(),
                |i: int|
                    if 0 <= i < entries.len() {
                        (
                            typed(column_value(entries[i].0, *key), *key),
                            typed(column_value(entries[i].1, *value), *value),
                        )
                    } else {
                        arbitrary()
                    },
            ),
        ),
        (CqlView::SetOf(items), DataTypeView::SetOf(Some(element))) => ValueView::SetOf(
            Seq::new(
                items.len(),
                |i: int|
                    if 0 <= i < items.len() {
                        typed(column_value(items[i], *element), *element)
                    } else {
                        arbitrary()
                    },
            ),
        ),
        (
            CqlView::UDT { keyspace, name, fields },
            DataTypeView::UDT { fields: types, keyspace: _, name: _ },
        ) => ValueView::UDT {
            keyspace,
            name,
            fields: Seq::new(
                fields.len(),
                |i: int|
                    if 0 <= i < fields.len() {
                        (
                            fields[i].0,
                            match fields[i].1 {
                                Some(value) if i < types.len() => Some(
                                    typed(column_value(value, types[i].1), types[i].1),
                                ),
                                _ => None,
                            },
                        )
                    } else {
                        arbitrary()
                    },
            ),
        },
        (CqlView::Tuple(items), DataTypeView::Tuple(types)) => ValueView::Tuple(
            Seq::new(
                items.len(),
                |i: int|
                    if 0 <= i < items.len() {
                        match items[i] {
                            Some(value) if i < types.len() => Some(
                                typed(column_value(value, types[i]), types[i]),
                            ),
                            _ => None,
                        }
                    } else {
                        arbitrary()
                    },
            ),
        ),
        _ => ValueView::Regular(column),
    }
}

/// Types the items of a list or of a set.
fn typed_items(items: Vec<CqlValue>, item_type: &CassDataTypeArc) -> (values: Vec<CassValue>)
    ensures
        values@.len() == items@.len(),
        forall|i: int|
            #![trigger values@[i]]
            0 <= i < items@.len() ==> values@[i].model() == typed(
                column_value(items@[i].model(), item_type.model()),
                item_type.model(),
            ),
    decreases items,
{
    let mut values: Vec<CassValue> = Vec::new();
    for item in it: items.into_iter()
        invariant
            it.seq() == items@,
            values@.len() == it.index(),
            forall|i: int|
                #![trigger values@[i]]
                0 <= i < values@.len() ==> values@[i].model() == typed(
                    column_value(items@[i].model(), item_type.model()),
                    item_type.model(),
                ),
    {
        assert(item == items@[it.index() as int]);
        assert(decreases_to!(items => items@[it.index() as int]));
        values.push(
            CassValue {
                value_type: item_type.clone(),
                value: Some(get_column_value(item, item_type)),
            },
        );
    }
    values
}

/// Types the keys and the values of a map.
fn typed_entries(
    entries: Vec<(CqlValue, CqlValue)>,
    key_type: &CassDataTypeArc,
    value_type: &CassDataTypeArc,
) -> (values: Vec<(CassValue, CassValue)>)
    ensures
        values@.len() == entries@.len(),
        forall|i: int|
            #![trigger values@[i]]
            0 <= i < entries@.len() ==> values@[i].0.model() == typed(
                column_value(entries@[i].0.model(), key_type.model()),
                key_type.model(),
            ) && values@[i].1.model() == typed(
                column_value(entries@[i].1.model(), value_type.model()),
                value_type.model(),
            ),
    decreases entries,
{
    let mut values: Vec<(CassValue, CassValue)> = Vec::new();
    for entry in it: entries.into_iter()
        invariant
            it.seq() == entries@,
            values@.len() == it.index(),
            forall|i: int|
                #![trigger values@[i]]
                0 <= i < values@.len() ==> values@[i].0.model() == typed(
                    column_value(entries@[i].0.model(), key_type.model()),
                    key_type.model(),
                ) && values@[i].1.model() == typed(
                    column_value(entries@[i].1.model(), value_type.model()),
                    value_type.model(),
                ),
    {
        assert(decreases_to!(entries => entries@[it.index() as int]));
        let (key, value) = entry;
        values.push(
            (
                CassValue {
                    value_type: key_type.clone(),
                    value: Some(get_column_value(key, key_type)),
                },
                CassValue {
                    value_type: value_type.clone(),
                    value: Some(get_column_value(value, value_type)),
                },
            ),
        );
    }
    values
}

/// Whether the item of a collection is typed: a value under a type carries that type, and
/// anything else is null.
spec fn is_typed_field(
    item: Option<CassValue>,
    value: Option<CqlValue>,
    value_type: Option<CassDataTypeArc>,
) -> bool {
    match (value, value_type) {
        (Some(value), Some(value_type)) => item is Some && item->0.model() == typed(
            column_value(value.model(), value_type.model()),
            value_type.model(),
        ),
        _ => item is None,
    }
}

/// Types the fields of a user defined type.
fn typed_fields(
    fields: Vec<(String, Option<CqlValue>)>,
    udt_type: &UDTDataType,
) -> (values: Vec<(String, Option<CassValue>)>)
    ensures
        values@.len() == fields@.len(),
        forall|i: int|
            #![trigger values@[i]]
            0 <= i < fields@.len() ==> values@[i].0@ == fields@[i].0@ && is_typed_field(
                values@[i].1,
                fields@[i].1,
                udt_type.field_type(i),
            ),
    decreases fields,
{
    let mut values: Vec<(String, Option<CassValue>)> = Vec::new();
    for field in it: fields.into_iter()
        invariant
            it.seq() == fields@,
            values@.len() == it.index(),
            forall|i: int|
                #![trigger values@[i]]
                0 <= i < values@.len() ==> values@[i].0@ == fields@[i].0@ && is_typed_field(
                    values@[i].1,
                    fields@[i].1,
                    udt_type.field_type(i),
                ),
    {
        assert(decreases_to!(fields => fields@[it.index() as int]));
        let (name, val_opt) = field;
        let udt_field_type_opt = udt_type.get_field_by_index(values.len());
        let value = match (val_opt, udt_field_type_opt) {
            (Some(val), Some(udt_field_type)) => Some(
                CassValue {
                    value_type: udt_field_type.clone(),
                    value: Some(get_column_value(val, udt_field_type)),
                },
            ),
            _ => None,
        };
        values.push((name, value));
    }
    values
}

/// Types the items of a tuple.
fn typed_tuple(
    items: Vec<Option<CqlValue>>,
    types: &Vec<CassDataTypeArc>,
) -> (values: Vec<Option<CassValue>>)
    ensures
        values@.len() == items@.len(),
        forall|i: int|
            #![trigger values@[i]]
            0 <= i < items@.len() ==> is_typed_field(
                values@[i],
                items@[i],
                if i < types@.len() {
                    Some(types@[i])
                } else {
                    None
                },
            ),
    decreases items,
{
    let mut values: Vec<Option<CassValue>> = Vec::new();
    for item in it: items.into_iter()
        invariant
            it.seq() == items@,
            values@.len() == it.index(),
            forall|i: int|
                #![trigger values@[i]]
                0 <= i < values@.len() ==> is_typed_field(
                    values@[i],
                    items@[i],
                    if i < types@.len() {
                        Some(types@[i])
                    } else {
                        None
                    },
                ),
    {
        assert(decreases_to!(items => items@[it.index() as int]));
        let index: usize = values.len();
        let value = match item {
            Some(val) if index < types.len() => {
                let tuple_field_type = &types[index];
                Some(
                    CassValue {
                        value_type: tuple_field_type.clone(),
                        value: Some(get_column_value(val, tuple_field_type)),
                    },
                )
            },
            _ => None,
        };
        values.push(value);
    }
    values
}

/// Returns a value of the server as a client sees it under the given data type.
pub fn get_column_value(column: CqlValue, column_type: &CassDataTypeArc) -> (value: Value)
    ensures
        value.model() == column_value(column.model(), column_type.model()),
    decreases column,
{
    let ghost expected = column_value(column.model(), column_type.model());
    match (column, &**column_type) {
        (CqlValue::List(list), CassDataType::List(Some(list_type))) => {
            let items = typed_items(list, list_type);
            let value = Value::CollectionValue(Collection::List(items));
            assert(value.model()->List_0 =~= expected->List_0);
            value
        },
        (CqlValue::MapOf(map), CassDataType::MapOf(Some(key_type), Some(value_type))) => {
            let entries = typed_entries(map, key_type, value_type);
            let value = Value::CollectionValue(Collection::MapOf(entries));
            assert(value.model()->MapOf_0 =~= expected->MapOf_0);
            value
        },
        (CqlValue::SetOf(set), CassDataType::SetOf(Some(set_type))) => {
            let items = typed_items(set, set_type);
            let value = Value::CollectionValue(Collection::SetOf(items));
            assert(value.model()->SetOf_0 =~= expected->SetOf_0);
            value
        },
        (
            CqlValue::UserDefinedType { keyspace, name, fields },
            CassDataType::UDT(udt_type),
        ) => {
            let fields = typed_fields(fields, udt_type);
            let value = Value::CollectionValue(
                Collection::UserDefinedType { keyspace, name, fields },
            );
            assert(value.model()->UDT_fields =~= expected->UDT_fields);
            value
        },
        (CqlValue::Tuple(tuple), CassDataType::Tuple(tuple_types)) => {
            let items = typed_tuple(tuple, tuple_types);
            let value = Value::CollectionValue(Collection::Tuple(items));
            assert(value.model()->Tuple_0 =~= expected->Tuple_0);
            value
        },
        (regular_value, _) => Value::RegularValue(regular_value),
    }
}

/// The columns of a row as a client sees them: as many as have both a value, null or not, and
/// a specification, each under the data type of its specification.
pub open spec fn row_columns(row: Row, col_specs: Seq<ColumnSpec>) -> Seq<CassValueView> {
    Seq::new(
        if row.columns@.len() <= col_specs.len() {
            row.columns@.len()
        } else {
            col_specs.len()
        },
        |i: int|
            {
                let value_type = type_of_column(col_specs[i].typ.model());
                CassValueView {
                    value: match row.columns@[i] {
                        Some(value) => Some(column_value(value.model(), value_type)),
                        None => None,
                    },
                    value_type,
                }
            },
    )
}

impl CassRow {
    /// The columns of the row, as mathematical values.
    pub open spec fn columns_model(&self) -> Seq<CassValueView> {
        Seq::new(self.columns@.len(), |i: int| self.columns@[i].model())
    }
}

/// Whether the rows are those that the server sent, one for one and in their order, each with
/// its columns typed by the metadata and with the metadata at hand.
pub open spec fn are_cass_rows(
    cass_rows: Option<Vec<CassRow>>,
    rows: Option<Vec<Row>>,
    metadata: Arc<CassResultData>,
) -> bool {
    match (rows, cass_rows) {
        (None, None) => true,
        (Some(rows), Some(cass_rows)) => {
            &&& cass_rows@.len() == rows@.len()
            &&& forall|i: int|
                #![trigger cass_rows@[i]]
                0 <= i < rows@.len() ==> cass_rows@[i].result_metadata == metadata
                    && cass_rows@[i].columns_model() == row_columns(
                    rows@[i],
                    metadata.col_specs@,
                )
        },
        _ => false,
    }
}

/// Returns the columns of a row as a client sees them.
pub fn create_cass_row_columns(row: Row, metadata: &Arc<CassResultData>) -> (columns: Vec<
    CassValue,
>)
    ensures
        Seq::new(columns@.len(), |i: int| columns@[i].model()) == row_columns(
            row,
            metadata.col_specs@,
        ),
{
    let ghost expected = row_columns(row, metadata.col_specs@);
    let mut values = row.columns;
    values.truncate(metadata.col_specs.len());
    let ghost values_seq = values@;
    let mut columns: Vec<CassValue> = Vec::new();
    for val in it: values.into_iter()
        invariant
            it.seq() == values_seq,
            values_seq.len() == expected.len(),
            values_seq.len() <= metadata.col_specs@.len(),
            values_seq.len() <= row.columns@.len(),
            expected == row_columns(row, metadata.col_specs@),
            forall|i: int| 0 <= i < values_seq.len() ==> values_seq[i] == row.columns@[i],
            columns@.len() == it.index(),
            forall|i: int|
                #![trigger columns@[i]]
                0 <= i < columns@.len() ==> columns@[i].model() == expected[i],
    {
        let col = &metadata.col_specs[columns.len()];
        let column_type = Arc::new(get_column_type(&col.typ));
        let value = match val {
            Some(col_val) => Some(get_column_value(col_val, &column_type)),
            None => None,
        };
        columns.push(CassValue { value, value_type: column_type });
    }
    columns
}

/// Returns the rows of a result as a client sees them.
pub fn create_cass_rows_from_rows(
    rows: Option<Vec<Row>>,
    metadata: &Arc<CassResultData>,
) -> (cass_rows: Option<Vec<CassRow>>)
    ensures
        are_cass_rows(cass_rows, rows, *metadata),
{
    match rows {
        None => None,
        Some(rows) => {
            let mut cass_rows: Vec<CassRow> = Vec::new();
            for r in it: rows.into_iter()
                invariant
                    it.seq() == rows@,
                    cass_rows@.len() == it.index(),
                    forall|i: int|
                        #![trigger cass_rows@[i]]
                        0 <= i < cass_rows@.len() ==> cass_rows@[i].result_metadata == *metadata
                            && cass_rows@[i].columns_model() == row_columns(
                            rows@[i],
                            metadata.col_specs@,
                        ),
            {
                let columns = create_cass_row_columns(r, metadata);
                cass_rows.push(CassRow { columns, result_metadata: metadata.clone() });
            }
            Some(cass_rows)
        },
    }
}

} // verus!
