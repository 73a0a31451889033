use scylla_session::cass_types::{
    CassDataType, CassValueType, ColumnType, NativeType, UDTDataType,
};
use scylla_session::query_result::{
    create_cass_row_columns, create_cass_rows_from_rows, get_column_value, CassResultData,
    CassValue, Collection, ColumnSpec, CqlValue, Row, TableSpec, Value,
};
use std::sync::Arc;

fn int_type() -> Arc<CassDataType> {
    Arc::new(CassDataType::Value(CassValueType::CASS_VALUE_TYPE_INT))
}

fn text_type() -> Arc<CassDataType> {
    Arc::new(CassDataType::Value(CassValueType::CASS_VALUE_TYPE_TEXT))
}

fn text(value: &str) -> CqlValue {
    CqlValue::Text(value.to_string())
}

fn regular(value: CqlValue, value_type: &Arc<CassDataType>) -> CassValue {
    CassValue { value: Some(Value::RegularValue(value)), value_type: value_type.clone() }
}

fn spec(name: &str, typ: ColumnType) -> ColumnSpec {
    ColumnSpec {
        table_spec: TableSpec { ks_name: "ks".to_string(), table_name: "t".to_string() },
        name: name.to_string(),
        typ,
    }
}

fn metadata(col_specs: Vec<ColumnSpec>) -> Arc<CassResultData> {
    Arc::new(CassResultData { paging_state: Some(vec![7, 8]), col_specs, tracing_id: Some(9) })
}

#[test]
fn scalar_is_regular() {
    let value = get_column_value(CqlValue::Int(5), &int_type());
    assert_eq!(value, Value::RegularValue(CqlValue::Int(5)));
}

#[test]
fn every_scalar_is_kept_as_it_is() {
    let scalars = || {
        vec![
            CqlValue::Ascii("a".to_string()),
            CqlValue::Boolean(true),
            CqlValue::Blob(vec![1, 2]),
            CqlValue::Counter(-3),
            CqlValue::Decimal { unscaled: vec![1], scale: 2 },
            CqlValue::Date(1 << 31),
            CqlValue::Double(1.5f64.to_bits()),
            CqlValue::Duration { months: 1, days: 2, nanoseconds: 3 },
            CqlValue::Empty,
            CqlValue::Float(1.5f32.to_bits()),
            CqlValue::Int(-1),
            CqlValue::BigInt(i64::MIN),
            text("x"),
            CqlValue::Timestamp(1),
            CqlValue::Inet(vec![127, 0, 0, 1]),
            CqlValue::SmallInt(-2),
            CqlValue::TinyInt(-4),
            CqlValue::Time(5),
            CqlValue::Timeuuid(6),
            CqlValue::Uuid(7),
            CqlValue::Varint(vec![0xff]),
        ]
    };
    for (value, expected) in scalars().into_iter().zip(scalars()) {
        let list = Arc::new(CassDataType::List(Some(int_type())));
        assert_eq!(get_column_value(value, &list), Value::RegularValue(expected));
    }
}

#[test]
fn list_items_carry_the_element_type() {
    let list_type = Arc::new(CassDataType::List(Some(int_type())));
    let value =
        get_column_value(CqlValue::List(vec![CqlValue::Int(1), CqlValue::Int(2)]), &list_type);
    assert_eq!(
        value,
        Value::CollectionValue(Collection::List(vec![
            regular(CqlValue::Int(1), &int_type()),
            regular(CqlValue::Int(2), &int_type()),
        ]))
    );
}

#[test]
fn empty_list_is_a_collection() {
    let list_type = Arc::new(CassDataType::List(Some(int_type())));
    let value = get_column_value(CqlValue::List(vec![]), &list_type);
    assert_eq!(value, Value::CollectionValue(Collection::List(vec![])));
}

#[test]
fn set_items_carry_the_element_type() {
    let set_type = Arc::new(CassDataType::SetOf(Some(text_type())));
    let value = get_column_value(CqlValue::SetOf(vec![text("b"), text("a")]), &set_type);
    assert_eq!(
        value,
        Value::CollectionValue(Collection::SetOf(vec![
            regular(text("b"), &text_type()),
            regular(text("a"), &text_type()),
        ]))
    );
}

#[test]
fn map_entries_carry_both_types() {
    let map_type = Arc::new(CassDataType::MapOf(Some(text_type()), Some(int_type())));
    let value = get_column_value(CqlValue::MapOf(vec![(text("k"), CqlValue::Int(1))]), &map_type);
    assert_eq!(
        value,
        Value::CollectionValue(Collection::MapOf(vec![(
            regular(text("k"), &text_type()),
            regular(CqlValue::Int(1), &int_type()),
        )]))
    );
}

#[test]
fn collection_without_element_type_is_regular() {
    let list = || CqlValue::List(vec![CqlValue::Int(1)]);
    let value = get_column_value(list(), &Arc::new(CassDataType::List(None)));
    assert_eq!(value, Value::RegularValue(list()));

    let set = || CqlValue::SetOf(vec![CqlValue::Int(1)]);
    let value = get_column_value(set(), &Arc::new(CassDataType::SetOf(None)));
    assert_eq!(value, Value::RegularValue(set()));

    let map = || CqlValue::MapOf(vec![(CqlValue::Int(1), CqlValue::Int(2))]);
    for map_type in [
        CassDataType::MapOf(None, None),
        CassDataType::MapOf(Some(int_type()), None),
        CassDataType::MapOf(None, Some(int_type())),
    ] {
        let value = get_column_value(map(), &Arc::new(map_type));
        assert_eq!(value, Value::RegularValue(map()));
    }
}

#[test]
fn collection_under_another_type_is_regular() {
    let list = || CqlValue::List(vec![CqlValue::Int(1)]);
    let value = get_column_value(list(), &Arc::new(CassDataType::SetOf(Some(int_type()))));
    assert_eq!(value, Value::RegularValue(list()));
    let value = get_column_value(list(), &int_type());
    assert_eq!(value, Value::RegularValue(list()));

    let tuple = || CqlValue::Tuple(vec![Some(CqlValue::Int(1))]);
    let value = get_column_value(tuple(), &Arc::new(CassDataType::List(Some(int_type()))));
    assert_eq!(value, Value::RegularValue(tuple()));
}

#[test]
fn nested_collections_are_typed_at_every_depth() {
    let inner = Arc::new(CassDataType::List(Some(int_type())));
    let outer = Arc::new(CassDataType::List(Some(inner.clone())));
    let value = get_column_value(
        CqlValue::List(vec![CqlValue::List(vec![CqlValue::Int(1)]), CqlValue::List(vec![])]),
        &outer,
    );
    assert_eq!(
        value,
        Value::CollectionValue(Collection::List(vec![
            CassValue {
                value: Some(Value::CollectionValue(Collection::List(vec![regular(
                    CqlValue::Int(1),
                    &int_type()
                )]))),
                value_type: inner.clone(),
            },
            CassValue {
                value: Some(Value::CollectionValue(Collection::List(vec![]))),
                value_type: inner.clone(),
            },
        ]))
    );
}

fn udt_type() -> Arc<CassDataType> {
    Arc::new(CassDataType::UDT(UDTDataType {
        field_types: vec![("a".to_string(), int_type()), ("b".to_string(), text_type())],
        keyspace: "ks".to_string(),
        name: "u".to_string(),
    }))
}

#[test]
fn fields_are_typed_by_their_place() {
    let value = get_column_value(
        CqlValue::UserDefinedType {
            keyspace: "other".to_string(),
            name: "v".to_string(),
            fields: vec![
                ("x".to_string(), Some(CqlValue::Int(1))),
                ("y".to_string(), None),
                ("z".to_string(), Some(CqlValue::Int(3))),
            ],
        },
        &udt_type(),
    );
    assert_eq!(
        value,
        Value::CollectionValue(Collection::UserDefinedType {
            keyspace: "other".to_string(),
            name: "v".to_string(),
            fields: vec![
                ("x".to_string(), Some(regular(CqlValue::Int(1), &int_type()))),
                ("y".to_string(), None),
                ("z".to_string(), None),
            ],
        })
    );
}

#[test]
fn tuple_items_are_typed_by_their_place() {
    let tuple_type = Arc::new(CassDataType::Tuple(vec![int_type(), text_type()]));
    let value = get_column_value(
        CqlValue::Tuple(vec![None, Some(text("t")), Some(CqlValue::Int(3)), None]),
        &tuple_type,
    );
    assert_eq!(
        value,
        Value::CollectionValue(Collection::Tuple(vec![
            None,
            Some(regular(text("t"), &text_type())),
            None,
            None,
        ]))
    );
}

#[test]
fn columns_are_typed_by_their_specifications() {
    let metadata = metadata(vec![
        spec("id", ColumnType::Native(NativeType::Int)),
        spec("tags", ColumnType::List(Box::new(ColumnType::Native(NativeType::Text)))),
        spec("note", ColumnType::Native(NativeType::Text)),
    ]);
    let row = Row {
        columns: vec![
            Some(CqlValue::Int(1)),
            Some(CqlValue::List(vec![text("x")])),
            None,
        ],
    };
    let columns = create_cass_row_columns(row, &metadata);
    assert_eq!(
        columns,
        vec![
            regular(CqlValue::Int(1), &int_type()),
            CassValue {
                value: Some(Value::CollectionValue(Collection::List(vec![regular(
                    text("x"),
                    &text_type()
                )]))),
                value_type: Arc::new(CassDataType::List(Some(text_type()))),
            },
            CassValue { value: None, value_type: text_type() },
        ]
    );
}

#[test]
fn columns_end_with_the_shorter_side() {
    let one = metadata(vec![spec("id", ColumnType::Native(NativeType::Int))]);
    let row = Row { columns: vec![Some(CqlValue::Int(1)), Some(CqlValue::Int(2))] };
    assert_eq!(
        create_cass_row_columns(row, &one),
        vec![regular(CqlValue::Int(1), &int_type())]
    );

    let row = Row { columns: vec![] };
    assert_eq!(create_cass_row_columns(row, &one), vec![]);
}

#[test]
fn rows_keep_their_order_and_share_the_metadata() {
    let metadata = metadata(vec![spec("id", ColumnType::Native(NativeType::Int))]);
    let rows = vec![
        Row { columns: vec![Some(CqlValue::Int(2))] },
        Row { columns: vec![Some(CqlValue::Int(1))] },
    ];
    let cass_rows = create_cass_rows_from_rows(Some(rows), &metadata).unwrap();
    assert_eq!(cass_rows.len(), 2);
    assert_eq!(cass_rows[0].columns, vec![regular(CqlValue::Int(2), &int_type())]);
    assert_eq!(cass_rows[1].columns, vec![regular(CqlValue::Int(1), &int_type())]);
    for row in &cass_rows {
        assert!(Arc::ptr_eq(&row.result_metadata, &metadata));
    }
}

#[test]
fn no_rows_and_empty_rows_differ() {
    let metadata = metadata(vec![]);
    assert_eq!(create_cass_rows_from_rows(None, &metadata), None);
    assert_eq!(create_cass_rows_from_rows(Some(vec![]), &metadata), Some(vec![]));
}
