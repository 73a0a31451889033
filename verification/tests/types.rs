use scylla_session::cass_types::{
    get_column_type, native_value_type, CassDataType, CassValueType, CollectionType, ColumnType,
    CqlType, NativeType, UDTDataType,
};
use scylla_session::udt::{get_column_type_from_cql_type, UserDefinedTypes};
use std::sync::Arc;

fn native(native: NativeType) -> CqlType {
    CqlType::Native(native)
}

fn list(element: CqlType) -> CqlType {
    CqlType::Collection { frozen: false, type_: CollectionType::List(Box::new(element)) }
}

fn set(element: CqlType) -> CqlType {
    CqlType::Collection { frozen: true, type_: CollectionType::SetOf(Box::new(element)) }
}

fn map(key: CqlType, value: CqlType) -> CqlType {
    CqlType::Collection {
        frozen: false,
        type_: CollectionType::MapOf(Box::new(key), Box::new(value)),
    }
}

fn named(name: &str) -> CqlType {
    CqlType::UserDefinedType { frozen: true, name: name.to_string() }
}

fn definitions(entries: Vec<(&str, Vec<(&str, CqlType)>)>) -> UserDefinedTypes {
    UserDefinedTypes::from_entries(
        entries
            .into_iter()
            .map(|(name, fields)| {
                let fields = fields.into_iter().map(|(f, t)| (f.to_string(), t)).collect();
                (name.to_string(), fields)
            })
            .collect(),
    )
}

fn value(value_type: CassValueType) -> Arc<CassDataType> {
    Arc::new(CassDataType::Value(value_type))
}

#[test]
fn native_types_have_their_names() {
    let pairs = [
        (NativeType::Ascii, CassValueType::CASS_VALUE_TYPE_ASCII),
        (NativeType::Boolean, CassValueType::CASS_VALUE_TYPE_BOOLEAN),
        (NativeType::Blob, CassValueType::CASS_VALUE_TYPE_BLOB),
        (NativeType::Counter, CassValueType::CASS_VALUE_TYPE_COUNTER),
        (NativeType::Date, CassValueType::CASS_VALUE_TYPE_DATE),
        (NativeType::Decimal, CassValueType::CASS_VALUE_TYPE_DECIMAL),
        (NativeType::Double, CassValueType::CASS_VALUE_TYPE_DOUBLE),
        (NativeType::Duration, CassValueType::CASS_VALUE_TYPE_DURATION),
        (NativeType::Float, CassValueType::CASS_VALUE_TYPE_FLOAT),
        (NativeType::Int, CassValueType::CASS_VALUE_TYPE_INT),
        (NativeType::BigInt, CassValueType::CASS_VALUE_TYPE_BIGINT),
        (NativeType::Text, CassValueType::CASS_VALUE_TYPE_TEXT),
        (NativeType::Timestamp, CassValueType::CASS_VALUE_TYPE_TIMESTAMP),
        (NativeType::Inet, CassValueType::CASS_VALUE_TYPE_INET),
        (NativeType::SmallInt, CassValueType::CASS_VALUE_TYPE_SMALL_INT),
        (NativeType::TinyInt, CassValueType::CASS_VALUE_TYPE_TINY_INT),
        (NativeType::Time, CassValueType::CASS_VALUE_TYPE_TIME),
        (NativeType::Timeuuid, CassValueType::CASS_VALUE_TYPE_TIMEUUID),
        (NativeType::Uuid, CassValueType::CASS_VALUE_TYPE_UUID),
        (NativeType::Varint, CassValueType::CASS_VALUE_TYPE_VARINT),
    ];
    for (native, value_type) in pairs {
        assert_eq!(native_value_type(&native), value_type);
        assert_eq!(
            get_column_type(&ColumnType::Native(native)),
            CassDataType::Value(value_type)
        );
    }
}

#[test]
fn column_types_keep_their_structure() {
    let int = || ColumnType::Native(NativeType::Int);
    let text = || ColumnType::Native(NativeType::Text);
    let int_value = || value(CassValueType::CASS_VALUE_TYPE_INT);
    let text_value = || value(CassValueType::CASS_VALUE_TYPE_TEXT);
    assert_eq!(
        get_column_type(&ColumnType::Custom("c".to_string())),
        CassDataType::Custom("c".to_string())
    );
    assert_eq!(
        get_column_type(&ColumnType::List(Box::new(int()))),
        CassDataType::List(Some(int_value()))
    );
    assert_eq!(
        get_column_type(&ColumnType::SetOf(Box::new(text()))),
        CassDataType::SetOf(Some(text_value()))
    );
    assert_eq!(
        get_column_type(&ColumnType::MapOf(Box::new(text()), Box::new(int()))),
        CassDataType::MapOf(Some(text_value()), Some(int_value()))
    );
    assert_eq!(
        get_column_type(&ColumnType::Tuple(vec![int(), text()])),
        CassDataType::Tuple(vec![int_value(), text_value()])
    );
    assert_eq!(
        get_column_type(&ColumnType::UserDefinedType {
            name: "u".to_string(),
            keyspace: "ks".to_string(),
            field_types: vec![("a".to_string(), int()), ("b".to_string(), text())],
        }),
        CassDataType::UDT(UDTDataType {
            field_types: vec![
                ("a".to_string(), int_value()),
                ("b".to_string(), text_value()),
            ],
            keyspace: "ks".to_string(),
            name: "u".to_string(),
        })
    );
}

#[test]
fn field_is_found_by_its_place() {
    let udt = UDTDataType {
        field_types: vec![("a".to_string(), value(CassValueType::CASS_VALUE_TYPE_INT))],
        keyspace: "ks".to_string(),
        name: "u".to_string(),
    };
    assert_eq!(
        udt.get_field_by_index(0),
        Some(&value(CassValueType::CASS_VALUE_TYPE_INT))
    );
    assert_eq!(udt.get_field_by_index(1), None);
}

#[test]
fn table_column_types_are_resolved() {
    let types = definitions(vec![
        ("inner", vec![("n", native(NativeType::Int))]),
        ("outer", vec![("many", list(named("inner"))), ("t", native(NativeType::Text))]),
    ]);
    assert!(types.is_acyclic());
    let inner = || {
        Arc::new(CassDataType::UDT(UDTDataType {
            field_types: vec![("n".to_string(), value(CassValueType::CASS_VALUE_TYPE_INT))],
            keyspace: "ks".to_string(),
            name: "inner".to_string(),
        }))
    };
    let outer = || UDTDataType {
        field_types: vec![
            ("many".to_string(), Arc::new(CassDataType::List(Some(inner())))),
            ("t".to_string(), value(CassValueType::CASS_VALUE_TYPE_TEXT)),
        ],
        keyspace: "ks".to_string(),
        name: "outer".to_string(),
    };
    assert_eq!(UDTDataType::create_with_params(&types, "ks", "outer"), outer());
    assert_eq!(
        get_column_type_from_cql_type(&map(named("inner"), named("outer")), &types, "ks"),
        CassDataType::MapOf(Some(inner()), Some(Arc::new(CassDataType::UDT(outer()))))
    );
    assert_eq!(
        get_column_type_from_cql_type(
            &CqlType::Tuple(vec![native(NativeType::Int), set(named("inner"))]),
            &types,
            "ks"
        ),
        CassDataType::Tuple(vec![
            value(CassValueType::CASS_VALUE_TYPE_INT),
            Arc::new(CassDataType::SetOf(Some(inner()))),
        ])
    );
}

#[test]
fn undefined_type_has_no_fields() {
    let types = definitions(vec![("a", vec![("x", named("missing"))])]);
    assert!(types.is_acyclic());
    let missing = || UDTDataType {
        field_types: vec![],
        keyspace: "ks".to_string(),
        name: "missing".to_string(),
    };
    assert_eq!(UDTDataType::create_with_params(&types, "ks", "missing"), missing());
    assert_eq!(
        UDTDataType::create_with_params(&types, "ks", "a"),
        UDTDataType {
            field_types: vec![("x".to_string(), Arc::new(CassDataType::UDT(missing())))],
            keyspace: "ks".to_string(),
            name: "a".to_string(),
        }
    );
}

#[test]
fn cycles_are_told_from_shared_parts() {
    assert!(definitions(vec![]).is_acyclic());
    let shared = definitions(vec![
        ("top", vec![("l", named("left")), ("r", named("right"))]),
        ("left", vec![("b", named("base"))]),
        ("right", vec![("b", set(named("base")))]),
        ("base", vec![("n", native(NativeType::Int))]),
    ]);
    assert!(shared.is_acyclic());

    assert!(!definitions(vec![("a", vec![("x", named("a"))])]).is_acyclic());
    assert!(!definitions(vec![
        ("ok", vec![("n", native(NativeType::Int))]),
        ("a", vec![("x", list(named("b")))]),
        ("b", vec![("x", map(native(NativeType::Int), CqlType::Tuple(vec![named("a")])))]),
    ])
    .is_acyclic());
}

#[test]
fn each_name_is_defined_once() {
    let types = definitions(vec![
        ("a", vec![("x", native(NativeType::Int))]),
        ("b", vec![]),
        ("a", vec![("y", native(NativeType::Text)), ("z", native(NativeType::Int))]),
    ]);
    let mut names = types.keys().to_vec();
    names.sort();
    assert_eq!(names, vec!["a".to_string(), "b".to_string()]);
    let fields: Vec<&String> = types.get("a").unwrap().iter().map(|field| &field.0).collect();
    assert_eq!(fields, vec!["y", "z"]);
    assert!(types.get("c").is_none());
}
