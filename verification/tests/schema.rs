use scylla_session::cass_types::{CassDataType, CassValueType, CqlType, NativeType};
use scylla_session::schema::{
    cass_column_meta_data_type, cass_column_meta_name, cass_column_meta_type,
    cass_keyspace_meta_name, cass_keyspace_meta_table_by_name,
    cass_keyspace_meta_table_by_name_n, cass_keyspace_meta_user_type_by_name,
    cass_keyspace_meta_user_type_by_name_n, cass_schema_meta_keyspace_by_name,
    cass_schema_meta_keyspace_by_name_n, cass_session_get_schema_meta,
    cass_table_meta_clustering_key, cass_table_meta_clustering_key_count,
    cass_table_meta_column_by_name, cass_table_meta_column_by_name_n,
    cass_table_meta_column_count, cass_table_meta_name, cass_table_meta_partition_key,
    cass_table_meta_partition_key_count, CassColumnType, CassSchemaMeta, Column, ColumnKind,
    Keyspace, Table,
};
use scylla_session::text::{ptr_to_cstr_n, strlen};
use scylla_session::udt::UserDefinedTypes;

fn column(name: &str, type_: CqlType, kind: ColumnKind) -> (String, Column) {
    (name.to_string(), Column { type_, kind })
}

fn keyspace() -> Keyspace {
    let address = vec![
        ("street".to_string(), CqlType::Native(NativeType::Text)),
        ("number".to_string(), CqlType::Native(NativeType::Int)),
    ];
    let users = Table {
        columns: vec![
            column("id", CqlType::Native(NativeType::Uuid), ColumnKind::PartitionKey),
            column("at", CqlType::Native(NativeType::Timestamp), ColumnKind::Clustering),
            column("note", CqlType::Native(NativeType::Text), ColumnKind::Static),
            column(
                "home",
                CqlType::UserDefinedType { frozen: true, name: "address".to_string() },
                ColumnKind::Regular,
            ),
        ],
        partition_key: vec!["id".to_string(), "gone".to_string()],
        clustering_key: vec!["at".to_string()],
    };
    let empty = Table { columns: vec![], partition_key: vec![], clustering_key: vec![] };
    Keyspace {
        tables: vec![("users".to_string(), users), ("empty".to_string(), empty)],
        user_defined_types: UserDefinedTypes::from_entries(vec![(
            "address".to_string(),
            address,
        )]),
    }
}

fn schema() -> CassSchemaMeta {
    let other = Keyspace {
        tables: vec![],
        user_defined_types: UserDefinedTypes::from_entries(vec![]),
    };
    let keyspaces = vec![("ks".to_string(), keyspace()), ("gr\u{fc}n".to_string(), other)];
    assert!(keyspaces.iter().all(|(_, keyspace)| keyspace.user_defined_types.is_acyclic()));
    cass_session_get_schema_meta(&keyspaces)
}

#[test]
fn keyspaces_are_found_by_name() {
    let schema = schema();
    let found = cass_schema_meta_keyspace_by_name(&schema, Some(b"ks\0rest")).unwrap();
    assert_eq!(cass_keyspace_meta_name(found), "ks");
    let found = cass_schema_meta_keyspace_by_name_n(&schema, Some(b"ks\0rest"), 2).unwrap();
    assert_eq!(cass_keyspace_meta_name(found), "ks");
    let name = "gr\u{fc}n".as_bytes();
    let found = cass_schema_meta_keyspace_by_name_n(&schema, Some(name), name.len()).unwrap();
    assert_eq!(cass_keyspace_meta_name(found), "gr\u{fc}n");
    assert!(cass_schema_meta_keyspace_by_name_n(&schema, Some(b"ks\0rest"), 1).is_none());
    assert!(cass_schema_meta_keyspace_by_name(&schema, Some(b"nothing\0")).is_none());
    assert!(cass_schema_meta_keyspace_by_name(&schema, None).is_none());
    assert!(cass_schema_meta_keyspace_by_name_n(&schema, None, 5).is_none());
}

#[test]
fn user_types_are_found_by_name() {
    let schema = schema();
    let ks = cass_schema_meta_keyspace_by_name(&schema, Some(b"ks\0")).unwrap();
    let udt = cass_keyspace_meta_user_type_by_name(ks, Some(b"address\0")).unwrap();
    let again = cass_keyspace_meta_user_type_by_name_n(ks, Some(b"addresses"), 7).unwrap();
    assert_eq!(udt, again);
    match &*udt {
        CassDataType::UDT(udt) => {
            assert_eq!(udt.name, "address");
            assert_eq!(udt.keyspace, "ks");
            assert_eq!(udt.field_types.len(), 2);
            assert_eq!(udt.field_types[1].0, "number");
            assert_eq!(
                *udt.field_types[1].1,
                CassDataType::Value(CassValueType::CASS_VALUE_TYPE_INT)
            );
        }
        other => panic!("{:?}", other),
    }
    assert!(cass_keyspace_meta_user_type_by_name(ks, Some(b"users\0")).is_none());
    assert!(cass_keyspace_meta_user_type_by_name(ks, None).is_none());
    assert!(cass_keyspace_meta_user_type_by_name_n(ks, None, 0).is_none());
}

#[test]
fn tables_are_found_by_name() {
    let schema = schema();
    let ks = cass_schema_meta_keyspace_by_name(&schema, Some(b"ks\0")).unwrap();
    let users = cass_keyspace_meta_table_by_name(ks, Some(b"users\0")).unwrap();
    assert_eq!(cass_table_meta_name(users), "users");
    assert_eq!(cass_table_meta_column_count(users), 4);
    let empty = cass_keyspace_meta_table_by_name_n(ks, Some(b"empty"), 5).unwrap();
    assert_eq!(cass_table_meta_name(empty), "empty");
    assert_eq!(cass_table_meta_column_count(empty), 0);
    assert!(cass_keyspace_meta_table_by_name(ks, Some(b"address\0")).is_none());
    assert!(cass_keyspace_meta_table_by_name(ks, None).is_none());
    assert!(cass_keyspace_meta_table_by_name_n(ks, None, 3).is_none());
}

#[test]
fn keys_give_their_columns_in_order() {
    let schema = schema();
    let ks = cass_schema_meta_keyspace_by_name(&schema, Some(b"ks\0")).unwrap();
    let users = cass_keyspace_meta_table_by_name(ks, Some(b"users\0")).unwrap();
    assert_eq!(cass_table_meta_partition_key_count(users), 2);
    assert_eq!(cass_table_meta_clustering_key_count(users), 1);
    let id = cass_table_meta_partition_key(users, 0).unwrap();
    assert_eq!(cass_column_meta_name(id), "id");
    // The key names a column that the table does not have.
    assert!(cass_table_meta_partition_key(users, 1).is_none());
    assert!(cass_table_meta_partition_key(users, 2).is_none());
    let at = cass_table_meta_clustering_key(users, 0).unwrap();
    assert_eq!(cass_column_meta_name(at), "at");
    assert!(cass_table_meta_clustering_key(users, 1).is_none());
}

#[test]
fn columns_are_found_by_name() {
    let schema = schema();
    let ks = cass_schema_meta_keyspace_by_name(&schema, Some(b"ks\0")).unwrap();
    let users = cass_keyspace_meta_table_by_name(ks, Some(b"users\0")).unwrap();
    let kinds = [
        ("id\0", CassColumnType::CASS_COLUMN_TYPE_PARTITION_KEY),
        ("at\0", CassColumnType::CASS_COLUMN_TYPE_CLUSTERING_KEY),
        ("note\0", CassColumnType::CASS_COLUMN_TYPE_STATIC),
        ("home\0", CassColumnType::CASS_COLUMN_TYPE_REGULAR),
    ];
    for (name, kind) in kinds {
        let column = cass_table_meta_column_by_name(users, Some(name.as_bytes())).unwrap();
        assert_eq!(cass_column_meta_name(column), name.trim_end_matches('\0'));
        assert_eq!(cass_column_meta_type(column), kind);
    }
    let note = cass_table_meta_column_by_name_n(users, Some(b"notes"), 4).unwrap();
    assert_eq!(
        *cass_column_meta_data_type(note),
        CassDataType::Value(CassValueType::CASS_VALUE_TYPE_TEXT)
    );
    let home = cass_table_meta_column_by_name_n(users, Some(b"home"), 4).unwrap();
    let udt = cass_keyspace_meta_user_type_by_name(ks, Some(b"address\0")).unwrap();
    assert_eq!(*cass_column_meta_data_type(home), *udt);
    assert!(cass_table_meta_column_by_name_n(users, Some(b"homes"), 5).is_none());
    assert!(cass_table_meta_column_by_name(users, None).is_none());
    assert!(cass_table_meta_column_by_name_n(users, None, 0).is_none());
}

#[test]
fn later_keyspace_of_the_same_name_counts() {
    let other = Keyspace {
        tables: vec![],
        user_defined_types: UserDefinedTypes::from_entries(vec![]),
    };
    let schema =
        cass_session_get_schema_meta(&vec![("ks".to_string(), keyspace()), ("ks".to_string(), other)]);
    let ks = cass_schema_meta_keyspace_by_name(&schema, Some(b"ks\0")).unwrap();
    assert!(cass_keyspace_meta_table_by_name(ks, Some(b"users\0")).is_none());
}

#[test]
fn text_ends_at_the_first_zero() {
    assert_eq!(strlen(Some(b"ab\0cd\0")), 2);
    assert_eq!(strlen(Some(b"\0")), 0);
    assert_eq!(strlen(None), 0);
}

#[test]
fn text_is_read_as_utf8() {
    let name = "gr\u{fc}n\u{1f600}".as_bytes();
    assert_eq!(ptr_to_cstr_n(Some(name), name.len()), Some("gr\u{fc}n\u{1f600}"));
    assert_eq!(ptr_to_cstr_n(Some(name), 2), Some("gr"));
    assert_eq!(ptr_to_cstr_n(Some(name), 3), None);
    assert_eq!(ptr_to_cstr_n(Some(b""), 0), Some(""));
    assert_eq!(ptr_to_cstr_n(Some(&[0xff]), 1), None);
    assert_eq!(ptr_to_cstr_n(None, 4), None);
}
