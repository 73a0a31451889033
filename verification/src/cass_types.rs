//! Data types: how the types that the server reports become the data types
//! that a client of the session sees.

use std::sync::Arc;
use vstd::prelude::*;

verus! {

/// A data type that other values can share.
pub type CassDataTypeArc = Arc<CassDataType>;

/// The simple types of CQL, as the server names them.
#[derive(Clone, Copy, Debug, PartialEq, Eq, Structural)]
pub enum NativeType {
    Ascii,
    Boolean,
    Blob,
    Counter,
    Date,
    Decimal,
    Double,
    Duration,
    Float,
    Int,
    BigInt,
    Text,
    Timestamp,
    Inet,
    SmallInt,
    TinyInt,
    Time,
    Timeuuid,
    Uuid,
    Varint,
}

/// The simple types of CQL, as a client names them.
#[allow(non_camel_case_types)]
#[derive(Clone, Copy, Debug, PartialEq, Eq, Structural)]
pub enum CassValueType {
    CASS_VALUE_TYPE_ASCII,
    CASS_VALUE_TYPE_BIGINT,
    CASS_VALUE_TYPE_BLOB,
    CASS_VALUE_TYPE_BOOLEAN,
    CASS_VALUE_TYPE_COUNTER,
    CASS_VALUE_TYPE_DECIMAL,
    CASS_VALUE_TYPE_DOUBLE,
    CASS_VALUE_TYPE_FLOAT,
    CASS_VALUE_TYPE_INT,
    CASS_VALUE_TYPE_TEXT,
    CASS_VALUE_TYPE_TIMESTAMP,
    CASS_VALUE_TYPE_UUID,
    CASS_VALUE_TYPE_VARINT,
    CASS_VALUE_TYPE_TIMEUUID,
    CASS_VALUE_TYPE_INET,
    CASS_VALUE_TYPE_DATE,
    CASS_VALUE_TYPE_TIME,
    CASS_VALUE_TYPE_SMALL_INT,
    CASS_VALUE_TYPE_TINY_INT,
    CASS_VALUE_TYPE_DURATION,
}

/// The type of a result column.
#[derive(Debug, PartialEq, Eq)]
pub enum ColumnType {
    Custom(String),
    Native(NativeType),
    List(Box<ColumnType>),
    MapOf(Box<ColumnType>, Box<ColumnType>),
    SetOf(Box<ColumnType>),
    UserDefinedType {
        name: String,
        keyspace: String,
        field_types: Vec<(String, ColumnType)>,
    },
    Tuple(Vec<ColumnType>),
}

/// A collection type in the schema.
#[derive(Debug, PartialEq, Eq)]
pub enum CollectionType {
    List(Box<CqlType>),
    MapOf(Box<CqlType>, Box<CqlType>),
    SetOf(Box<CqlType>),
}

/// The type of a table column, or of a field, in the schema. A user defined type is
/// referred to by its name.
#[derive(Debug, PartialEq, Eq)]
pub enum CqlType {
    Native(NativeType),
    Collection { frozen: bool, type_: CollectionType },
    Tuple(Vec<CqlType>),
    UserDefinedType { frozen: bool, name: String },
}

/// A user defined type with its fields in the order of their definition.
#[derive(Debug, PartialEq, Eq)]
pub struct UDTDataType {
    pub field_types: Vec<(String, CassDataTypeArc)>,
    pub keyspace: String,
    pub name: String,
}

/// A data type as a client sees it. The element types of a collection may be left open.
#[derive(Debug, PartialEq, Eq)]
pub enum CassDataType {
    Value(CassValueType),
    UDT(UDTDataType),
    List(Option<CassDataTypeArc>),
    SetOf(Option<CassDataTypeArc>),
    MapOf(Option<CassDataTypeArc>, Option<CassDataTypeArc>),
    Tuple(Vec<CassDataTypeArc>),
    Custom(String),
}

/// What a [`CassDataType`] says.
pub enum DataTypeView {
    Value(CassValueType),
    UDT { fields: Seq<(Seq<char>, DataTypeView)>, keyspace: Seq<char>, name: Seq<char> },
    List(Option<Box<DataTypeView>>),
    SetOf(Option<Box<DataTypeView>>),
    MapOf(Option<Box<DataTypeView>>, Option<Box<DataTypeView>>),
    Tuple(Seq<DataTypeView>),
    Custom(Seq<char>),
}

/// What a [`ColumnType`] says.
pub enum ColumnTypeView {
    Custom(Seq<char>),
    Native(NativeType),
    List(Box<ColumnTypeView>),
    MapOf(Box<ColumnTypeView>, Box<ColumnTypeView>),
    SetOf(Box<ColumnTypeView>),
    UDT { fields: Seq<(Seq<char>, ColumnTypeView)>, keyspace: Seq<char>, name: Seq<char> },
    Tuple(Seq<ColumnTypeView>),
}

/// What a [`CqlType`] says of the values of that type: whether it is frozen plays no part.
pub enum CqlTypeView {
    Native(NativeType),
    List(Box<CqlTypeView>),
    MapOf(Box<CqlTypeView>, Box<CqlTypeView>),
    SetOf(Box<CqlTypeView>),
    Tuple(Seq<CqlTypeView>),
    UDT(Seq<char>),
}

impl CassDataType {
    /// The mathematical value of the data type.
    pub open spec fn model(&self) -> DataTypeView
        decreases self,
    {
        match self {
            CassDataType::Value(value_type) => DataTypeView::Value(*value_type),
            CassDataType::UDT(udt) => DataTypeView::UDT {
                fields: Seq::new(
                    udt.field_types@.len(),
                    |i: int|
                        if 0 <= i < udt.field_types@.len() {
                            (udt.field_types@[i].0@, udt.field_types@[i].1.model())
                        } else {
                            arbitrary()
                        },
                ),
                keyspace: udt.keyspace@,
                name: udt.name@,
            },
            CassDataType::List(None) => DataTypeView::List(None),
            CassDataType::List(Some(element)) => DataTypeView::List(
                Some(Box::new(element.model())),
            ),
            CassDataType::SetOf(None) => DataTypeView::SetOf(None),
            CassDataType::SetOf(Some(element)) => DataTypeView::SetOf(
                Some(Box::new(element.model())),
            ),
            CassDataType::MapOf(key, value) => DataTypeView::MapOf(
                match key {
                    Some(key) => Some(Box::new(key.model())),
                    None => None,
                },
                match value {
                    Some(value) => Some(Box::new(value.model())),
                    None => None,
                },
            ),
            CassDataType::Tuple(types) => DataTypeView::Tuple(
                Seq::new(
                    types@.len(),
                    |i: int|
                        if 0 <= i < types@.len() {
                            types@[i].model()
                        } else {
                            arbitrary()
                        },
                ),
            ),
            CassDataType::Custom(name) => DataTypeView::Custom(name@),
        }
    }
}

impl ColumnType {
    /// The mathematical value of the column type.
    pub open spec fn model(&self) -> ColumnTypeView
        decreases self,
    {
        match self {
            ColumnType::Custom(name) => ColumnTypeView::Custom(name@),
            ColumnType::Native(native) => ColumnTypeView::Native(*native),
            ColumnType::List(element) => ColumnTypeView::List(Box::new(element.model())),
            ColumnType::MapOf(key, value) => ColumnTypeView::MapOf(
                Box::new(key.model()),
                Box::new(value.model()),
            ),
            ColumnType::SetOf(element) => ColumnTypeView::SetOf(Box::new(element.model())),
            ColumnType::UserDefinedType { name, keyspace, field_types } => {
                ColumnTypeView::UDT {
                    fields: Seq::new(
                        field_types@.len(),
                        |i: int|
                            if 0 <= i < field_types@.len() {
                                (field_types@[i].0@, field_types@[i].1.model())
                            } else {
                                arbitrary()
                            },
                    ),
                    keyspace: keyspace@,
                    name: name@,
                }
            },
            ColumnType::Tuple(types) => ColumnTypeView::Tuple(
                Seq::new(
                    types@.len(),
                    |i: int|
                        if 0 <= i < types@.len() {
                            types@[i].model()
                        } else {
                            arbitrary()
                        },
                ),
            ),
        }
    }
}

impl CqlType {
    /// The mathematical value of the type.
    pub open spec fn model(&self) -> CqlTypeView
        decreases self,
    {
        match self {
            CqlType::Native(native) => CqlTypeView::Native(*native),
            CqlType::Collection { frozen, type_ } => match type_ {
                CollectionType::List(element) => CqlTypeView::List(Box::new(element.model())),
                CollectionType::MapOf(key, value) => CqlTypeView::MapOf(
                    Box::new(key.model()),
                    Box::new(value.model()),
                ),
                CollectionType::SetOf(element) => CqlTypeView::SetOf(Box::new(element.model())),
            },
            CqlType::Tuple(types) => CqlTypeView::Tuple(
                Seq::new(
                    types@.len(),
                    |i: int|
                        if 0 <= i < types@.len() {
                            types@[i].model()
                        } else {
                            arbitrary()
                        },
                ),
            ),
            CqlType::UserDefinedType { frozen, name } => CqlTypeView::UDT(name@),
        }
    }
}

/// The name that a client has for a simple type of the server.
pub open spec fn value_type_of(native: NativeType) -> CassValueType {
    match native {
        NativeType::Ascii => CassValueType::CASS_VALUE_TYPE_ASCII,
        NativeType::Boolean => CassValueType::CASS_VALUE_TYPE_BOOLEAN,
        NativeType::Blob => CassValueType::CASS_VALUE_TYPE_BLOB,
        NativeType::Counter => CassValueType::CASS_VALUE_TYPE_COUNTER,
        NativeType::Date => CassValueType::CASS_VALUE_TYPE_DATE,
        NativeType::Decimal => CassValueType::CASS_VALUE_TYPE_DECIMAL,
        NativeType::Double => CassValueType::CASS_VALUE_TYPE_DOUBLE,
        NativeType::Duration => CassValueType::CASS_VALUE_TYPE_DURATION,
        NativeType::Float => CassValueType::CASS_VALUE_TYPE_FLOAT,
        NativeType::Int => CassValueType::CASS_VALUE_TYPE_INT,
        NativeType::BigInt => CassValueType::CASS_VALUE_TYPE_BIGINT,
        NativeType::Text => CassValueType::CASS_VALUE_TYPE_TEXT,
        NativeType::Timestamp => CassValueType::CASS_VALUE_TYPE_TIMESTAMP,
        NativeType::Inet => CassValueType::CASS_VALUE_TYPE_INET,
        NativeType::SmallInt => CassValueType::CASS_VALUE_TYPE_SMALL_INT,
        NativeType::TinyInt => CassValueType::CASS_VALUE_TYPE_TINY_INT,
        NativeType::Time => CassValueType::CASS_VALUE_TYPE_TIME,
        NativeType::Timeuuid => CassValueType::CASS_VALUE_TYPE_TIMEUUID,
        NativeType::Uuid => CassValueType::CASS_VALUE_TYPE_UUID,
        NativeType::Varint => CassValueType::CASS_VALUE_TYPE_VARINT,
    }
}

/// The data type of a result column of the given type: the same type, constructor by
/// constructor, with every element type filled in.
pub open spec fn type_of_column(column_type: ColumnTypeView) -> DataTypeView
    decreases column_type,
{
    match column_type {
        ColumnTypeView::Custom(name) => DataTypeView::Custom(name),
        ColumnTypeView::Native(native) => DataTypeView::Value(value_type_of(native)),
        ColumnTypeView::List(element) => DataTypeView::List(
            Some(Box::new(type_of_column(*element))),
        ),
        ColumnTypeView::MapOf(key, value) => DataTypeView::MapOf(
            Some(Box::new(type_of_column(*key))),
            Some(Box::new(type_of_column(*value))),
        ),
        ColumnTypeView::SetOf(element) => DataTypeView::SetOf(
            Some(Box::new(type_of_column(*element))),
        ),
        ColumnTypeView::UDT { fields, keyspace, name } => DataTypeView::UDT {
            fields: Seq::new(
                fields.len(),
                |i: int|
                    if 0 <= i < fields.len() {
                        (fields[i].0, type_of_column(fields[i].1))
                    } else {
                        arbitrary()
                    },
            ),
            keyspace,
            name,
        },
        ColumnTypeView::Tuple(types) => DataTypeView::Tuple(
            Seq::new(
                types.len(),
                |i: int|
                    if 0 <= i < types.len() {
                        type_of_column(types[i])
                    } else {
                        arbitrary()
                    },
            ),
        ),
    }
}

impl UDTDataType {
    /// The type of the field at the given place, where the user defined type has one.
    pub open spec fn field_type(&self, index: int) -> Option<CassDataTypeArc> {
        if 0 <= index < self.field_types@.len() {
            Some(self.field_types@[index].1)
        } else {
            None
        }
    }

    /// Returns the type of the field at the given place, where the user defined type has one.
    pub fn get_field_by_index(&self, index: usize) -> (field_type: Option<&CassDataTypeArc>)
        ensures
            field_type == match self.field_type(index as int) {
                Some(data_type) => Some(&data_type),
                None => None,
            },
    {
        if index < self.field_types.len() {
            Some(&self.field_types[index].1)
        } else {
            None
        }
    }
}

/// Returns the name that a client has for a simple type of the server.
pub fn native_value_type(native: &NativeType) -> (value_type: CassValueType)
    ensures
        value_type == value_type_of(*native),
{
    match native {
        NativeType::Ascii => CassValueType::CASS_VALUE_TYPE_ASCII,
        NativeType::Boolean => CassValueType::CASS_VALUE_TYPE_BOOLEAN,
        NativeType::Blob => CassValueType::CASS_VALUE_TYPE_BLOB,
        NativeType::Counter => CassValueType::CASS_VALUE_TYPE_COUNTER,
        NativeType::Date => CassValueType::CASS_VALUE_TYPE_DATE,
        NativeType::Decimal => CassValueType::CASS_VALUE_TYPE_DECIMAL,
        NativeType::Double => CassValueType::CASS_VALUE_TYPE_DOUBLE,
        NativeType::Duration => CassValueType::CASS_VALUE_TYPE_DURATION,
        NativeType::Float => CassValueType::CASS_VALUE_TYPE_FLOAT,
        NativeType::Int => CassValueType::CASS_VALUE_TYPE_INT,
        NativeType::BigInt => CassValueType::CASS_VALUE_TYPE_BIGINT,
        NativeType::Text => CassValueType::CASS_VALUE_TYPE_TEXT,
        NativeType::Timestamp => CassValueType::CASS_VALUE_TYPE_TIMESTAMP,
        NativeType::Inet => CassValueType::CASS_VALUE_TYPE_INET,
        NativeType::SmallInt => CassValueType::CASS_VALUE_TYPE_SMALL_INT,
        NativeType::TinyInt => CassValueType::CASS_VALUE_TYPE_TINY_INT,
        NativeType::Time => CassValueType::CASS_VALUE_TYPE_TIME,
        NativeType::Timeuuid => CassValueType::CASS_VALUE_TYPE_TIMEUUID,
        NativeType::Uuid => CassValueType::CASS_VALUE_TYPE_UUID,
        NativeType::Varint => CassValueType::CASS_VALUE_TYPE_VARINT,
    }
}

/// Returns the data type of a result column.
pub fn get_column_type(column_type: &ColumnType) -> (data_type: CassDataType)
    ensures
        data_type.model() == type_of_column(column_type.model()),
    decreases column_type,
{
    match column_type {
        ColumnType::Custom(name) => CassDataType::Custom(name.clone()),
        ColumnType::Native(native) => CassDataType::Value(native_value_type(native)),
        ColumnType::List(element) => CassDataType::List(Some(Arc::new(get_column_type(element)))),
        ColumnType::MapOf(key, value) => CassDataType::MapOf(
            Some(Arc::new(get_column_type(key))),
            Some(Arc::new(get_column_type(value))),
        ),
        ColumnType::SetOf(element) => CassDataType::SetOf(Some(Arc::new(get_column_type(element)))),
        ColumnType::UserDefinedType { name, keyspace, field_types: columns } => {
            let mut field_types: Vec<(String, CassDataTypeArc)> = Vec::new();
            for i in 0..columns.len()
                invariant
                    field_types@.len() == i,
                    column_type is UserDefinedType,
                    columns == column_type->field_types,
                    forall|j: int|
                        #![trigger field_types@[j]]
                        0 <= j < i ==> field_types@[j].0@ == columns@[j].0@
                            && field_types@[j].1.model() == type_of_column(
                            columns@[j].1.model(),
                        ),
            {
                let field = &columns[i];
                field_types.push((field.0.clone(), Arc::new(get_column_type(&field.1))));
            }
            let udt = UDTDataType {
                field_types,
                keyspace: keyspace.clone(),
                name: name.clone(),
            };
            let data_type = CassDataType::UDT(udt);
            proof {
                let expected = type_of_column(column_type.model());
                assert(data_type.model()->UDT_fields =~= expected->UDT_fields);
            }
            data_type
        },
        ColumnType::Tuple(columns) => {
            let mut types: Vec<CassDataTypeArc> = Vec::new();
            for i in 0..columns.len()
                invariant
                    types@.len() == i,
                    column_type is Tuple,
                    columns == column_type->Tuple_0,
                    forall|j: int|
                        #![trigger types@[j]]
                        0 <= j < i ==> types@[j].model() == type_of_column(columns@[j].model()),
            {
                types.push(Arc::new(get_column_type(&columns[i])));
            }
            let data_type = CassDataType::Tuple(types);
            proof {
                let expected = type_of_column(column_type.model());
                assert(data_type.model()->Tuple_0 =~= expected->Tuple_0);
            }
            data_type
        },
    }
}

} // verus!
