//! User defined types of a keyspace, and the data types of the columns that refer to them.

use crate::cass_types::{
    native_value_type, CassDataType, CassDataTypeArc, CollectionType, CqlType, UDTDataType,
};
use std::sync::Arc;
use vstd::hash_map::StringHashMap;
use vstd::prelude::*;

#[allow(unused_imports)]
use crate::cass_types::{value_type_of, CqlTypeView, DataTypeView};

verus! {

/// The fields of each user defined type, by the name of the type.
pub type Definitions = Map<Seq<char>, Seq<(Seq<char>, CqlTypeView)>>;

/// The map that holds the entries; of two entries under one name the later one counts.
pub open spec fn entries_map<V>(entries: Seq<(Seq<char>, V)>) -> Map<Seq<char>, V>
    decreases entries.len(),
{
    if entries.len() == 0 {
        Map::empty()
    } else {
        entries_map(entries.drop_last()).insert(entries.last().0, entries.last().1)
    }
}

/// The fields of a definition, as mathematical values.
pub open spec fn fields_model(fields: Seq<(String, CqlType)>) -> Seq<(Seq<char>, CqlTypeView)> {
    Seq::new(fields.len(), |i: int| (fields[i].0@, fields[i].1.model()))
}

/// The definitions of the user defined types of one keyspace. Each name occurs once.
pub struct UserDefinedTypes {
    names: Vec<String>,
    definitions: StringHashMap<Vec<(String, CqlType)>>,
}

impl View for UserDefinedTypes {
    type V = Definitions;

    closed spec fn view(&self) -> Definitions {
        self.definitions@.map_values(|fields: Vec<(String, CqlType)>| fields_model(fields@))
    }
}

impl UserDefinedTypes {
    /// The names are those of the definitions, each once.
    #[verifier::type_invariant]
    closed spec fn names_match(&self) -> bool {
        &&& self.definitions@.dom().finite()
        &&& forall|i: int, j: int|
            0 <= i < j < self.names@.len() ==> (#[trigger] self.names@[i])@ != (
            #[trigger] self.names@[j])@
        &&& forall|i: int|
            0 <= i < self.names@.len() ==> self.definitions@.contains_key(
                (#[trigger] self.names@[i])@,
            )
        &&& forall|name: Seq<char>| #[trigger]
            self.definitions@.contains_key(name) ==> exists|i: int|
                0 <= i < self.names@.len() && (#[trigger] self.names@[i])@ == name
    }

    /// Collects the definitions; of two under one name the later one counts.
    pub fn from_entries(entries: Vec<(String, Vec<(String, CqlType)>)>) -> (types: Self)
        ensures
            types@ == entries_map(
                Seq::new(
                    entries@.len(),
                    |i: int| (entries@[i].0@, fields_model(entries@[i].1@)),
                ),
            ),
            types@.dom().finite(),
    {
        let ghost model = Seq::new(
            entries@.len(),
            |i: int| (entries@[i].0@, fields_model(entries@[i].1@)),
        );
        let mut names: Vec<String> = Vec::new();
        let mut definitions: StringHashMap<Vec<(String, CqlType)>> = StringHashMap::new();
        assert(definitions@.map_values(|fields: Vec<(String, CqlType)>| fields_model(fields@))
            =~= entries_map(model.take(0)));
        for entry in it: entries.into_iter()
            invariant
                it.seq() == entries@,
                model == Seq::new(
                    entries@.len(),
                    |i: int| (entries@[i].0@, fields_model(entries@[i].1@)),
                ),
                definitions@.map_values(
                    |fields: Vec<(String, CqlType)>| fields_model(fields@),
                ) == entries_map(model.take(it.index() as int)),
                definitions@.dom().finite(),
                forall|i: int, j: int|
                    0 <= i < j < names@.len() ==> (#[trigger] names@[i])@ != (
                    #[trigger] names@[j])@,
                forall|i: int|
                    0 <= i < names@.len() ==> definitions@.contains_key((#[trigger] names@[i])@),
                forall|name: Seq<char>| #[trigger]
                    definitions@.contains_key(name) ==> exists|i: int|
                        0 <= i < names@.len() && (#[trigger] names@[i])@ == name,
        {
            let ghost before = definitions@;
            let ghost names_before = names@;
            let (name, fields) = entry;
            let ghost key = name@;
            if !definitions.contains_key(name.as_str()) {
                names.push(name.clone());
            }
            definitions.insert(name, fields);
            proof {
                let n = it.index() as int;
                assert(model.take(n + 1).drop_last() =~= model.take(n));
                assert(definitions@.map_values(
                    |fields: Vec<(String, CqlType)>| fields_model(fields@),
                ) =~= entries_map(model.take(n + 1)));
                assert forall|k: Seq<char>| #[trigger]
                    definitions@.contains_key(k) implies exists|i: int|
                    0 <= i < names@.len() && (#[trigger] names@[i])@ == k by {
                    if k == key && !before.contains_key(key) {
                        assert(names@[names@.len() - 1]@ == k);
                    } else {
                        assert(before.contains_key(k));
                        let i = choose|i: int|
                            0 <= i < names_before.len() && (#[trigger] names_before[i])@ == k;
                        assert(names@[i]@ == k);
                    }
                }
            }
        }
        assert(model.take(model.len() as int) =~= model);
        let types = UserDefinedTypes { names, definitions };
        assert(types@.dom() =~= types.definitions@.dom());
        types
    }

    /// Returns the names of the types.
    pub fn keys(&self) -> (names: &Vec<String>)
        ensures
            forall|i: int, j: int|
                0 <= i < j < names@.len() ==> (#[trigger] names@[i])@ != (#[trigger] names@[j])@,
            forall|i: int| 0 <= i < names@.len() ==> self@.contains_key((#[trigger] names@[i])@),
            forall|name: Seq<char>| #[trigger]
                self@.contains_key(name) ==> exists|i: int|
                    0 <= i < names@.len() && (#[trigger] names@[i])@ == name,
            self@.dom().finite(),
    {
        proof {
            use_type_invariant(self);
            assert(self@.dom() =~= self.definitions@.dom());
            assert forall|name: Seq<char>| #[trigger]
                self@.contains_key(name) implies exists|i: int|
                0 <= i < self.names@.len() && (#[trigger] self.names@[i])@ == name by {
                assert(self.definitions@.contains_key(name));
            }
        }
        &self.names
    }

    /// Returns the fields of the type with the given name, where it is defined.
    pub fn get(&self, name: &str) -> (fields: Option<&Vec<(String, CqlType)>>)
        ensures
            match fields {
                Some(fields) => self@.contains_key(name@) && fields_model(fields@) == self@[name@],
                None => !self@.contains_key(name@),
            },
            self@.dom().finite(),
    {
        proof {
            use_type_invariant(self);
            assert(self@.dom() =~= self.definitions@.dom());
        }
        self.definitions.get(name)
    }
}

/// The data type of a column or of a field whose type is the given one, in the keyspace that
/// holds the definitions. A user defined type has the fields of its definition, and none
/// where the name is not defined. A definition does not resolve names inside itself: a type
/// cannot hold itself.
pub open spec fn data_type_of(
    cql_type: CqlTypeView,
    definitions: Definitions,
    keyspace: Seq<char>,
) -> DataTypeView
    decreases definitions.dom().len(), cql_type,
    when definitions.dom().finite()
{
    match cql_type {
        CqlTypeView::Native(native) => DataTypeView::Value(value_type_of(native)),
        CqlTypeView::List(element) => DataTypeView::List(
            Some(Box::new(data_type_of(*element, definitions, keyspace))),
        ),
        CqlTypeView::MapOf(key, value) => DataTypeView::MapOf(
            Some(Box::new(data_type_of(*key, definitions, keyspace))),
            Some(Box::new(data_type_of(*value, definitions, keyspace))),
        ),
        CqlTypeView::SetOf(element) => DataTypeView::SetOf(
            Some(Box::new(data_type_of(*element, definitions, keyspace))),
        ),
        CqlTypeView::Tuple(types) => DataTypeView::Tuple(
            Seq::new(
                types.len(),
                |i: int|
                    if 0 <= i < types.len() {
                        data_type_of(types[i], definitions, keyspace)
                    } else {
                        arbitrary()
                    },
            ),
        ),
        CqlTypeView::UDT(name) => DataTypeView::UDT {
            fields: if definitions.contains_key(name) {
                Seq::new(
                    definitions[name].len(),
                    |i: int|
                        (
                            definitions[name][i].0,
                            data_type_of(
                                definitions[name][i].1,
                                definitions.remove(name),
                                keyspace,
                            ),
                        ),
                )
            } else {
                Seq::empty()
            },
            keyspace,
            name,
        },
    }
}

/// Whether every defined name that the type refers to ranks below the bound.
pub open spec fn refers_below(
    cql_type: CqlTypeView,
    definitions: Definitions,
    rank: spec_fn(Seq<char>) -> nat,
    bound: nat,
) -> bool
    decreases cql_type,
{
    match cql_type {
        CqlTypeView::Native(_) => true,
        CqlTypeView::List(element) => refers_below(*element, definitions, rank, bound),
        CqlTypeView::MapOf(key, value) => refers_below(*key, definitions, rank, bound)
            && refers_below(*value, definitions, rank, bound),
        CqlTypeView::SetOf(element) => refers_below(*element, definitions, rank, bound),
        CqlTypeView::Tuple(types) => forall|i: int|
            0 <= i < types.len() ==> refers_below(#[trigger] types[i], definitions, rank, bound),
        CqlTypeView::UDT(name) => definitions.contains_key(name) ==> rank(name) < bound,
    }
}

/// Whether the ranks order the definitions: each refers only to types that rank below it.
pub open spec fn ordered_by(definitions: Definitions, rank: spec_fn(Seq<char>) -> nat) -> bool {
    forall|name: Seq<char>, i: int|
        #![trigger definitions[name][i]]
        definitions.contains_key(name) && 0 <= i < definitions[name].len() ==> refers_below(
            definitions[name][i].1,
            definitions,
            rank,
            rank(name),
        )
}

/// Whether no type holds itself, directly or through other types.
pub open spec fn acyclic(definitions: Definitions) -> bool {
    exists|rank: spec_fn(Seq<char>) -> nat| #[trigger] ordered_by(definitions, rank)
}

/// A type that refers only below the bound resolves alike in any part of the definitions that
/// holds all of those below the bound.
proof fn lemma_resolves_alike(
    cql_type: CqlTypeView,
    part: Definitions,
    definitions: Definitions,
    keyspace: Seq<char>,
    rank: spec_fn(Seq<char>) -> nat,
    bound: nat,
)
    requires
        definitions.dom().finite(),
        part.dom().finite(),
        part.submap_of(definitions),
        ordered_by(definitions, rank),
        refers_below(cql_type, definitions, rank, bound),
        forall|name: Seq<char>| #[trigger]
            definitions.contains_key(name) && rank(name) < bound ==> part.contains_key(name),
    ensures
        data_type_of(cql_type, part, keyspace) == data_type_of(cql_type, definitions, keyspace),
    decreases bound, cql_type,
{
    match cql_type {
        CqlTypeView::Native(_) => {},
        CqlTypeView::List(element) => {
            lemma_resolves_alike(*element, part, definitions, keyspace, rank, bound);
        },
        CqlTypeView::MapOf(key, value) => {
            lemma_resolves_alike(*key, part, definitions, keyspace, rank, bound);
            lemma_resolves_alike(*value, part, definitions, keyspace, rank, bound);
        },
        CqlTypeView::SetOf(element) => {
            lemma_resolves_alike(*element, part, definitions, keyspace, rank, bound);
        },
        CqlTypeView::Tuple(types) => {
            assert forall|i: int| 0 <= i < types.len() implies data_type_of(
                #[trigger] types[i],
                part,
                keyspace,
            ) == data_type_of(types[i], definitions, keyspace) by {
                lemma_resolves_alike(types[i], part, definitions, keyspace, rank, bound);
            }
            assert(data_type_of(cql_type, part, keyspace)->Tuple_0 =~= data_type_of(
                cql_type,
                definitions,
                keyspace,
            )->Tuple_0);
        },
        CqlTypeView::UDT(name) => {
            if definitions.contains_key(name) {
                assert(part.contains_key(name) && part[name] == definitions[name]);
                assert forall|i: int| 0 <= i < definitions[name].len() implies data_type_of(
                    (#[trigger] definitions[name][i]).1,
                    part.remove(name),
                    keyspace,
                ) == data_type_of(definitions[name][i].1, definitions.remove(name), keyspace) by {
                    let field = definitions[name][i].1;
                    lemma_resolves_alike(
                        field,
                        part.remove(name),
                        definitions,
                        keyspace,
                        rank,
                        rank(name),
                    );
                    lemma_resolves_alike(
                        field,
                        definitions.remove(name),
                        definitions,
                        keyspace,
                        rank,
                        rank(name),
                    );
                }
            } else {
                assert(!part.contains_key(name));
            }
            assert(data_type_of(cql_type, part, keyspace)->UDT_fields =~= data_type_of(
                cql_type,
                definitions,
                keyspace,
            )->UDT_fields);
        },
    }
}

/// Where no type holds itself, a user defined type has the fields of its definition, each
/// with the data type that it has among all of the definitions.
pub proof fn law_definitions_unfold(
    name: Seq<char>,
    definitions: Definitions,
    keyspace: Seq<char>,
)
    requires
        definitions.dom().finite(),
        acyclic(definitions),
        definitions.contains_key(name),
    ensures
        data_type_of(CqlTypeView::UDT(name), definitions, keyspace) == (DataTypeView::UDT {
            fields: Seq::new(
                definitions[name].len(),
                |i: int|
                    (
                        definitions[name][i].0,
                        data_type_of(definitions[name][i].1, definitions, keyspace),
                    ),
            ),
            keyspace,
            name,
        }),
{
    let rank = choose|rank: spec_fn(Seq<char>) -> nat| #[trigger] ordered_by(definitions, rank);
    assert forall|i: int| 0 <= i < definitions[name].len() implies data_type_of(
        (#[trigger] definitions[name][i]).1,
        definitions.remove(name),
        keyspace,
    ) == data_type_of(definitions[name][i].1, definitions, keyspace) by {
        lemma_resolves_alike(
            definitions[name][i].1,
            definitions.remove(name),
            definitions,
            keyspace,
            rank,
            rank(name),
        );
    }
    assert(data_type_of(CqlTypeView::UDT(name), definitions, keyspace)->UDT_fields =~= Seq::new(
        definitions[name].len(),
        |i: int|
            (
                definitions[name][i].0,
                data_type_of(definitions[name][i].1, definitions, keyspace),
            ),
    ));
}

/// A finite set of names has a bound above all of their ranks.
proof fn lemma_rank_bound(names: Set<Seq<char>>, rank: spec_fn(Seq<char>) -> nat) -> (bound: nat)
    requires
        names.finite(),
    ensures
        forall|name: Seq<char>| #[trigger] names.contains(name) ==> rank(name) < bound,
    decreases names.len(),
{
    if names.is_empty() {
        0
    } else {
        let name = names.choose();
        let rest = lemma_rank_bound(names.remove(name), rank);
        let bound = if rank(name) < rest {
            rest
        } else {
            rank(name) + 1
        };
        assert forall|other: Seq<char>| #[trigger] names.contains(other) implies rank(other)
            < bound by {
            if other != name {
                assert(names.remove(name).contains(other));
            }
        }
        bound
    }
}

/// Whether every defined name that the type refers to is among the given names.
pub open spec fn refers_within(
    cql_type: CqlTypeView,
    definitions: Definitions,
    names: Set<Seq<char>>,
) -> bool
    decreases cql_type,
{
    match cql_type {
        CqlTypeView::Native(_) => true,
        CqlTypeView::List(element) => refers_within(*element, definitions, names),
        CqlTypeView::MapOf(key, value) => refers_within(*key, definitions, names)
            && refers_within(*value, definitions, names),
        CqlTypeView::SetOf(element) => refers_within(*element, definitions, names),
        CqlTypeView::Tuple(types) => forall|i: int|
            0 <= i < types.len() ==> refers_within(#[trigger] types[i], definitions, names),
        CqlTypeView::UDT(name) => definitions.contains_key(name) ==> names.contains(name),
    }
}

/// A type refers below the bound if all of the names that it refers to rank below it.
proof fn lemma_within_is_below(
    cql_type: CqlTypeView,
    definitions: Definitions,
    names: Set<Seq<char>>,
    rank: spec_fn(Seq<char>) -> nat,
    bound: nat,
)
    requires
        refers_within(cql_type, definitions, names),
        forall|name: Seq<char>| #[trigger] names.contains(name) ==> rank(name) < bound,
    ensures
        refers_below(cql_type, definitions, rank, bound),
    decreases cql_type,
{
    match cql_type {
        CqlTypeView::Native(_) => {},
        CqlTypeView::List(element) => {
            lemma_within_is_below(*element, definitions, names, rank, bound);
        },
        CqlTypeView::MapOf(key, value) => {
            lemma_within_is_below(*key, definitions, names, rank, bound);
            lemma_within_is_below(*value, definitions, names, rank, bound);
        },
        CqlTypeView::SetOf(element) => {
            lemma_within_is_below(*element, definitions, names, rank, bound);
        },
        CqlTypeView::Tuple(types) => {
            assert forall|i: int| 0 <= i < types.len() implies refers_below(
                #[trigger] types[i],
                definitions,
                rank,
                bound,
            ) by {
                lemma_within_is_below(types[i], definitions, names, rank, bound);
            }
        },
        CqlTypeView::UDT(_) => {},
    }
}

/// Every type refers only to names that are defined, as far as they are defined.
proof fn lemma_refers_within_all(cql_type: CqlTypeView, definitions: Definitions)
    ensures
        refers_within(cql_type, definitions, definitions.dom()),
    decreases cql_type,
{
    match cql_type {
        CqlTypeView::Native(_) => {},
        CqlTypeView::List(element) => {
            lemma_refers_within_all(*element, definitions);
        },
        CqlTypeView::MapOf(key, value) => {
            lemma_refers_within_all(*key, definitions);
            lemma_refers_within_all(*value, definitions);
        },
        CqlTypeView::SetOf(element) => {
            lemma_refers_within_all(*element, definitions);
        },
        CqlTypeView::Tuple(types) => {
            assert forall|i: int| 0 <= i < types.len() implies refers_within(
                #[trigger] types[i],
                definitions,
                definitions.dom(),
            ) by {
                lemma_refers_within_all(types[i], definitions);
            }
        },
        CqlTypeView::UDT(_) => {},
    }
}

/// Resolves a type that refers below the bound.
fn resolve_type(
    cql_type: &CqlType,
    user_defined_types: &UserDefinedTypes,
    keyspace_name: &str,
    Ghost(rank): Ghost<spec_fn(Seq<char>) -> nat>,
    Ghost(bound): Ghost<nat>,
) -> (data_type: CassDataType)
    requires
        user_defined_types@.dom().finite(),
        ordered_by(user_defined_types@, rank),
        refers_below(cql_type.model(), user_defined_types@, rank, bound),
    ensures
        data_type.model() == data_type_of(
            cql_type.model(),
            user_defined_types@,
            keyspace_name@,
        ),
    decreases bound, 1int, cql_type,
{
    let ghost expected = data_type_of(cql_type.model(), user_defined_types@, keyspace_name@);
    match cql_type {
        CqlType::Native(native) => CassDataType::Value(native_value_type(native)),
        CqlType::Collection { frozen: _, type_ } => match type_ {
            CollectionType::List(element) => CassDataType::List(
                Some(
                    Arc::new(
                        resolve_type(
                            element,
                            user_defined_types,
                            keyspace_name,
                            Ghost(rank),
                            Ghost(bound),
                        ),
                    ),
                ),
            ),
            CollectionType::MapOf(key, value) => CassDataType::MapOf(
                Some(
                    Arc::new(
                        resolve_type(
                            key,
                            user_defined_types,
                            keyspace_name,
                            Ghost(rank),
                            Ghost(bound),
                        ),
                    ),
                ),
                Some(
                    Arc::new(
                        resolve_type(
                            value,
                            user_defined_types,
                            keyspace_name,
                            Ghost(rank),
                            Ghost(bound),
                        ),
                    ),
                ),
            ),
            CollectionType::SetOf(element) => CassDataType::SetOf(
                Some(
                    Arc::new(
                        resolve_type(
                            element,
                            user_defined_types,
                            keyspace_name,
                            Ghost(rank),
                            Ghost(bound),
                        ),
                    ),
                ),
            ),
        },
        CqlType::Tuple(cql_types) => {
            let mut types: Vec<CassDataTypeArc> = Vec::new();
            for i in 0..cql_types.len()
                invariant
                    types@.len() == i,
                    cql_type is Tuple,
                    cql_types == cql_type->Tuple_0,
                    user_defined_types@.dom().finite(),
                    ordered_by(user_defined_types@, rank),
                    refers_below(cql_type.model(), user_defined_types@, rank, bound),
                    forall|j: int|
                        #![trigger types@[j]]
                        0 <= j < i ==> types@[j].model() == data_type_of(
                            cql_types@[j].model(),
                            user_defined_types@,
                            keyspace_name@,
                        ),
            {
                assert(cql_type.model()->Tuple_0[i as int] == cql_types@[i as int].model());
                types.push(
                    Arc::new(
                        resolve_type(
                            &cql_types[i],
                            user_defined_types,
                            keyspace_name,
                            Ghost(rank),
                            Ghost(bound),
                        ),
                    ),
                );
            }
            let data_type = CassDataType::Tuple(types);
            assert(data_type.model()->Tuple_0 =~= expected->Tuple_0);
            data_type
        },
        CqlType::UserDefinedType { frozen: _, name } => CassDataType::UDT(
            resolve_udt(
                user_defined_types,
                keyspace_name,
                name.as_str(),
                Ghost(rank),
                Ghost(bound),
            ),
        ),
    }
}

/// Resolves a user defined type that ranks below the bound.
fn resolve_udt(
    user_defined_types: &UserDefinedTypes,
    keyspace_name: &str,
    name: &str,
    Ghost(rank): Ghost<spec_fn(Seq<char>) -> nat>,
    Ghost(bound): Ghost<nat>,
) -> (udt: UDTDataType)
    requires
        user_defined_types@.dom().finite(),
        ordered_by(user_defined_types@, rank),
        user_defined_types@.contains_key(name@) ==> rank(name@) < bound,
    ensures
        CassDataType::UDT(udt).model() == data_type_of(
            CqlTypeView::UDT(name@),
            user_defined_types@,
            keyspace_name@,
        ),
    decreases bound, 0int, user_defined_types,
{
    let ghost definitions = user_defined_types@;
    let ghost expected = data_type_of(CqlTypeView::UDT(name@), definitions, keyspace_name@);
    let mut field_types: Vec<(String, CassDataTypeArc)> = Vec::new();
    match user_defined_types.get(name) {
        Some(fields) => {
            for i in 0..fields.len()
                invariant
                    definitions == user_defined_types@,
                    definitions.dom().finite(),
                    ordered_by(definitions, rank),
                    definitions.contains_key(name@),
                    rank(name@) < bound,
                    fields_model(fields@) == definitions[name@],
                    expected == data_type_of(
                        CqlTypeView::UDT(name@),
                        definitions,
                        keyspace_name@,
                    ),
                    field_types@.len() == i,
                    forall|j: int|
                        #![trigger field_types@[j]]
                        0 <= j < i ==> field_types@[j].0@ == expected->UDT_fields[j].0
                            && field_types@[j].1.model() == expected->UDT_fields[j].1,
            {
                let field = &fields[i];
                proof {
                    assert(definitions[name@][i as int] == (field.0@, field.1.model()));
                    lemma_resolves_alike(
                        field.1.model(),
                        definitions.remove(name@),
                        definitions,
                        keyspace_name@,
                        rank,
                        rank(name@),
                    );
                }
                let field_type = resolve_type(
                    &field.1,
                    user_defined_types,
                    keyspace_name,
                    Ghost(rank),
                    Ghost(rank(name@)),
                );
                field_types.push((field.0.clone(), Arc::new(field_type)));
            }
        },
        None => {},
    }
    let udt = UDTDataType {
        field_types,
        keyspace: keyspace_name.to_owned(),
        name: name.to_owned(),
    };
    assert(CassDataType::UDT(udt).model()->UDT_fields =~= expected->UDT_fields);
    udt
}

/// Returns the data type of a column or of a field with the given type, in the keyspace that
/// holds the definitions.
pub fn get_column_type_from_cql_type(
    cql_type: &CqlType,
    user_defined_types: &UserDefinedTypes,
    keyspace_name: &str,
) -> (data_type: CassDataType)
    requires
        acyclic(user_defined_types@),
    ensures
        data_type.model() == data_type_of(
            cql_type.model(),
            user_defined_types@,
            keyspace_name@,
        ),
{
    proof {
        use_type_invariant(user_defined_types);
        assert(user_defined_types@.dom() =~= user_defined_types.definitions@.dom());
    }
    let ghost rank = choose|rank: spec_fn(Seq<char>) -> nat| #[trigger]
        ordered_by(user_defined_types@, rank);
    let ghost bound = lemma_rank_bound(user_defined_types@.dom(), rank);
    proof {
        lemma_refers_within_all(cql_type.model(), user_defined_types@);
        lemma_within_is_below(
            cql_type.model(),
            user_defined_types@,
            user_defined_types@.dom(),
            rank,
            bound,
        );
    }
    resolve_type(cql_type, user_defined_types, keyspace_name, Ghost(rank), Ghost(bound))
}

impl UDTDataType {
    /// Returns the user defined type with the given name in the keyspace that holds the
    /// definitions.
    pub fn create_with_params(
        user_defined_types: &UserDefinedTypes,
        keyspace_name: &str,
        name: &str,
    ) -> (udt: UDTDataType)
        requires
            acyclic(user_defined_types@),
        ensures
            CassDataType::UDT(udt).model() == data_type_of(
                CqlTypeView::UDT(name@),
                user_defined_types@,
                keyspace_name@,
            ),
    {
        proof {
            use_type_invariant(user_defined_types);
            assert(user_defined_types@.dom() =~= user_defined_types.definitions@.dom());
        }
        let ghost rank = choose|rank: spec_fn(Seq<char>) -> nat| #[trigger]
            ordered_by(user_defined_types@, rank);
        let ghost bound = lemma_rank_bound(user_defined_types@.dom(), rank);
        resolve_udt(user_defined_types, keyspace_name, name, Ghost(rank), Ghost(bound))
    }
}

/// Whether all of the fields refer only to the given names, as far as names are defined.
pub open spec fn fields_refer_within(
    fields: Seq<(Seq<char>, CqlTypeView)>,
    definitions: Definitions,
    names: Set<Seq<char>>,
) -> bool {
    forall|i: int|
        #![trigger fields[i]]
        0 <= i < fields.len() ==> refers_within(fields[i].1, definitions, names)
}

/// More names do no harm.
proof fn lemma_within_more(
    cql_type: CqlTypeView,
    definitions: Definitions,
    names: Set<Seq<char>>,
    more: Set<Seq<char>>,
)
    requires
        refers_within(cql_type, definitions, names),
        names.subset_of(more),
    ensures
        refers_within(cql_type, definitions, more),
    decreases cql_type,
{
    match cql_type {
        CqlTypeView::Native(_) => {},
        CqlTypeView::List(element) => {
            lemma_within_more(*element, definitions, names, more);
        },
        CqlTypeView::MapOf(key, value) => {
            lemma_within_more(*key, definitions, names, more);
            lemma_within_more(*value, definitions, names, more);
        },
        CqlTypeView::SetOf(element) => {
            lemma_within_more(*element, definitions, names, more);
        },
        CqlTypeView::Tuple(types) => {
            assert forall|i: int| 0 <= i < types.len() implies refers_within(
                #[trigger] types[i],
                definitions,
                more,
            ) by {
                lemma_within_more(types[i], definitions, names, more);
            }
        },
        CqlTypeView::UDT(_) => {},
    }
}

/// Only the ranks of the names that a type refers to matter.
proof fn lemma_below_alike(
    cql_type: CqlTypeView,
    definitions: Definitions,
    names: Set<Seq<char>>,
    rank: spec_fn(Seq<char>) -> nat,
    other: spec_fn(Seq<char>) -> nat,
    bound: nat,
)
    requires
        refers_within(cql_type, definitions, names),
        refers_below(cql_type, definitions, rank, bound),
        forall|name: Seq<char>| #[trigger] names.contains(name) ==> rank(name) == other(name),
    ensures
        refers_below(cql_type, definitions, other, bound),
    decreases cql_type,
{
    match cql_type {
        CqlTypeView::Native(_) => {},
        CqlTypeView::List(element) => {
            lemma_below_alike(*element, definitions, names, rank, other, bound);
        },
        CqlTypeView::MapOf(key, value) => {
            lemma_below_alike(*key, definitions, names, rank, other, bound);
            lemma_below_alike(*value, definitions, names, rank, other, bound);
        },
        CqlTypeView::SetOf(element) => {
            lemma_below_alike(*element, definitions, names, rank, other, bound);
        },
        CqlTypeView::Tuple(types) => {
            assert forall|i: int| 0 <= i < types.len() implies refers_below(
                #[trigger] types[i],
                definitions,
                other,
                bound,
            ) by {
                lemma_below_alike(types[i], definitions, names, rank, other, bound);
            }
        },
        CqlTypeView::UDT(_) => {},
    }
}

/// A type that refers below the bound, but not only to the given names, refers to a defined
/// name that is not among them and ranks below the bound.
proof fn lemma_name_outside(
    cql_type: CqlTypeView,
    definitions: Definitions,
    names: Set<Seq<char>>,
    rank: spec_fn(Seq<char>) -> nat,
    bound: nat,
) -> (name: Seq<char>)
    requires
        refers_below(cql_type, definitions, rank, bound),
        !refers_within(cql_type, definitions, names),
    ensures
        definitions.contains_key(name),
        !names.contains(name),
        rank(name) < bound,
    decreases cql_type,
{
    match cql_type {
        CqlTypeView::Native(_) => arbitrary(),
        CqlTypeView::List(element) => lemma_name_outside(
            *element,
            definitions,
            names,
            rank,
            bound,
        ),
        CqlTypeView::MapOf(key, value) => if refers_within(*key, definitions, names) {
            lemma_name_outside(*value, definitions, names, rank, bound)
        } else {
            lemma_name_outside(*key, definitions, names, rank, bound)
        },
        CqlTypeView::SetOf(element) => lemma_name_outside(
            *element,
            definitions,
            names,
            rank,
            bound,
        ),
        CqlTypeView::Tuple(types) => {
            let i = choose|i: int|
                0 <= i < types.len() && !refers_within(#[trigger] types[i], definitions, names);
            lemma_name_outside(types[i], definitions, names, rank, bound)
        },
        CqlTypeView::UDT(name) => name,
    }
}

/// Definitions of which each one outside the given names refers to another one outside them
/// cannot be ordered.
proof fn lemma_stuck(
    name: Seq<char>,
    definitions: Definitions,
    names: Set<Seq<char>>,
    rank: spec_fn(Seq<char>) -> nat,
)
    requires
        definitions.contains_key(name),
        !names.contains(name),
        forall|other: Seq<char>| #[trigger]
            definitions.contains_key(other) && !names.contains(other) ==> !fields_refer_within(
                definitions[other],
                definitions,
                names,
            ),
    ensures
        !ordered_by(definitions, rank),
    decreases rank(name),
{
    if ordered_by(definitions, rank) {
        let fields = definitions[name];
        let i = choose|i: int|
            #![trigger fields[i]]
            0 <= i < fields.len() && !refers_within(fields[i].1, definitions, names);
        assert(refers_below(definitions[name][i].1, definitions, rank, rank(name)));
        let other = lemma_name_outside(fields[i].1, definitions, names, rank, rank(name));
        lemma_stuck(other, definitions, names, rank);
    }
}

/// Tells whether the type refers only to the given names, as far as names are defined.
fn check_refers_within(
    cql_type: &CqlType,
    user_defined_types: &UserDefinedTypes,
    names: &StringHashMap<()>,
) -> (within: bool)
    ensures
        within == refers_within(cql_type.model(), user_defined_types@, names@.dom()),
    decreases cql_type,
{
    match cql_type {
        CqlType::Native(_) => true,
        CqlType::Collection { frozen: _, type_ } => match type_ {
            CollectionType::List(element) => check_refers_within(
                element,
                user_defined_types,
                names,
            ),
            CollectionType::MapOf(key, value) => check_refers_within(
                key,
                user_defined_types,
                names,
            ) && check_refers_within(value, user_defined_types, names),
            CollectionType::SetOf(element) => check_refers_within(
                element,
                user_defined_types,
                names,
            ),
        },
        CqlType::Tuple(types) => {
            for i in 0..types.len()
                invariant
                    cql_type is Tuple,
                    types == cql_type->Tuple_0,
                    forall|j: int|
                        0 <= j < i ==> refers_within(
                            (#[trigger] cql_type.model()->Tuple_0[j]),
                            user_defined_types@,
                            names@.dom(),
                        ),
            {
                assert(cql_type.model()->Tuple_0[i as int] == types@[i as int].model());
                if !check_refers_within(&types[i], user_defined_types, names) {
                    return false;
                }
            }
            true
        },
        CqlType::UserDefinedType { frozen: _, name } => {
            user_defined_types.get(name.as_str()).is_none() || names.contains_key(name.as_str())
        },
    }
}

/// Tells whether all of the fields refer only to the given names, as far as names are defined.
fn check_fields(
    fields: &Vec<(String, CqlType)>,
    user_defined_types: &UserDefinedTypes,
    names: &StringHashMap<()>,
) -> (within: bool)
    ensures
        within == fields_refer_within(
            fields_model(fields@),
            user_defined_types@,
            names@.dom(),
        ),
{
    let ghost model = fields_model(fields@);
    for i in 0..fields.len()
        invariant
            model == fields_model(fields@),
            forall|j: int|
                #![trigger model[j]]
                0 <= j < i ==> refers_within(model[j].1, user_defined_types@, names@.dom()),
    {
        assert(model[i as int].1 == fields@[i as int].1.model());
        if !check_refers_within(&fields[i].1, user_defined_types, names) {
            return false;
        }
    }
    true
}

impl UserDefinedTypes {
    /// Tells whether no type holds itself, directly or through other types.
    pub fn is_acyclic(&self) -> (result: bool)
        ensures
            result == acyclic(self@),
    {
        let ghost definitions = self@;
        let names = self.keys();
        // The types whose fields refer only to types that were settled before them.
        let mut settled: StringHashMap<()> = StringHashMap::new();
        let ghost mut rank: spec_fn(Seq<char>) -> nat = |name: Seq<char>| 0nat;
        let ghost mut next: nat = 0;
        let mut progress: bool = true;
        while progress
            invariant
                definitions == self@,
                definitions.dom().finite(),
                settled@.dom().finite(),
                settled@.dom().subset_of(definitions.dom()),
                forall|i: int|
                    0 <= i < names@.len() ==> definitions.contains_key((#[trigger] names@[i])@),
                forall|name: Seq<char>| #[trigger]
                    definitions.contains_key(name) ==> exists|i: int|
                        0 <= i < names@.len() && (#[trigger] names@[i])@ == name,
                settled_in_order(settled@.dom(), definitions, rank, next),
                !progress ==> forall|i: int|
                    #![trigger names@[i]]
                    0 <= i < names@.len() ==> settled@.contains_key(names@[i]@)
                        || !fields_refer_within(
                        definitions[names@[i]@],
                        definitions,
                        settled@.dom(),
                    ),
            decreases
                    definitions.dom().len() - settled@.dom().len(),
                    if progress {
                        1int
                    } else {
                        0int
                    },
        {
            let ghost before = settled@.dom();
            progress = false;
            for i in 0..names.len()
                invariant
                    definitions == self@,
                    definitions.dom().finite(),
                    settled@.dom().finite(),
                    settled@.dom().subset_of(definitions.dom()),
                    before.subset_of(settled@.dom()),
                    settled@.dom().len() >= before.len(),
                    progress ==> settled@.dom().len() > before.len(),
                    forall|j: int|
                        0 <= j < names@.len() ==> definitions.contains_key(
                            (#[trigger] names@[j])@,
                        ),
                    settled_in_order(settled@.dom(), definitions, rank, next),
                    !progress ==> forall|j: int|
                        #![trigger names@[j]]
                        0 <= j < i ==> settled@.contains_key(names@[j]@) || !fields_refer_within(
                            definitions[names@[j]@],
                            definitions,
                            settled@.dom(),
                        ),
            {
                let name = &names[i];
                if !settled.contains_key(name.as_str()) {
                    let fields = self.get(name.as_str());
                    if let Some(fields) = fields {
                        if check_fields(fields, self, &settled) {
                            proof {
                                lemma_settle(name@, settled@.dom(), definitions, rank, next);
                                assert(settled@.insert(name@, ()).dom() =~= settled@.dom().insert(
                                    name@,
                                ));
                                let old_rank = rank;
                                let key = name@;
                                let value = next;
                                rank = |other: Seq<char>|
                                    if other == key {
                                        value
                                    } else {
                                        old_rank(other)
                                    };
                                next = next + 1;
                            }
                            settled.insert(name.clone(), ());
                            progress = true;
                        }
                    }
                }
            }
            proof {
                vstd::set_lib::lemma_len_subset(settled@.dom(), definitions.dom());
            }
        }
        for i in 0..names.len()
            invariant
                definitions == self@,
                forall|j: int|
                    0 <= j < names@.len() ==> definitions.contains_key((#[trigger] names@[j])@),
                forall|name: Seq<char>| #[trigger]
                    definitions.contains_key(name) ==> exists|j: int|
                        0 <= j < names@.len() && (#[trigger] names@[j])@ == name,
                forall|j: int|
                    #![trigger names@[j]]
                    0 <= j < names@.len() ==> settled@.contains_key(names@[j]@)
                        || !fields_refer_within(
                        definitions[names@[j]@],
                        definitions,
                        settled@.dom(),
                    ),
                forall|j: int| 0 <= j < i ==> settled@.contains_key((#[trigger] names@[j])@),
        {
            if !settled.contains_key(names[i].as_str()) {
                proof {
                    assert forall|other: Seq<char>| #[trigger]
                        definitions.contains_key(other) && !settled@.dom().contains(
                            other,
                        ) implies !fields_refer_within(
                        definitions[other],
                        definitions,
                        settled@.dom(),
                    ) by {
                        let j = choose|j: int|
                            0 <= j < names@.len() && (#[trigger] names@[j])@ == other;
                        assert(names@[j]@ == other);
                    }
                    if acyclic(definitions) {
                        let r = choose|r: spec_fn(Seq<char>) -> nat| #[trigger]
                            ordered_by(definitions, r);
                        lemma_stuck(names@[i as int]@, definitions, settled@.dom(), r);
                    }
                }
                return false;
            }
        }
        proof {
            assert(ordered_by(definitions, rank)) by {
                assert forall|name: Seq<char>, i: int|
                    #![trigger definitions[name][i]]
                    definitions.contains_key(name) && 0 <= i
                        < definitions[name].len() implies refers_below(
                    definitions[name][i].1,
                    definitions,
                    rank,
                    rank(name),
                ) by {
                    let j = choose|j: int|
                        0 <= j < names@.len() && (#[trigger] names@[j])@ == name;
                    assert(settled@.contains_key(names@[j]@));
                }
            }
        }
        true
    }
}

/// Whether the settled names rank below the next free rank, and each refers only to settled
/// names that rank below it.
spec fn settled_in_order(
    settled: Set<Seq<char>>,
    definitions: Definitions,
    rank: spec_fn(Seq<char>) -> nat,
    next: nat,
) -> bool {
    forall|name: Seq<char>| #[trigger]
        settled.contains(name) ==> rank(name) < next && fields_refer_within(
            definitions[name],
            definitions,
            settled,
        ) && forall|i: int|
            #![trigger definitions[name][i]]
            0 <= i < definitions[name].len() ==> refers_below(
                definitions[name][i].1,
                definitions,
                rank,
                rank(name),
            )
}

/// A name whose fields refer only to settled names can be settled at the next free rank.
proof fn lemma_settle(
    key: Seq<char>,
    settled: Set<Seq<char>>,
    definitions: Definitions,
    rank: spec_fn(Seq<char>) -> nat,
    next: nat,
)
    requires
        settled_in_order(settled, definitions, rank, next),
        !settled.contains(key),
        fields_refer_within(definitions[key], definitions, settled),
    ensures
        settled_in_order(
            settled.insert(key),
            definitions,
            |other: Seq<char>|
                if other == key {
                    next
                } else {
                    rank(other)
                },
            next + 1,
        ),
{
    let new_rank = |other: Seq<char>|
        if other == key {
            next
        } else {
            rank(other)
        };
    let more = settled.insert(key);
    assert forall|name: Seq<char>| #[trigger] more.contains(name) implies new_rank(name) < next + 1
        && fields_refer_within(definitions[name], definitions, more) && forall|i: int|
        #![trigger definitions[name][i]]
        0 <= i < definitions[name].len() ==> refers_below(
            definitions[name][i].1,
            definitions,
            new_rank,
            new_rank(name),
        ) by {
        assert(fields_refer_within(definitions[name], definitions, settled));
        assert forall|i: int|
            #![trigger definitions[name][i]]
            0 <= i < definitions[name].len() implies refers_within(
            definitions[name][i].1,
            definitions,
            more,
        ) && refers_below(definitions[name][i].1, definitions, new_rank, new_rank(name)) by {
            let field = definitions[name][i].1;
            lemma_within_more(field, definitions, settled, more);
            if name == key {
                lemma_within_is_below(field, definitions, settled, new_rank, next);
            } else {
                lemma_below_alike(field, definitions, settled, rank, new_rank, rank(name));
            }
        }
    }
}

} // verus!
