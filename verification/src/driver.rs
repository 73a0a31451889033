//! The driver's own queries and prepared statements, as far as the library makes them or
//! changes them itself.

use scylla::prepared_statement::PreparedStatement;
use scylla::query::Query;
use vstd::prelude::*;

verus! {

/// How many replicas must answer a request.
#[derive(Clone, Copy, Debug, PartialEq, Eq, Structural)]
pub enum Consistency {
    Any,
    One,
    Two,
    Three,
    Quorum,
    All,
    LocalQuorum,
    EachQuorum,
    LocalOne,
}

/// A query of the driver.
#[verifier::external_type_specification]
#[verifier::external_body]
pub struct ExQuery(Query);

/// A statement that the driver prepared.
#[verifier::external_type_specification]
#[verifier::external_body]
pub struct ExPreparedStatement(PreparedStatement);

/// The query that `Query::new` makes of a text.
pub uninterp spec fn query_of(text: Seq<char>) -> Query;

/// The text of a query, which the driver holds as the query's `contents`.
pub uninterp spec fn query_text(query: Query) -> Seq<char>;

/// The statement that `PreparedStatement::disable_paging` makes of a statement.
pub uninterp spec fn paging_disabled(statement: PreparedStatement) -> PreparedStatement;

/// The statement that `PreparedStatement::set_consistency` makes of a statement.
pub uninterp spec fn consistency_set(
    statement: PreparedStatement,
    consistency: Consistency,
) -> PreparedStatement;

/// What `PreparedStatement::get_page_size` reports of a statement.
pub uninterp spec fn reported_page_size(statement: PreparedStatement) -> Option<i32>;

/// What `PreparedStatement::get_consistency` reports of a statement.
pub uninterp spec fn reported_consistency(statement: PreparedStatement) -> Option<Consistency>;

/// Makes a query of a text with `Query::new`. The contract claims that the query depends on
/// the text alone and that the text becomes its contents.
#[verifier::external_body]
pub(crate) fn new_query(text: String) -> (query: Query)
    ensures
        query == query_of(text@),
        query_text(query) == text@,
{
    Query::new(text)
}

/// Disables paging with `PreparedStatement::disable_paging`. The contract claims that what the
/// statement becomes depends on the statement alone, that it has no page size then, and that
/// its consistency stays.
#[verifier::external_body]
pub(crate) fn disable_paging(statement: &mut PreparedStatement)
    ensures
        *final(statement) == paging_disabled(*old(statement)),
        reported_page_size(*final(statement)) is None,
        reported_consistency(*final(statement)) == reported_consistency(*old(statement)),
{
    statement.disable_paging()
}

/// Sets the consistency with `PreparedStatement::set_consistency`. The contract claims that
/// what the statement becomes depends on the statement and the consistency alone, that it has
/// the given consistency then, and that its page size stays.
#[verifier::external_body]
pub(crate) fn set_consistency(statement: &mut PreparedStatement, consistency: Consistency)
    ensures
        *final(statement) == consistency_set(*old(statement), consistency),
        reported_consistency(*final(statement)) == Some(consistency),
        reported_page_size(*final(statement)) == reported_page_size(*old(statement)),
{
    statement.set_consistency(match consistency {
        Consistency::Any => scylla::frame::types::Consistency::Any,
        Consistency::One => scylla::frame::types::Consistency::One,
        Consistency::Two => scylla::frame::types::Consistency::Two,
        Consistency::Three => scylla::frame::types::Consistency::Three,
        Consistency::Quorum => scylla::frame::types::Consistency::Quorum,
        Consistency::All => scylla::frame::types::Consistency::All,
        Consistency::LocalQuorum => scylla::frame::types::Consistency::LocalQuorum,
        Consistency::EachQuorum => scylla::frame::types::Consistency::EachQuorum,
        Consistency::LocalOne => scylla::frame::types::Consistency::LocalOne,
    })
}

} // verus!
