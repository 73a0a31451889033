//! Sessions: what each call on a session asks of the driver, and what it answers once the
//! driver has replied.
//!
//! A call runs in steps. The first event is the call itself. A step either sends something to
//! the driver, whose reply is the next event, or finishes with the answer to the client.

use crate::driver::{disable_paging, new_query, set_consistency, Consistency};
use crate::query_result::{create_cass_rows_from_rows, CassResult, CassResultData, QueryResult};
use crate::text::{ptr_to_cstr_n, strlen};
use scylla::prepared_statement::PreparedStatement;
use scylla::query::Query;
use std::sync::Arc;
use vstd::prelude::*;

#[allow(unused_imports)]
use crate::driver::{
    consistency_set, paging_disabled, query_of, query_text, reported_consistency,
    reported_page_size,
};
#[allow(unused_imports)]
use crate::query_result::are_cass_rows;
#[allow(unused_imports)]
use crate::text::{length_to_zero, readable, terminated, text_at};

verus! {

/// The codes of the errors that a call can end with.
#[allow(non_camel_case_types)]
#[derive(Clone, Copy, Debug, PartialEq, Eq, Structural)]
pub enum CassError {
    CASS_ERROR_LIB_BAD_PARAMS,
    CASS_ERROR_LIB_MESSAGE_ENCODE,
    CASS_ERROR_LIB_HOST_RESOLUTION,
    CASS_ERROR_LIB_UNEXPECTED_RESPONSE,
    CASS_ERROR_LIB_NO_STREAMS,
    CASS_ERROR_LIB_NO_HOSTS_AVAILABLE,
    CASS_ERROR_LIB_REQUEST_TIMED_OUT,
    CASS_ERROR_LIB_UNABLE_TO_CONNECT,
    CASS_ERROR_LIB_UNABLE_TO_CLOSE,
    CASS_ERROR_SERVER_SERVER_ERROR,
    CASS_ERROR_SERVER_PROTOCOL_ERROR,
    CASS_ERROR_SERVER_BAD_CREDENTIALS,
    CASS_ERROR_SERVER_UNAVAILABLE,
    CASS_ERROR_SERVER_OVERLOADED,
    CASS_ERROR_SERVER_IS_BOOTSTRAPPING,
    CASS_ERROR_SERVER_TRUNCATE_ERROR,
    CASS_ERROR_SERVER_WRITE_TIMEOUT,
    CASS_ERROR_SERVER_READ_TIMEOUT,
    CASS_ERROR_SERVER_READ_FAILURE,
    CASS_ERROR_SERVER_FUNCTION_FAILURE,
    CASS_ERROR_SERVER_WRITE_FAILURE,
    CASS_ERROR_SERVER_SYNTAX_ERROR,
    CASS_ERROR_SERVER_UNAUTHORIZED,
    CASS_ERROR_SERVER_INVALID_QUERY,
    CASS_ERROR_SERVER_CONFIG_ERROR,
    CASS_ERROR_SERVER_ALREADY_EXISTS,
    CASS_ERROR_SERVER_UNPREPARED,
}

/// A session: connected while it holds one of the driver's.
#[derive(Debug, PartialEq, Eq)]
pub struct CassSession<S> {
    pub session: Option<S>,
}

/// A failed request.
#[derive(Debug, PartialEq, Eq)]
pub enum QueryError<E> {
    /// No reply came in time.
    TimeoutError,
    /// The driver replied with an error.
    Driver(E),
}

/// What a call that did not fail answers.
#[derive(Debug, PartialEq, Eq)]
pub enum CassResultValue<P, E> {
    Empty,
    QueryResult(Arc<CassResult>),
    QueryError(Arc<QueryError<E>>),
    Prepared(Arc<P>),
}

/// What a call answers.
pub type Answer<P, E> = Result<CassResultValue<P, E>, (CassError, String)>;

/// What to do next: send something to the driver, or answer the client.
#[derive(Debug, PartialEq, Eq)]
pub enum Step<R, P, E> {
    Send(R),
    Finish(Answer<P, E>),
}

/// A statement, prepared or not.
pub enum Statement<P> {
    Simple(Query),
    Prepared(Arc<P>),
}

/// A statement with what it is executed with.
pub struct CassStatement<P, V> {
    pub statement: Statement<P>,
    pub bound_values: V,
    pub paging_state: Option<Vec<u8>>,
    pub request_timeout_ms: Option<u64>,
}

/// A batch of statements.
#[derive(Debug, PartialEq, Eq)]
pub struct CassBatch<B> {
    pub state: B,
    pub batch_request_timeout_ms: Option<u64>,
}

/// The events of a connect call. The driver's error comes with its code and its message.
#[derive(Debug, PartialEq, Eq)]
pub enum ConnectEvent<S> {
    Start,
    Built(Result<S, (CassError, String)>),
}

/// What a connect call sends to the driver.
#[derive(Debug, PartialEq, Eq)]
pub enum ConnectRequest {
    BuildSession,
}

/// The events of an execute call.
pub enum ExecuteEvent<P, V, E> {
    Start(CassStatement<P, V>),
    Replied(Result<QueryResult, E>),
}

/// The events of a call under its time limit. A call that ended without an outcome did not
/// finish in time.
#[derive(Debug, PartialEq, Eq)]
pub enum LimitEvent<P, E> {
    Start(Option<u64>),
    Ended(Option<Answer<P, E>>),
}

/// What to do with a call under its time limit: run it, for no longer than the given number of
/// milliseconds where there is a limit, or answer the client. The time counts from the start
/// of the call, with the wait for the session in it.
#[derive(Debug, PartialEq, Eq)]
pub enum LimitStep<P, E> {
    Run,
    RunWithin(u64),
    Finish(Answer<P, E>),
}

/// What an execute call sends to the driver.
pub enum ExecuteRequest<P, V> {
    QueryPaged { query: Query, values: V, paging_state: Option<Vec<u8>> },
    ExecutePaged { prepared: Arc<P>, values: V, paging_state: Option<Vec<u8>> },
}

/// The events of an execute call for a batch. Nothing of the driver's result is used.
#[derive(Debug, PartialEq, Eq)]
pub enum BatchEvent<B, E> {
    Start(CassBatch<B>),
    Replied(Result<(), E>),
}

/// The events of a prepare call. The driver's error comes with its code and its message.
pub enum PrepareEvent<T, P> {
    Start(T),
    Replied(Result<P, (CassError, String)>),
}

/// Whether the answer is the given error.
pub open spec fn is_error<P, E>(answer: Answer<P, E>, code: CassError, message: Seq<char>) -> bool {
    answer matches Err(error) && error.0 == code && error.1@ == message
}

/// Whether the step refuses the call with the given error.
pub open spec fn is_refusal<R, P, E>(
    step: Step<R, P, E>,
    code: CassError,
    message: Seq<char>,
) -> bool {
    step matches Step::Finish(answer) && is_error(answer, code, message)
}

/// Whether the step refuses a call that needs a connected session.
pub open spec fn is_not_connected<R, P, E>(step: Step<R, P, E>) -> bool {
    is_refusal(
        step,
        CassError::CASS_ERROR_LIB_NO_HOSTS_AVAILABLE,
        "Session is not connected"@,
    )
}

/// The state of a session after an event of a connect call.
pub open spec fn after_connect<S>(session: Option<S>, event: ConnectEvent<S>) -> Option<S> {
    match event {
        ConnectEvent::Built(Ok(built)) => Some(built),
        _ => session,
    }
}

/// Whether the step is the right one of a connect call: a connected session refuses; another
/// one asks the driver for a session, and holds it if there is one.
pub open spec fn is_connect_step<S, P, E>(
    session: Option<S>,
    event: ConnectEvent<S>,
    step: Step<ConnectRequest, P, E>,
) -> bool {
    match event {
        ConnectEvent::Start => if session is Some {
            is_refusal(
                step,
                CassError::CASS_ERROR_LIB_UNABLE_TO_CONNECT,
                "Already connecting, closing, or connected"@,
            )
        } else {
            step == Step::<ConnectRequest, P, E>::Send(ConnectRequest::BuildSession)
        },
        ConnectEvent::Built(Ok(_)) => step == Step::<ConnectRequest, P, E>::Finish(
            Ok(CassResultValue::Empty),
        ),
        ConnectEvent::Built(Err(error)) => step == Step::<ConnectRequest, P, E>::Finish(
            Err(error),
        ),
    }
}

/// Returns a session that is not connected.
pub fn cass_session_new<S>() -> (session: CassSession<S>)
    ensures
        session.session is None,
{
    CassSession { session: None }
}

/// Connects the session.
pub fn cass_session_connect<S, P, E>(
    session: &mut CassSession<S>,
    event: ConnectEvent<S>,
) -> (step: Step<ConnectRequest, P, E>)
    ensures
        final(session).session == after_connect(old(session).session, event),
        is_connect_step(old(session).session, event, step),
{
    match event {
        ConnectEvent::Start => {
            if session.session.is_some() {
                return Step::Finish(
                    Err(
                        (
                            CassError::CASS_ERROR_LIB_UNABLE_TO_CONNECT,
                            "Already connecting, closing, or connected".to_owned(),
                        ),
                    ),
                );
            }
            Step::Send(ConnectRequest::BuildSession)
        },
        ConnectEvent::Built(Ok(built)) => {
            session.session = Some(built);
            Step::Finish(Ok(CassResultValue::Empty))
        },
        ConnectEvent::Built(Err(error)) => Step::Finish(Err(error)),
    }
}

/// Closes the session.
pub fn cass_session_close<S, P, E>(session: &mut CassSession<S>) -> (answer: Answer<P, E>)
    ensures
        final(session).session is None,
        match old(session).session {
            Some(_) => answer == Ok::<CassResultValue<P, E>, (CassError, String)>(
                CassResultValue::Empty,
            ),
            None => answer matches Err(error) && error.0
                == CassError::CASS_ERROR_LIB_UNABLE_TO_CLOSE && error.1@
                == "Already closing or closed"@,
        },
{
    if session.session.is_none() {
        return Err(
            (CassError::CASS_ERROR_LIB_UNABLE_TO_CLOSE, "Already closing or closed".to_owned()),
        );
    }
    session.session = None;
    Ok(CassResultValue::Empty)
}

/// The error that a call on a session that is not connected ends with.
fn not_connected() -> (error: (CassError, String))
    ensures
        error.0 == CassError::CASS_ERROR_LIB_NO_HOSTS_AVAILABLE,
        error.1@ == "Session is not connected"@,
{
    (CassError::CASS_ERROR_LIB_NO_HOSTS_AVAILABLE, "Session is not connected".to_owned())
}

/// What the driver is asked to do with a statement.
pub open spec fn execute_request<P, V>(statement: CassStatement<P, V>) -> ExecuteRequest<P, V> {
    match statement.statement {
        Statement::Simple(query) => ExecuteRequest::QueryPaged {
            query,
            values: statement.bound_values,
            paging_state: statement.paging_state,
        },
        Statement::Prepared(prepared) => ExecuteRequest::ExecutePaged {
            prepared,
            values: statement.bound_values,
            paging_state: statement.paging_state,
        },
    }
}

/// Whether the value is what the driver's reply comes to: the result with typed rows, or the
/// driver's error.
pub open spec fn is_execute_value<P, E>(
    value: CassResultValue<P, E>,
    reply: Result<QueryResult, E>,
) -> bool {
    match reply {
        Ok(result) => value matches CassResultValue::QueryResult(cass_result) && {
            &&& cass_result.metadata.paging_state == result.paging_state
            &&& cass_result.metadata.col_specs == result.col_specs
            &&& cass_result.metadata.tracing_id == result.tracing_id
            &&& are_cass_rows(cass_result.rows, result.rows, cass_result.metadata)
        },
        Err(error) => value == CassResultValue::<P, E>::QueryError(
            Arc::new(QueryError::Driver(error)),
        ),
    }
}

/// Whether the step is the right one of an execute call.
pub open spec fn is_execute_step<S, P, V, E>(
    session: Option<S>,
    event: ExecuteEvent<P, V, E>,
    step: Step<ExecuteRequest<P, V>, P, E>,
) -> bool {
    match event {
        ExecuteEvent::Start(statement) => if session is None {
            is_not_connected(step)
        } else {
            step == Step::<ExecuteRequest<P, V>, P, E>::Send(execute_request(statement))
        },
        ExecuteEvent::Replied(reply) => step matches Step::Finish(Ok(value)) && is_execute_value(
            value,
            reply,
        ),
    }
}

/// Executes a statement.
pub fn cass_session_execute<S, P, V, E>(
    session: &CassSession<S>,
    event: ExecuteEvent<P, V, E>,
) -> (step: Step<ExecuteRequest<P, V>, P, E>)
    ensures
        is_execute_step(session.session, event, step),
{
    match event {
        ExecuteEvent::Start(statement) => {
            if session.session.is_none() {
                return Step::Finish(Err(not_connected()));
            }
            match statement.statement {
                Statement::Simple(query) => Step::Send(
                    ExecuteRequest::QueryPaged {
                        query,
                        values: statement.bound_values,
                        paging_state: statement.paging_state,
                    },
                ),
                Statement::Prepared(prepared) => Step::Send(
                    ExecuteRequest::ExecutePaged {
                        prepared,
                        values: statement.bound_values,
                        paging_state: statement.paging_state,
                    },
                ),
            }
        },
        ExecuteEvent::Replied(Ok(result)) => {
            let metadata = Arc::new(
                CassResultData {
                    paging_state: result.paging_state,
                    col_specs: result.col_specs,
                    tracing_id: result.tracing_id,
                },
            );
            let rows = create_cass_rows_from_rows(result.rows, &metadata);
            Step::Finish(Ok(CassResultValue::QueryResult(Arc::new(CassResult { rows, metadata }))))
        },
        ExecuteEvent::Replied(Err(error)) => Step::Finish(
            Ok(CassResultValue::QueryError(Arc::new(QueryError::Driver(error)))),
        ),
    }
}

/// Whether the value is what the driver's reply to a batch comes to: a result that holds
/// nothing, or the driver's error.
pub open spec fn is_batch_value<P, E>(value: CassResultValue<P, E>, reply: Result<(), E>) -> bool {
    match reply {
        Ok(_) => value matches CassResultValue::QueryResult(cass_result) && {
            &&& cass_result.rows is None
            &&& cass_result.metadata.paging_state is None
            &&& cass_result.metadata.col_specs@.len() == 0
            &&& cass_result.metadata.tracing_id is None
        },
        Err(error) => value == CassResultValue::<P, E>::QueryError(
            Arc::new(QueryError::Driver(error)),
        ),
    }
}

/// Whether the step is the right one of an execute call for a batch.
pub open spec fn is_batch_step<S, B, P, E>(
    session: Option<S>,
    event: BatchEvent<B, E>,
    step: Step<B, P, E>,
) -> bool {
    match event {
        BatchEvent::Start(batch) => if session is None {
            is_not_connected(step)
        } else {
            step == Step::<B, P, E>::Send(batch.state)
        },
        BatchEvent::Replied(reply) => step matches Step::Finish(Ok(value)) && is_batch_value(
            value,
            reply,
        ),
    }
}

/// Executes a batch.
pub fn cass_session_execute_batch<S, B, P, E>(
    session: &CassSession<S>,
    event: BatchEvent<B, E>,
) -> (step: Step<B, P, E>)
    ensures
        is_batch_step(session.session, event, step),
{
    match event {
        BatchEvent::Start(batch) => {
            if session.session.is_none() {
                return Step::Finish(Err(not_connected()));
            }
            Step::Send(batch.state)
        },
        BatchEvent::Replied(Ok(_)) => {
            let col_specs = Vec::new();
            let metadata = Arc::new(
                CassResultData { paging_state: None, col_specs, tracing_id: None },
            );
            Step::Finish(
                Ok(CassResultValue::QueryResult(Arc::new(CassResult { rows: None, metadata }))),
            )
        },
        BatchEvent::Replied(Err(error)) => Step::Finish(
            Ok(CassResultValue::QueryError(Arc::new(QueryError::Driver(error)))),
        ),
    }
}

/// The answer of a call with a time limit: its outcome where it finished in time, and a timeout
/// otherwise.
pub open spec fn with_timeout<P, E>(outcome: Option<Answer<P, E>>) -> Answer<P, E> {
    match outcome {
        Some(answer) => answer,
        None => Ok(CassResultValue::QueryError(Arc::new(QueryError::TimeoutError))),
    }
}

/// Returns the answer of a call that was given a time limit.
pub fn request_with_timeout<P, E>(outcome: Option<Answer<P, E>>) -> (answer: Answer<P, E>)
    ensures
        answer == with_timeout(outcome),
{
    match outcome {
        Some(answer) => answer,
        None => Ok(CassResultValue::QueryError(Arc::new(QueryError::TimeoutError))),
    }
}

/// Returns the time limit of an execute call, in milliseconds, where the statement sets one.
pub fn statement_limit<P, V>(statement: &CassStatement<P, V>) -> (limit: Option<u64>)
    ensures
        limit == statement.request_timeout_ms,
{
    statement.request_timeout_ms
}

/// Returns the time limit of an execute call for a batch, in milliseconds, where the batch sets
/// one.
pub fn batch_limit<B>(batch: &CassBatch<B>) -> (limit: Option<u64>)
    ensures
        limit == batch.batch_request_timeout_ms,
{
    batch.batch_request_timeout_ms
}

/// Whether the step is the right one of a call under its time limit.
pub open spec fn is_limit_step<P, E>(event: LimitEvent<P, E>, step: LimitStep<P, E>) -> bool {
    step == match event {
        LimitEvent::Start(None) => LimitStep::Run,
        LimitEvent::Start(Some(limit)) => LimitStep::RunWithin(limit),
        LimitEvent::Ended(outcome) => LimitStep::Finish(with_timeout(outcome)),
    }
}

/// Runs a call under its time limit.
pub fn run_with_limit<P, E>(event: LimitEvent<P, E>) -> (step: LimitStep<P, E>)
    ensures
        is_limit_step(event, step),
{
    match event {
        LimitEvent::Start(None) => LimitStep::Run,
        LimitEvent::Start(Some(limit)) => LimitStep::RunWithin(limit),
        LimitEvent::Ended(outcome) => LimitStep::Finish(request_with_timeout(outcome)),
    }
}

/// Whether the step is the right one of a prepare call for a statement: one that is prepared
/// already is the answer, connected or not; another one is sent to the driver, whose
/// statement is answered as it is.
pub open spec fn is_prepare_existing_step<S, P, E>(
    session: Option<S>,
    event: PrepareEvent<Statement<P>, P>,
    step: Step<Query, P, E>,
) -> bool {
    match event {
        PrepareEvent::Start(Statement::Prepared(prepared)) => step
            == Step::<Query, P, E>::Finish(Ok(CassResultValue::Prepared(prepared))),
        PrepareEvent::Start(Statement::Simple(query)) => if session is None {
            is_not_connected(step)
        } else {
            step == Step::<Query, P, E>::Send(query)
        },
        PrepareEvent::Replied(Ok(prepared)) => step == Step::<Query, P, E>::Finish(
            Ok(CassResultValue::Prepared(Arc::new(prepared))),
        ),
        PrepareEvent::Replied(Err(error)) => step == Step::<Query, P, E>::Finish(Err(error)),
    }
}

/// Prepares a statement.
pub fn cass_session_prepare_from_existing<S, P, E>(
    session: &CassSession<S>,
    event: PrepareEvent<Statement<P>, P>,
) -> (step: Step<Query, P, E>)
    ensures
        is_prepare_existing_step(session.session, event, step),
{
    match event {
        PrepareEvent::Start(Statement::Prepared(prepared)) => Step::Finish(
            Ok(CassResultValue::Prepared(prepared)),
        ),
        PrepareEvent::Start(Statement::Simple(query)) => {
            if session.session.is_none() {
                return Step::Finish(Err(not_connected()));
            }
            Step::Send(query)
        },
        PrepareEvent::Replied(Ok(prepared)) => Step::Finish(
            Ok(CassResultValue::Prepared(Arc::new(prepared))),
        ),
        PrepareEvent::Replied(Err(error)) => Step::Finish(Err(error)),
    }
}

/// Whether the query is the one that was read: the driver's query of the text, where there is
/// a text.
pub open spec fn is_query_read(read: Option<Query>, text: Option<Seq<char>>) -> bool {
    match text {
        Some(text) => read == Some(query_of(text)) && query_text(query_of(text)) == text,
        None => read is None,
    }
}

/// Reads the query of a prepare call, which ends with a zero byte. Where there is none the
/// call does not begin.
pub fn cass_session_prepare(query: Option<&[u8]>) -> (read: Option<Query>)
    requires
        terminated(query),
    ensures
        is_query_read(read, text_at(query, length_to_zero(query))),
{
    cass_session_prepare_n(query, strlen(query))
}

/// Reads the query of a prepare call, which has the given number of bytes. Where there is none
/// the call does not begin.
pub fn cass_session_prepare_n(query: Option<&[u8]>, query_length: usize) -> (read: Option<Query>)
    requires
        readable(query, query_length),
    ensures
        is_query_read(read, text_at(query, query_length as int)),
{
    match ptr_to_cstr_n(query, query_length) {
        Some(text) => Some(new_query(text.to_owned())),
        None => None,
    }
}

/// Whether a statement that the driver prepared from a text is answered with the settings that
/// such a statement starts with: no paging, and one replica.
pub open spec fn is_with_defaults(
    prepared: PreparedStatement,
    answered: PreparedStatement,
) -> bool {
    &&& answered == consistency_set(paging_disabled(prepared), Consistency::One)
    &&& reported_page_size(answered) is None
    &&& reported_consistency(answered) == Some(Consistency::One)
}

/// Whether the step is the right one of a prepare call for a query.
pub open spec fn is_prepare_step<S, E>(
    session: Option<S>,
    event: PrepareEvent<Query, PreparedStatement>,
    step: Step<Query, PreparedStatement, E>,
) -> bool {
    match event {
        PrepareEvent::Start(query) => if session is None {
            is_not_connected(step)
        } else {
            step == Step::<Query, PreparedStatement, E>::Send(query)
        },
        PrepareEvent::Replied(Ok(prepared)) => step matches Step::Finish(
            Ok(CassResultValue::Prepared(answered)),
        ) && is_with_defaults(prepared, *answered),
        PrepareEvent::Replied(Err(error)) => step == Step::<Query, PreparedStatement, E>::Finish(
            Err(error),
        ),
    }
}

/// Prepares a query.
pub fn prepare_query<S, E>(
    session: &CassSession<S>,
    event: PrepareEvent<Query, PreparedStatement>,
) -> (step: Step<Query, PreparedStatement, E>)
    ensures
        is_prepare_step(session.session, event, step),
{
    match event {
        PrepareEvent::Start(query) => {
            if session.session.is_none() {
                return Step::Finish(Err(not_connected()));
            }
            Step::Send(query)
        },
        PrepareEvent::Replied(Ok(prepared)) => {
            let mut prepared = prepared;
            disable_paging(&mut prepared);
            set_consistency(&mut prepared, Consistency::One);
            Step::Finish(Ok(CassResultValue::Prepared(Arc::new(prepared))))
        },
        PrepareEvent::Replied(Err(error)) => Step::Finish(Err(error)),
    }
}

} // verus!
