//! What holds of every course of calls on a session.

use crate::query_result::QueryResult;
use crate::session::{
    Answer, BatchEvent, CassBatch, CassError, CassStatement, ConnectEvent, ConnectRequest,
    ExecuteEvent, ExecuteRequest, LimitEvent, LimitStep, PrepareEvent, Statement, Step,
};
use scylla::prepared_statement::PreparedStatement;
use scylla::query::Query;
use vstd::prelude::*;

#[allow(unused_imports)]
use crate::driver::{
    consistency_set, paging_disabled, query_of, query_text, reported_consistency,
    reported_page_size, Consistency,
};
#[allow(unused_imports)]
use crate::session::{
    after_connect, execute_request, is_batch_step, is_connect_step, is_execute_step,
    is_limit_step, is_not_connected, is_prepare_existing_step, is_prepare_step, is_refusal,
    is_query_read, with_timeout, CassResultValue, QueryError,
};
#[allow(unused_imports)]
use crate::query_result::column_value;
#[allow(unused_imports)]
use crate::cass_types::type_of_column;
#[allow(unused_imports)]
use crate::value_laws::{
    law_row_reads_back_if_it_fits, law_rows_are_read_one_for_one, row_fits, row_reads_back,
};

verus! {

/// A call that can change what a session is connected to.
pub enum Change<S> {
    /// A connect call, with what building a session gives if it comes to that.
    Connect(Result<S, (CassError, String)>),
    Close,
}

/// The state of a session after a call: a connect call that is refused ends there, and a
/// close call leaves the session unconnected.
pub open spec fn after_change<S>(session: Option<S>, change: Change<S>) -> Option<S> {
    match change {
        Change::Connect(built) => {
            let started = after_connect(session, ConnectEvent::Start);
            if session is Some {
                started
            } else {
                after_connect(started, ConnectEvent::Built(built))
            }
        },
        Change::Close => None,
    }
}

/// The state of a new session after some calls.
pub open spec fn after_all<S>(changes: Seq<Change<S>>) -> Option<S>
    decreases changes.len(),
{
    if changes.len() == 0 {
        None
    } else {
        after_change(after_all(changes.drop_last()), changes.last())
    }
}

/// Whether the call at the given place connected the session, and no call has closed it since.
pub open spec fn connected_at<S>(changes: Seq<Change<S>>, i: int, session: S) -> bool {
    &&& 0 <= i < changes.len()
    &&& changes[i] == Change::Connect(Ok::<S, (CassError, String)>(session))
    &&& after_all(changes.take(i)) is None
    &&& forall|j: int| i < j < changes.len() ==> #[trigger] changes[j] !is Close
}

/// A session is connected to what the first connect call to succeed since the last close call
/// gave it, and to nothing if there was none.
pub proof fn law_connected_by_first_success_since_close<S>(changes: Seq<Change<S>>, session: S)
    ensures
        after_all(changes) == Some(session) <==> exists|i: int| connected_at(changes, i, session),
    decreases changes.len(),
{
    if changes.len() > 0 {
        let before = changes.drop_last();
        let last = changes.len() - 1;
        law_connected_by_first_success_since_close(before, session);
        assert forall|i: int| 0 <= i <= last implies #[trigger] changes.take(i)
            == before.take(i) by {
            assert(changes.take(i) =~= before.take(i));
        }
        assert(before.take(last) =~= before);
        if after_all(changes) == Some(session) {
            if after_all(before) is Some {
                let i = choose|i: int| connected_at(before, i, session);
                assert forall|j: int| i < j < changes.len() implies #[trigger] changes[j]
                    !is Close by {
                    if j < last {
                        assert(before[j] == changes[j]);
                    }
                }
                assert(changes.take(i) == before.take(i));
                assert(connected_at(changes, i, session));
            } else {
                assert(changes.take(last) == before.take(last));
                assert(connected_at(changes, last, session));
            }
        }
        if exists|i: int| connected_at(changes, i, session) {
            let i = choose|i: int| connected_at(changes, i, session);
            assert(changes.take(i) == before.take(i));
            if i < last {
                assert forall|j: int| i < j < before.len() implies #[trigger] before[j]
                    !is Close by {
                    assert(changes[j] == before[j]);
                }
                assert(connected_at(before, i, session));
                assert(changes[last] !is Close);
            }
        }
    }
}

/// A connect call asks the driver for a session when it starts on a session that is not
/// connected, and never else. On a connected session it is refused. A call that is refused or
/// fails leaves the session as it was.
pub proof fn law_connect_builds_once<S, P, E>(
    session: Option<S>,
    event: ConnectEvent<S>,
    step: Step<ConnectRequest, P, E>,
)
    requires
        is_connect_step(session, event, step),
    ensures
        step is Send <==> session is None && event is Start,
        session is Some && event is Start ==> is_refusal(
            step,
            CassError::CASS_ERROR_LIB_UNABLE_TO_CONNECT,
            "Already connecting, closing, or connected"@,
        ),
        step is Send ==> after_connect(session, event) == session,
        step matches Step::Finish(Err(_)) ==> after_connect(session, event) == session,
{
}

/// An execute call sends its statement when it starts on a connected session, and never else.
/// On a session that is not connected it is refused. Whatever the driver replies is an answer,
/// an error of the driver too.
pub proof fn law_execute_sends_only_when_connected<S, P, V, E>(
    session: Option<S>,
    event: ExecuteEvent<P, V, E>,
    step: Step<ExecuteRequest<P, V>, P, E>,
)
    requires
        is_execute_step(session, event, step),
    ensures
        step is Send <==> session is Some && event is Start,
        session is None && event is Start ==> is_not_connected(step),
        event is Replied <==> (step matches Step::Finish(Ok(_))),
{
}

/// An execute call for a batch sends the batch when it starts on a connected session, and
/// never else. On a session that is not connected it is refused. Whatever the driver replies
/// is an answer, an error of the driver too.
pub proof fn law_batch_sends_only_when_connected<S, B, P, E>(
    session: Option<S>,
    event: BatchEvent<B, E>,
    step: Step<B, P, E>,
)
    requires
        is_batch_step(session, event, step),
    ensures
        step is Send <==> session is Some && event is Start,
        session is None && event is Start ==> is_not_connected(step),
        event is Replied <==> (step matches Step::Finish(Ok(_))),
{
}

/// A prepare call for a query sends it when it starts on a connected session, and never else.
/// On a session that is not connected it is refused. The call succeeds when the driver
/// prepared the query, and then paging is disabled and one replica must answer.
pub proof fn law_prepare_sends_only_when_connected<S, E>(
    session: Option<S>,
    event: PrepareEvent<Query, PreparedStatement>,
    step: Step<Query, PreparedStatement, E>,
)
    requires
        is_prepare_step(session, event, step),
    ensures
        step is Send <==> session is Some && event is Start,
        session is None && event is Start ==> is_not_connected(step),
        (event matches PrepareEvent::Replied(Ok(_))) <==> (step matches Step::Finish(Ok(_))),
        step matches Step::Finish(Ok(value)) ==> (value matches CassResultValue::Prepared(prepared)
            && reported_page_size(*prepared) is None && reported_consistency(*prepared) == Some(
            Consistency::One,
        )),
{
}

/// A prepare call for a statement sends it when it starts on a connected session and the
/// statement is not prepared yet, and never else. On a session that is not connected such a
/// statement is refused. A prepared statement is answered on any session.
pub proof fn law_prepared_statement_needs_no_session<S, P, E>(
    session: Option<S>,
    event: PrepareEvent<Statement<P>, P>,
    step: Step<Query, P, E>,
)
    requires
        is_prepare_existing_step(session, event, step),
    ensures
        step is Send <==> session is Some && (event matches PrepareEvent::Start(
            Statement::Simple(_),
        )),
        session is None && (event matches PrepareEvent::Start(Statement::Simple(_)))
            ==> is_not_connected(step),
        event matches PrepareEvent::Start(Statement::Prepared(prepared)) ==> step == Step::<
            Query,
            P,
            E,
        >::Finish(Ok(CassResultValue::Prepared(prepared))),
{
}

/// A client reads the rows that the server sent, all of them and in their order. A row has no
/// column lost, null where the server sent null, and every other value the one that was sent,
/// if and only if its columns have a place for all of it.
pub proof fn law_client_reads_what_was_sent<S, P, V, E>(
    session: Option<S>,
    result: QueryResult,
    step: Step<ExecuteRequest<P, V>, P, E>,
)
    requires
        is_execute_step(session, ExecuteEvent::<P, V, E>::Replied(Ok(result)), step),
    ensures
        step matches Step::Finish(Ok(CassResultValue::QueryResult(read))) && (
        result.rows is Some <==> read.rows is Some) && (result.rows matches Some(sent) ==> {
            &&& read.rows->0@.len() == sent@.len()
            &&& forall|r: int|
                #![trigger read.rows->0@[r]]
                0 <= r < sent@.len() ==> (row_reads_back(
                    sent@[r],
                    read.rows->0@[r].columns_model(),
                ) <==> row_fits(sent@[r], result.col_specs@))
        }),
{
    if let Some(sent) = result.rows {
        let rows = step->Finish_0->Ok_0->QueryResult_0.rows->0;
        assert forall|r: int|
            #![trigger rows@[r]]
            0 <= r < sent@.len() implies (row_reads_back(sent@[r], rows@[r].columns_model())
            <==> row_fits(sent@[r], result.col_specs@)) by {
            law_row_reads_back_if_it_fits(sent@[r], result.col_specs@);
        }
    }
}

/// Whether the answer is that of an execute call that no limit ends: what its first step
/// answers, or else what the driver's reply comes to.
pub open spec fn is_execute_answer<S, P, V, E>(
    session: Option<S>,
    statement: CassStatement<P, V>,
    reply: Result<QueryResult, E>,
    answer: Answer<P, E>,
) -> bool {
    let start = ExecuteEvent::<P, V, E>::Start(statement);
    let replied = ExecuteEvent::<P, V, E>::Replied(reply);
    let finish = Step::<ExecuteRequest<P, V>, P, E>::Finish(answer);
    let send = Step::<ExecuteRequest<P, V>, P, E>::Send(execute_request(statement));
    ||| is_execute_step(session, start, finish)
    ||| is_execute_step(session, start, send) && is_execute_step(session, replied, finish)
}

/// Whether the answer is that of an execute call for a batch that no limit ends.
pub open spec fn is_batch_answer<S, B, P, E>(
    session: Option<S>,
    batch: CassBatch<B>,
    reply: Result<(), E>,
    answer: Answer<P, E>,
) -> bool {
    let start = BatchEvent::<B, E>::Start(batch);
    let replied = BatchEvent::<B, E>::Replied(reply);
    let finish = Step::<B, P, E>::Finish(answer);
    let send = Step::<B, P, E>::Send(batch.state);
    ||| is_batch_step(session, start, finish)
    ||| is_batch_step(session, start, send) && is_batch_step(session, replied, finish)
}

/// Whether a call with the given limit, that answers the given way if no limit ends it, comes
/// to the answer. A call that runs without a limit ends with what it answers; one that runs
/// within a limit has that outcome in time, or none.
pub open spec fn is_limited_answer<P, E>(
    limit: Option<u64>,
    unlimited: Answer<P, E>,
    in_time: bool,
    answer: Answer<P, E>,
) -> bool {
    let outcome = if is_limit_step(LimitEvent::Start(limit), LimitStep::<P, E>::Run) || in_time {
        Some(unlimited)
    } else {
        None
    };
    is_limit_step(LimitEvent::Ended(outcome), LimitStep::Finish(answer))
}

/// With a time limit, a call runs within it and answers what comes of its outcome under a
/// timeout. Without one, it runs to its end, whatever time that takes, and answers that.
pub proof fn law_limit_decides_the_answer<P, E>(
    limit: Option<u64>,
    first: LimitStep<P, E>,
    unlimited: Answer<P, E>,
    in_time: bool,
    answer: Answer<P, E>,
)
    requires
        is_limit_step(LimitEvent::Start(limit), first),
        is_limited_answer(limit, unlimited, in_time, answer),
    ensures
        match limit {
            Some(ms) => first == LimitStep::<P, E>::RunWithin(ms) && answer == with_timeout(
                if in_time {
                    Some(unlimited)
                } else {
                    None
                },
            ),
            None => first == LimitStep::<P, E>::Run && answer == unlimited,
        },
{
}

/// An execute call with a time limit answers as the call without one does under a timeout, and
/// an execute call without a limit answers as it does. The limit changes nothing of what the
/// call sends or of what it answers when it finishes in time.
pub proof fn law_execute_keeps_its_limit<S, P, V, E>(
    session: Option<S>,
    statement: CassStatement<P, V>,
    reply: Result<QueryResult, E>,
    unlimited: Answer<P, E>,
    in_time: bool,
    answer: Answer<P, E>,
)
    requires
        is_execute_answer(
            session,
            (CassStatement { request_timeout_ms: None, ..statement }),
            reply,
            unlimited,
        ),
        is_limited_answer(statement.request_timeout_ms, unlimited, in_time, answer),
    ensures
        statement.request_timeout_ms is Some && in_time ==> answer == with_timeout(
            Some(unlimited),
        ),
        statement.request_timeout_ms is Some && !in_time ==> answer == with_timeout::<P, E>(None),
        statement.request_timeout_ms is None ==> answer == unlimited,
        is_execute_answer(session, statement, reply, unlimited),
        execute_request((CassStatement { request_timeout_ms: None, ..statement }))
            == execute_request(statement),
{
}

/// An execute call for a batch with a time limit answers as the call without one does under a
/// timeout, and one without a limit answers as it does. The limit is that of the batch itself,
/// and it changes nothing of what the call sends or of what it answers when it finishes in
/// time.
pub proof fn law_batch_keeps_its_limit<S, B, P, E>(
    session: Option<S>,
    batch: CassBatch<B>,
    reply: Result<(), E>,
    unlimited: Answer<P, E>,
    in_time: bool,
    answer: Answer<P, E>,
)
    requires
        is_batch_answer(
            session,
            (CassBatch { batch_request_timeout_ms: None, ..batch }),
            reply,
            unlimited,
        ),
        is_limited_answer(batch.batch_request_timeout_ms, unlimited, in_time, answer),
    ensures
        batch.batch_request_timeout_ms is Some && in_time ==> answer == with_timeout(
            Some(unlimited),
        ),
        batch.batch_request_timeout_ms is Some && !in_time ==> answer == with_timeout::<P, E>(
            None,
        ),
        batch.batch_request_timeout_ms is None ==> answer == unlimited,
        is_batch_answer(session, batch, reply, unlimited),
{
}

/// The course of a connect call: it leaves the session alone until the driver has built one,
/// and then the session is connected to just that. A connected session is refused, and what
/// the driver reports of a failure is answered as it is.
pub proof fn law_connect_course<S, P, E>(
    session: Option<S>,
    event: ConnectEvent<S>,
    step: Step<ConnectRequest, P, E>,
)
    requires
        is_connect_step(session, event, step),
    ensures
        event is Start ==> after_connect(session, event) == session,
        event is Start && session is None ==> (step matches Step::Send(
            ConnectRequest::BuildSession,
        )),
        event is Start && session is Some ==> (step matches Step::Finish(Err(error)) && error.0
            == CassError::CASS_ERROR_LIB_UNABLE_TO_CONNECT && error.1@
            == "Already connecting, closing, or connected"@),
        event matches ConnectEvent::Built(Ok(built)) ==> after_connect(session, event) == Some(
            built,
        ) && (step matches Step::Finish(Ok(CassResultValue::Empty))),
        event matches ConnectEvent::Built(Err(failure)) ==> after_connect(session, event) == session
            && (step matches Step::Finish(Err(error)) && error == failure),
{
}

/// On a connected session an execute call sends the statement itself, its query or the
/// prepared statement, with exactly its bound values and its paging state.
pub proof fn law_execute_sends_the_statement<S, P, V, E>(
    session: S,
    statement: CassStatement<P, V>,
    step: Step<ExecuteRequest<P, V>, P, E>,
)
    requires
        is_execute_step(Some(session), ExecuteEvent::<P, V, E>::Start(statement), step),
    ensures
        match statement.statement {
            Statement::Simple(query) => step matches Step::Send(
                ExecuteRequest::QueryPaged { query: sent, values, paging_state },
            ) && sent == query && values == statement.bound_values && paging_state
                == statement.paging_state,
            Statement::Prepared(prepared) => step matches Step::Send(
                ExecuteRequest::ExecutePaged { prepared: sent, values, paging_state },
            ) && sent == prepared && values == statement.bound_values && paging_state
                == statement.paging_state,
        },
{
}

/// On a session that is not connected an execute call, for a statement or for a batch, and a
/// prepare call for a text or for a statement that is not prepared send nothing, whatever they
/// are called with, and say that the session is not connected.
pub proof fn law_unconnected_session_answers<S, P, V, B, E>(
    statement: CassStatement<P, V>,
    execute: Step<ExecuteRequest<P, V>, P, E>,
    batch: CassBatch<B>,
    execute_batch: Step<B, P, E>,
    query: Query,
    prepare: Step<Query, PreparedStatement, E>,
    prepare_existing: Step<Query, P, E>,
)
    requires
        is_execute_step(None::<S>, ExecuteEvent::<P, V, E>::Start(statement), execute),
        is_batch_step(None::<S>, BatchEvent::<B, E>::Start(batch), execute_batch),
        is_prepare_step(None::<S>, PrepareEvent::Start(query), prepare),
        is_prepare_existing_step(
            None::<S>,
            PrepareEvent::<Statement<P>, P>::Start(Statement::Simple(query)),
            prepare_existing,
        ),
    ensures
        execute matches Step::Finish(Err(error)) && error.0
            == CassError::CASS_ERROR_LIB_NO_HOSTS_AVAILABLE && error.1@
            == "Session is not connected"@,
        execute_batch matches Step::Finish(Err(error)) && error.0
            == CassError::CASS_ERROR_LIB_NO_HOSTS_AVAILABLE && error.1@
            == "Session is not connected"@,
        prepare matches Step::Finish(Err(error)) && error.0
            == CassError::CASS_ERROR_LIB_NO_HOSTS_AVAILABLE && error.1@
            == "Session is not connected"@,
        prepare_existing matches Step::Finish(Err(error)) && error.0
            == CassError::CASS_ERROR_LIB_NO_HOSTS_AVAILABLE && error.1@
            == "Session is not connected"@,
{
}

/// What the driver replies to a statement reaches the client: the paging state, the columns and
/// the tracing id of the result as they are, its rows one for one, each column under the type
/// of its specification; or the driver's error as it is.
pub proof fn law_execute_answers_the_reply<S, P, V, E>(
    session: Option<S>,
    reply: Result<QueryResult, E>,
    step: Step<ExecuteRequest<P, V>, P, E>,
)
    requires
        is_execute_step(session, ExecuteEvent::<P, V, E>::Replied(reply), step),
    ensures
        reply matches Err(failure) ==> (step matches Step::Finish(
            Ok(CassResultValue::QueryError(error)),
        ) && (*error matches QueryError::Driver(e) && e == failure)),
        reply matches Ok(result) ==> (step matches Step::Finish(
            Ok(CassResultValue::QueryResult(read)),
        ) && {
            &&& read.metadata.paging_state == result.paging_state
            &&& read.metadata.col_specs == result.col_specs
            &&& read.metadata.tracing_id == result.tracing_id
            &&& read.rows is Some <==> result.rows is Some
            &&& result.rows is Some ==> read.rows->0@.len() == result.rows->0@.len()
            &&& result.rows is Some ==> forall|r: int|
                #![trigger read.rows->0@[r]]
                0 <= r < read.rows->0@.len() ==> {
                    let columns = read.rows->0@[r].columns@.len();
                    &&& read.rows->0@[r].result_metadata == read.metadata
                    &&& columns <= result.rows->0@[r].columns@.len()
                    &&& columns <= result.col_specs@.len()
                    &&& columns == result.rows->0@[r].columns@.len() || columns
                        == result.col_specs@.len()
                }
            &&& result.rows is Some ==> forall|r: int, i: int|
                #![trigger read.rows->0@[r].columns@[i]]
                0 <= r < read.rows->0@.len() && 0 <= i < read.rows->0@[r].columns@.len() ==> {
                    let column = read.rows->0@[r].columns@[i];
                    let sent = result.rows->0@[r].columns@[i];
                    let typ = type_of_column(result.col_specs@[i].typ.model());
                    &&& column.value_type.model() == typ
                    &&& column.value is Some <==> sent is Some
                    &&& sent is Some ==> column.value->0.model() == column_value(
                        sent->0.model(),
                        typ,
                    )
                }
        }),
{
    if let Ok(result) = reply {
        let read = step->Finish_0->Ok_0->QueryResult_0;
        law_rows_are_read_one_for_one(&result.rows, &read.rows, &read.metadata);
    }
}

/// On a connected session an execute call for a batch sends what the batch holds. What comes of
/// the driver's reply is a result with no rows, no columns, no paging state and no tracing id,
/// or the driver's error as it is.
pub proof fn law_batch_course<S, B, P, E>(
    session: S,
    event: BatchEvent<B, E>,
    step: Step<B, P, E>,
)
    requires
        is_batch_step(Some(session), event, step),
    ensures
        event matches BatchEvent::Start(batch) ==> (step matches Step::Send(sent) && sent
            == batch.state),
        event matches BatchEvent::Replied(Ok(_)) ==> (step matches Step::Finish(
            Ok(CassResultValue::QueryResult(read)),
        ) && read.rows is None && read.metadata.col_specs@.len() == 0
            && read.metadata.paging_state is None && read.metadata.tracing_id is None),
        event matches BatchEvent::Replied(Err(failure)) ==> (step matches Step::Finish(
            Ok(CassResultValue::QueryError(error)),
        ) && (*error matches QueryError::Driver(e) && e == failure)),
{
}

/// On a connected session a prepare call for a text sends the query itself. The statement that
/// the driver prepared is answered with paging disabled and then the consistency set to one
/// replica, and changed in nothing else; an error of the driver is answered as it is.
pub proof fn law_prepare_course<S, E>(
    session: S,
    event: PrepareEvent<Query, PreparedStatement>,
    step: Step<Query, PreparedStatement, E>,
)
    requires
        is_prepare_step(Some(session), event, step),
    ensures
        event matches PrepareEvent::Start(query) ==> (step matches Step::Send(sent) && sent
            == query),
        event matches PrepareEvent::Replied(Ok(prepared)) ==> (step matches Step::Finish(
            Ok(CassResultValue::Prepared(answered)),
        ) && *answered == consistency_set(paging_disabled(prepared), Consistency::One)
            && reported_page_size(*answered) is None && reported_consistency(*answered) == Some(
            Consistency::One,
        )),
        event matches PrepareEvent::Replied(Err(failure)) ==> (step matches Step::Finish(
            Err(error),
        ) && error == failure),
{
}

/// On a connected session a prepare call for a statement sends its query, unless it is prepared
/// already: then that very statement is the answer. The statement that the driver prepared is
/// answered as it is, and so is an error of the driver.
pub proof fn law_prepare_existing_course<S, P, E>(
    session: S,
    event: PrepareEvent<Statement<P>, P>,
    step: Step<Query, P, E>,
)
    requires
        is_prepare_existing_step(Some(session), event, step),
    ensures
        event matches PrepareEvent::Start(Statement::Simple(query)) ==> (step matches Step::Send(
            sent,
        ) && sent == query),
        event matches PrepareEvent::Start(Statement::Prepared(prepared)) ==> (step matches
            Step::Finish(Ok(CassResultValue::Prepared(answered))) && answered == prepared),
        event matches PrepareEvent::Replied(Ok(prepared)) ==> (step matches Step::Finish(
            Ok(CassResultValue::Prepared(answered)),
        ) && *answered == prepared),
        event matches PrepareEvent::Replied(Err(failure)) ==> (step matches Step::Finish(
            Err(error),
        ) && error == failure),
{
}

/// The query of a prepare call has the text that was handed over, all of it, and there is a
/// query if and only if there is a text.
pub proof fn law_query_has_the_text(read: Option<Query>, text: Option<Seq<char>>)
    requires
        is_query_read(read, text),
    ensures
        read is Some <==> text is Some,
        text is Some ==> read->0 == query_of(text->0) && query_text(read->0) == text->0,
{
}

/// A call without a time limit runs without one, and a call with a limit runs within just that
/// one. A call that finished is answered as it finished, and one that did not with a timeout.
pub proof fn law_limit_course<P, E>(event: LimitEvent<P, E>, step: LimitStep<P, E>)
    requires
        is_limit_step(event, step),
    ensures
        event matches LimitEvent::Start(None) ==> step is Run,
        event matches LimitEvent::Start(Some(limit)) ==> (step matches LimitStep::RunWithin(ms)
            && ms == limit),
        event matches LimitEvent::Ended(Some(outcome)) ==> (step matches LimitStep::Finish(answer)
            && answer == outcome),
        event matches LimitEvent::Ended(None) ==> (step matches LimitStep::Finish(
            Ok(CassResultValue::QueryError(error)),
        ) && *error is TimeoutError),
{
}

/// Under a timeout a call that finished is answered as it finished, and one that did not with a
/// timeout, which is a result of the call and not a failure of it.
pub proof fn law_timeout_is_an_answer<P, E>(outcome: Option<Answer<P, E>>, answer: Answer<P, E>)
    requires
        answer == with_timeout(outcome),
    ensures
        outcome is Some ==> answer == outcome->0,
        outcome is None ==> (answer matches Ok(CassResultValue::QueryError(error))
            && *error is TimeoutError),
{
}

} // verus!
