use scylla::prepared_statement::PreparedStatement;
use scylla::query::Query;
use scylla_session::cass_types::{ColumnType, NativeType};
use scylla_session::query_result::{
    ColumnSpec, CqlValue, QueryResult, Row, TableSpec, Value,
};
use scylla_session::session::{
    batch_limit, cass_session_close, cass_session_connect, cass_session_execute,
    cass_session_execute_batch, cass_session_new, cass_session_prepare,
    cass_session_prepare_from_existing, cass_session_prepare_n, prepare_query,
    request_with_timeout, run_with_limit, statement_limit, Answer, BatchEvent, CassBatch,
    CassError, CassResultValue, CassSession, CassStatement, ConnectEvent, ConnectRequest,
    ExecuteEvent, ExecuteRequest, LimitEvent, LimitStep, PrepareEvent, QueryError, Statement,
    Step,
};
use std::sync::Arc;

type Prepared = u32;
type ExecuteStep = Step<ExecuteRequest<Prepared, Vec<i32>>, Prepared, &'static str>;

fn connect(session: &mut CassSession<u8>, event: ConnectEvent<u8>) -> Step<ConnectRequest, Prepared, ()> {
    cass_session_connect(session, event)
}

fn close(session: &mut CassSession<u8>) -> Answer<Prepared, ()> {
    cass_session_close(session)
}

fn connected() -> CassSession<u8> {
    CassSession { session: Some(1) }
}

fn unconnected() -> CassSession<u8> {
    cass_session_new()
}

fn not_connected<P, E>() -> Answer<P, E> {
    Err((
        CassError::CASS_ERROR_LIB_NO_HOSTS_AVAILABLE,
        "Session is not connected".to_string(),
    ))
}

fn statement(statement: Statement<Prepared>) -> CassStatement<Prepared, Vec<i32>> {
    CassStatement {
        statement,
        bound_values: vec![4, 5],
        paging_state: Some(vec![6]),
        request_timeout_ms: None,
    }
}

fn prepared() -> Prepared {
    7
}

#[test]
fn new_session_is_not_connected() {
    assert_eq!(unconnected().session, None);
}

#[test]
fn session_connects_and_closes() {
    let mut session = unconnected();
    assert_eq!(
        connect(&mut session, ConnectEvent::Start),
        Step::Send(ConnectRequest::BuildSession)
    );
    assert_eq!(session.session, None);
    assert_eq!(
        connect(&mut session, ConnectEvent::Built(Ok(3))),
        Step::Finish(Ok(CassResultValue::Empty))
    );
    assert_eq!(session.session, Some(3));
    assert_eq!(close(&mut session), Ok(CassResultValue::Empty));
    assert_eq!(session.session, None);
    assert_eq!(
        connect(&mut session, ConnectEvent::Start),
        Step::Send(ConnectRequest::BuildSession)
    );
}

#[test]
fn connected_session_refuses_to_connect() {
    let mut session = connected();
    assert_eq!(
        connect(&mut session, ConnectEvent::Start),
        Step::Finish(Err((
            CassError::CASS_ERROR_LIB_UNABLE_TO_CONNECT,
            "Already connecting, closing, or connected".to_string()
        )))
    );
    assert_eq!(session.session, Some(1));
}

#[test]
fn failed_connect_leaves_the_session_unconnected() {
    let mut session = unconnected();
    let error = || (CassError::CASS_ERROR_LIB_HOST_RESOLUTION, "no such host".to_string());
    assert_eq!(
        connect(&mut session, ConnectEvent::Built(Err(error()))),
        Step::Finish(Err(error()))
    );
    assert_eq!(session.session, None);
}

#[test]
fn unconnected_session_refuses_to_close() {
    let mut session = unconnected();
    assert_eq!(
        close(&mut session),
        Err((
            CassError::CASS_ERROR_LIB_UNABLE_TO_CLOSE,
            "Already closing or closed".to_string()
        ))
    );
    assert_eq!(session.session, None);
}

#[test]
fn simple_statement_is_queried() {
    let start = ExecuteEvent::Start(statement(Statement::Simple(Query::new("SELECT 1"))));
    let step: ExecuteStep = cass_session_execute(&connected(), start);
    match step {
        Step::Send(ExecuteRequest::QueryPaged { query, values, paging_state }) => {
            assert_eq!(query.contents, "SELECT 1");
            assert_eq!(values, vec![4, 5]);
            assert_eq!(paging_state, Some(vec![6]));
        }
        _ => panic!("not queried"),
    }
}

#[test]
fn prepared_statement_is_executed() {
    let shared = Arc::new(prepared());
    let start = ExecuteEvent::Start(statement(Statement::Prepared(shared.clone())));
    let step: ExecuteStep = cass_session_execute(&connected(), start);
    match step {
        Step::Send(ExecuteRequest::ExecutePaged { prepared, values, paging_state }) => {
            assert!(Arc::ptr_eq(&prepared, &shared));
            assert_eq!(values, vec![4, 5]);
            assert_eq!(paging_state, Some(vec![6]));
        }
        _ => panic!("not executed"),
    }
}

#[test]
fn statement_needs_a_connected_session() {
    let start = ExecuteEvent::Start(statement(Statement::Simple(Query::new("SELECT 1"))));
    let step: ExecuteStep = cass_session_execute(&unconnected(), start);
    match step {
        Step::Finish(answer) => assert_eq!(answer, not_connected()),
        _ => panic!("sent"),
    }
}

#[test]
fn client_reads_what_the_server_sent() {
    let col_spec = ColumnSpec {
        table_spec: TableSpec { ks_name: "ks".to_string(), table_name: "t".to_string() },
        name: "n".to_string(),
        typ: ColumnType::Native(NativeType::Int),
    };
    let result = QueryResult {
        rows: Some(vec![
            Row { columns: vec![Some(CqlValue::Int(8))] },
            Row { columns: vec![None] },
        ]),
        tracing_id: Some(11),
        paging_state: Some(vec![1, 2]),
        col_specs: vec![col_spec],
    };
    let step: ExecuteStep =
        cass_session_execute(&connected(), ExecuteEvent::Replied(Ok(result)));
    match step {
        Step::Finish(Ok(CassResultValue::QueryResult(result))) => {
            let rows = result.rows.as_ref().unwrap();
            assert_eq!(rows.len(), 2);
            assert_eq!(rows[0].columns[0].value, Some(Value::RegularValue(CqlValue::Int(8))));
            assert_eq!(rows[1].columns[0].value, None);
            assert!(Arc::ptr_eq(&rows[0].result_metadata, &result.metadata));
            assert_eq!(result.metadata.tracing_id, Some(11));
            assert_eq!(result.metadata.paging_state, Some(vec![1, 2]));
            assert_eq!(result.metadata.col_specs.len(), 1);
            assert_eq!(result.metadata.col_specs[0].name, "n");
        }
        _ => panic!("no result"),
    }
}

#[test]
fn failed_statement_is_an_answer() {
    let step: ExecuteStep =
        cass_session_execute(&connected(), ExecuteEvent::Replied(Err("overloaded")));
    match step {
        Step::Finish(Ok(CassResultValue::QueryError(error))) => {
            assert_eq!(*error, QueryError::Driver("overloaded"));
        }
        _ => panic!("no answer"),
    }
}

#[test]
fn batch_goes_to_the_driver() {
    let start = || {
        BatchEvent::Start(CassBatch { state: vec![1, 2], batch_request_timeout_ms: Some(3) })
    };
    let step: Step<Vec<u8>, Prepared, ()> = cass_session_execute_batch(&connected(), start());
    assert_eq!(step, Step::Send(vec![1, 2]));
    let step: Step<Vec<u8>, Prepared, ()> = cass_session_execute_batch(&unconnected(), start());
    assert_eq!(step, Step::Finish(not_connected()));
}

#[test]
fn batch_answers_an_empty_result_or_the_error() {
    let step: Step<Vec<u8>, Prepared, u8> =
        cass_session_execute_batch(&connected(), BatchEvent::Replied(Ok(())));
    match step {
        Step::Finish(Ok(CassResultValue::QueryResult(result))) => {
            assert_eq!(result.rows, None);
            assert_eq!(result.metadata.paging_state, None);
            assert_eq!(result.metadata.col_specs, vec![]);
            assert_eq!(result.metadata.tracing_id, None);
        }
        _ => panic!("no result"),
    }
    let step: Step<Vec<u8>, Prepared, u8> =
        cass_session_execute_batch(&connected(), BatchEvent::Replied(Err(9)));
    assert_eq!(
        step,
        Step::Finish(Ok(CassResultValue::QueryError(Arc::new(QueryError::Driver(9)))))
    );
}

#[test]
fn late_request_times_out() {
    let answer: Answer<Prepared, ()> = request_with_timeout(None);
    assert_eq!(
        answer,
        Ok(CassResultValue::QueryError(Arc::new(QueryError::TimeoutError)))
    );
    let answer: Answer<Prepared, ()> = request_with_timeout(Some(not_connected()));
    assert_eq!(answer, not_connected());
    let answer: Answer<Prepared, ()> = request_with_timeout(Some(Ok(CassResultValue::Empty)));
    assert_eq!(answer, Ok(CassResultValue::Empty));
}

#[test]
fn prepared_statement_is_answered_without_a_session() {
    let shared = Arc::new(prepared());
    let start = PrepareEvent::Start(Statement::Prepared(shared.clone()));
    let step: Step<Query, Prepared, ()> =
        cass_session_prepare_from_existing(&unconnected(), start);
    match step {
        Step::Finish(Ok(CassResultValue::Prepared(prepared))) => {
            assert!(Arc::ptr_eq(&prepared, &shared));
        }
        _ => panic!("not answered"),
    }
}

#[test]
fn simple_statement_is_prepared_as_it_is() {
    let simple = || PrepareEvent::Start(Statement::Simple(Query::new("SELECT 2")));
    let step: Step<Query, Prepared, ()> =
        cass_session_prepare_from_existing(&connected(), simple());
    match step {
        Step::Send(query) => assert_eq!(query.contents, "SELECT 2"),
        _ => panic!("not sent"),
    }
    let step: Step<Query, Prepared, ()> =
        cass_session_prepare_from_existing(&unconnected(), simple());
    match step {
        Step::Finish(answer) => assert_eq!(answer, not_connected()),
        _ => panic!("sent"),
    }
    let step: Step<Query, Prepared, ()> =
        cass_session_prepare_from_existing(&connected(), PrepareEvent::Replied(Ok(prepared())));
    match step {
        Step::Finish(answer) => {
            assert_eq!(answer, Ok(CassResultValue::Prepared(Arc::new(prepared()))));
        }
        _ => panic!("sent"),
    }
    let error = || (CassError::CASS_ERROR_SERVER_SYNTAX_ERROR, "no".to_string());
    let step: Step<Query, Prepared, ()> =
        cass_session_prepare_from_existing(&connected(), PrepareEvent::Replied(Err(error())));
    match step {
        Step::Finish(answer) => assert_eq!(answer, Err(error())),
        _ => panic!("sent"),
    }
}

#[test]
fn query_text_is_read() {
    let query = cass_session_prepare_n(Some(b"SELECT 3; and more"), 8).unwrap();
    assert_eq!(query.contents, "SELECT 3");
    let query = cass_session_prepare(Some(b"SELECT 4\0 and more")).unwrap();
    assert_eq!(query.contents, "SELECT 4");
    assert!(cass_session_prepare(None).is_none());
    assert!(cass_session_prepare_n(None, 3).is_none());
    assert!(cass_session_prepare_n(Some(&[b'a', 0xff]), 2).is_none());
    assert_eq!(cass_session_prepare_n(Some(&[b'a', 0xff]), 1).unwrap().contents, "a");
}

#[test]
fn query_is_prepared_on_a_connected_session() {
    let step: Step<Query, PreparedStatement, ()> =
        prepare_query(&connected(), PrepareEvent::Start(Query::new("SELECT 5")));
    match step {
        Step::Send(query) => assert_eq!(query.contents, "SELECT 5"),
        _ => panic!("not sent"),
    }
    let step: Step<Query, PreparedStatement, ()> =
        prepare_query(&unconnected(), PrepareEvent::Start(Query::new("SELECT 5")));
    match step {
        Step::Finish(Err(error)) => assert_eq!(Err(error), not_connected::<u8, u8>()),
        _ => panic!("not refused"),
    }
    let error = || (CassError::CASS_ERROR_SERVER_INVALID_QUERY, "bad".to_string());
    let step: Step<Query, PreparedStatement, ()> =
        prepare_query(&connected(), PrepareEvent::Replied(Err(error())));
    match step {
        Step::Finish(Err(answered)) => assert_eq!(answered, error()),
        _ => panic!("no error"),
    }
}

#[test]
fn session_keeps_what_connected_it_first() {
    let mut session = unconnected();
    let failure = || (CassError::CASS_ERROR_LIB_NO_HOSTS_AVAILABLE, "down".to_string());
    connect(&mut session, ConnectEvent::Start);
    connect(&mut session, ConnectEvent::Built(Err(failure())));
    assert_eq!(session.session, None);
    connect(&mut session, ConnectEvent::Start);
    connect(&mut session, ConnectEvent::Built(Ok(4)));
    connect(&mut session, ConnectEvent::Start);
    assert_eq!(session.session, Some(4));
    assert_eq!(close(&mut session), Ok(CassResultValue::Empty));
    connect(&mut session, ConnectEvent::Start);
    connect(&mut session, ConnectEvent::Built(Ok(5)));
    assert_eq!(session.session, Some(5));
}

#[test]
fn limits_come_from_the_statement_or_the_batch() {
    let mut limited = statement(Statement::Prepared(Arc::new(prepared())));
    assert_eq!(statement_limit(&limited), None);
    limited.request_timeout_ms = Some(250);
    assert_eq!(statement_limit(&limited), Some(250));
    let batch = CassBatch { state: limited, batch_request_timeout_ms: Some(40) };
    assert_eq!(batch_limit(&batch), Some(40));
    let batch = CassBatch { state: batch.state, batch_request_timeout_ms: None };
    assert_eq!(batch_limit(&batch), None);
}

#[test]
fn call_runs_within_its_limit() {
    let step: LimitStep<Prepared, ()> = run_with_limit(LimitEvent::Start(Some(250)));
    assert_eq!(step, LimitStep::RunWithin(250));
    let step: LimitStep<Prepared, ()> = run_with_limit(LimitEvent::Start(Some(0)));
    assert_eq!(step, LimitStep::RunWithin(0));
    let step: LimitStep<Prepared, ()> = run_with_limit(LimitEvent::Start(None));
    assert_eq!(step, LimitStep::Run);
    let step: LimitStep<Prepared, ()> = run_with_limit(LimitEvent::Ended(None));
    assert_eq!(
        step,
        LimitStep::Finish(Ok(CassResultValue::QueryError(Arc::new(QueryError::TimeoutError))))
    );
    let step: LimitStep<Prepared, ()> =
        run_with_limit(LimitEvent::Ended(Some(Ok(CassResultValue::Empty))));
    assert_eq!(step, LimitStep::Finish(Ok(CassResultValue::Empty)));
}
