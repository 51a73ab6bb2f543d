use write_proxy::query::{ErrorCode, Kind, QueryError, QueryResponse, Value};
use write_proxy::router::{ForwardOutcome, RoutePlan, WriteProxyDatabase};
use write_proxy::state::State;

fn handle_with_id(client_id: u128) -> WriteProxyDatabase {
    WriteProxyDatabase { state: State::Start, client_id, closed: false }
}

fn empty_rows() -> QueryResponse {
    QueryResponse { column_names: Vec::new(), rows: Vec::new() }
}

fn sql_error(message: &str) -> QueryError {
    QueryError { code: ErrorCode::StatementError, message: message.to_string() }
}

#[test]
fn fresh_handles_start_outside_a_transaction_with_distinct_sessions() {
    let a = WriteProxyDatabase::new();
    let b = WriteProxyDatabase::new();
    assert_eq!(a.state, State::Start);
    assert_eq!(b.state, State::Start);
    assert!(!a.closed);
    assert_ne!(a.client_id, b.client_id);
}

#[test]
fn scenario_select_while_start_runs_locally() {
    let db = handle_with_id(7);
    // `SELECT 1` while `Start`: executed locally, the primary sees no call.
    assert!(matches!(db.plan(Kind::ReadOnly), RoutePlan::Local));
    assert_eq!(db.state, State::Start);
}

#[test]
fn scenario_begin_insert_commit_forwards_three_calls_same_session() {
    let mut db = handle_with_id(42);
    let mut forwarded = Vec::new();

    for kind in [Kind::Begin, Kind::Write, Kind::Commit] {
        match db.plan(kind) {
            RoutePlan::Forward(sid) => forwarded.push(sid),
            _ => panic!("expected a forward"),
        }
        let r = db.apply_outcome(kind, ForwardOutcome::Rows(empty_rows()));
        assert!(r.is_ok());
    }
    assert_eq!(forwarded, vec![42, 42, 42]);
    // State path: Start -> InTransaction -> InTransaction -> Start.
    assert_eq!(db.state, State::Start);

    let mut db2 = handle_with_id(42);
    db2.apply_outcome(Kind::Begin, ForwardOutcome::Rows(empty_rows()));
    assert_eq!(db2.state, State::InTransaction);
    db2.apply_outcome(Kind::Write, ForwardOutcome::Rows(empty_rows()));
    assert_eq!(db2.state, State::InTransaction);
    db2.apply_outcome(Kind::Commit, ForwardOutcome::Rows(empty_rows()));
    assert_eq!(db2.state, State::Start);
}

#[test]
fn scenario_sql_error_keeps_transaction_open_for_rollback() {
    let mut db = handle_with_id(9);
    db.apply_outcome(Kind::Begin, ForwardOutcome::Rows(empty_rows()));
    assert_eq!(db.state, State::InTransaction);

    // The primary reports a SQL-level failure for an INSERT: the caller
    // gets that error back and the transaction context survives.
    let r = db.apply_outcome(Kind::Write, ForwardOutcome::SqlError(sql_error("constraint failed")));
    let e = r.unwrap_err();
    assert_eq!(e.code, ErrorCode::StatementError);
    assert_eq!(e.message, "constraint failed");
    assert_eq!(db.state, State::InTransaction);

    // A following ROLLBACK still forwards and returns the state to Start.
    assert!(matches!(db.plan(Kind::Rollback), RoutePlan::Forward(9)));
    let r = db.apply_outcome(Kind::Rollback, ForwardOutcome::Rows(empty_rows()));
    assert!(r.is_ok());
    assert_eq!(db.state, State::Start);
}

#[test]
fn scenario_transport_failure_desynchronizes_the_handle() {
    let mut db = handle_with_id(5);
    let r = db.apply_outcome(Kind::Write, ForwardOutcome::TransportError("broken pipe".to_string()));
    let e = r.unwrap_err();
    assert_eq!(e.code, ErrorCode::ConnectionError);
    assert_eq!(e.message, "broken pipe");
    assert_eq!(db.state, State::Desynchronized);

    // The next statement on the same handle fails with a state error
    // without the primary being contacted again.
    match db.plan(Kind::ReadOnly) {
        RoutePlan::Reject(e) => assert_eq!(e.code, ErrorCode::StateError),
        _ => panic!("expected a rejection"),
    }
    match db.plan(Kind::Write) {
        RoutePlan::Reject(e) => assert_eq!(e.code, ErrorCode::StateError),
        _ => panic!("expected a rejection"),
    }
    assert_eq!(db.state, State::Desynchronized);
}

#[test]
fn confirmed_forwards_return_the_rows_unchanged() {
    let mut db = handle_with_id(3);
    let response = QueryResponse {
        column_names: vec!["id".to_string(), "name".to_string()],
        rows: vec![
            vec![Value::Integer(1), Value::Text("ada".to_string())],
            vec![Value::Integer(2), Value::Null],
        ],
    };
    let expected = QueryResponse {
        column_names: response.column_names.clone(),
        rows: vec![
            vec![Value::Integer(1), Value::Text("ada".to_string())],
            vec![Value::Integer(2), Value::Null],
        ],
    };
    let r = db.apply_outcome(Kind::ReadOnly, ForwardOutcome::Rows(response)).unwrap();
    assert_eq!(r, expected);
}

#[test]
fn teardown_notifies_exactly_once_with_own_session_id() {
    let mut db = handle_with_id(77);
    assert_eq!(db.teardown(), Some(77));
    assert!(db.closed);
    assert_eq!(db.teardown(), None);
    assert_eq!(db.client_id, 77);
}

#[test]
fn session_id_is_unchanged_for_the_life_of_the_handle() {
    let mut db = handle_with_id(13);
    db.apply_outcome(Kind::Begin, ForwardOutcome::Rows(empty_rows()));
    assert_eq!(db.client_id, 13);
    db.apply_outcome(Kind::Write, ForwardOutcome::SqlError(sql_error("boom")));
    assert_eq!(db.client_id, 13);
    db.apply_outcome(Kind::Write, ForwardOutcome::TransportError("gone".to_string()));
    assert_eq!(db.client_id, 13);
    assert!(matches!(db.plan(Kind::Write), RoutePlan::Reject(_)));
    assert_eq!(db.client_id, 13);
}
