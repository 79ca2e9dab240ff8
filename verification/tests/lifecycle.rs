//! End-to-end lifecycle scenarios against the mock driver: transaction
//! scoping, cursor hygiene, statement caching and handle release.

use rsfbclient::error::FbError;
use rsfbclient::mock_client::{MockEvent, MockFbClient, ResponseStrategy};
use rsfbclient::ops::{StmtType, TrIsolationLevel, TrOp};
use rsfbclient::pool::FirebirdConnectionManager;
use rsfbclient::value::SqlType;
use rsfbclient::wrappers::{ConnectedFbClient, DisconnectedFbClient, DropBehavior, Tran};

fn open_mock() -> ConnectedFbClient<MockFbClient> {
    let client = MockFbClient::new(ResponseStrategy::AlwaysSucceed);
    DisconnectedFbClient::new(client)
        .connect(&())
        .map_err(|(_, e)| e)
        .expect("mock attach cannot fail")
}

fn open_mock_with_cache(capacity: usize) -> ConnectedFbClient<MockFbClient> {
    let client = MockFbClient::new(ResponseStrategy::AlwaysSucceed);
    DisconnectedFbClient::with_configuration(client, rsfbclient::ops::Dialect::D3, capacity)
        .connect(&())
        .map_err(|(_, e)| e)
        .expect("mock attach cannot fail")
}

fn events_of(conn: ConnectedFbClient<MockFbClient>) -> Vec<MockEvent> {
    conn.into_client().events().clone()
}

#[test]
fn closure_error_comes_back_and_transaction_rolls_back() {
    let mut conn = open_mock();
    let res: Result<(), FbError> = conn.with_transaction(DropBehavior::Rollback, |mut t| {
        t.execute_immediate("insert into product values (1)")
            .expect("mock exec cannot fail");
        (t, Err(FbError::Other("boom".to_string())))
    });
    match res {
        Err(FbError::Other(msg)) => assert_eq!(msg, "boom"),
        other => panic!("expected the closure's own error back, got {:?}", other),
    }
    let events = events_of(conn);
    // The dirty transaction was rolled back on the way out.
    assert!(events
        .iter()
        .any(|e| matches!(e, MockEvent::TransactionOp(_, TrOp::Rollback))));
}

#[test]
fn closure_error_rolls_back_retaining_under_result_resolution() {
    let mut conn = open_mock();
    let res: Result<(), FbError> = conn.with_transaction_by_result(|mut t| {
        t.execute_immediate("insert into product values (1)")
            .expect("mock exec cannot fail");
        (t, Err(FbError::Other("boom".to_string())))
    });
    match res {
        Err(FbError::Other(msg)) => assert_eq!(msg, "boom"),
        other => panic!("expected the closure's own error back, got {:?}", other),
    }
    let events = events_of(conn);
    assert!(events
        .iter()
        .any(|e| matches!(e, MockEvent::TransactionOp(_, TrOp::RollbackRetaining))));
}

#[test]
fn closure_success_commits_retaining_under_result_resolution() {
    let mut conn = open_mock();
    conn.with_transaction_by_result(|mut t| {
        t.execute_immediate("insert into product values (1)")
            .expect("mock exec cannot fail");
        (t, Ok(()))
    })
    .expect("transaction should commit");
    let events = events_of(conn);
    assert!(events
        .iter()
        .any(|e| matches!(e, MockEvent::TransactionOp(_, TrOp::CommitRetaining))));
}

#[test]
fn with_transaction_leaves_a_clean_transaction() {
    let mut conn = open_mock();
    conn.with_transaction(DropBehavior::Rollback, |mut t| {
        t.execute_immediate("update product set id = 2")
            .expect("mock exec cannot fail");
        (t, Ok(()))
    })
    .expect("transaction should resolve");
    // A second transaction opens without complaint: nothing was left open.
    conn.with_transaction(DropBehavior::Commit, |t| (t, Ok(())))
        .expect("second transaction should open");
}

#[test]
fn statement_op_after_commit_fails_with_no_transaction() {
    let mut conn = open_mock();
    conn.with_transaction(DropBehavior::Commit, |mut t| {
        t.commit().expect("mock commit cannot fail");
        let err = t
            .execute_immediate("insert into product values (1)")
            .expect_err("statement op after commit must fail");
        assert!(matches!(err, FbError::ExecutionFailure(_)));
        assert_eq!(err.message(), "no transaction");
        let err = t.prepare("select 1 from rdb$database").expect_err("prepare too");
        assert!(matches!(err, FbError::ExecutionFailure(_)));
        assert_eq!(err.message(), "no transaction");
        let err = t.commit_retaining().expect_err("commit-retaining too");
        assert_eq!(err.message(), "no transaction");
        (t, Ok(()))
    })
    .expect("outer call still succeeds");
}

#[test]
fn select_via_execute_leaves_no_open_cursor() {
    let mut conn = open_mock();
    conn.with_transaction(DropBehavior::Commit, |mut t| {
        let stmt = t.prepare("select id from product").expect("prepare");
        assert!(matches!(stmt.stmt_type(), StmtType::Select));
        t.execute(&stmt, vec![]).expect("execute");
        t.finish_statement(stmt);
        (t, Ok(()))
    })
    .expect("transaction");
    let events = events_of(conn);
    // The execution was followed by a cursor close on the same handle.
    let exec_pos = events
        .iter()
        .position(|e| matches!(e, MockEvent::Executed(_)))
        .expect("statement executed");
    assert!(
        events[exec_pos..].iter().any(|e| matches!(e, MockEvent::ClosedStmt(_))),
        "no cursor close after executing a select"
    );
}

#[test]
fn execute_then_query_on_the_same_statement_succeeds() {
    let mut conn = open_mock();
    conn.with_transaction(DropBehavior::Commit, |mut t| {
        let stmt = t.prepare("select id from product").expect("prepare");
        t.execute(&stmt, vec![]).expect("execute (non-query)");
        // No stale cursor blocks reuse: a query on the same statement works.
        let cursor = match t.query(stmt, vec![]) {
            Ok(c) => c,
            Err((_, e)) => panic!("query after execute failed: {:?}", e),
        };
        let row = t.fetch(&cursor).expect("fetch");
        assert!(row.is_none(), "the mock yields no rows");
        let stmt = t.close_cursor(cursor);
        t.finish_statement(stmt);
        (t, Ok(()))
    })
    .expect("transaction");
}

#[test]
fn prepare_of_empty_sql_is_a_protocol_failure() {
    let mut conn = open_mock();
    conn.with_transaction(DropBehavior::Commit, |mut t| {
        let err = t.prepare("").expect_err("empty sql must be refused");
        assert!(matches!(err, FbError::ProtocolFailure(_)));
        (t, Ok(()))
    })
    .expect("transaction");
}

#[test]
fn query_with_parameter_yields_the_mock_row_stream() {
    let mut conn = open_mock();
    conn.with_transaction(DropBehavior::Commit, |mut t| {
        let stmt = t
            .prepare("SELECT -3 FROM RDB$DATABASE WHERE 1 = ?")
            .expect("prepare");
        let cursor = match t.query(stmt, vec![SqlType::Integer(1)]) {
            Ok(c) => c,
            Err((_, e)) => panic!("query failed: {:?}", e),
        };
        // Against a live server this row would hold Integer(-3); the mock
        // driver ends the stream at once.
        let row = t.fetch(&cursor).expect("fetch");
        assert!(row.is_none());
        let stmt = t.close_cursor(cursor);
        t.finish_statement(stmt);
        (t, Ok(()))
    })
    .expect("transaction");
}

#[test]
fn disconnect_detaches_exactly_once() {
    let conn = open_mock();
    let disc = conn.disconnect().map_err(|(_, e)| e).expect("mock detach cannot fail");
    let events = disc.into_client().events().clone();
    let detaches = events.iter().filter(|e| matches!(e, MockEvent::Detached(_))).count();
    assert_eq!(detaches, 1);
}

#[test]
fn every_prepared_handle_is_dropped_by_disconnect() {
    let mut conn = open_mock_with_cache(2);
    conn.with_transaction(DropBehavior::Commit, |mut t| {
        let a = t.prepare("select a from t1").expect("prepare a");
        let b = t.prepare("select b from t2").expect("prepare b");
        t.execute(&a, vec![]).expect("execute a");
        t.finish_statement(a);
        t.finish_statement(b);
        (t, Ok(()))
    })
    .expect("transaction");
    let disc = conn.disconnect().map_err(|(_, e)| e).expect("detach");
    let events = disc.into_client().events().clone();
    let prepared: Vec<u64> = events
        .iter()
        .filter_map(|e| match e {
            MockEvent::Prepared(h) => Some(*h),
            _ => None,
        })
        .collect();
    assert_eq!(prepared.len(), 2);
    for h in prepared {
        let drops = events
            .iter()
            .filter(|e| matches!(e, MockEvent::DroppedStmt(x) if *x == h))
            .count();
        assert_eq!(drops, 1, "handle {} must be dropped exactly once", h);
    }
}

#[test]
fn cache_eviction_drops_the_least_recent_statement() {
    let mut conn = open_mock_with_cache(2);
    conn.with_transaction(DropBehavior::Commit, |mut t| {
        let s1 = t.prepare("sql 1").expect("prepare 1");
        let h1_sql = s1.sql().clone();
        t.finish_statement(s1);
        let s2 = t.prepare("sql 2").expect("prepare 2");
        t.finish_statement(s2);
        // The cache is full; a third statement evicts the first.
        let s3 = t.prepare("sql 3").expect("prepare 3");
        t.finish_statement(s3);
        assert_eq!(h1_sql, "sql 1");
        (t, Ok(()))
    })
    .expect("transaction");
    let events = events_of(conn);
    let prepared: Vec<u64> = events
        .iter()
        .filter_map(|e| match e {
            MockEvent::Prepared(h) => Some(*h),
            _ => None,
        })
        .collect();
    assert_eq!(prepared.len(), 3);
    // The first prepared handle was handed to the driver's statement drop
    // when the cache evicted it.
    assert!(
        events.iter().any(|e| matches!(e, MockEvent::DroppedStmt(h) if *h == prepared[0])),
        "evicted statement was not dropped"
    );
}

#[test]
fn cache_hit_reuses_the_server_handle() {
    let mut conn = open_mock_with_cache(2);
    conn.with_transaction(DropBehavior::Commit, |mut t| {
        let s1 = t.prepare("select id from product").expect("prepare");
        t.finish_statement(s1);
        let s1_again = t.prepare("select id from product").expect("prepare again");
        t.finish_statement(s1_again);
        (t, Ok(()))
    })
    .expect("transaction");
    let events = events_of(conn);
    let prepares = events.iter().filter(|e| matches!(e, MockEvent::Prepared(_))).count();
    assert_eq!(prepares, 1, "the second prepare must be served from the cache");
}

#[test]
fn pool_manager_connects_and_validates() {
    let config = MockFbClient::new(ResponseStrategy::AlwaysSucceed);
    let manager = FirebirdConnectionManager::new(config, ());
    let mut conn = manager.connect().expect("mock connect cannot fail");
    manager.is_valid(&mut conn).expect("a live mock session validates");
    assert!(!manager.has_broken(&mut conn));
}

#[test]
fn with_transaction_ignore_leaves_the_handle_behind() {
    let mut conn = open_mock();
    conn.with_transaction(DropBehavior::Ignore, |t| (t, Ok(())))
        .expect("probe transaction");
    let events = events_of(conn);
    // The transaction was begun but neither committed nor rolled back.
    assert!(events.iter().any(|e| matches!(e, MockEvent::BeganTransaction(_))));
    assert!(!events.iter().any(|e| matches!(e, MockEvent::TransactionOp(_, _))));
}

#[test]
fn manual_transaction_flow_round_trips_the_session() {
    let conn = open_mock();
    let mut t = Tran::try_new(conn, TrIsolationLevel::Concurrency)
        .map_err(|(_, e)| e)
        .expect("mock begin cannot fail");
    assert!(t.is_active());
    t.execute_immediate("insert into product values (1)")
        .expect("mock exec cannot fail");
    t.commit().expect("mock commit cannot fail");
    assert!(!t.is_active());
    let conn = t.into_connected();
    let events = events_of(conn);
    assert!(events
        .iter()
        .any(|e| matches!(e, MockEvent::TransactionOp(_, TrOp::Commit))));
}

#[test]
fn close_releases_every_handle_and_reports_first_error() {
    let mut conn = open_mock_with_cache(4);
    conn.with_transaction(DropBehavior::Commit, |mut t| {
        let a = t.prepare("select a from t1").expect("prepare a");
        let b = t.prepare("select b from t2").expect("prepare b");
        t.finish_statement(a);
        t.finish_statement(b);
        (t, Ok(()))
    })
    .expect("transaction");
    let (disc, res) = conn.close();
    res.expect("the mock driver never errors, so close collects none");
    let events = disc.into_client().events().clone();
    let detaches = events.iter().filter(|e| matches!(e, MockEvent::Detached(_))).count();
    assert_eq!(detaches, 1);
    let prepared: Vec<u64> = events
        .iter()
        .filter_map(|e| match e {
            MockEvent::Prepared(h) => Some(*h),
            _ => None,
        })
        .collect();
    assert_eq!(prepared.len(), 2);
    for h in prepared {
        assert!(
            events.iter().any(|e| matches!(e, MockEvent::DroppedStmt(x) if *x == h)),
            "cached handle {} must be dropped by close",
            h
        );
    }
}
