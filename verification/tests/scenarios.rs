//! End-to-end scenarios against a real SQLite connection and its ANSI
//! transaction manager.

use diesel::connection::{AnsiTransactionManager, TransactionManager};
use diesel::sqlite::SqliteConnection;
use diesel::Connection;
use diesel::connection::SimpleConnection;
use diesel_dtrace::ops::{
    transaction_done, transaction_start_event, EstablishBracket, QueryBracket,
};
use diesel_dtrace::probe::ProbeEvent;
use diesel_dtrace::status::transaction_depth;

#[test]
fn establish_failure_fires_paired_probes_and_returns_the_error() {
    let target = "/this-directory-does-not-exist/no.sqlite";
    let (bracket, start) = EstablishBracket::start(target.to_string());
    let (correlation, conn_id) = match &start {
        ProbeEvent::EstablishStart { correlation, conn, target: t } => {
            assert_eq!(t, target);
            (*correlation, *conn)
        }
        other => panic!("expected an establish-start event, got {:?}", other),
    };
    let result = SqliteConnection::establish(target);
    let (done, tagged) = bracket.finish(result);
    assert_eq!(
        done,
        ProbeEvent::EstablishDone { correlation, conn: conn_id, success: 0 }
    );
    assert!(tagged.is_err());
}

#[test]
fn batch_execute_success_fires_paired_probes_with_the_text() {
    let mut conn = SqliteConnection::establish(":memory:").expect("in-memory database");
    let text = "CREATE TABLE t (x INT);";
    let conn_id: u128 = 11;
    let (bracket, start) = QueryBracket::start(conn_id, text.to_string());
    let correlation = match &start {
        ProbeEvent::QueryStart { correlation, conn, text: t } => {
            assert_eq!(*conn, conn_id);
            assert_eq!(t, text);
            *correlation
        }
        other => panic!("expected a query-start event, got {:?}", other),
    };
    let result = conn.batch_execute(text);
    let (done, result) = bracket.finish(result);
    assert!(result.is_ok());
    assert_eq!(done, ProbeEvent::QueryDone { correlation, conn: conn_id });
}

#[test]
fn nested_begins_and_commits_report_monotonic_depths() {
    let mut conn = SqliteConnection::establish(":memory:").expect("in-memory database");
    let conn_id: u128 = 5;

    let start1 =
        transaction_start_event(conn_id, AnsiTransactionManager::transaction_manager_status_mut(&mut conn));
    AnsiTransactionManager::begin_transaction(&mut conn).expect("outer begin");

    let start2 =
        transaction_start_event(conn_id, AnsiTransactionManager::transaction_manager_status_mut(&mut conn));
    AnsiTransactionManager::begin_transaction(&mut conn).expect("inner begin");

    let inner = AnsiTransactionManager::commit_transaction(&mut conn);
    let (done1, inner) = transaction_done(
        conn_id,
        AnsiTransactionManager::transaction_manager_status_mut(&mut conn),
        true,
        inner,
    );
    inner.expect("inner commit");

    let outer = AnsiTransactionManager::commit_transaction(&mut conn);
    let (done2, outer) = transaction_done(
        conn_id,
        AnsiTransactionManager::transaction_manager_status_mut(&mut conn),
        true,
        outer,
    );
    outer.expect("outer commit");

    assert_eq!(start1, ProbeEvent::TxStart { conn: conn_id, depth: 1 });
    assert_eq!(start2, ProbeEvent::TxStart { conn: conn_id, depth: 2 });
    assert_eq!(done1, ProbeEvent::TxDone { conn: conn_id, depth: 1, committed: 1 });
    assert_eq!(done2, ProbeEvent::TxDone { conn: conn_id, depth: 0, committed: 1 });
}

#[test]
fn rollback_reports_remaining_depth_and_not_committed() {
    let mut conn = SqliteConnection::establish(":memory:").expect("in-memory database");
    let conn_id: u128 = 6;
    AnsiTransactionManager::begin_transaction(&mut conn).expect("begin");
    let result = AnsiTransactionManager::rollback_transaction(&mut conn);
    let (done, result) = transaction_done(
        conn_id,
        AnsiTransactionManager::transaction_manager_status_mut(&mut conn),
        false,
        result,
    );
    result.expect("rollback");
    assert_eq!(done, ProbeEvent::TxDone { conn: conn_id, depth: 0, committed: 0 });
}

#[test]
fn corrupting_the_live_status_yields_the_sentinel_without_failing_anything() {
    let mut conn = SqliteConnection::establish(":memory:").expect("in-memory database");
    let status = AnsiTransactionManager::transaction_manager_status_mut(&mut conn);
    status.set_in_error();
    assert_eq!(transaction_depth(status), -1);
    let conn_id: u128 = 8;
    let outcome: Result<(), ()> = Ok(());
    let (done, outcome) = transaction_done(conn_id, status, true, outcome);
    assert_eq!(done, ProbeEvent::TxDone { conn: conn_id, depth: -1, committed: 1 });
    assert_eq!(outcome, Ok(()));
}

#[test]
fn live_depth_follows_the_transaction_manager() {
    let mut conn = SqliteConnection::establish(":memory:").expect("in-memory database");
    assert_eq!(
        transaction_depth(AnsiTransactionManager::transaction_manager_status_mut(&mut conn)),
        0
    );
    AnsiTransactionManager::begin_transaction(&mut conn).expect("begin");
    assert_eq!(
        transaction_depth(AnsiTransactionManager::transaction_manager_status_mut(&mut conn)),
        1
    );
    AnsiTransactionManager::begin_transaction(&mut conn).expect("nested begin");
    assert_eq!(
        transaction_depth(AnsiTransactionManager::transaction_manager_status_mut(&mut conn)),
        2
    );
    AnsiTransactionManager::rollback_transaction(&mut conn).expect("rollback");
    assert_eq!(
        transaction_depth(AnsiTransactionManager::transaction_manager_status_mut(&mut conn)),
        1
    );
    AnsiTransactionManager::commit_transaction(&mut conn).expect("commit");
    assert_eq!(
        transaction_depth(AnsiTransactionManager::transaction_manager_status_mut(&mut conn)),
        0
    );
}
