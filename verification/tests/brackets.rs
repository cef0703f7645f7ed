//! Operation brackets: event payloads, correlation pairing, and outcome
//! pass-through, on plain values.

use diesel_dtrace::ops::{
    transaction_done_event_for, transaction_start_event_for, EstablishBracket, QueryBracket,
};
use diesel_dtrace::probe::ProbeEvent;
use diesel_dtrace::status::TxStatus;

#[test]
fn query_bracket_emits_paired_events_with_exact_text() {
    let text = "CREATE TABLE t (x INT);";
    let (bracket, start) = QueryBracket::start(42, text.to_string());
    let (start_correlation, start_conn) = match &start {
        ProbeEvent::QueryStart { correlation, conn, text: t } => {
            assert_eq!(t, text);
            (*correlation, *conn)
        }
        other => panic!("expected a query-start event, got {:?}", other),
    };
    assert_eq!(start_conn, 42);
    let (done, outcome) = bracket.finish(Ok::<(), String>(()));
    assert_eq!(outcome, Ok(()));
    assert_eq!(
        done,
        ProbeEvent::QueryDone { correlation: start_correlation, conn: 42 }
    );
}

#[test]
fn query_bracket_passes_a_failure_through_unchanged() {
    let (bracket, _start) = QueryBracket::start(7, "SELECT 1".to_string());
    let (done, outcome) = bracket.finish(Err::<u32, String>("boom".to_string()));
    assert_eq!(outcome, Err("boom".to_string()));
    assert!(matches!(done, ProbeEvent::QueryDone { conn: 7, .. }));
}

#[test]
fn correlation_ids_differ_between_brackets() {
    let (_b1, s1) = QueryBracket::start(1, "SELECT 1".to_string());
    let (_b2, s2) = QueryBracket::start(1, "SELECT 1".to_string());
    let c1 = match s1 {
        ProbeEvent::QueryStart { correlation, .. } => correlation,
        other => panic!("expected a query-start event, got {:?}", other),
    };
    let c2 = match s2 {
        ProbeEvent::QueryStart { correlation, .. } => correlation,
        other => panic!("expected a query-start event, got {:?}", other),
    };
    assert_ne!(c1, c2);
}

#[test]
fn establish_bracket_success_tags_the_connection() {
    let target = "postgresql://localhost:5432";
    let (bracket, start) = EstablishBracket::start(target.to_string());
    let (correlation, conn) = match &start {
        ProbeEvent::EstablishStart { correlation, conn, target: t } => {
            assert_eq!(t, target);
            (*correlation, *conn)
        }
        other => panic!("expected an establish-start event, got {:?}", other),
    };
    let (done, tagged) = bracket.finish(Ok::<u8, String>(9));
    assert_eq!(
        done,
        ProbeEvent::EstablishDone { correlation, conn, success: 1 }
    );
    assert_eq!(tagged, Ok((9, conn)));
}

#[test]
fn establish_bracket_failure_propagates_the_error() {
    let (bracket, start) = EstablishBracket::start("nowhere".to_string());
    let (correlation, conn) = match &start {
        ProbeEvent::EstablishStart { correlation, conn, .. } => (*correlation, *conn),
        other => panic!("expected an establish-start event, got {:?}", other),
    };
    let (done, tagged) = bracket.finish(Err::<u8, String>("refused".to_string()));
    assert_eq!(
        done,
        ProbeEvent::EstablishDone { correlation, conn, success: 0 }
    );
    assert_eq!(tagged, Err("refused".to_string()));
}

#[test]
fn connection_ids_differ_between_establish_attempts() {
    let (_b1, s1) = EstablishBracket::start("a".to_string());
    let (_b2, s2) = EstablishBracket::start("a".to_string());
    let c1 = match s1 {
        ProbeEvent::EstablishStart { conn, .. } => conn,
        other => panic!("expected an establish-start event, got {:?}", other),
    };
    let c2 = match s2 {
        ProbeEvent::EstablishStart { conn, .. } => conn,
        other => panic!("expected an establish-start event, got {:?}", other),
    };
    assert_ne!(c1, c2);
}

#[test]
fn transaction_events_carry_model_depths() {
    assert_eq!(
        transaction_start_event_for(3, &TxStatus::Idle),
        ProbeEvent::TxStart { conn: 3, depth: 1 }
    );
    assert_eq!(
        transaction_start_event_for(3, &TxStatus::Open { depth: 2 }),
        ProbeEvent::TxStart { conn: 3, depth: 3 }
    );
    assert_eq!(
        transaction_start_event_for(3, &TxStatus::Broken),
        ProbeEvent::TxStart { conn: 3, depth: -1 }
    );
    assert_eq!(
        transaction_done_event_for(3, &TxStatus::Open { depth: 1 }, true),
        ProbeEvent::TxDone { conn: 3, depth: 1, committed: 1 }
    );
    assert_eq!(
        transaction_done_event_for(3, &TxStatus::Idle, false),
        ProbeEvent::TxDone { conn: 3, depth: 0, committed: 0 }
    );
    assert_eq!(
        transaction_done_event_for(3, &TxStatus::Broken, true),
        ProbeEvent::TxDone { conn: 3, depth: -1, committed: 1 }
    );
}
