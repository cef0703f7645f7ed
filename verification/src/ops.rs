//! Operation brackets: every delegated call is bracketed by a start probe and
//! a done probe carrying the same correlation id. A bracket is created
//! together with its start event and consumed to build its done event, so a
//! completed operation has exactly one of each; the delegated outcome passes
//! through the bracket unchanged.

use vstd::prelude::*;

use crate::ids::{fresh_connection_id, fresh_correlation_id};
use crate::probe::{Event, ProbeEvent};
use crate::status::{read_status, TxStatus};

verus! {

use diesel::connection::TransactionManagerStatus;

/// One in-flight query-like operation: a batch execute, a load, or an
/// execute-returning-count, between its start probe and its done probe.
pub struct QueryBracket {
    correlation: u64,
    conn: u128,
}

impl QueryBracket {
    /// The correlation id both probes of this bracket carry.
    pub closed spec fn correlation_spec(self) -> u64 {
        self.correlation
    }

    /// The connection id both probes of this bracket carry.
    pub closed spec fn conn_spec(self) -> u128 {
        self.conn
    }

    /// Opens the bracket for one statement on connection `conn`: draws a
    /// fresh correlation id and yields the query-start event carrying the
    /// rendered statement text.
    pub fn start(conn: u128, text: String) -> (r: (QueryBracket, ProbeEvent))
        ensures
            r.0.conn_spec() == conn,
            r.1@ == (Event::QueryStart {
                correlation: r.0.correlation_spec(),
                conn,
                text: text@,
            }),
    {
        let correlation = fresh_correlation_id();
        (
            QueryBracket { correlation, conn },
            ProbeEvent::QueryStart { correlation, conn, text },
        )
    }

    /// Closes the bracket once the delegated call has returned: yields the
    /// query-done event paired with the start event, and hands the delegated
    /// outcome back unchanged, success or failure alike.
    pub fn finish<T>(self, outcome: T) -> (r: (ProbeEvent, T))
        ensures
            r.0@ == (Event::QueryDone {
                correlation: self.correlation_spec(),
                conn: self.conn_spec(),
            }),
            r.1 == outcome,
    {
        (
            ProbeEvent::QueryDone { correlation: self.correlation, conn: self.conn },
            outcome,
        )
    }
}

/// One in-flight connection-establish attempt, between its start probe and
/// its done probe.
pub struct EstablishBracket {
    correlation: u64,
    conn: u128,
}

impl EstablishBracket {
    /// The correlation id both probes of this bracket carry.
    pub closed spec fn correlation_spec(self) -> u64 {
        self.correlation
    }

    /// The id the connection will carry for its whole lifetime if the
    /// attempt succeeds; generated before the attempt is made.
    pub closed spec fn conn_spec(self) -> u128 {
        self.conn
    }

    /// Opens the bracket for an establish attempt against `target`: draws a
    /// fresh correlation id and a fresh connection id, both before anything
    /// is attempted, and yields the establish-start event.
    pub fn start(target: String) -> (r: (EstablishBracket, ProbeEvent))
        ensures
            r.1@ == (Event::EstablishStart {
                correlation: r.0.correlation_spec(),
                conn: r.0.conn_spec(),
                target: target@,
            }),
    {
        let correlation = fresh_correlation_id();
        let conn = fresh_connection_id();
        (
            EstablishBracket { correlation, conn },
            ProbeEvent::EstablishStart { correlation, conn, target },
        )
    }

    /// Closes the bracket once the underlying establish routine has returned:
    /// yields the establish-done event, whose success flag is `1` exactly
    /// when the attempt succeeded, and the outcome itself: the established
    /// connection tagged with the generated connection id, or the underlying
    /// error unchanged.
    pub fn finish<C, E>(self, outcome: Result<C, E>) -> (r: (ProbeEvent, Result<(C, u128), E>))
        ensures
            r.0@ == (Event::EstablishDone {
                correlation: self.correlation_spec(),
                conn: self.conn_spec(),
                success: if outcome is Ok { 1u8 } else { 0u8 },
            }),
            outcome matches Ok(c) ==> r.1 matches Ok(p) && p.0 == c && p.1 == self.conn_spec(),
            outcome matches Err(e) ==> r.1 matches Err(f) && f == e,
    {
        let success: u8 = if outcome.is_ok() { 1 } else { 0 };
        let event = ProbeEvent::EstablishDone {
            correlation: self.correlation,
            conn: self.conn,
            success,
        };
        let tagged = match outcome {
            Ok(c) => Ok((c, self.conn)),
            Err(e) => Err(e),
        };
        (event, tagged)
    }
}

/// The transaction-start event for an already-read status: it carries the
/// depth the new transaction will have, `-1` if the status was unreadable.
pub fn transaction_start_event_for(conn: u128, status: &TxStatus) -> (e: ProbeEvent)
    ensures
        e@ matches Event::TxStart { conn: c, depth }
            && c == conn && depth == status.begin_depth_spec(),
{
    let depth = crate::status::begin_depth_of(status);
    ProbeEvent::TxStart { conn, depth }
}

/// The transaction-done event for an already-read status: it carries the
/// depth that remains after the boundary, `-1` if the status was unreadable,
/// and whether the transaction was committed or rolled back.
pub fn transaction_done_event_for(conn: u128, status: &TxStatus, committed: bool) -> (e: ProbeEvent)
    ensures
        e@ matches Event::TxDone { conn: c, depth, committed: f }
            && c == conn
            && depth == status.depth_spec()
            && f == (if committed { 1u8 } else { 0u8 }),
{
    let depth = crate::status::depth_of(status);
    let flag: u8 = if committed { 1 } else { 0 };
    ProbeEvent::TxDone { conn, depth, committed: flag }
}

/// Builds the transaction-start probe fired before a begin is delegated,
/// reading the depth from the live manager status of the wrapped connection.
pub fn transaction_start_event(conn: u128, status: &TransactionManagerStatus) -> (e: ProbeEvent)
    ensures
        e@ matches Event::TxStart { conn: c, depth } && c == conn && (depth == -1 || 1 <= depth),
{
    let s = read_status(status);
    transaction_start_event_for(conn, &s)
}

/// Builds the transaction-done probe fired after a commit or rollback was
/// delegated, and hands the delegated outcome back unchanged: the depth is
/// read after the boundary, so it reflects the nesting that remains, and a
/// status that cannot be read yields the `-1` sentinel without disturbing
/// the outcome.
pub fn transaction_done<T>(
    conn: u128,
    status: &TransactionManagerStatus,
    committed: bool,
    outcome: T,
) -> (r: (ProbeEvent, T))
    ensures
        r.0@ matches Event::TxDone { conn: c, depth, committed: f }
            && c == conn && -1 <= depth && f == (if committed { 1u8 } else { 0u8 }),
        r.1 == outcome,
{
    let s = read_status(status);
    (transaction_done_event_for(conn, &s, committed), outcome)
}

} // verus!
