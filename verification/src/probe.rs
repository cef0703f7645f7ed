//! The probe schema: the six fire-and-forget events the instrumentation
//! emits, and their spec-level view.

use vstd::prelude::*;

verus! {

/// A probe payload as the trace consumer sees it: the spec-level view of
/// [`ProbeEvent`], with statement text as a sequence of characters.
pub enum Event {
    /// Connection establishment is about to be attempted against `target`.
    EstablishStart { correlation: u64, conn: u128, target: Seq<char> },
    /// The establish attempt returned; `success` is `1` if it succeeded and
    /// `0` otherwise.
    EstablishDone { correlation: u64, conn: u128, success: u8 },
    /// A statement is about to be dispatched; `text` is its rendered form.
    QueryStart { correlation: u64, conn: u128, text: Seq<char> },
    /// The dispatched statement returned, successfully or not.
    QueryDone { correlation: u64, conn: u128 },
    /// A transaction begin is about to be delegated; `depth` is the nesting
    /// depth the new transaction will have, or `-1` if unknown.
    TxStart { conn: u128, depth: i64 },
    /// A commit (`committed == 1`) or rollback (`committed == 0`) was
    /// delegated; `depth` is the nesting depth that remains after it, or
    /// `-1` if unknown.
    TxDone { conn: u128, depth: i64, committed: u8 },
}

impl Event {
    /// Does this event open a correlation-paired bracket?
    pub open spec fn is_start(self) -> bool {
        self is EstablishStart || self is QueryStart
    }

    /// Does this event close a correlation-paired bracket?
    pub open spec fn is_done(self) -> bool {
        self is EstablishDone || self is QueryDone
    }

    /// The correlation id of a paired event.
    pub open spec fn correlation(self) -> u64
        recommends
            self.is_start() || self.is_done(),
    {
        match self {
            Event::EstablishStart { correlation, .. } => correlation,
            Event::EstablishDone { correlation, .. } => correlation,
            Event::QueryStart { correlation, .. } => correlation,
            Event::QueryDone { correlation, .. } => correlation,
            Event::TxStart { .. } => 0,
            Event::TxDone { .. } => 0,
        }
    }

    /// The connection id this event is tagged with; every probe carries one.
    pub open spec fn conn(self) -> u128 {
        match self {
            Event::EstablishStart { conn, .. } => conn,
            Event::EstablishDone { conn, .. } => conn,
            Event::QueryStart { conn, .. } => conn,
            Event::QueryDone { conn, .. } => conn,
            Event::TxStart { conn, .. } => conn,
            Event::TxDone { conn, .. } => conn,
        }
    }
}

/// One emitted probe: built, handed to the trace layer, and discarded. The
/// wrapper keeps no queue and no buffer; an event is the whole payload of one
/// probe firing.
#[derive(Debug, PartialEq, Eq)]
pub enum ProbeEvent {
    /// Fires right before a connection is established.
    EstablishStart { correlation: u64, conn: u128, target: String },
    /// Fires when the establish attempt returns, whatever its outcome.
    EstablishDone { correlation: u64, conn: u128, success: u8 },
    /// Fires just before a statement is dispatched.
    QueryStart { correlation: u64, conn: u128, text: String },
    /// Fires when the dispatched statement returns, whatever its outcome.
    QueryDone { correlation: u64, conn: u128 },
    /// Fires before a transaction begin is delegated.
    TxStart { conn: u128, depth: i64 },
    /// Fires after a commit or rollback was delegated.
    TxDone { conn: u128, depth: i64, committed: u8 },
}

impl View for ProbeEvent {
    type V = Event;

    open spec fn view(&self) -> Event {
        match self {
            ProbeEvent::EstablishStart { correlation, conn, target } => Event::EstablishStart {
                correlation: *correlation,
                conn: *conn,
                target: target@,
            },
            ProbeEvent::EstablishDone { correlation, conn, success } => Event::EstablishDone {
                correlation: *correlation,
                conn: *conn,
                success: *success,
            },
            ProbeEvent::QueryStart { correlation, conn, text } => Event::QueryStart {
                correlation: *correlation,
                conn: *conn,
                text: text@,
            },
            ProbeEvent::QueryDone { correlation, conn } => Event::QueryDone {
                correlation: *correlation,
                conn: *conn,
            },
            ProbeEvent::TxStart { conn, depth } => Event::TxStart {
                conn: *conn,
                depth: *depth,
            },
            ProbeEvent::TxDone { conn, depth, committed } => Event::TxDone {
                conn: *conn,
                depth: *depth,
                committed: *committed,
            },
        }
    }
}

} // verus!
