//! The transaction-depth observer: a model of the wrapped connection's
//! transaction-manager status and the signed depth derived from it.

use vstd::prelude::*;

verus! {

use diesel::connection::TransactionManagerStatus;

/// The transaction-manager status type of the wrapped connection, opaque to
/// this crate; everything the instrumentation needs from it is read through
/// [`read_status`].
#[verifier::external_type_specification]
#[verifier::external_body]
pub struct ExTransactionManagerStatus(TransactionManagerStatus);

/// What the instrumentation reads from the transaction manager of the wrapped
/// connection: no transaction open, a positive number of nested transactions
/// open, or a status that could not be read.
#[derive(Clone, Copy, Debug)]
pub enum TxStatus {
    /// No transaction is open.
    Idle,
    /// `depth` nested transactions are open.
    Open { depth: u32 },
    /// The status was unreadable or in an error state.
    Broken,
}

impl TxStatus {
    /// A readable status never reports an open transaction of depth zero.
    pub open spec fn well_formed(self) -> bool {
        self matches TxStatus::Open { depth } ==> depth >= 1
    }

    /// The depth a done probe reports for this status: the number of open
    /// transactions, or `-1` when the status is unreadable.
    pub open spec fn depth_spec(self) -> int {
        match self {
            TxStatus::Idle => 0,
            TxStatus::Open { depth } => depth as int,
            TxStatus::Broken => -1,
        }
    }

    /// The depth a start probe reports when a transaction is about to begin
    /// against this status: the depth the new transaction will have, or `-1`
    /// when the status is unreadable.
    pub open spec fn begin_depth_spec(self) -> int {
        match self {
            TxStatus::Idle => 1,
            TxStatus::Open { depth } => depth as int + 1,
            TxStatus::Broken => -1,
        }
    }
}

/// Relies on diesel's `TransactionManagerStatus::transaction_depth`: it
/// returns `Ok(Some(depth))` with a nonzero `depth` while transactions are
/// open, `Ok(None)` while none is open, and `Err(..)` when the manager is in
/// its error state. Reading the depth never changes the status.
#[verifier::external_body]
pub(crate) fn read_status(status: &TransactionManagerStatus) -> (s: TxStatus)
    ensures
        s.well_formed(),
{
    match status.transaction_depth() {
        Ok(Some(depth)) => TxStatus::Open { depth: depth.get() },
        Ok(None) => TxStatus::Idle,
        Err(_) => TxStatus::Broken,
    }
}

/// Reads the wrapped connection's transaction-manager status and renders it
/// as the probe depth. An unreadable status yields the `-1` sentinel, never
/// an error: depth computation is diagnostic and must not fail an operation.
pub fn transaction_depth(status: &TransactionManagerStatus) -> (d: i64)
    ensures
        -1 <= d <= u32::MAX,
{
    depth_of(&read_status(status))
}

/// Renders a status as the signed depth of the probe schema: `0` when idle,
/// the nesting depth when open, `-1` when the status is unreadable.
pub fn depth_of(status: &TxStatus) -> (d: i64)
    ensures
        d == status.depth_spec(),
{
    match status {
        TxStatus::Idle => 0,
        TxStatus::Open { depth } => *depth as i64,
        TxStatus::Broken => -1,
    }
}

/// Renders a status as the depth a transaction-start probe carries: the depth
/// of the transaction about to be opened, or `-1` when the status is
/// unreadable.
pub fn begin_depth_of(status: &TxStatus) -> (d: i64)
    ensures
        d == status.begin_depth_spec(),
{
    match status {
        TxStatus::Idle => 1,
        TxStatus::Open { depth } => *depth as i64 + 1,
        TxStatus::Broken => -1,
    }
}

} // verus!
