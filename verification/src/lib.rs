//! Verified core of a tracing wrapper for database connections.
//!
//! A wrapped connection delegates every operation to the connection it holds
//! and brackets the delegated call with a pair of trace probes: a start probe
//! fired before the call and a done probe fired after it returns. This crate
//! holds the verified logic of that bracketing: the probe payloads, the
//! correlation identifiers that pair a start probe with its done probe, and
//! the transaction-nesting depth derived from the connection's own
//! transaction-manager status. The unverified shell that implements the
//! database traits and fires the probes lives outside this crate and calls
//! into it for every computed value.

pub mod ids;
pub mod laws;
pub mod ops;
pub mod probe;
pub mod status;
