//! Fresh identifiers: correlation ids that pair a start probe with its done
//! probe, and the per-connection id that tags every probe of one connection.

use vstd::prelude::*;

verus! {

/// Relies on usdt's `UniqueId::new` and `UniqueId::as_u64`: the value packs
/// the calling thread's id with a thread-local counter, so concurrent calls
/// share no lock and collisions among values in flight at one time are
/// negligible. Nothing is promised of the value itself.
#[verifier::external_body]
pub(crate) fn fresh_correlation_id() -> u64 {
    usdt::UniqueId::new().as_u64()
}

/// Relies on uuid's `Uuid::new_v4`: a freshly generated random version-4
/// UUID, read as its 128-bit value. Nothing is promised of the value itself.
#[verifier::external_body]
pub(crate) fn fresh_connection_id() -> u128 {
    uuid::Uuid::new_v4().as_u128()
}

} // verus!
