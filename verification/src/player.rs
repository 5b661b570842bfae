//! Players are known by their UUID, held as its 128-bit value.
use vstd::prelude::*;

verus! {

/// Calls `uuid::Uuid::from_u64_pair(high, low)` and reads the UUID back with
/// `Uuid::as_u128`. The crate builds the UUID from the big-endian bytes of
/// `(high << 64) | low` and `as_u128` reads those bytes big-endian again, so
/// the contract claims the value `high * 2^64 + low`.
#[verifier::external_body]
fn uuid_from_u64_pair(high: u64, low: u64) -> (value: u128)
    ensures
        value == high as int * 0x1_0000_0000_0000_0000 + low as int,
{
    uuid::Uuid::from_u64_pair(high, low).as_u128()
}

/// The key under which the state keeps a player whose UUID the server reports
/// as two 64-bit halves.
pub fn player_uuid(high: u64, low: u64) -> (id: u128)
    ensures
        id == high as int * 0x1_0000_0000_0000_0000 + low as int,
{
    uuid_from_u64_pair(high, low)
}

} // verus!
