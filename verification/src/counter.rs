//! The shared counter that fresh unique identifiers are drawn from.
use portable_atomic::AtomicU64;
use vstd::prelude::*;

verus! {

/// The atomic 64-bit counter of the `portable_atomic` crate. Its content
/// changes under a shared reference, so nothing is stated of it.
#[verifier::external_type_specification]
#[verifier::external_body]
pub struct ExAtomicU64(AtomicU64);

/// The value that the counter starts at, which is the first identifier.
pub const FIRST_ID: u64 = 1;

/// The value that follows `value` in the counter; none follows the largest.
pub open spec fn successor(value: u64) -> Option<u64> {
    value.checked_add(1)
}

/// What a draw returns that finds `value` in the counter: `Ok` where the
/// counter can move on, `Err` where it is used up.
pub open spec fn drawn(value: u64) -> Result<u64, u64> {
    if successor(value) is Some {
        Ok(value)
    } else {
        Err(value)
    }
}

/// Computes [`successor`]: the update that a draw applies to the counter.
pub fn advance(value: u64) -> (next: Option<u64>)
    ensures
        next == successor(value),
{
    value.checked_add(1)
}

/// `AtomicU64::fetch_update` of the `portable_atomic` crate, with [`advance`]
/// as the update. The call returns `Ok` of the value it replaced where the
/// update gave a new value, and `Err` of the value it found where the update
/// gave none. Which value that is depends on the other threads.
#[verifier::external_body]
pub(crate) fn fetch_advance(counter: &AtomicU64) -> (fetched: Result<u64, u64>)
    ensures
        fetched matches Ok(previous) ==> successor(previous) is Some,
        fetched matches Err(previous) ==> successor(previous) is None,
{
    counter.fetch_update(
        portable_atomic::Ordering::AcqRel,
        portable_atomic::Ordering::Relaxed,
        |old_value| advance(old_value),
    )
}

} // verus!
