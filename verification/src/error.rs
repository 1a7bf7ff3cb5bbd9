//! Why an identifier could not be produced.
use vstd::prelude::*;

verus! {

/// The ways in which a request for the current thread's identifier fails.
///
/// None of them is expected in a correct program: each one stands for a
/// condition that the caller treats as fatal. The two that the counter of
/// unique identifiers gives rise to are returned by the request. The others
/// are states in which a request for a reuse identifier must not be made;
/// [`crate::live::LiveLocal::refusal`] names them beforehand.
#[derive(Clone, Copy, Debug, PartialEq, Eq, Structural, Hash)]
pub enum IdError {
    /// The identifier space of the strategy is used up.
    Exhausted,
    /// The thread's release hook was installed before this request.
    AlreadyInitialized,
    /// The thread's release hook has already run.
    ThreadDestroyed,
    /// The shared counter handed out the reserved value zero.
    InvalidCounter,
}

} // verus!
