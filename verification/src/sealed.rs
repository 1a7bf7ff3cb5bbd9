//! Keeps the set of identifier strategies closed.
use vstd::prelude::*;

verus! {

/// Implemented by the identifier types of this crate and by nothing else.
pub trait Sealed {

}

impl Sealed for crate::UniqueThreadId {

}

impl Sealed for crate::LiveThreadId {

}

} // verus!
