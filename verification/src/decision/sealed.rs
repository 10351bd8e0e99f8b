use vstd::prelude::*;

verus! {

/// Closes [`IntoDecision`](super::IntoDecision) to the two decision enums.
pub trait Sealed {}

} // verus!
