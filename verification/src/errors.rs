use vstd::prelude::*;

verus! {

/// Error type which is returned when an insert operation
/// does not succeed due to the underlying buffer being exhausted.
#[derive(Debug, PartialEq, Eq, Structural, Clone, Copy)]
pub struct OomError;

} // verus!
