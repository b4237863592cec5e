use vstd::prelude::*;

verus! {

/// Closes `ReprFormat` to the formats of this crate.
pub trait Sealed {}

} // verus!
