use vstd::prelude::*;

verus! {

/// Closes [`ErrorDiscipline`](crate::ErrorDiscipline) to the two disciplines
/// of this crate.
pub trait Sealed {}

} // verus!
