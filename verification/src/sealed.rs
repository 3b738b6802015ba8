use vstd::prelude::*;

verus! {

/// Keeps the set of fill strategies closed: only this crate implements it.
pub trait FillStrategy {
}

} // verus!
