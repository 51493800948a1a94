use vstd::prelude::*;

verus! {

/// Supertrait of every stage-marker capability in this crate. It lives in a
/// private module, so code outside the crate cannot implement it — and
/// therefore cannot invent a fourth lifecycle stage.
pub trait Sealed {}

} // verus!
