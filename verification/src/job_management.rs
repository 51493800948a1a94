//! One job lifecycle, Pending -> Running -> Done, in four encodings.
//!
//! `typestate_final` is the core: the stage lives in the type, and stage
//! misuse does not compile. `typestate_naive` keeps typed stages but exposes
//! stage-checked accessors on every stage. `enum_with_value` and `naive`
//! track the stage at run time and answer wrong-stage calls with `None` or a
//! forbidden precondition; they are contrast examples, not the core.

pub mod enum_with_value;
pub mod naive;
pub mod typestate_final;
pub mod typestate_naive;

mod ident;
mod sealed;
