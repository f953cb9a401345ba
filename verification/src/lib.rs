//! Core library of a turbofan cycle-design toolkit.
//!
//! The library models the design vector of a two-spool turbofan engine — the
//! nineteen named parameters that the cycle analysis and the optimizer read —
//! together with the machinery around it: the closed enumeration of variable
//! selectors with their canonical names, the clamped element-wise update used
//! by the gradient search, the central-difference perturbation stencils, the
//! masking of the gradient to the tunable subset of variables, and the
//! stopping rule of the fuel-consumption descent.
//!
//! Every physical quantity is carried in fixed-point nano-units: an `i64`
//! field holds the quantity multiplied by [`constants::SCALE`] (one billion).
//! All documented bounds and baseline values are exact in this representation,
//! so the clamping, scaling and validation rules are stated and proved as
//! exact integer arithmetic.  The floating-point evaluation of the gas path
//! itself (station temperatures, pressures, thrust and specific fuel
//! consumption) is not representable in verified code and lives with the
//! unverified front end, which exchanges design vectors and nano-unit scalars
//! with this library.

use vstd::prelude::*;

pub mod constants;
pub mod turbofan;
pub mod variables;
pub mod varselect;

verus! {

/// Failure conditions surfaced by the library.
#[derive(Clone, Copy, Debug, PartialEq, Eq, Structural)]
pub enum EngineError {
    /// An external string does not match any canonical variable name.
    InvalidSelectorName,
    /// A design vector violates the physical invariants of the cycle model.
    NonPhysicalState,
}

} // verus!
