//! Slot-addressed handles issued by the builder.
//!
//! A handle is a location descriptor: an integer slot index that is only
//! meaningful to the runtime built from the builder that issued it.
//! Handles are freely copyable and never own the slot they name.

use vstd::prelude::*;

verus! {

/// Names one persistent state slot of a runtime.
#[derive(Clone, Copy, PartialEq, Eq, Structural, Debug)]
pub struct StateHandle {
    /// Index of the state slot this handle resolves to.
    pub slot: usize,
}

/// Names one modulator slot of a runtime.
#[derive(Clone, Copy, PartialEq, Eq, Structural, Debug)]
pub struct ModulatorHandle {
    /// Index of the modulator slot this handle resolves to.
    pub slot: usize,
}

/// Names one parameter-set slot of a runtime.
#[derive(Clone, Copy, PartialEq, Eq, Structural, Debug)]
pub struct ParameterHandle {
    /// Index of the parameter-set slot this handle resolves to.
    pub slot: usize,
}

} // verus!
