//! A runtime for composing block-based signal-processing graphs whose
//! numeric parameters are modulated by event-driven sources.
//!
//! A graph is assembled once through a [`Builder`], which hands out
//! slot-addressed handles for persistent state, parameter sets and
//! modulators, and is then finalized into a [`Runtime`].  Each audio block
//! the caller drains the [`EventBus`] and invokes [`Runtime::tick`], which
//! updates every modulator and runs the root [`Component`] over the block.
//!
//! Samples and parameter values are fixed-point integers: a parameter value
//! of [`PARAM_UNIT`] stands for full scale, and resolved parameter values
//! are clamped into `[0, PARAM_UNIT]`.

use vstd::prelude::*;

pub mod builder;
pub mod component;
pub mod events;
pub mod handles;
pub mod modulator;
pub mod params;
pub mod runtime;

pub use builder::Builder;
pub use component::Branch;
pub use component::Component;
pub use events::Event;
pub use events::EventBus;
pub use handles::ModulatorHandle;
pub use handles::ParameterHandle;
pub use handles::StateHandle;
pub use modulator::Modulator;
pub use params::ModulationRouting;
pub use params::ParameterAccessor;
pub use params::ParameterRuntime;
pub use runtime::Runtime;

verus! {

/// Number of samples in one processing block.
pub const BUFFER_SIZE: usize = 256;

/// Full scale of a resolved parameter value: resolved values are clamped
/// into `[0, PARAM_UNIT]`, the fixed-point image of the unit interval.
pub const PARAM_UNIT: i64 = 65536;

/// Opens a fresh event bus and an empty builder: the starting point of
/// every graph.  `S` is the caller's state type, `E` the event type.
pub fn new<S, E>() -> (r: (events::EventBus<E>, builder::Builder<S>))
    ensures
        r.1.wf(),
        r.1.state_keys@.len() == 0,
        r.1.states@.len() == 0,
        r.1.param_keys@.len() == 0,
        r.1.params@.len() == 0,
        r.1.sources@.len() == 0,
{
    (events::EventBus::new(), builder::Builder::new())
}

} // verus!
