//! Modulation sources: per-block suppliers of time-varying values.
//!
//! A modulator is updated once per tick with the sample rate and the block's
//! drained events, and is then read back one value per sample index.  The
//! runtime stores modulators in slots; the closed set of kinds below is the
//! library's capability set, indexed by [`crate::handles::ModulatorHandle`].

use vstd::prelude::*;

verus! {

/// One modulation source.  Values are fixed-point samples on the same scale
/// as resolved parameters: [`crate::PARAM_UNIT`] stands for full scale.
#[derive(Clone, Copy, PartialEq, Eq, Structural, Debug)]
pub enum Modulator {
    /// Supplies the same value at every sample index of every block.
    Constant {
        /// The value returned for every sample index.
        value: i64,
    },
    /// Counts the events it has been fed over all ticks so far, saturating
    /// at `i64::MAX`, and supplies the count at every sample index.
    Counter {
        /// Number of events seen so far.
        count: i64,
    },
}

impl Modulator {
    /// The value this modulator supplies at sample index `index` of the
    /// current block.
    pub open spec fn spec_value(self, index: int) -> int {
        match self {
            Modulator::Constant { value } => value as int,
            Modulator::Counter { count } => count as int,
        }
    }

    /// The state this modulator reaches when one block's worth of
    /// `n_events` events is fed to it.
    pub open spec fn spec_updated(self, n_events: nat) -> Modulator {
        match self {
            Modulator::Constant { value } => Modulator::Constant { value },
            Modulator::Counter { count } => Modulator::Counter {
                count: if count + n_events <= i64::MAX {
                    (count + n_events) as i64
                } else {
                    i64::MAX
                },
            },
        }
    }

    /// Recomputes this block's values from the new sample rate and the
    /// events drained since the previous tick.  The closed kinds ignore the
    /// sample rate; it is part of the update contract all the same.
    pub fn update<E>(&mut self, sample_rate: u32, events: &[E])
        ensures
            *final(self) == old(self).spec_updated(events@.len()),
    {
        let m = *self;
        match m {
            Modulator::Constant { .. } => {
            },
            Modulator::Counter { count } => {
                let n = events.len();
                let sum: i128 = count as i128 + n as i128;
                let grown: i64 = if sum > i64::MAX as i128 {
                    i64::MAX
                } else {
                    sum as i64
                };
                *self = Modulator::Counter { count: grown };
            },
        }
    }

    /// Reads the value at the given sample index within the current block.
    pub fn get_value(&self, index: usize) -> (r: i64)
        ensures
            r as int == self.spec_value(index as int),
    {
        match self {
            Modulator::Constant { value } => *value,
            Modulator::Counter { count } => *count,
        }
    }
}

} // verus!
