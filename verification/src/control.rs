//! The frequency controller: a single scalar slot holding the current
//! target frequency in millihertz.
//!
//! One writer role (input handling) stores new frequencies; one reader
//! role (the oscillator) reads the latest value on every sample.  There is
//! no queue and no history: a store fully replaces the previous value, so
//! a burst of stores may be coalesced from the reader's point of view.
//! An adapter that runs the two roles on different threads wraps the whole
//! oscillator in its own mutual exclusion; the slot itself is plain data.

use vstd::prelude::*;

verus! {

/// The shared scalar slot.  A frequency of `0` means silence ("note off");
/// any other value is a target pitch in millihertz.
pub struct FrequencyControl {
    /// Current target frequency in millihertz.
    pub millihertz: u64,
}

impl FrequencyControl {
    /// A fresh controller starts silent, at 0 millihertz.
    pub fn new() -> (c: FrequencyControl)
        ensures
            c.millihertz == 0,
    {
        FrequencyControl { millihertz: 0 }
    }

    /// Replaces the stored frequency; always succeeds, and accepts any
    /// value without validation.
    pub fn set(&mut self, millihertz: u64)
        ensures
            final(self).millihertz == millihertz,
    {
        self.millihertz = millihertz;
    }

    /// Reads the current frequency: exactly the last value stored.
    pub fn get(&self) -> (millihertz: u64)
        ensures
            millihertz == self.millihertz,
    {
        self.millihertz
    }
}

} // verus!
