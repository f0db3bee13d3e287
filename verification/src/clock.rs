//! Cycle accounting: an abstract, monotonically increasing tick counter.
//! Timing is expressed purely as a cycle count, never as wall-clock time.

use vstd::prelude::*;

verus! {

/// The video-standard-derived timing scale. The scale only selects a real
/// cycle length outside the core; the counter itself is scale-independent.
#[derive(Clone, Copy, Debug, PartialEq, Eq, Structural)]
pub enum ClockMode {
    Ntsc,
    Pal,
}

#[derive(Clone, Copy, Debug, PartialEq, Eq, Structural)]
pub struct Clock {
    pub mode: ClockMode,
    pub cycles: u64,
}

impl Clock {
    pub fn new(mode: ClockMode) -> (r: Clock)
        ensures
            r == (Clock { mode, cycles: 0 }),
    {
        Clock { mode, cycles: 0 }
    }

    /// Charge one instruction's cycle cost to the counter. The driver checks
    /// for headroom first, so the counter stays exact and monotone.
    pub fn tick(&mut self, cycles: u8)
        requires
            old(self).cycles + cycles <= u64::MAX,
        ensures
            *final(self) == (Clock { mode: old(self).mode, cycles: (old(self).cycles + cycles) as u64 }),
    {
        self.cycles = self.cycles + cycles as u64;
    }

    pub fn cycles(&self) -> (r: u64)
        ensures
            r == self.cycles,
    {
        self.cycles
    }
}

} // verus!
