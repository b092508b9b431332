//! Game simulation pacing: runs a simulation step whenever the configured
//! time step has elapsed.

use vstd::prelude::*;
use crate::clock;

verus! {

/// Time-gated driver for the game simulation.
pub struct Simulation {
    last_update: u64,
    time_step: u64,
}

impl Simulation {
    /// The configured time step, in milliseconds.
    pub closed spec fn spec_time_step(&self) -> u64 {
        self.time_step
    }

    /// Create a new simulation driver stepping every `time_step`
    /// milliseconds, starting from the current time.
    pub fn new(time_step: u64) -> (r: Self)
        ensures
            r.spec_time_step() == time_step,
    {
        Simulation { last_update: clock::now_unix_millis(), time_step }
    }

    /// Run one simulation step if at least a full time step has elapsed
    /// since the last one.
    pub fn update(&mut self)
        ensures
            final(self).spec_time_step() == old(self).spec_time_step(),
    {
        let now = clock::now_unix_millis();
        if now >= self.last_update && now - self.last_update >= self.time_step {
            self.last_update = now;
            self.simulate();
        }
    }

    /// One step of the game state update: the hook from which entity
    /// updates and interactions are driven.
    fn simulate(&self) {
    }
}

} // verus!
