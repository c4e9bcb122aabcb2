use vstd::prelude::*;

use crate::strategy::HotReloadStrategy;

verus! {

/// What the application clock reports for one tick.
#[derive(Clone, Copy, Debug, PartialEq, Eq, Structural)]
pub struct Time {
    /// The number of the current frame.
    pub frame_number: u64,
    /// Milliseconds elapsed since the reload strategy was installed.
    pub elapsed_ms: u64,
}

impl Time {
    pub fn new(frame_number: u64, elapsed_ms: u64) -> (r: Self)
        ensures
            r.frame_number == frame_number,
            r.elapsed_ms == elapsed_ms,
    {
        Time { frame_number, elapsed_ms }
    }

    /// The number of the current frame.
    pub fn frame_number(&self) -> (r: u64)
        ensures
            r == self.frame_number,
    {
        self.frame_number
    }
}

/// Builds a `HotReloadSystem` and hands out the strategy it drives, to be
/// installed as the process-wide resource.
#[derive(Debug)]
pub struct HotReloadSystemDesc {
    /// The `HotReloadStrategy`.
    pub strategy: HotReloadStrategy,
}

impl HotReloadSystemDesc {
    pub fn new(strategy: HotReloadStrategy) -> (r: Self)
        ensures
            r.strategy@ == strategy@,
    {
        HotReloadSystemDesc { strategy }
    }

    /// The system, and the strategy resource that it updates.
    pub fn build(self) -> (r: (HotReloadSystem, HotReloadStrategy))
        ensures
            r.1@ == self.strategy@,
    {
        (HotReloadSystem::new(), self.strategy)
    }
}

/// The per-frame step that updates the `HotReloadStrategy` from the clock.
#[derive(Clone, Copy, Debug)]
pub struct HotReloadSystem;

impl HotReloadSystem {
    pub fn new() -> Self {
        HotReloadSystem
    }

    /// Runs once per tick, before any asset asks whether a reload is due.
    pub fn run(&mut self, time: &Time, strategy: &mut HotReloadStrategy)
        requires
            old(strategy)@.fires(time.elapsed_ms) ==> time.frame_number < u64::MAX,
        ensures
            final(strategy)@ == old(strategy)@.ticked(time.frame_number, time.elapsed_ms),
    {
        strategy.tick(time.frame_number(), time.elapsed_ms);
    }
}

} // verus!
