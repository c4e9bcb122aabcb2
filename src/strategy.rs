use vstd::prelude::*;

verus! {

/// Milliseconds in one second; periodic intervals are whole seconds.
pub const MILLIS_PER_SECOND: u64 = 1000;

/// The state of one reload policy. Exactly one variant is active at a time.
///
/// `frame_number` is the single frame at which the policy reports a reload
/// as due: a pulse, not a level. It starts at `u64::MAX`, so no reload is
/// due before the policy has fired once.
#[derive(Clone, Copy, Debug, PartialEq, Eq, Structural)]
pub enum StrategyState {
    /// Fires whenever at least `interval` whole seconds passed since `last_ms`.
    Every { interval: u8, last_ms: u64, frame_number: u64 },
    /// Fires on the first tick after `trigger` was called.
    Trigger { triggered: bool, frame_number: u64 },
    /// Never fires.
    Never,
}

impl StrategyState {
    /// Whether a reload is due at `current_frame`.
    pub open spec fn is_due(self, current_frame: u64) -> bool {
        match self {
            StrategyState::Every { frame_number, .. } => frame_number == current_frame,
            StrategyState::Trigger { frame_number, .. } => frame_number == current_frame,
            StrategyState::Never => false,
        }
    }

    /// The state after a call of `trigger`.
    pub open spec fn triggered(self) -> StrategyState {
        match self {
            StrategyState::Trigger { frame_number, .. } => StrategyState::Trigger {
                triggered: true,
                frame_number,
            },
            _ => self,
        }
    }

    /// The state after `k` calls of `trigger`.
    pub open spec fn triggered_times(self, k: nat) -> StrategyState
        decreases k,
    {
        if k == 0 {
            self
        } else {
            self.triggered_times((k - 1) as nat).triggered()
        }
    }

    /// Whether a tick with the clock at `now_ms` makes the next frame due.
    pub open spec fn fires(self, now_ms: u64) -> bool {
        match self {
            StrategyState::Every { interval, last_ms, .. } => interval_elapsed(interval, last_ms, now_ms),
            StrategyState::Trigger { triggered, .. } => triggered,
            StrategyState::Never => false,
        }
    }

    /// The state after the ticks `ticks`, in order; each is a frame number
    /// and a clock reading in milliseconds.
    pub open spec fn ticked_all(self, ticks: Seq<(u64, u64)>) -> StrategyState
        decreases ticks.len(),
    {
        if ticks.len() == 0 {
            self
        } else {
            self.ticked_all(ticks.drop_last()).ticked(ticks.last().0, ticks.last().1)
        }
    }

    /// The state after the tick of frame `current_frame`, with the clock at
    /// `now_ms` milliseconds since the policy was installed.
    pub open spec fn ticked(self, current_frame: u64, now_ms: u64) -> StrategyState {
        match self {
            StrategyState::Every { interval, last_ms, frame_number } => {
                if interval_elapsed(interval, last_ms, now_ms) {
                    StrategyState::Every {
                        interval,
                        last_ms: now_ms,
                        frame_number: (current_frame + 1) as u64,
                    }
                } else {
                    self
                }
            },
            StrategyState::Trigger { triggered, frame_number } => StrategyState::Trigger {
                triggered: false,
                frame_number: if triggered {
                    (current_frame + 1) as u64
                } else {
                    frame_number
                },
            },
            StrategyState::Never => self,
        }
    }
}

/// Whether at least `interval` whole seconds separate `last_ms` from `now_ms`.
/// The elapsed time is truncated to whole seconds; a clock that went back
/// counts as no time elapsed.
pub open spec fn interval_elapsed(interval: u8, last_ms: u64, now_ms: u64) -> bool {
    last_ms <= now_ms && (now_ms - last_ms) / (MILLIS_PER_SECOND as int) >= interval
}

/// A process-wide resource that configures hot reloading.
#[derive(Clone, Debug)]
pub struct HotReloadStrategy {
    inner: StrategyState,
}

impl View for HotReloadStrategy {
    type V = StrategyState;

    closed spec fn view(&self) -> StrategyState {
        self.inner
    }
}

impl HotReloadStrategy {
    /// Causes hot reloads every `n` seconds, counted from the moment the
    /// strategy is installed (clock time zero).
    pub fn every(n: u8) -> (r: Self)
        ensures
            r@ == (StrategyState::Every { interval: n, last_ms: 0, frame_number: u64::MAX }),
    {
        HotReloadStrategy {
            inner: StrategyState::Every { interval: n, last_ms: 0, frame_number: u64::MAX },
        }
    }

    /// Hot reloads happen only after `trigger` was called.
    pub fn when_triggered() -> (r: Self)
        ensures
            r@ == (StrategyState::Trigger { triggered: false, frame_number: u64::MAX }),
    {
        HotReloadStrategy {
            inner: StrategyState::Trigger { triggered: false, frame_number: u64::MAX },
        }
    }

    /// Never do any hot reloading.
    pub fn never() -> (r: Self)
        ensures
            r@ == StrategyState::Never,
    {
        HotReloadStrategy { inner: StrategyState::Never }
    }

    /// The state of the policy.
    pub fn state(&self) -> (r: StrategyState)
        ensures
            r == self@,
    {
        self.inner
    }

    /// The frame after the next tick, all changed assets will be reloaded.
    /// Does nothing unless the strategy was created with `when_triggered`.
    pub fn trigger(&mut self)
        ensures
            final(self)@ == old(self)@.triggered(),
    {
        if let StrategyState::Trigger { frame_number, .. } = self.inner {
            self.inner = StrategyState::Trigger { triggered: true, frame_number };
        }
    }

    /// Whether assets are reloaded at `current_frame`. A pure query.
    pub fn needs_reload(&self, current_frame: u64) -> (r: bool)
        ensures
            r == self@.is_due(current_frame),
    {
        match self.inner {
            StrategyState::Every { frame_number, .. } => frame_number == current_frame,
            StrategyState::Trigger { frame_number, .. } => frame_number == current_frame,
            StrategyState::Never => false,
        }
    }

    /// Whether a tick with the clock at `now_ms` makes the next frame due.
    pub fn fires_at(&self, now_ms: u64) -> (r: bool)
        ensures
            r == self@.fires(now_ms),
    {
        match self.inner {
            StrategyState::Every { interval, last_ms, .. } => last_ms <= now_ms && (now_ms - last_ms)
                / MILLIS_PER_SECOND >= interval as u64,
            StrategyState::Trigger { triggered, .. } => triggered,
            StrategyState::Never => false,
        }
    }

    /// Advances the policy by the tick of frame `current_frame`, with the clock
    /// at `now_ms` milliseconds since the strategy was installed. A tick that
    /// fires makes `current_frame + 1` due, which must be a frame number.
    pub fn tick(&mut self, current_frame: u64, now_ms: u64)
        requires
            old(self)@.fires(now_ms) ==> current_frame < u64::MAX,
        ensures
            final(self)@ == old(self)@.ticked(current_frame, now_ms),
    {
        match self.inner {
            StrategyState::Trigger { triggered, frame_number } => {
                let next = if triggered {
                    current_frame + 1
                } else {
                    frame_number
                };
                self.inner = StrategyState::Trigger { triggered: false, frame_number: next };
            },
            StrategyState::Every { interval, last_ms, .. } => {
                if last_ms <= now_ms && (now_ms - last_ms) / MILLIS_PER_SECOND >= interval as u64 {
                    self.inner = StrategyState::Every {
                        interval,
                        last_ms: now_ms,
                        frame_number: current_frame + 1,
                    };
                }
            },
            StrategyState::Never => {},
        }
    }
}

impl Default for HotReloadStrategy {
    /// Reloads every second.
    fn default() -> (r: Self)
        ensures
            r@ == (StrategyState::Every { interval: 1, last_ms: 0, frame_number: u64::MAX }),
    {
        HotReloadStrategy::every(1)
    }
}

} // verus!
