//! Lifecycle and cadence of the frame loop.
//!
//! Logic ticks and render ticks run on independent intervals, both measured
//! from the instant the event loop started. Each render interval that elapses
//! requests a redraw on its own; within one wake-up the logic tick comes
//! first, so a render in the same wake-up observes that tick's generation.
use vstd::prelude::*;

verus! {

/// Logic cadence, in microseconds: about 30 ticks a second.
pub const DEFAULT_LOGIC_INTERVAL: u64 = 33_000;

/// Render cadence, in microseconds: about 60 frames a second.
pub const DEFAULT_RENDER_INTERVAL: u64 = 16_000;

#[derive(Clone, Copy, Debug, PartialEq, Eq, Hash, Structural)]
pub enum Phase {
    Uninitialized,
    Initializing,
    Running,
    ShuttingDown,
}

/// Time handed to a guest entry point, in microseconds: since the loop
/// started, and since the previous tick of the same kind.
#[derive(Clone, Copy, Debug, PartialEq, Eq, Structural)]
pub struct FrameTime {
    pub epoch: u64,
    pub delta: u64,
}

/// What one wake-up of the loop runs, in this order.
#[derive(Clone, Copy, Debug, PartialEq, Eq, Structural)]
pub struct WakePlan {
    pub update: Option<FrameTime>,
    pub render: Option<FrameTime>,
}

#[derive(Clone, Copy, Debug, PartialEq, Eq, Structural)]
pub struct FrameScheduler {
    pub phase: Phase,
    pub logic_interval: u64,
    pub render_interval: u64,
    /// When the last logic tick ran, in microseconds since the loop started.
    pub last_logic: u64,
    /// When the last render tick ran, in microseconds since the loop started.
    pub last_render: u64,
}

/// At `now`, a tick whose previous run was at `last` is due.
pub open spec fn due(now: u64, last: u64, interval: u64) -> bool {
    now >= last && now - last >= interval
}

/// The tick that runs at `now`, if one is due.
pub open spec fn tick_at(now: u64, last: u64, interval: u64) -> Option<FrameTime> {
    if due(now, last, interval) {
        Some(FrameTime { epoch: now, delta: (now - last) as u64 })
    } else {
        None
    }
}

fn tick(now: u64, last: u64, interval: u64) -> (r: Option<FrameTime>)
    ensures
        r == tick_at(now, last, interval),
{
    if now >= last && now - last >= interval {
        Some(FrameTime { epoch: now, delta: now - last })
    } else {
        None
    }
}

impl FrameScheduler {
    pub fn new(logic_interval: u64, render_interval: u64) -> (s: FrameScheduler)
        ensures
            s == (FrameScheduler {
                phase: Phase::Uninitialized,
                logic_interval,
                render_interval,
                last_logic: 0,
                last_render: 0,
            }),
    {
        FrameScheduler {
            phase: Phase::Uninitialized,
            logic_interval,
            render_interval,
            last_logic: 0,
            last_render: 0,
        }
    }

    /// A scheduler with the default cadences.
    pub fn with_default_intervals() -> (s: FrameScheduler)
        ensures
            s == (FrameScheduler {
                phase: Phase::Uninitialized,
                logic_interval: DEFAULT_LOGIC_INTERVAL,
                render_interval: DEFAULT_RENDER_INTERVAL,
                last_logic: 0,
                last_render: 0,
            }),
    {
        FrameScheduler::new(DEFAULT_LOGIC_INTERVAL, DEFAULT_RENDER_INTERVAL)
    }

    /// Window, audio, graphics and gamepad handles were acquired: the guest is
    /// being initialized. Returns whether the phase changed.
    pub fn begin_init(&mut self) -> (r: bool)
        ensures
            r == (old(self).phase == Phase::Uninitialized),
            *final(self) == if r {
                FrameScheduler { phase: Phase::Initializing, ..*old(self) }
            } else {
                *old(self)
            },
    {
        if self.phase == Phase::Uninitialized {
            self.phase = Phase::Initializing;
            true
        } else {
            false
        }
    }

    /// The guest's `init` returned, successfully or not; a failure ends the
    /// loop. Returns whether the phase changed.
    pub fn finish_init(&mut self, succeeded: bool) -> (r: bool)
        ensures
            r == (old(self).phase == Phase::Initializing),
            *final(self) == if !r {
                *old(self)
            } else if succeeded {
                FrameScheduler { phase: Phase::Running, ..*old(self) }
            } else {
                FrameScheduler { phase: Phase::ShuttingDown, ..*old(self) }
            },
    {
        if self.phase == Phase::Initializing {
            self.phase = if succeeded {
                Phase::Running
            } else {
                Phase::ShuttingDown
            };
            true
        } else {
            false
        }
    }

    /// A close was requested, or a fatal error ended the loop.
    pub fn shut_down(&mut self)
        ensures
            *final(self) == (FrameScheduler { phase: Phase::ShuttingDown, ..*old(self) }),
    {
        self.phase = Phase::ShuttingDown;
    }

    /// Decides which ticks run at `now`, in microseconds since the loop
    /// started, and records them. Only a running loop ticks.
    pub fn wake(&mut self, now: u64) -> (r: WakePlan)
        ensures
            old(self).phase != Phase::Running ==> r == (WakePlan { update: None, render: None })
                && *final(self) == *old(self),
            old(self).phase == Phase::Running ==> {
                &&& r.update == tick_at(now, old(self).last_logic, old(self).logic_interval)
                &&& r.render == tick_at(now, old(self).last_render, old(self).render_interval)
                &&& *final(self) == (FrameScheduler {
                    last_logic: if r.update is Some {
                        now
                    } else {
                        old(self).last_logic
                    },
                    last_render: if r.render is Some {
                        now
                    } else {
                        old(self).last_render
                    },
                    ..*old(self)
                })
            },
    {
        if self.phase != Phase::Running {
            return WakePlan { update: None, render: None };
        }
        let update = tick(now, self.last_logic, self.logic_interval);
        if update.is_some() {
            self.last_logic = now;
        }
        let render = tick(now, self.last_render, self.render_interval);
        if render.is_some() {
            self.last_render = now;
        }
        WakePlan { update, render }
    }
}

} // verus!
