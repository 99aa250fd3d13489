//! The decisions of the frame loop. The loop itself, which waits for platform
//! events and calls into the guest, runs outside this library: it reports each
//! event and wake-up here and carries out what comes back.
use crate::context::RuntimeContext;
use crate::input::InputId;
use crate::scheduler::{FrameScheduler, Phase, WakePlan, tick_at};
use crate::surface::SurfaceConfig;
use vstd::prelude::*;

verus! {

/// A platform event, as the loop hands it over.
#[derive(Clone, Copy, Debug, PartialEq, Eq, Structural)]
pub enum PlatformEvent {
    Resized { width: u32, height: u32 },
    Input { id: InputId, pressed: bool },
    CloseRequested,
}

/// What the loop does about an event.
#[derive(Clone, Copy, Debug, PartialEq, Eq, Structural)]
pub enum EventAction {
    Nothing,
    /// Reconfigure the device's surface before the next render.
    Reconfigure(SurfaceConfig),
    /// Release everything and leave the loop.
    Exit,
}

pub struct Host {
    pub scheduler: FrameScheduler,
    pub context: RuntimeContext,
}

impl Host {
    pub fn new(scheduler: FrameScheduler, context: RuntimeContext) -> (h: Host)
        ensures
            h.scheduler == scheduler,
            h.context == context,
    {
        Host { scheduler, context }
    }

    /// Native handles were acquired and the guest's `init` is about to run.
    pub fn begin_init(&mut self) -> (r: bool)
        ensures
            r == (old(self).scheduler.phase == Phase::Uninitialized),
            final(self).scheduler.phase == if r {
                Phase::Initializing
            } else {
                old(self).scheduler.phase
            },
            final(self).context == old(self).context,
    {
        self.scheduler.begin_init()
    }

    /// The guest's `init` returned; a failure is fatal.
    pub fn finish_init(&mut self, succeeded: bool) -> (r: bool)
        ensures
            r == (old(self).scheduler.phase == Phase::Initializing),
            final(self).scheduler.phase == if !r {
                old(self).scheduler.phase
            } else if succeeded {
                Phase::Running
            } else {
                Phase::ShuttingDown
            },
            final(self).context == old(self).context,
    {
        self.scheduler.finish_init(succeeded)
    }

    /// A guest entry point failed during the loop: the loop ends.
    pub fn fail(&mut self)
        ensures
            final(self).scheduler.phase == Phase::ShuttingDown,
            final(self).context == old(self).context,
    {
        self.scheduler.shut_down();
    }

    /// Feeds a platform event into the context.
    pub fn handle_event(&mut self, event: PlatformEvent) -> (r: EventAction)
        requires
            old(self).context.wf(),
        ensures
            final(self).context.wf(),
            final(self).context.generation == old(self).context.generation,
            final(self).context.resources == old(self).context.resources,
            match event {
                PlatformEvent::Resized { width, height } => {
                    &&& r == EventAction::Reconfigure(
                        SurfaceConfig { width, height, ..old(self).context.surface.config_spec() },
                    )
                    &&& final(self).context.surface.config_spec() == r->Reconfigure_0
                    &&& final(self).context.inputs == old(self).context.inputs
                    &&& final(self).scheduler == old(self).scheduler
                },
                PlatformEvent::Input { id, pressed } => {
                    &&& r == EventAction::Nothing
                    &&& final(self).context.inputs@ == if !pressed {
                        old(self).context.inputs@.remove(id)
                    } else if old(self).context.inputs@.contains_key(id) {
                        old(self).context.inputs@
                    } else {
                        old(self).context.inputs@.insert(id, old(self).context.generation)
                    }
                    &&& final(self).context.surface == old(self).context.surface
                    &&& final(self).scheduler == old(self).scheduler
                },
                PlatformEvent::CloseRequested => {
                    &&& r == EventAction::Exit
                    &&& final(self).context == old(self).context
                    &&& final(self).scheduler.phase == Phase::ShuttingDown
                },
            },
    {
        match event {
            PlatformEvent::Resized { width, height } => {
                EventAction::Reconfigure(self.context.resize(width, height))
            },
            PlatformEvent::Input { id, pressed } => {
                self.context.input_event(id, pressed);
                EventAction::Nothing
            },
            PlatformEvent::CloseRequested => {
                self.scheduler.shut_down();
                EventAction::Exit
            },
        }
    }

    /// Decides what runs at `now`, in microseconds since the loop started.
    /// A logic tick advances the generation by exactly one before the guest's
    /// `update` runs, and comes before the render of the same wake-up, which
    /// therefore observes the advanced generation. Should the generation
    /// counter ever be exhausted, the loop shuts down instead of ticking.
    pub fn wake(&mut self, now: u64) -> (r: WakePlan)
        requires
            old(self).context.wf(),
        ensures
            final(self).context.wf(),
            final(self).context.generation == if r.update is Some {
                old(self).context.generation + 1
            } else {
                old(self).context.generation as int
            },
            final(self).context.resources == old(self).context.resources,
            final(self).context.inputs == old(self).context.inputs,
            final(self).context.surface == old(self).context.surface,
            old(self).scheduler.phase != Phase::Running ==> r == (WakePlan {
                update: None,
                render: None,
            }),
            old(self).scheduler.phase == Phase::Running && old(self).context.generation
                < u64::MAX ==> {
                &&& r.update == tick_at(
                    now,
                    old(self).scheduler.last_logic,
                    old(self).scheduler.logic_interval,
                )
                &&& r.render == tick_at(
                    now,
                    old(self).scheduler.last_render,
                    old(self).scheduler.render_interval,
                )
                &&& final(self).scheduler.phase == Phase::Running
            },
            old(self).scheduler.phase == Phase::Running && old(self).context.generation
                == u64::MAX && tick_at(
                now,
                old(self).scheduler.last_logic,
                old(self).scheduler.logic_interval,
            ) is Some ==> r == (WakePlan { update: None, render: None })
                && final(self).scheduler.phase == Phase::ShuttingDown,
    {
        let ghost sched = self.scheduler;
        let plan = self.scheduler.wake(now);
        if plan.update.is_some() {
            match self.context.begin_logic_tick() {
                Ok(_) => {},
                Err(_) => {
                    self.scheduler.shut_down();
                    return WakePlan { update: None, render: None };
                },
            }
        }
        proof {
            if sched.phase == Phase::Running && old(self).context.generation == u64::MAX {
                assert(plan.update == tick_at(now, sched.last_logic, sched.logic_interval));
            }
        }
        plan
    }

    /// The guest's `render` returned: whether to present the surface now. It
    /// answers `true` at most once for all the acquisitions of one frame.
    pub fn finish_render(&mut self) -> (r: bool)
        ensures
            r == old(self).context.surface.owed(),
            !final(self).context.surface.owed(),
            final(self).context.surface.config_spec() == old(self).context.surface.config_spec(),
            final(self).context.generation == old(self).context.generation,
            final(self).context.resources == old(self).context.resources,
            final(self).context.inputs == old(self).context.inputs,
            final(self).scheduler == old(self).scheduler,
    {
        self.context.finish_render()
    }
}

} // verus!
