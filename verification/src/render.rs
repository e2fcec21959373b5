//! Per-frame orchestration state: registry, clock, scheduler and the live
//! shader program, advanced together once per presented frame.
//!
//! The presentation layer drives one iteration as: overwrite the aspect
//! slot, evaluate the animation jobs and store their results, pack and
//! upload the uniforms, take the reload request and commit its outcome,
//! then call [`RenderLoop::update_step`] to raise the next request at the
//! period boundary and advance the frame counter.

use vstd::prelude::*;

use crate::clock::AnimationClock;
use crate::registry::ParameterRegistry;
use crate::reload::{fires, PipelineError, ReloadScheduler, ShaderProgram, ShaderSlot};

verus! {

/// Everything the render loop mutates, frame-synchronously and single
/// threaded: the parameters, the frame clock, the reload cadence and the
/// identity of the live shader program.
pub struct RenderLoop {
    /// The ordered parameters, packed each frame.
    pub registry: ParameterRegistry,
    /// Counts presented frames.
    pub clock: AnimationClock,
    /// Raises a reload request once per period boundary.
    pub scheduler: ReloadScheduler,
    /// The single live shader program.
    pub shader: ShaderSlot,
}

impl RenderLoop {
    /// The scheduler keeps a meaningful period.
    pub open spec fn wf(self) -> bool {
        self.scheduler.wf()
    }

    /// Assemble the loop state after the startup build. There is no prior
    /// program to fall back to, so a startup build failure is fatal: it is
    /// passed through unchanged and no loop state exists, before any frame
    /// is processed.
    pub fn new(
        registry: ParameterRegistry,
        reload_period: u64,
        startup: Result<ShaderProgram, PipelineError>,
    ) -> (r: Result<RenderLoop, PipelineError>)
        requires
            reload_period > 0,
        ensures
            r is Ok <==> startup is Ok,
            startup is Err ==> r->Err_0 == startup->Err_0,
            startup is Ok ==> {
                &&& r->Ok_0.wf()
                &&& r->Ok_0.registry@ == registry@
                &&& r->Ok_0.clock.frame() == 0
                &&& r->Ok_0.scheduler.period() == reload_period
                &&& !r->Ok_0.scheduler.pending()
                &&& r->Ok_0.shader.current == startup->Ok_0
            },
    {
        match ShaderSlot::initial(startup) {
            Ok(shader) => Ok(
                RenderLoop {
                    registry,
                    clock: AnimationClock::new(),
                    scheduler: ReloadScheduler::new(reload_period),
                    shader,
                },
            ),
            Err(e) => Err(e),
        }
    }

    /// End-of-frame bookkeeping: raise the reload request exactly at the
    /// period boundaries of the frame just processed, then advance the
    /// clock. Parameters and the live program are untouched.
    pub fn update_step(&mut self)
        requires
            old(self).wf(),
            old(self).clock.frame() < u64::MAX,
        ensures
            final(self).wf(),
            final(self).clock.frame() == old(self).clock.frame() + 1,
            final(self).scheduler.period() == old(self).scheduler.period(),
            final(self).scheduler.pending() == (old(self).scheduler.pending() || fires(
                old(self).scheduler.period(),
                old(self).clock.frame(),
            )),
            final(self).registry@ == old(self).registry@,
            final(self).shader == old(self).shader,
    {
        let frame = self.clock.current_frame();
        self.scheduler.observe_frame(frame);
        self.clock.tick();
    }
}

} // verus!
