//! The per-frame conductor: the step the frame loop is in, and the frame
//! clock that feeds the simulation's update time.

use vstd::prelude::*;

verus! {

use crate::resource::GameDuration;
use crate::resource::UpdateTime;
use crate::world::World;

/// Where one frame stands. Every step runs synchronously to completion; the
/// loop only ever waits at the present step and at the frame-rate limiter.
#[derive(Clone, Copy, PartialEq, Eq, Structural, Debug)]
pub enum FrameStep {
    Idle,
    Input,
    PauseUpdate,
    GameUpdate,
    Flush,
    PrepareDraw,
    Draw,
    Present,
}

/// The step that follows: input is read first, then either the pause update
/// or the full game update, then the deferred-mutation flush, draw
/// preparation, drawing, and presentation, back to idle.
pub open spec fn next_step(step: FrameStep, paused: bool) -> FrameStep {
    match step {
        FrameStep::Idle => FrameStep::Input,
        FrameStep::Input => if paused {
            FrameStep::PauseUpdate
        } else {
            FrameStep::GameUpdate
        },
        FrameStep::PauseUpdate => FrameStep::Flush,
        FrameStep::GameUpdate => FrameStep::Flush,
        FrameStep::Flush => FrameStep::PrepareDraw,
        FrameStep::PrepareDraw => FrameStep::Draw,
        FrameStep::Draw => FrameStep::Present,
        FrameStep::Present => FrameStep::Idle,
    }
}

/// Computes [`next_step`].
pub fn advance(step: FrameStep, paused: bool) -> (r: FrameStep)
    ensures
        r == next_step(step, paused),
{
    match step {
        FrameStep::Idle => FrameStep::Input,
        FrameStep::Input => if paused {
            FrameStep::PauseUpdate
        } else {
            FrameStep::GameUpdate
        },
        FrameStep::PauseUpdate => FrameStep::Flush,
        FrameStep::GameUpdate => FrameStep::Flush,
        FrameStep::Flush => FrameStep::PrepareDraw,
        FrameStep::PrepareDraw => FrameStep::Draw,
        FrameStep::Draw => FrameStep::Present,
        FrameStep::Present => FrameStep::Idle,
    }
}

/// Feeds one frame's wall-clock delta into the simulation: paused frames see
/// an update time of zero and leave the attempt clock alone; running frames
/// see the delta and add it to the attempt clock.
pub fn apply_frame_clock(world: &mut World, delta_ns: u64)
    requires
        old(world).game_duration.0 + delta_ns <= u64::MAX,
    ensures
        final(world).update_time.0 == (if old(world).menu_state.pause {
            0u64
        } else {
            delta_ns
        }),
        final(world).game_duration.0 == (if old(world).menu_state.pause {
            old(world).game_duration.0
        } else {
            (old(world).game_duration.0 + delta_ns) as u64
        }),
        final(world).alive == old(world).alive,
        final(world).physic_world == old(world).physic_world,
        final(world).menu_state == old(world).menu_state,
        final(world).events == old(world).events,
        final(world).save == old(world).save,
        final(world).level_actions == old(world).level_actions,
{
    if world.menu_state.paused() {
        world.update_time = UpdateTime(0);
    } else {
        let d = world.game_duration.0;
        world.game_duration = GameDuration(d + delta_ns);
        world.update_time = UpdateTime(delta_ns);
    }
}

} // verus!
