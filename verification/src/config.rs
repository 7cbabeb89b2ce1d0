//! Engine configuration: the tunables the lifecycle controller and the
//! physics pass read. The configuration collaborator loads these from disk;
//! the engine only requires them to be within the model's limits.

use vstd::prelude::*;

verus! {

use crate::physics::SolverParams;
use crate::physics::DIR_SCALE;
use crate::physics::GRAVITY_LIMIT;
use crate::vec3::in_bounds;
use crate::vec3::COORD_LIMIT;
use crate::vec3::V3;

/// A right angle in the engine's [`DIR_SCALE`] angle units.
pub const ANGLE_FRAC_PI_2: i64 = 1608;

/// The engine's tunables.
pub struct Config {
    /// How many parts each built-in level has.
    pub levels: Vec<usize>,
    /// The constant downward bias applied to the player each pass.
    pub player_gravity: i64,
    /// Below this remainder, a frame's update time is left for the next
    /// frame's clock.
    pub physic_min_step_ns: u64,
    /// No single solver step is asked to advance more than this.
    pub physic_max_step_ns: u64,
    /// How many chain links the hook is drawn with.
    pub hook_links: usize,
    /// The orientation the player capsule is reset to after every pass.
    pub player_rotation: V3,
    /// Dividing a cursor movement by this yields look-angle units.
    pub mouse_sensibility: u64,
    /// Tuning handed to the outside constraint solver on every rebuild.
    pub solver: SolverParams,
    /// The frame-rate limiter's target.
    pub fps: u32,
}

/// The configuration is within the model's limits.
pub open spec fn config_ok(c: &Config) -> bool {
    &&& 0 < c.physic_min_step_ns <= c.physic_max_step_ns
    &&& 0 <= c.player_gravity <= GRAVITY_LIMIT
    &&& c.hook_links <= 256
    &&& in_bounds(c.player_rotation, COORD_LIMIT as int)
    &&& c.mouse_sensibility >= 1
}

impl Default for Config {
    /// The stock tuning: three one-part levels, a one-millisecond minimum
    /// sub-step, a twenty-millisecond maximum, and gravity of ten units.
    fn default() -> (r: Config)
        ensures
            config_ok(&r),
            r.levels@.len() == 3,
            forall|i: int| 0 <= i < 3 ==> #[trigger] r.levels@[i] == 1,
            r.player_gravity == 10 * DIR_SCALE,
            r.physic_min_step_ns == 1_000_000,
            r.physic_max_step_ns == 20_000_000,
            r.hook_links == 10,
            r.player_rotation == (V3 { x: ANGLE_FRAC_PI_2, y: 0, z: 0 }),
            r.mouse_sensibility == 64,
            r.fps == 60,
    {
        let mut levels: Vec<usize> = Vec::new();
        levels.push(1);
        levels.push(1);
        levels.push(1);
        Config {
            levels,
            player_gravity: 10 * DIR_SCALE,
            physic_min_step_ns: 1_000_000,
            physic_max_step_ns: 20_000_000,
            hook_links: 10,
            player_rotation: V3 { x: ANGLE_FRAC_PI_2, y: 0, z: 0 },
            mouse_sensibility: 64,
            solver: SolverParams {
                impulse_step: 16,
                correction_a: 205,
                correction_b: 205,
                correction_c: 102,
                joint_corr_factor: 512,
                rest_eps: 16,
                num_first_order_iter: 0,
                num_second_order_iter: 10,
            },
            fps: 60,
        }
    }
}

} // verus!
