//! The physics integration component.
//!
//! It owns the engine-side model of the outside rigid-body solver: a table of
//! bodies and sensors keyed by opaque handles, each carrying the entity that
//! owns it, so that solver-reported events can always be routed back to
//! entities. The gameplay forces applied before each solver step, the
//! sub-step sizes consumed from the frame's update time, and the routing of
//! contact and proximity events are all computed here and proved exact; the
//! constraint solving itself is the outside collaborator's work, and its
//! per-step results (velocities and positions) re-enter through
//! [`PhysicsWorld::apply_motion`].

use vstd::prelude::*;

verus! {

use crate::component::Contact;
use crate::component::Contactor;
use crate::component::Entity;
use crate::component::Hook;
use crate::component::Momentum;
use crate::component::PhysicRigidBodyHandle;
use crate::component::Player;
use crate::component::Proximitor;
use crate::component::Table;
use crate::vec3::dist_sq;
use crate::vec3::in_bounds;
use crate::vec3::isqrt_spec;
use crate::vec3::lemma_isqrt_spec;
use crate::vec3::lemma_mul_bound;
use crate::vec3::lemma_scaled_quot_shrinks;
use crate::vec3::lemma_scaled_quot_within_scale;
use crate::vec3::scaled_quot;
use crate::vec3::COORD_LIMIT;
use crate::vec3::V3;

/// Scale of unit direction vectors: a vector of length one is stored with
/// components summing in quadrature to about this value.
pub const DIR_SCALE: i64 = 1024;

/// Largest velocity magnitude the model admits.
pub const VEL_LIMIT: i64 = 0x100000;

/// Largest force coefficient (damping, thrust, hook pull) the model admits.
pub const COEF_LIMIT: i64 = 0x100000;

/// Largest constant gravity bias the model admits.
pub const GRAVITY_LIMIT: i64 = 0x10000000000;

/// A rigid body: the solver-owned motion state plus the accumulated
/// gameplay forces for the next step, tagged by its owning entity.
#[derive(Clone, Copy, PartialEq, Eq, Structural, Debug)]
pub struct Body {
    pub entity: Entity,
    pub position: V3,
    /// Orientation as a scaled axis-angle vector.
    pub rotation: V3,
    pub lin_vel: V3,
    pub ang_vel: V3,
    pub lin_force: V3,
    pub ang_force: V3,
    /// Scale the solver applies to angular acceleration; zeroed for the
    /// player after every pass.
    pub ang_acc_scale: i64,
}

/// A non-colliding trigger volume, tagged by its owning entity.
#[derive(Clone, Copy, PartialEq, Eq, Structural, Debug)]
pub struct Sensor {
    pub entity: Entity,
    pub position: V3,
}

/// Tuning parameters handed to the outside constraint solver when a world is
/// built, in the engine's fixed-point units.
#[derive(Clone, Copy, PartialEq, Eq, Structural, Debug)]
pub struct SolverParams {
    pub impulse_step: i64,
    pub correction_a: i64,
    pub correction_b: i64,
    pub correction_c: i64,
    pub joint_corr_factor: i64,
    pub rest_eps: i64,
    pub num_first_order_iter: u32,
    pub num_second_order_iter: u32,
}

/// An opaque solver object reference, typed as rigid body or sensor.
#[derive(Clone, Copy, PartialEq, Eq, Structural, Debug)]
pub enum WorldObject {
    RigidBody(usize),
    Sensor(usize),
}

/// The single place where force application, sub-stepping and the
/// handle-to-entity lookup occur.
pub struct PhysicsWorld {
    pub bodies: Table<Body>,
    pub sensors: Table<Sensor>,
    pub params: SolverParams,
}

impl PhysicsWorld {
    pub fn new(params: SolverParams) -> (r: PhysicsWorld)
        ensures
            r.bodies@ =~= Seq::<Option<Body>>::empty(),
            r.sensors@ =~= Seq::<Option<Sensor>>::empty(),
            r.params == params,
    {
        PhysicsWorld { bodies: Table::new(), sensors: Table::new(), params }
    }

    /// Registers a rigid body and returns its handle.
    pub fn add_body(&mut self, b: Body) -> (h: usize)
        ensures
            h == old(self).bodies@.len(),
            final(self).bodies@ =~= old(self).bodies@.push(Some(b)),
            final(self).sensors == old(self).sensors,
            final(self).params == old(self).params,
    {
        let h = self.bodies.len();
        self.bodies.append(b);
        h
    }

    /// Registers a sensor and returns its handle.
    pub fn add_sensor(&mut self, s: Sensor) -> (h: usize)
        ensures
            h == old(self).sensors@.len(),
            final(self).sensors@ =~= old(self).sensors@.push(Some(s)),
            final(self).bodies == old(self).bodies,
            final(self).params == old(self).params,
    {
        let h = self.sensors.len();
        self.sensors.append(s);
        h
    }

    /// The rigid body behind a handle.
    pub fn rigid_body(&self, h: usize) -> (r: Body)
        requires
            h < self.bodies@.len(),
            self.bodies@[h as int] is Some,
        ensures
            Some(r) == self.bodies@[h as int],
    {
        let b = *self.bodies.get(h);
        b.unwrap()
    }

    /// The sensor behind a handle.
    pub fn sensor(&self, h: usize) -> (r: Sensor)
        requires
            h < self.sensors@.len(),
            self.sensors@[h as int] is Some,
        ensures
            Some(r) == self.sensors@[h as int],
    {
        let s = *self.sensors.get(h);
        s.unwrap()
    }

    /// Overwrites the body behind a handle.
    pub fn set_body(&mut self, h: usize, b: Body)
        requires
            h < old(self).bodies@.len(),
        ensures
            final(self).bodies@ =~= old(self).bodies@.update(h as int, Some(b)),
            final(self).sensors == old(self).sensors,
            final(self).params == old(self).params,
    {
        self.bodies.put(h, b);
    }

    /// Unregisters the body behind a handle; the handle is never reused
    /// within the lifetime of this world.
    pub fn remove_body(&mut self, h: usize) -> (r: Option<Body>)
        requires
            h < old(self).bodies@.len(),
        ensures
            r == old(self).bodies@[h as int],
            final(self).bodies@ =~= old(self).bodies@.update(h as int, None),
            final(self).sensors == old(self).sensors,
            final(self).params == old(self).params,
    {
        self.bodies.take(h)
    }

    /// Unregisters the sensor behind a handle.
    pub fn remove_sensor(&mut self, h: usize) -> (r: Option<Sensor>)
        requires
            h < old(self).sensors@.len(),
        ensures
            r == old(self).sensors@[h as int],
            final(self).sensors@ =~= old(self).sensors@.update(h as int, None),
            final(self).bodies == old(self).bodies,
            final(self).params == old(self).params,
    {
        self.sensors.take(h)
    }

    /// Maps a solver object reference back to the entity that owns it, or
    /// `None` when the object is gone or the handle is out of range.
    pub fn lookup_entity(&self, obj: WorldObject) -> (r: Option<Entity>)
        ensures
            r == spec_lookup(self, obj),
    {
        match obj {
            WorldObject::RigidBody(h) => {
                if h < self.bodies.len() {
                    match self.bodies.get(h) {
                        Some(b) => Some(b.entity),
                        None => None,
                    }
                } else {
                    None
                }
            },
            WorldObject::Sensor(h) => {
                if h < self.sensors.len() {
                    match self.sensors.get(h) {
                        Some(s) => Some(s.entity),
                        None => None,
                    }
                } else {
                    None
                }
            },
        }
    }
}

/// What [`PhysicsWorld::lookup_entity`] returns.
pub open spec fn spec_lookup(pw: &PhysicsWorld, obj: WorldObject) -> Option<Entity> {
    match obj {
        WorldObject::RigidBody(h) => {
            if h < pw.bodies@.len() && pw.bodies@[h as int] is Some {
                Some(pw.bodies@[h as int]->Some_0.entity)
            } else {
                None
            }
        },
        WorldObject::Sensor(h) => {
            if h < pw.sensors@.len() && pw.sensors@[h as int] is Some {
                Some(pw.sensors@[h as int]->Some_0.entity)
            } else {
                None
            }
        },
    }
}

/// The sum of a sequence of sub-step sizes.
pub open spec fn seq_sum(s: Seq<u64>) -> int
    decreases s.len(),
{
    if s.len() == 0 {
        0
    } else {
        seq_sum(s.drop_last()) + s.last()
    }
}

proof fn lemma_seq_sum_push(s: Seq<u64>, v: u64)
    ensures
        seq_sum(s.push(v)) == seq_sum(s) + v,
{
    assert(s.push(v).drop_last() =~= s);
}

/// The sub-step sizes one frame's update time is split into, front first.
pub open spec fn substep_plan(t: u64, min_step: u64, max_step: u64) -> Seq<u64>
    decreases t,
    when 0 < min_step <= max_step
{
    if t <= min_step {
        Seq::empty()
    } else {
        let step: u64 = if t < max_step {
            t
        } else {
            max_step
        };
        seq![step] + substep_plan((t - step) as u64, min_step, max_step)
    }
}

/// The sizes of the sub-steps that one frame's update time is split into.
///
/// The loop consumes `min(remaining, max_step)` until the remainder drops to
/// `min_step` or below; the remainder is then left for the next frame's
/// clock. So every sub-step is at most `max_step`, no sub-step is below
/// `min_step`, and the sub-steps sum to within one `min_step` of the update
/// time.
pub fn plan_substeps(update_ns: u64, min_step_ns: u64, max_step_ns: u64) -> (plan: Vec<u64>)
    requires
        0 < min_step_ns <= max_step_ns,
    ensures
        plan@ == substep_plan(update_ns, min_step_ns, max_step_ns),
        forall|i: int| 0 <= i < plan@.len() ==> min_step_ns <= #[trigger] plan@[i] <= max_step_ns,
        seq_sum(plan@) <= update_ns,
        update_ns - min_step_ns <= seq_sum(plan@),
{
    let mut plan: Vec<u64> = Vec::new();
    let mut remaining = update_ns;
    while remaining > min_step_ns
        invariant
            0 < min_step_ns <= max_step_ns,
            forall|i: int|
                0 <= i < plan@.len() ==> min_step_ns <= #[trigger] plan@[i] <= max_step_ns,
            seq_sum(plan@) + remaining == update_ns,
            substep_plan(update_ns, min_step_ns, max_step_ns) == plan@ + substep_plan(
                remaining,
                min_step_ns,
                max_step_ns,
            ),
        decreases remaining,
    {
        let step = if remaining < max_step_ns {
            remaining
        } else {
            max_step_ns
        };
        proof {
            lemma_seq_sum_push(plan@, step);
            assert(substep_plan(remaining, min_step_ns, max_step_ns) == seq![step] + substep_plan(
                (remaining - step) as u64,
                min_step_ns,
                max_step_ns,
            ));
            assert(plan@ + (seq![step] + substep_plan(
                (remaining - step) as u64,
                min_step_ns,
                max_step_ns,
            )) =~= plan@.push(step) + substep_plan(
                (remaining - step) as u64,
                min_step_ns,
                max_step_ns,
            ));
        }
        plan.push(step);
        remaining = remaining - step;
    }
    proof {
        assert(substep_plan(remaining, min_step_ns, max_step_ns) =~= Seq::<u64>::empty());
        assert(plan@ + Seq::<u64>::empty() =~= plan@);
    }
    plan
}

/// Admissible momentum values: every coefficient within the model's limits.
pub open spec fn momentum_ok(m: Momentum) -> bool {
    &&& 0 <= m.damping <= COEF_LIMIT
    &&& 0 <= m.ang_damping <= DIR_SCALE
    &&& 0 <= m.force <= COEF_LIMIT
    &&& in_bounds(m.direction, DIR_SCALE as int)
    &&& (m.pnt_to_com matches Some(p) ==> in_bounds(p, COORD_LIMIT as int))
    &&& (m.ang_force matches Some(a) ==> in_bounds(a, GRAVITY_LIMIT as int))
}

/// Admissible hook values.
pub open spec fn hook_ok(h: Hook) -> bool {
    &&& (h.anchor matches Some(a) ==> in_bounds(a, COORD_LIMIT as int))
    &&& 0 <= h.force <= COEF_LIMIT
}

/// Admissible body motion state.
pub open spec fn body_ok(b: Body) -> bool {
    &&& in_bounds(b.position, COORD_LIMIT as int)
    &&& in_bounds(b.lin_vel, VEL_LIMIT as int)
    &&& in_bounds(b.ang_vel, VEL_LIMIT as int)
}

/// The damping force: the damping coefficient applied against a velocity.
pub open spec fn damping_force(m: Momentum, velocity: V3) -> V3 {
    velocity.spec_scaled(-m.damping as int)
}

/// An angular velocity decayed by a coefficient out of [`DIR_SCALE`].
pub open spec fn spec_decay(v: V3, k: int) -> V3 {
    V3 {
        x: scaled_quot(v.x as int, k, DIR_SCALE as int) as i64,
        y: scaled_quot(v.y as int, k, DIR_SCALE as int) as i64,
        z: scaled_quot(v.z as int, k, DIR_SCALE as int) as i64,
    }
}

/// The attraction force a hook exerts on a body at `pos`: the hook's pull
/// coefficient along the unit direction toward the anchor, or zero without an
/// anchor or with the anchor exactly at `pos`.
pub open spec fn hook_pull(pos: V3, h: Hook) -> V3 {
    match h.anchor {
        Some(a) => {
            if a == pos {
                V3 { x: 0, y: 0, z: 0 }
            } else {
                let n = isqrt_spec(dist_sq(pos, a));
                V3 {
                    x: (h.force * scaled_quot(a.x - pos.x, DIR_SCALE as int, n)) as i64,
                    y: (h.force * scaled_quot(a.y - pos.y, DIR_SCALE as int, n)) as i64,
                    z: (h.force * scaled_quot(a.z - pos.z, DIR_SCALE as int, n)) as i64,
                }
            }
        },
        None => V3 { x: 0, y: 0, z: 0 },
    }
}

/// One body after the force-accumulation pass, applied in this order: the
/// forces are cleared; a damping force opposing the velocity the body entered
/// the pass with; a constant downward bias if the entity is the player; the
/// hook attraction if a hook is present; the momentum's thrust, at the center
/// of mass or through the lever arm (which then adds the torque `arm x
/// thrust`); the extra angular force; and finally the angular-velocity decay,
/// computed from the pre-pass angular velocity. The lever arm is the
/// world-frame arm of this frame, as [`Momentum`] documents: the rotation of
/// the body-local anchor into world coordinates is supplied with the
/// momentum, not recomputed here.
pub open spec fn integrated_body(
    b: Body,
    m: Momentum,
    is_player: bool,
    hook: Option<Hook>,
    gravity: i64,
) -> Body {
    let f_damp = damping_force(m, b.lin_vel);
    let f_grav = if is_player {
        V3 { x: f_damp.x, y: f_damp.y, z: (f_damp.z - gravity) as i64 }
    } else {
        f_damp
    };
    let f_hook = match hook {
        Some(h) => f_grav.spec_plus(hook_pull(b.position, h)),
        None => f_grav,
    };
    let thrust = m.direction.spec_scaled(m.force as int);
    let f_total = f_hook.spec_plus(thrust);
    let t_thrust = match m.pnt_to_com {
        Some(p) => p.spec_cross(thrust),
        None => V3 { x: 0, y: 0, z: 0 },
    };
    let t_total = match m.ang_force {
        Some(a) => t_thrust.spec_plus(a),
        None => t_thrust,
    };
    Body {
        lin_force: f_total,
        ang_force: t_total,
        ang_vel: spec_decay(b.ang_vel, m.ang_damping as int),
        ..b
    }
}

/// The hook pull is bounded by the pull coefficient times [`DIR_SCALE`].
proof fn lemma_hook_pull_bounds(pos: V3, h: Hook)
    requires
        in_bounds(pos, COORD_LIMIT as int),
        hook_ok(h),
    ensures
        in_bounds(hook_pull(pos, h), COEF_LIMIT as int * DIR_SCALE as int),
{
    match h.anchor {
        Some(a) => {
            if a != pos {
                let d = dist_sq(pos, a);
                assert(d >= 1) by (nonlinear_arith)
                    requires
                        d == dist_sq(pos, a),
                        a != pos,
                ;
                lemma_isqrt_spec(d);
                let n = isqrt_spec(d);
                assert((a.x - pos.x) * (a.x - pos.x) <= d && (a.y - pos.y) * (a.y - pos.y) <= d
                    && (a.z - pos.z) * (a.z - pos.z) <= d) by (nonlinear_arith)
                    requires
                        d == dist_sq(pos, a),
                ;
                assert(-n <= a.x - pos.x <= n && -n <= a.y - pos.y <= n && -n <= a.z - pos.z <= n)
                    by (nonlinear_arith)
                    requires
                        0 <= n,
                        (a.x - pos.x) * (a.x - pos.x) <= d,
                        (a.y - pos.y) * (a.y - pos.y) <= d,
                        (a.z - pos.z) * (a.z - pos.z) <= d,
                        d < (n + 1) * (n + 1),
                ;
                assert(n >= 1) by (nonlinear_arith)
                    requires
                        n * n <= d < (n + 1) * (n + 1),
                        d >= 1,
                        0 <= n,
                ;
                lemma_scaled_quot_within_scale(a.x - pos.x, DIR_SCALE as int, n);
                lemma_scaled_quot_within_scale(a.y - pos.y, DIR_SCALE as int, n);
                lemma_scaled_quot_within_scale(a.z - pos.z, DIR_SCALE as int, n);
                lemma_mul_bound(h.force as int, COEF_LIMIT as int, scaled_quot(a.x - pos.x, DIR_SCALE as int, n), DIR_SCALE as int);
                lemma_mul_bound(h.force as int, COEF_LIMIT as int, scaled_quot(a.y - pos.y, DIR_SCALE as int, n), DIR_SCALE as int);
                lemma_mul_bound(h.force as int, COEF_LIMIT as int, scaled_quot(a.z - pos.z, DIR_SCALE as int, n), DIR_SCALE as int);
            }
        },
        None => {},
    }
}

/// Computes [`hook_pull`].
fn hook_pull_exec(pos: V3, h: &Hook) -> (r: V3)
    requires
        in_bounds(pos, COORD_LIMIT as int),
        hook_ok(*h),
    ensures
        r == hook_pull(pos, *h),
        in_bounds(r, COEF_LIMIT as int * DIR_SCALE as int),
{
    proof {
        lemma_hook_pull_bounds(pos, *h);
    }
    match h.anchor {
        Some(a) => {
            match crate::vec3::scaled_dir(pos, a, DIR_SCALE as u64) {
                Some(d) => {
                    proof {
                        lemma_mul_bound(h.force as int, COEF_LIMIT as int, d.x as int, DIR_SCALE as int);
                        lemma_mul_bound(h.force as int, COEF_LIMIT as int, d.y as int, DIR_SCALE as int);
                        lemma_mul_bound(h.force as int, COEF_LIMIT as int, d.z as int, DIR_SCALE as int);
                    }
                    d.scaled(h.force)
                },
                None => V3::zero(),
            }
        },
        None => V3::zero(),
    }
}

/// Decays an angular velocity by a coefficient out of [`DIR_SCALE`].
fn decay(v: V3, k: i64) -> (r: V3)
    requires
        in_bounds(v, VEL_LIMIT as int),
        0 <= k <= DIR_SCALE,
    ensures
        r == spec_decay(v, k as int),
        in_bounds(r, VEL_LIMIT as int),
{
    proof {
        lemma_scaled_quot_shrinks(v.x as int, k as int, DIR_SCALE as int, VEL_LIMIT as int);
        lemma_scaled_quot_shrinks(v.y as int, k as int, DIR_SCALE as int, VEL_LIMIT as int);
        lemma_scaled_quot_shrinks(v.z as int, k as int, DIR_SCALE as int, VEL_LIMIT as int);
    }
    V3 {
        x: crate::vec3::signed_scaled_quot(v.x, k as u64, DIR_SCALE as u64),
        y: crate::vec3::signed_scaled_quot(v.y, k as u64, DIR_SCALE as u64),
        z: crate::vec3::signed_scaled_quot(v.z, k as u64, DIR_SCALE as u64),
    }
}

/// Applies one entity's gameplay forces to its body.
pub fn apply_momentum(b: Body, m: &Momentum, is_player: bool, hook: &Option<Hook>, gravity: i64) -> (r: Body)
    requires
        body_ok(b),
        momentum_ok(*m),
        (*hook matches Some(h) ==> hook_ok(h)),
        0 <= gravity <= GRAVITY_LIMIT,
    ensures
        r == integrated_body(b, *m, is_player, *hook, gravity),
        body_ok(r),
{
    proof {
        lemma_mul_bound(-m.damping as int, COEF_LIMIT as int, b.lin_vel.x as int, VEL_LIMIT as int);
        lemma_mul_bound(-m.damping as int, COEF_LIMIT as int, b.lin_vel.y as int, VEL_LIMIT as int);
        lemma_mul_bound(-m.damping as int, COEF_LIMIT as int, b.lin_vel.z as int, VEL_LIMIT as int);
    }
    let f_damp = b.lin_vel.scaled(-m.damping);
    let f_grav = if is_player {
        V3 { x: f_damp.x, y: f_damp.y, z: f_damp.z - gravity }
    } else {
        f_damp
    };
    let f_hook = match hook {
        Some(h) => f_grav.plus(hook_pull_exec(b.position, h)),
        None => f_grav,
    };
    proof {
        lemma_mul_bound(m.force as int, COEF_LIMIT as int, m.direction.x as int, DIR_SCALE as int);
        lemma_mul_bound(m.force as int, COEF_LIMIT as int, m.direction.y as int, DIR_SCALE as int);
        lemma_mul_bound(m.force as int, COEF_LIMIT as int, m.direction.z as int, DIR_SCALE as int);
    }
    let thrust = m.direction.scaled(m.force);
    let f_total = f_hook.plus(thrust);
    let t_thrust = match m.pnt_to_com {
        Some(p) => {
            let t = p.cross(thrust);
            proof {
                lemma_mul_bound(p.y as int, COORD_LIMIT as int, thrust.z as int, 0x40000000);
                lemma_mul_bound(p.z as int, COORD_LIMIT as int, thrust.y as int, 0x40000000);
                lemma_mul_bound(p.z as int, COORD_LIMIT as int, thrust.x as int, 0x40000000);
                lemma_mul_bound(p.x as int, COORD_LIMIT as int, thrust.z as int, 0x40000000);
                lemma_mul_bound(p.x as int, COORD_LIMIT as int, thrust.y as int, 0x40000000);
                lemma_mul_bound(p.y as int, COORD_LIMIT as int, thrust.x as int, 0x40000000);
            }
            t
        },
        None => V3::zero(),
    };
    let t_total = match m.ang_force {
        Some(a) => t_thrust.plus(a),
        None => t_thrust,
    };
    let new_ang_vel = decay(b.ang_vel, m.ang_damping);
    Body { lin_force: f_total, ang_force: t_total, ang_vel: new_ang_vel, ..b }
}

/// The force pass keeps a body within the model's motion bounds: position
/// and linear velocity are untouched and the angular velocity only decays.
pub proof fn lemma_integrated_body_ok(b: Body, m: Momentum, is_player: bool, hook: Option<Hook>, gravity: i64)
    requires
        body_ok(b),
        momentum_ok(m),
        (hook matches Some(h) ==> hook_ok(h)),
        0 <= gravity <= GRAVITY_LIMIT,
    ensures
        body_ok(integrated_body(b, m, is_player, hook, gravity)),
{
    lemma_scaled_quot_shrinks(b.ang_vel.x as int, m.ang_damping as int, DIR_SCALE as int, VEL_LIMIT as int);
    lemma_scaled_quot_shrinks(b.ang_vel.y as int, m.ang_damping as int, DIR_SCALE as int, VEL_LIMIT as int);
    lemma_scaled_quot_shrinks(b.ang_vel.z as int, m.ang_damping as int, DIR_SCALE as int, VEL_LIMIT as int);
}

/// Every rigid-body handle in the component table points at a live body that
/// points back at the owning entity.
pub open spec fn handles_wf(handles: Seq<Option<PhysicRigidBodyHandle>>, bodies: Seq<Option<Body>>) -> bool {
    forall|e: int|
        0 <= e < handles.len() && #[trigger] handles[e] is Some ==> {
            let h = handles[e]->Some_0.0 as int;
            &&& 0 <= h < bodies.len()
            &&& bodies[h] is Some
            &&& bodies[h]->Some_0.entity == e
        }
}

/// Every live body and sensor is within the model's motion bounds.
pub open spec fn bodies_ok(bodies: Seq<Option<Body>>) -> bool {
    forall|h: int| 0 <= h < bodies.len() && #[trigger] bodies[h] is Some ==> body_ok(bodies[h]->Some_0)
}

/// What one body slot holds after the force pass has run for the entities
/// below `upto`.
pub open spec fn pass_body_result(
    players: Seq<Option<Player>>,
    momentums: Seq<Option<Momentum>>,
    hooks: Seq<Option<Hook>>,
    handles: Seq<Option<PhysicRigidBodyHandle>>,
    old_slot: Option<Body>,
    h: int,
    upto: int,
    gravity: i64,
) -> Option<Body> {
    match old_slot {
        Some(b) => {
            let e = b.entity as int;
            if 0 <= e < upto && e < handles.len() && handles[e] is Some
                && handles[e]->Some_0.0 == h && momentums[e] is Some {
                Some(integrated_body(b, momentums[e]->Some_0, players[e] is Some, hooks[e], gravity))
            } else {
                Some(b)
            }
        },
        None => None,
    }
}

/// The whole body table after the force pass: each slot mapped by
/// [`pass_body_result`].
pub open spec fn forced_bodies(
    players: Seq<Option<Player>>,
    momentums: Seq<Option<Momentum>>,
    hooks: Seq<Option<Hook>>,
    handles: Seq<Option<PhysicRigidBodyHandle>>,
    bodies0: Seq<Option<Body>>,
    gravity: i64,
) -> Seq<Option<Body>> {
    Seq::new(
        bodies0.len(),
        |h: int|
            pass_body_result(
                players,
                momentums,
                hooks,
                handles,
                bodies0[h],
                h,
                momentums.len() as int,
                gravity,
            ),
    )
}

/// The force-accumulation pass: for every entity with both a momentum and a
/// rigid-body handle, replaces the body's accumulated forces and decays its
/// angular velocity exactly as [`integrated_body`] states; every other body
/// is untouched.
pub fn integrate_forces(
    players: &Table<Player>,
    momentums: &Table<Momentum>,
    hooks: &Table<Hook>,
    bodies: &Table<PhysicRigidBodyHandle>,
    pw: &mut PhysicsWorld,
    gravity: i64,
)
    requires
        players@.len() == momentums@.len(),
        hooks@.len() == momentums@.len(),
        bodies@.len() == momentums@.len(),
        0 <= gravity <= GRAVITY_LIMIT,
        handles_wf(bodies@, old(pw).bodies@),
        bodies_ok(old(pw).bodies@),
        forall|e: int|
            0 <= e < momentums@.len() && #[trigger] momentums@[e] is Some ==> momentum_ok(
                momentums@[e]->Some_0,
            ),
        forall|e: int|
            0 <= e < hooks@.len() && #[trigger] hooks@[e] is Some ==> hook_ok(hooks@[e]->Some_0),
    ensures
        final(pw).bodies@.len() == old(pw).bodies@.len(),
        final(pw).sensors == old(pw).sensors,
        final(pw).params == old(pw).params,
        forall|h: int|
            0 <= h < old(pw).bodies@.len() ==> #[trigger] final(pw).bodies@[h] == pass_body_result(
                players@,
                momentums@,
                hooks@,
                bodies@,
                old(pw).bodies@[h],
                h,
                momentums@.len() as int,
                gravity,
            ),
        final(pw).bodies@ == forced_bodies(
            players@,
            momentums@,
            hooks@,
            bodies@,
            old(pw).bodies@,
            gravity,
        ),
        bodies_ok(final(pw).bodies@),
        handles_wf(bodies@, final(pw).bodies@),
{
    let n = momentums.len();
    let mut e: usize = 0;
    while e < n
        invariant
            n == momentums@.len(),
            players@.len() == n,
            hooks@.len() == n,
            bodies@.len() == n,
            e <= n,
            0 <= gravity <= GRAVITY_LIMIT,
            handles_wf(bodies@, old(pw).bodies@),
            bodies_ok(old(pw).bodies@),
            forall|i: int|
                0 <= i < n && #[trigger] momentums@[i] is Some ==> momentum_ok(
                    momentums@[i]->Some_0,
                ),
            forall|i: int|
                0 <= i < n && #[trigger] hooks@[i] is Some ==> hook_ok(hooks@[i]->Some_0),
            pw.bodies@.len() == old(pw).bodies@.len(),
            pw.sensors == old(pw).sensors,
            pw.params == old(pw).params,
            forall|h: int|
                0 <= h < old(pw).bodies@.len() ==> #[trigger] pw.bodies@[h] == pass_body_result(
                    players@,
                    momentums@,
                    hooks@,
                    bodies@,
                    old(pw).bodies@[h],
                    h,
                    e as int,
                    gravity,
                ),
        decreases n - e,
    {
        let momentum = momentums.get(e);
        let handle = bodies.get(e);
        if momentum.is_some() && handle.is_some() {
            let m = momentum.as_ref().unwrap();
            let h = handle.unwrap().0;
            proof {
                assert(bodies@[e as int] is Some);
                assert(pw.bodies@[h as int] == pass_body_result(
                    players@,
                    momentums@,
                    hooks@,
                    bodies@,
                    old(pw).bodies@[h as int],
                    h as int,
                    e as int,
                    gravity,
                ));
                assert(old(pw).bodies@[h as int] is Some);
                assert(old(pw).bodies@[h as int]->Some_0.entity == e);
            }
            let b = pw.rigid_body(h);
            let is_player = players.get(e).is_some();
            let hook = hooks.get(e);
            let nb = apply_momentum(b, m, is_player, hook, gravity);
            pw.set_body(h, nb);
            proof {
                assert forall|k: int| 0 <= k < old(pw).bodies@.len() implies #[trigger] pw.bodies@[k]
                    == pass_body_result(
                    players@,
                    momentums@,
                    hooks@,
                    bodies@,
                    old(pw).bodies@[k],
                    k,
                    e as int + 1,
                    gravity,
                ) by {
                    if k != h as int {
                        if old(pw).bodies@[k] is Some {
                            let bk = old(pw).bodies@[k]->Some_0;
                            if bk.entity == e as int {
                                assert(bodies@[e as int]->Some_0.0 == h);
                            }
                        }
                    }
                }
            }
        } else {
            proof {
                assert forall|k: int| 0 <= k < old(pw).bodies@.len() implies #[trigger] pw.bodies@[k]
                    == pass_body_result(
                    players@,
                    momentums@,
                    hooks@,
                    bodies@,
                    old(pw).bodies@[k],
                    k,
                    e as int + 1,
                    gravity,
                ) by {
                    if old(pw).bodies@[k] is Some {
                        let bk = old(pw).bodies@[k]->Some_0;
                        if bk.entity == e as int && bodies@[e as int] is Some
                            && bodies@[e as int]->Some_0.0 == k && momentums@[e as int] is Some {
                            assert(handles_wf(bodies@, old(pw).bodies@));
                            assert(false);
                        }
                    }
                }
            }
        }
        e = e + 1;
    }
    proof {
        assert forall|h: int| 0 <= h < pw.bodies@.len() && #[trigger] pw.bodies@[h] is Some implies
            body_ok(pw.bodies@[h]->Some_0) by {
            assert(pw.bodies@[h] == pass_body_result(
                players@,
                momentums@,
                hooks@,
                bodies@,
                old(pw).bodies@[h],
                h,
                n as int,
                gravity,
            ));
            let ob = old(pw).bodies@[h]->Some_0;
            let e2 = ob.entity as int;
            if 0 <= e2 < n && bodies@[e2] is Some && bodies@[e2]->Some_0.0 == h
                && momentums@[e2] is Some {
                lemma_integrated_body_ok(ob, momentums@[e2]->Some_0, players@[e2] is Some, hooks@[e2], gravity);
            }
        }
        assert forall|e2: int| 0 <= e2 < bodies@.len() && #[trigger] bodies@[e2] is Some implies {
            let h = bodies@[e2]->Some_0.0 as int;
            &&& 0 <= h < pw.bodies@.len()
            &&& pw.bodies@[h] is Some
            &&& pw.bodies@[h]->Some_0.entity == e2
        } by {
            let h = bodies@[e2]->Some_0.0 as int;
            assert(pw.bodies@[h] == pass_body_result(
                players@,
                momentums@,
                hooks@,
                bodies@,
                old(pw).bodies@[h],
                h,
                n as int,
                gravity,
            ));
        }
        assert(pw.bodies@ =~= forced_bodies(
            players@,
            momentums@,
            hooks@,
            bodies@,
            old(pw).bodies@,
            gravity,
        ));
    }
}

/// A body after the post-step player correction: angular velocity and
/// angular-acceleration scale zeroed, orientation reset to the configured
/// default, translation kept.
pub open spec fn corrected_body(b: Body, default_rotation: V3) -> Body {
    Body {
        ang_vel: V3 { x: 0, y: 0, z: 0 },
        ang_acc_scale: 0,
        rotation: default_rotation,
        ..b
    }
}

/// What one body slot holds after the player correction has run for the
/// entities below `upto`.
pub open spec fn correction_result(
    players: Seq<Option<Player>>,
    handles: Seq<Option<PhysicRigidBodyHandle>>,
    old_slot: Option<Body>,
    h: int,
    upto: int,
    default_rotation: V3,
) -> Option<Body> {
    match old_slot {
        Some(b) => {
            let e = b.entity as int;
            if 0 <= e < upto && e < handles.len() && handles[e] is Some
                && handles[e]->Some_0.0 == h && players[e] is Some {
                Some(corrected_body(b, default_rotation))
            } else {
                Some(b)
            }
        },
        None => None,
    }
}

/// The post-step correction: the player capsule must never tumble, whatever
/// the solver did, so its angular velocity and angular-acceleration scale are
/// forcibly zeroed and its orientation is reset to the configured default.
pub fn correct_player(
    players: &Table<Player>,
    bodies: &Table<PhysicRigidBodyHandle>,
    pw: &mut PhysicsWorld,
    default_rotation: V3,
)
    requires
        players@.len() == bodies@.len(),
        handles_wf(bodies@, old(pw).bodies@),
        bodies_ok(old(pw).bodies@),
        in_bounds(default_rotation, COORD_LIMIT as int),
    ensures
        final(pw).bodies@.len() == old(pw).bodies@.len(),
        final(pw).sensors == old(pw).sensors,
        final(pw).params == old(pw).params,
        forall|h: int|
            0 <= h < old(pw).bodies@.len() ==> #[trigger] final(pw).bodies@[h]
                == correction_result(
                players@,
                bodies@,
                old(pw).bodies@[h],
                h,
                players@.len() as int,
                default_rotation,
            ),
        bodies_ok(final(pw).bodies@),
        handles_wf(bodies@, final(pw).bodies@),
{
    let n = players.len();
    let mut e: usize = 0;
    while e < n
        invariant
            n == players@.len(),
            bodies@.len() == n,
            e <= n,
            in_bounds(default_rotation, COORD_LIMIT as int),
            handles_wf(bodies@, old(pw).bodies@),
            bodies_ok(old(pw).bodies@),
            pw.bodies@.len() == old(pw).bodies@.len(),
            pw.sensors == old(pw).sensors,
            pw.params == old(pw).params,
            forall|h: int|
                0 <= h < old(pw).bodies@.len() ==> #[trigger] pw.bodies@[h] == correction_result(
                    players@,
                    bodies@,
                    old(pw).bodies@[h],
                    h,
                    e as int,
                    default_rotation,
                ),
        decreases n - e,
    {
        let is_player = players.get(e).is_some();
        let handle = bodies.get(e);
        if is_player && handle.is_some() {
            let h = handle.unwrap().0;
            proof {
                assert(bodies@[e as int] is Some);
                assert(pw.bodies@[h as int] == correction_result(
                    players@,
                    bodies@,
                    old(pw).bodies@[h as int],
                    h as int,
                    e as int,
                    default_rotation,
                ));
                assert(old(pw).bodies@[h as int] is Some);
                assert(old(pw).bodies@[h as int]->Some_0.entity == e);
            }
            let b = pw.rigid_body(h);
            let nb = Body {
                ang_vel: V3::zero(),
                ang_acc_scale: 0,
                rotation: default_rotation,
                ..b
            };
            pw.set_body(h, nb);
            proof {
                assert forall|k: int| 0 <= k < old(pw).bodies@.len() implies #[trigger] pw.bodies@[k]
                    == correction_result(
                    players@,
                    bodies@,
                    old(pw).bodies@[k],
                    k,
                    e as int + 1,
                    default_rotation,
                ) by {
                    if k != h as int {
                        if old(pw).bodies@[k] is Some {
                            let bk = old(pw).bodies@[k]->Some_0;
                            if bk.entity == e as int {
                                assert(bodies@[e as int]->Some_0.0 == h);
                            }
                        }
                    }
                }
            }
        } else {
            proof {
                assert forall|k: int| 0 <= k < old(pw).bodies@.len() implies #[trigger] pw.bodies@[k]
                    == correction_result(
                    players@,
                    bodies@,
                    old(pw).bodies@[k],
                    k,
                    e as int + 1,
                    default_rotation,
                ) by {
                    if old(pw).bodies@[k] is Some {
                        let bk = old(pw).bodies@[k]->Some_0;
                        if bk.entity == e as int && bodies@[e as int] is Some
                            && bodies@[e as int]->Some_0.0 == k && players@[e as int] is Some {
                            assert(handles_wf(bodies@, old(pw).bodies@));
                            assert(false);
                        }
                    }
                }
            }
        }
        e = e + 1;
    }
    proof {
        assert forall|h: int| 0 <= h < pw.bodies@.len() && #[trigger] pw.bodies@[h] is Some implies
            body_ok(pw.bodies@[h]->Some_0) by {
            assert(pw.bodies@[h] == correction_result(
                players@,
                bodies@,
                old(pw).bodies@[h],
                h,
                n as int,
                default_rotation,
            ));
        }
        assert forall|e2: int| 0 <= e2 < bodies@.len() && #[trigger] bodies@[e2] is Some implies {
            let h = bodies@[e2]->Some_0.0 as int;
            &&& 0 <= h < pw.bodies@.len()
            &&& pw.bodies@[h] is Some
            &&& pw.bodies@[h]->Some_0.entity == e2
        } by {
            let h = bodies@[e2]->Some_0.0 as int;
            assert(pw.bodies@[h] == correction_result(
                players@,
                bodies@,
                old(pw).bodies@[h],
                h,
                n as int,
                default_rotation,
            ));
        }
    }
}

/// Motion state the outside solver reports for one body after a sub-step.
#[derive(Clone, Copy, PartialEq, Eq, Structural, Debug)]
pub struct MotionUpdate {
    pub handle: usize,
    pub position: V3,
    pub rotation: V3,
    pub lin_vel: V3,
    pub ang_vel: V3,
}

/// Admissible solver-reported motion.
pub open spec fn motion_ok(u: MotionUpdate) -> bool {
    &&& in_bounds(u.position, COORD_LIMIT as int)
    &&& in_bounds(u.rotation, COORD_LIMIT as int)
    &&& in_bounds(u.lin_vel, VEL_LIMIT as int)
    &&& in_bounds(u.ang_vel, VEL_LIMIT as int)
}

/// A body with the solver-reported motion written back; forces and the
/// owning entity are untouched.
pub open spec fn moved_body(b: Body, u: MotionUpdate) -> Body {
    Body {
        position: u.position,
        rotation: u.rotation,
        lin_vel: u.lin_vel,
        ang_vel: u.ang_vel,
        ..b
    }
}

/// The body table after a list of solver-reported motion updates, applied in
/// order; updates whose handle no longer resolves are dropped.
pub open spec fn motion_applied(bodies: Seq<Option<Body>>, updates: Seq<MotionUpdate>) -> Seq<
    Option<Body>,
>
    decreases updates.len(),
{
    if updates.len() == 0 {
        bodies
    } else {
        let prev = motion_applied(bodies, updates.drop_last());
        let u = updates.last();
        if u.handle < prev.len() && prev[u.handle as int] is Some {
            prev.update(u.handle as int, Some(moved_body(prev[u.handle as int]->Some_0, u)))
        } else {
            prev
        }
    }
}

impl PhysicsWorld {
    /// Writes back the motion the outside solver reports for a completed
    /// sub-step. Entity tags and accumulated forces are untouched, so the
    /// handle-to-entity mapping survives every solver step.
    pub fn apply_motion(&mut self, updates: &Vec<MotionUpdate>)
        requires
            forall|i: int| 0 <= i < updates@.len() ==> motion_ok(#[trigger] updates@[i]),
        ensures
            final(self).bodies@ == motion_applied(old(self).bodies@, updates@),
            final(self).sensors == old(self).sensors,
            final(self).params == old(self).params,
            final(self).bodies@.len() == old(self).bodies@.len(),
            forall|h: int|
                0 <= h < old(self).bodies@.len() ==> (#[trigger] final(self).bodies@[h] is Some
                    <==> old(self).bodies@[h] is Some),
            forall|h: int| #![trigger final(self).bodies@[h]]
                0 <= h < old(self).bodies@.len() && old(self).bodies@[h] is Some
                    ==> final(self).bodies@[h]->Some_0.entity
                    == old(self).bodies@[h]->Some_0.entity,
            forall|h: int| #![trigger final(self).bodies@[h]]
                0 <= h < old(self).bodies@.len() && old(self).bodies@[h] is Some
                    ==> final(self).bodies@[h]->Some_0.lin_force
                    == old(self).bodies@[h]->Some_0.lin_force
                    && final(self).bodies@[h]->Some_0.ang_force
                    == old(self).bodies@[h]->Some_0.ang_force,
            bodies_ok(old(self).bodies@) ==> bodies_ok(final(self).bodies@),
    {
        let mut i: usize = 0;
        let n = updates.len();
        while i < n
            invariant
                n == updates@.len(),
                i <= n,
                forall|k: int| 0 <= k < n ==> motion_ok(#[trigger] updates@[k]),
                self.bodies@ == motion_applied(old(self).bodies@, updates@.subrange(0, i as int)),
                self.sensors == old(self).sensors,
                self.params == old(self).params,
                self.bodies@.len() == old(self).bodies@.len(),
                forall|h: int|
                    0 <= h < old(self).bodies@.len() ==> (#[trigger] self.bodies@[h] is Some <==> old(
                        self,
                    ).bodies@[h] is Some),
                forall|h: int| #![trigger self.bodies@[h]]
                    0 <= h < old(self).bodies@.len() && old(self).bodies@[h] is Some
                        ==> self.bodies@[h]->Some_0.entity == old(
                        self,
                    ).bodies@[h]->Some_0.entity,
                forall|h: int| #![trigger self.bodies@[h]]
                    0 <= h < old(self).bodies@.len() && old(self).bodies@[h] is Some
                        ==> self.bodies@[h]->Some_0.lin_force == old(
                        self,
                    ).bodies@[h]->Some_0.lin_force && self.bodies@[h]->Some_0.ang_force == old(
                        self,
                    ).bodies@[h]->Some_0.ang_force,
                bodies_ok(old(self).bodies@) ==> bodies_ok(self.bodies@),
            decreases n - i,
        {
            let u = updates[i];
            proof {
                assert(updates@.subrange(0, i as int + 1).drop_last() =~= updates@.subrange(
                    0,
                    i as int,
                ));
                assert(updates@.subrange(0, i as int + 1).last() == updates@[i as int]);
            }
            if u.handle < self.bodies.len() {
                let slot_filled = self.bodies.get(u.handle).is_some();
                if slot_filled {
                    let b = self.rigid_body(u.handle);
                    let nb = Body {
                        position: u.position,
                        rotation: u.rotation,
                        lin_vel: u.lin_vel,
                        ang_vel: u.ang_vel,
                        ..b
                    };
                    self.set_body(u.handle, nb);
                }
            }
            i = i + 1;
        }
        proof {
            assert(updates@.subrange(0, n as int) =~= updates@);
        }
    }
}

impl PhysicRigidBodyHandle {
    /// The body this handle refers to, read through the physics world that
    /// owns it.
    pub fn get(&self, world: &PhysicsWorld) -> (r: Body)
        requires
            self.0 < world.bodies@.len(),
            world.bodies@[self.0 as int] is Some,
        ensures
            Some(r) == world.bodies@[self.0 as int],
    {
        world.rigid_body(self.0)
    }
}

/// The unit direction from one point toward another, scaled by
/// [`DIR_SCALE`]; zero when the points coincide.
pub open spec fn unit_toward(from: V3, to: V3) -> V3 {
    if from == to {
        V3 { x: 0, y: 0, z: 0 }
    } else {
        let n = isqrt_spec(dist_sq(from, to));
        V3 {
            x: scaled_quot(to.x - from.x, DIR_SCALE as int, n) as i64,
            y: scaled_quot(to.y - from.y, DIR_SCALE as int, n) as i64,
            z: scaled_quot(to.z - from.z, DIR_SCALE as int, n) as i64,
        }
    }
}

/// Computes [`unit_toward`].
pub fn unit_toward_exec(from: V3, to: V3) -> (r: V3)
    requires
        in_bounds(from, COORD_LIMIT as int),
        in_bounds(to, COORD_LIMIT as int),
    ensures
        r == unit_toward(from, to),
        in_bounds(r, DIR_SCALE as int),
{
    match crate::vec3::scaled_dir(from, to, DIR_SCALE as u64) {
        Some(d) => d,
        None => V3::zero(),
    }
}

/// The damping contribution to the accumulated force is computed from the
/// velocity the body entered the pass with, never from a velocity any force
/// of the same pass produced: the force with damping differs from the force
/// with the damping coefficient zeroed by exactly the damping coefficient
/// applied against the pre-pass velocity.
pub proof fn lemma_damping_from_pre_pass_velocity(
    b: Body,
    m: Momentum,
    is_player: bool,
    hook: Option<Hook>,
    gravity: i64,
)
    requires
        body_ok(b),
        momentum_ok(m),
        (hook matches Some(h) ==> hook_ok(h)),
        0 <= gravity <= GRAVITY_LIMIT,
    ensures
        ({
            let with = integrated_body(b, m, is_player, hook, gravity);
            let without = integrated_body(
                b,
                Momentum { damping: 0, ..m },
                is_player,
                hook,
                gravity,
            );
            let df = damping_force(m, b.lin_vel);
            &&& with.lin_force.x == without.lin_force.x + df.x
            &&& with.lin_force.y == without.lin_force.y + df.y
            &&& with.lin_force.z == without.lin_force.z + df.z
        }),
{
    lemma_mul_bound(-m.damping as int, COEF_LIMIT as int, b.lin_vel.x as int, VEL_LIMIT as int);
    lemma_mul_bound(-m.damping as int, COEF_LIMIT as int, b.lin_vel.y as int, VEL_LIMIT as int);
    lemma_mul_bound(-m.damping as int, COEF_LIMIT as int, b.lin_vel.z as int, VEL_LIMIT as int);
    lemma_mul_bound(m.force as int, COEF_LIMIT as int, m.direction.x as int, DIR_SCALE as int);
    lemma_mul_bound(m.force as int, COEF_LIMIT as int, m.direction.y as int, DIR_SCALE as int);
    lemma_mul_bound(m.force as int, COEF_LIMIT as int, m.direction.z as int, DIR_SCALE as int);
    match hook {
        Some(h) => {
            lemma_hook_pull_bounds(b.position, h);
        },
        None => {},
    }
    let m0 = Momentum { damping: 0, ..m };
    let df = damping_force(m, b.lin_vel);
    let thrust = m.direction.spec_scaled(m.force as int);
    let hp = match hook {
        Some(h) => hook_pull(b.position, h),
        None => V3 { x: 0, y: 0, z: 0 },
    };
    assert(b.lin_vel.spec_scaled(0).x == 0);
    assert(damping_force(m0, b.lin_vel) == V3 { x: 0, y: 0, z: 0 });
    assert(in_bounds(hp, COEF_LIMIT as int * DIR_SCALE as int));
    assert(df.x == (-m.damping) * b.lin_vel.x);
    assert(df.y == (-m.damping) * b.lin_vel.y);
    assert(df.z == (-m.damping) * b.lin_vel.z);
    assert(thrust.x == m.force * m.direction.x);
    assert(thrust.y == m.force * m.direction.y);
    assert(thrust.z == m.force * m.direction.z);
}

} // verus!
