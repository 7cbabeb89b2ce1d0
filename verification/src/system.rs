//! The simulation systems: per-frame units of logic with declared read and
//! write footprints over the world's components and resources.

use vstd::prelude::*;

pub mod game;
pub mod menu_control;
pub mod physic;

verus! {

use crate::component::Momentum;
use crate::component::DynamicDraw;
use crate::component::WorldTrans;
use crate::physics::unit_toward;
use crate::physics::unit_toward_exec;
use crate::vec3::lemma_mul_bound;
use crate::physics::Body;
use crate::vec3::in_bounds;
use crate::vec3::COORD_LIMIT;
use crate::vec3::V3;
use crate::world::World;

/// Turns the player's pending movement keys into the momentum direction; the
/// look-angle trigonometry lives with the windowing collaborator.
pub struct PlayerControlSystem {
    pub directions: Vec<crate::util::Direction>,
}

impl PlayerControlSystem {
    pub fn new() -> (r: PlayerControlSystem)
        ensures
            r.directions@.len() == 0,
    {
        PlayerControlSystem { directions: Vec::new() }
    }
}

/// Steers every avoider toward the player.
pub struct AvoiderControlSystem;

/// The momentum an avoider is left with: only its thrust direction changes,
/// to the unit direction from its body toward the player's body.
pub open spec fn steered(m: Momentum, from: V3, to: V3) -> Momentum {
    Momentum { direction: unit_toward(from, to), ..m }
}

impl AvoiderControlSystem {
    /// For every entity with an avoider marker, a momentum and a body, points
    /// the momentum at the player's current position; everything else is
    /// untouched.
    pub fn run(&mut self, world: &mut World, player: crate::component::Entity)
        requires
            old(world).wf(),
            player < old(world).n(),
            old(world).players@[player as int] is Some,
            old(world).bodies@[player as int] is Some,
        ensures
            final(world).wf(),
            final(world).n() == old(world).n(),
            ({
                let ph = old(world).bodies@[player as int]->Some_0.0 as int;
                let ppos = old(world).physic_world.bodies@[ph]->Some_0.position;
                forall|e: int|
                    0 <= e < old(world).n() ==> #[trigger] final(world).momentums@[e] == (if old(
                        world,
                    ).avoiders@[e] is Some && old(world).momentums@[e] is Some && old(
                        world,
                    ).bodies@[e] is Some {
                        let h = old(world).bodies@[e]->Some_0.0 as int;
                        Some(
                            steered(
                                old(world).momentums@[e]->Some_0,
                                old(world).physic_world.bodies@[h]->Some_0.position,
                                ppos,
                            ),
                        )
                    } else {
                        old(world).momentums@[e]
                    })
            }),
            final(world).alive == old(world).alive,
            final(world).players == old(world).players,
            final(world).hooks == old(world).hooks,
            final(world).bodies == old(world).bodies,
            final(world).sensors == old(world).sensors,
            final(world).contactors == old(world).contactors,
            final(world).proximitors == old(world).proximitors,
            final(world).teleports == old(world).teleports,
            final(world).avoiders == old(world).avoiders,
            final(world).static_draws == old(world).static_draws,
            final(world).dynamic_draws == old(world).dynamic_draws,
            final(world).physic_world == old(world).physic_world,
            final(world).pending_deletion == old(world).pending_deletion,
            crate::world::unchanged_resources(*old(world), *final(world)),
    {
        let ph = match *world.bodies.get(player) {
            Some(handle) => handle.0,
            None => 0,
        };
        let player_pos = world.physic_world.rigid_body(ph).position;
        let n = world.momentums.len();
        let mut e: usize = 0;
        while e < n
            invariant
                old(world).wf(),
                world.wf(),
                n == old(world).n(),
                e <= n,
                player < old(world).n(),
                old(world).players@[player as int] is Some,
                old(world).bodies@[player as int] is Some,
                ph == old(world).bodies@[player as int]->Some_0.0,
                player_pos == old(world).physic_world.bodies@[ph as int]->Some_0.position,
                world.n() == n,
                forall|i: int|
                    0 <= i < n ==> #[trigger] world.momentums@[i] == (if i < e && old(
                        world,
                    ).avoiders@[i] is Some && old(world).momentums@[i] is Some && old(
                        world,
                    ).bodies@[i] is Some {
                        let h = old(world).bodies@[i]->Some_0.0 as int;
                        Some(
                            steered(
                                old(world).momentums@[i]->Some_0,
                                old(world).physic_world.bodies@[h]->Some_0.position,
                                player_pos,
                            ),
                        )
                    } else {
                        old(world).momentums@[i]
                    }),
                world.alive == old(world).alive,
                world.players == old(world).players,
                world.hooks == old(world).hooks,
                world.bodies == old(world).bodies,
                world.sensors == old(world).sensors,
                world.contactors == old(world).contactors,
                world.proximitors == old(world).proximitors,
                world.teleports == old(world).teleports,
                world.avoiders == old(world).avoiders,
                world.static_draws == old(world).static_draws,
                world.dynamic_draws == old(world).dynamic_draws,
                world.physic_world == old(world).physic_world,
                world.pending_deletion == old(world).pending_deletion,
                crate::world::unchanged_resources(*old(world), *world),
            decreases n - e,
        {
            let is_avoider = world.avoiders.get(e).is_some();
            let has_body = world.bodies.get(e).is_some();
            if is_avoider && has_body {
                match world.momentums.take(e) {
                    Some(m) => {
                        let h = (*world.bodies.get(e)).unwrap().0;
                        let pos = world.physic_world.rigid_body(h).position;
                        let dir = crate::physics::unit_toward_exec(pos, player_pos);
                        world.momentums.put(e, Momentum { direction: dir, ..m });
                    },
                    None => {},
                }
            }
            e = e + 1;
        }
    }
}

/// Builds the scene's command buffers from the final transforms; the GPU
/// work lives entirely with the rendering collaborator.
pub struct DrawSystem;

/// Recomputes each body-following drawable's world transform.
pub struct UpdateDynamicDrawSystem;

/// The transform a body-following drawable shows: the body's translation
/// plus the drawable's local offset, the body's orientation, and the local
/// scale. The local offset is carried unrotated and the drawable's own local
/// rotation stays in its `primitive_trans`; the rendering collaborator, which
/// owns the rotation matrices, composes the body orientation with the local
/// transform when it expands the uniform.
pub open spec fn followed_trans(b: Body, local: WorldTrans) -> WorldTrans {
    WorldTrans {
        translation: b.position.spec_plus(local.translation),
        rotation: b.rotation,
        scale: local.scale,
    }
}

impl UpdateDynamicDrawSystem {
    /// For every entity with a dynamic drawable and a body, refreshes the
    /// drawable's world transform from the body's position.
    pub fn run(&mut self, world: &mut World)
        requires
            old(world).wf(),
            forall|e: int|
                0 <= e < old(world).n() && #[trigger] old(world).dynamic_draws@[e] is Some
                    ==> in_bounds(
                    old(world).dynamic_draws@[e]->Some_0.primitive_trans.translation,
                    COORD_LIMIT as int,
                ),
        ensures
            final(world).wf(),
            final(world).n() == old(world).n(),
            forall|e: int|
                0 <= e < old(world).n() ==> #[trigger] final(world).dynamic_draws@[e] == (if old(
                    world,
                ).dynamic_draws@[e] is Some && old(world).bodies@[e] is Some {
                    let h = old(world).bodies@[e]->Some_0.0 as int;
                    let d = old(world).dynamic_draws@[e]->Some_0;
                    Some(
                        DynamicDraw {
                            world_trans: followed_trans(
                                old(world).physic_world.bodies@[h]->Some_0,
                                d.primitive_trans,
                            ),
                            ..d
                        },
                    )
                } else {
                    old(world).dynamic_draws@[e]
                }),
            final(world).alive == old(world).alive,
            final(world).players == old(world).players,
            final(world).momentums == old(world).momentums,
            final(world).hooks == old(world).hooks,
            final(world).bodies == old(world).bodies,
            final(world).sensors == old(world).sensors,
            final(world).contactors == old(world).contactors,
            final(world).proximitors == old(world).proximitors,
            final(world).teleports == old(world).teleports,
            final(world).avoiders == old(world).avoiders,
            final(world).static_draws == old(world).static_draws,
            final(world).physic_world == old(world).physic_world,
            final(world).pending_deletion == old(world).pending_deletion,
            crate::world::unchanged_resources(*old(world), *final(world)),
    {
        let n = world.dynamic_draws.len();
        let mut e: usize = 0;
        while e < n
            invariant
                old(world).wf(),
                world.wf(),
                n == old(world).n(),
                e <= n,
                world.n() == n,
                forall|i: int|
                    0 <= i < n && #[trigger] old(world).dynamic_draws@[i] is Some ==> in_bounds(
                        old(world).dynamic_draws@[i]->Some_0.primitive_trans.translation,
                        COORD_LIMIT as int,
                    ),
                forall|i: int|
                    0 <= i < n ==> #[trigger] world.dynamic_draws@[i] == (if i < e && old(
                        world,
                    ).dynamic_draws@[i] is Some && old(world).bodies@[i] is Some {
                        let h = old(world).bodies@[i]->Some_0.0 as int;
                        let d = old(world).dynamic_draws@[i]->Some_0;
                        Some(
                            DynamicDraw {
                                world_trans: followed_trans(
                                    old(world).physic_world.bodies@[h]->Some_0,
                                    d.primitive_trans,
                                ),
                                ..d
                            },
                        )
                    } else {
                        old(world).dynamic_draws@[i]
                    }),
                world.alive == old(world).alive,
                world.players == old(world).players,
                world.momentums == old(world).momentums,
                world.hooks == old(world).hooks,
                world.bodies == old(world).bodies,
                world.sensors == old(world).sensors,
                world.contactors == old(world).contactors,
                world.proximitors == old(world).proximitors,
                world.teleports == old(world).teleports,
                world.avoiders == old(world).avoiders,
                world.static_draws == old(world).static_draws,
                world.physic_world == old(world).physic_world,
                world.pending_deletion == old(world).pending_deletion,
                crate::world::unchanged_resources(*old(world), *world),
            decreases n - e,
        {
            let has_body = world.bodies.get(e).is_some();
            if has_body {
                match world.dynamic_draws.take(e) {
                    Some(d) => {
                        let h = (*world.bodies.get(e)).unwrap().0;
                        let b = world.physic_world.rigid_body(h);
                        let new_trans = WorldTrans {
                            translation: b.position.plus(d.primitive_trans.translation),
                            rotation: b.rotation,
                            scale: d.primitive_trans.scale,
                        };
                        world.dynamic_draws.put(e, DynamicDraw { world_trans: new_trans, ..d });
                    },
                    None => {},
                }
            }
            e = e + 1;
        }
    }
}

/// The movement direction a hardware scancode maps to.
pub open spec fn key_direction(scancode: u32) -> Option<crate::util::Direction> {
    if scancode == 25 {
        Some(crate::util::Direction::Forward)
    } else if scancode == 38 {
        Some(crate::util::Direction::Left)
    } else if scancode == 39 {
        Some(crate::util::Direction::Backward)
    } else if scancode == 40 {
        Some(crate::util::Direction::Right)
    } else {
        None
    }
}

/// The pending movement keys after one batch of events: each tracked key
/// press removes its earlier occurrence and appends itself; a release only
/// removes.
pub open spec fn directions_after(
    dirs: Seq<crate::util::Direction>,
    events: Seq<crate::event::Event>,
) -> Seq<crate::util::Direction>
    decreases events.len(),
{
    if events.len() == 0 {
        dirs
    } else {
        let prev = directions_after(dirs, events.drop_last());
        match events.last() {
            crate::event::Event::WindowEvent {
                event: crate::event::WindowEvent::KeyboardInput { input },
                ..
            } => {
                match key_direction(input.scancode) {
                    Some(d) => {
                        let filtered = prev.filter(|x: crate::util::Direction| x != d);
                        if input.state is Pressed {
                            filtered.push(d)
                        } else {
                            filtered
                        }
                    },
                    None => prev,
                }
            },
            _ => prev,
        }
    }
}

/// The forward/backward and left/right axes the pending keys request, the
/// later key winning on each axis.
pub open spec fn move_axes(dirs: Seq<crate::util::Direction>) -> (int, int)
    decreases dirs.len(),
{
    if dirs.len() == 0 {
        (0int, 0int)
    } else {
        let prev = move_axes(dirs.drop_last());
        match dirs.last() {
            crate::util::Direction::Forward => (1int, prev.1),
            crate::util::Direction::Backward => (-1int, prev.1),
            crate::util::Direction::Left => (prev.0, 1int),
            crate::util::Direction::Right => (prev.0, -1int),
        }
    }
}

/// Removes every occurrence of one direction.
fn remove_direction(dirs: &mut Vec<crate::util::Direction>, d: crate::util::Direction)
    ensures
        final(dirs)@ == old(dirs)@.filter(|x: crate::util::Direction| x != d),
{
    let mut kept: Vec<crate::util::Direction> = Vec::new();
    let n = dirs.len();
    let mut i: usize = 0;
    proof {
        reveal(Seq::filter);
        assert(old(dirs)@.subrange(0, 0) =~= Seq::<crate::util::Direction>::empty());
    }
    while i < n
        invariant
            n == old(dirs)@.len(),
            i <= n,
            dirs@ == old(dirs)@,
            kept@ == old(dirs)@.subrange(0, i as int).filter(
                |x: crate::util::Direction| x != d,
            ),
        decreases n - i,
    {
        let x = dirs[i];
        proof {
            reveal(Seq::filter);
            assert(old(dirs)@.subrange(0, i as int + 1).drop_last() =~= old(dirs)@.subrange(
                0,
                i as int,
            ));
            assert(old(dirs)@.subrange(0, i as int + 1).last() == old(dirs)@[i as int]);
        }
        if !(x == d) {
            kept.push(x);
        }
        i = i + 1;
    }
    proof {
        assert(old(dirs)@.subrange(0, n as int) =~= old(dirs)@);
    }
    *dirs = kept;
}

impl PlayerControlSystem {
    /// Folds one frame's keyboard events into the pending movement keys and
    /// points the player's momentum along the requested axes, expressed
    /// through the look collaborator's current yaw axes and normalized to a
    /// unit direction. No keys pending leaves the player coasting.
    pub fn run(
        &mut self,
        world: &mut World,
        player: crate::component::Entity,
        yaw_x: V3,
        yaw_y: V3,
    )
        requires
            old(world).wf(),
            player < old(world).n(),
            old(world).momentums@[player as int] is Some,
            in_bounds(yaw_x, crate::physics::DIR_SCALE as int),
            in_bounds(yaw_y, crate::physics::DIR_SCALE as int),
        ensures
            final(world).wf(),
            final(world).n() == old(world).n(),
            final(self).directions@ == directions_after(
                old(self).directions@,
                old(world).events.0@,
            ),
            ({
                let dirs = directions_after(old(self).directions@, old(world).events.0@);
                let axes = move_axes(dirs);
                let combined = yaw_x.spec_scaled(axes.0).spec_plus(yaw_y.spec_scaled(axes.1));
                let m = old(world).momentums@[player as int]->Some_0;
                let new_dir = if dirs.len() == 0 {
                    V3 { x: 0, y: 0, z: 0 }
                } else {
                    unit_toward(V3 { x: 0, y: 0, z: 0 }, combined)
                };
                final(world).momentums@ == old(world).momentums@.update(
                    player as int,
                    Some(Momentum { direction: new_dir, ..m }),
                )
            }),
            final(world).alive == old(world).alive,
            final(world).players == old(world).players,
            final(world).hooks == old(world).hooks,
            final(world).bodies == old(world).bodies,
            final(world).sensors == old(world).sensors,
            final(world).contactors == old(world).contactors,
            final(world).proximitors == old(world).proximitors,
            final(world).physic_world == old(world).physic_world,
            final(world).pending_deletion == old(world).pending_deletion,
            crate::world::unchanged_resources(*old(world), *final(world)),
    {
        let n_events = world.events.0.len();
        let mut i: usize = 0;
        while i < n_events
            invariant
                n_events == world.events.0@.len(),
                i <= n_events,
                *world == *old(world),
                self.directions@ == directions_after(
                    old(self).directions@,
                    old(world).events.0@.subrange(0, i as int),
                ),
            decreases n_events - i,
        {
            let ev = world.events.0[i];
            proof {
                assert(old(world).events.0@.subrange(0, i as int + 1).drop_last() =~= old(
                    world,
                ).events.0@.subrange(0, i as int));
                assert(old(world).events.0@.subrange(0, i as int + 1).last() == old(
                    world,
                ).events.0@[i as int]);
            }
            match ev {
                crate::event::Event::WindowEvent {
                    event: crate::event::WindowEvent::KeyboardInput { input },
                    ..
                } => {
                    let direction = if input.scancode == 25 {
                        Some(crate::util::Direction::Forward)
                    } else if input.scancode == 38 {
                        Some(crate::util::Direction::Left)
                    } else if input.scancode == 39 {
                        Some(crate::util::Direction::Backward)
                    } else if input.scancode == 40 {
                        Some(crate::util::Direction::Right)
                    } else {
                        None
                    };
                    match direction {
                        Some(d) => {
                            remove_direction(&mut self.directions, d);
                            let pressed = match input.state {
                                crate::event::ElementState::Pressed => true,
                                crate::event::ElementState::Released => false,
                            };
                            if pressed {
                                self.directions.push(d);
                            }
                        },
                        None => {},
                    }
                },
                _ => {},
            }
            i = i + 1;
        }
        proof {
            assert(old(world).events.0@.subrange(0, n_events as int) =~= old(world).events.0@);
        }
        let empty = self.directions.len() == 0;
        let new_dir = if empty {
            V3::zero()
        } else {
            let axes = compute_axes(&self.directions);
            proof {
                lemma_mul_bound(axes.0 as int, 1, yaw_x.x as int, crate::physics::DIR_SCALE as int);
                lemma_mul_bound(axes.0 as int, 1, yaw_x.y as int, crate::physics::DIR_SCALE as int);
                lemma_mul_bound(axes.0 as int, 1, yaw_x.z as int, crate::physics::DIR_SCALE as int);
                lemma_mul_bound(axes.1 as int, 1, yaw_y.x as int, crate::physics::DIR_SCALE as int);
                lemma_mul_bound(axes.1 as int, 1, yaw_y.y as int, crate::physics::DIR_SCALE as int);
                lemma_mul_bound(axes.1 as int, 1, yaw_y.z as int, crate::physics::DIR_SCALE as int);
            }
            let combined = yaw_x.scaled(axes.0).plus(yaw_y.scaled(axes.1));
            unit_toward_exec(V3::zero(), combined)
        };
        match world.momentums.take(player) {
            Some(m) => {
                world.momentums.put(player, Momentum { direction: new_dir, ..m });
            },
            None => {},
        }
    }
}

/// Computes [`move_axes`].
fn compute_axes(dirs: &Vec<crate::util::Direction>) -> (r: (i64, i64))
    ensures
        r.0 == move_axes(dirs@).0,
        r.1 == move_axes(dirs@).1,
        -1 <= r.0 <= 1,
        -1 <= r.1 <= 1,
{
    let mut x: i64 = 0;
    let mut y: i64 = 0;
    let n = dirs.len();
    let mut i: usize = 0;
    proof {
        assert(dirs@.subrange(0, 0) =~= Seq::<crate::util::Direction>::empty());
    }
    while i < n
        invariant
            n == dirs@.len(),
            i <= n,
            x == move_axes(dirs@.subrange(0, i as int)).0,
            y == move_axes(dirs@.subrange(0, i as int)).1,
            -1 <= x <= 1,
            -1 <= y <= 1,
        decreases n - i,
    {
        proof {
            assert(dirs@.subrange(0, i as int + 1).drop_last() =~= dirs@.subrange(0, i as int));
            assert(dirs@.subrange(0, i as int + 1).last() == dirs@[i as int]);
        }
        match dirs[i] {
            crate::util::Direction::Forward => {
                x = 1;
            },
            crate::util::Direction::Backward => {
                x = -1;
            },
            crate::util::Direction::Left => {
                y = 1;
            },
            crate::util::Direction::Right => {
                y = -1;
            },
        }
        i = i + 1;
    }
    proof {
        assert(dirs@.subrange(0, n as int) =~= dirs@);
    }
    (x, y)
}

/// Largest look-angle magnitude the yaw accumulator keeps; the angle only
/// ever feeds a periodic rotation, so saturating here loses nothing.
pub const YAW_LIMIT: i64 = 0x10000000000;

/// A value clamped into `[-lim, lim]`.
pub open spec fn sat(v: int, lim: int) -> int {
    if v > lim {
        lim
    } else if v < -lim {
        -lim
    } else {
        v
    }
}

/// A cursor movement divided by the mouse sensitivity, truncating toward
/// zero.
pub open spec fn sens_quot(d: int, sens: int) -> int {
    crate::vec3::scaled_quot(d, 1, sens)
}

/// The look angles after one batch of events: each cursor position folds its
/// offset from the screen center into the yaw, which saturates at
/// [`YAW_LIMIT`], and into the pitch, which is clamped to a right angle so
/// the view never flips over.
pub open spec fn pointer_after(
    p: (int, int),
    events: Seq<crate::event::Event>,
    sens: int,
    center_x: int,
    center_y: int,
) -> (int, int)
    decreases events.len(),
{
    if events.len() == 0 {
        p
    } else {
        let prev = pointer_after(p, events.drop_last(), sens, center_x, center_y);
        match events.last() {
            crate::event::Event::WindowEvent {
                event: crate::event::WindowEvent::CursorMoved { x, y },
                ..
            } => (
                sat(prev.0 + sens_quot(x - center_x, sens), YAW_LIMIT as int),
                sat(
                    prev.1 + sens_quot(y - center_y, sens),
                    crate::config::ANGLE_FRAC_PI_2 as int,
                ),
            ),
            _ => prev,
        }
    }
}

/// A sensitivity quotient over machine integers.
fn sens_quot_exec(d: i64, sens: u64) -> (r: i64)
    requires
        sens >= 1,
        -0x100000000000 <= d <= 0x100000000000,
    ensures
        r == sens_quot(d as int, sens as int),
        -0x100000000000 <= r <= 0x100000000000,
{
    proof {
        crate::vec3::lemma_scaled_quot_shrinks(d as int, 1, sens as int, 0x100000000000);
    }
    let a: u64 = if d >= 0 {
        d as u64
    } else {
        (-d) as u64
    };
    let q = a / sens;
    proof {
        vstd::arithmetic::div_mod::lemma_div_pos_is_pos(a as int, sens as int);
        vstd::arithmetic::div_mod::lemma_div_is_ordered_by_denominator(a as int, 1, sens as int);
        vstd::arithmetic::div_mod::lemma_div_basics(a as int);
    }
    if d >= 0 {
        q as i64
    } else {
        -(q as i64)
    }
}

/// A saturating addition into `[-lim, lim]`.
fn sat_add(v: i64, d: i64, lim: i64) -> (r: i64)
    requires
        0 < lim,
        -lim <= v <= lim,
        i64::MIN < v + d < i64::MAX,
    ensures
        r == sat(v + d, lim as int),
        -lim <= r <= lim,
{
    let s = v + d;
    if s > lim {
        lim
    } else if s < -lim {
        -lim
    } else {
        s
    }
}

/// Folds one frame's cursor movements into the player's accumulated look
/// angles: offsets from the screen center, divided by the configured mouse
/// sensitivity; the pitch is clamped to a right angle.
pub fn update_pointer(world: &mut World, sens: u64, center_x: i64, center_y: i64)
    requires
        sens >= 1,
        -0x100000000 <= center_x <= 0x100000000,
        -0x100000000 <= center_y <= 0x100000000,
        -YAW_LIMIT <= old(world).player_control.pointer@[0] <= YAW_LIMIT,
        -crate::config::ANGLE_FRAC_PI_2 <= old(world).player_control.pointer@[1]
            <= crate::config::ANGLE_FRAC_PI_2,
        forall|i: int|
            0 <= i < old(world).events.0@.len()
                ==> (#[trigger] old(world).events.0@[i] matches crate::event::Event::WindowEvent {
                event: crate::event::WindowEvent::CursorMoved { x, y },
                ..
            } ==> -0x100000000 <= x <= 0x100000000 && -0x100000000 <= y <= 0x100000000),
    ensures
        ({
            let after = pointer_after(
                (
                    old(world).player_control.pointer@[0] as int,
                    old(world).player_control.pointer@[1] as int,
                ),
                old(world).events.0@,
                sens as int,
                center_x as int,
                center_y as int,
            );
            final(world).player_control.pointer@[0] == after.0
                && final(world).player_control.pointer@[1] == after.1
        }),
        final(world).player_control.directions == old(world).player_control.directions,
        final(world).alive == old(world).alive,
        final(world).momentums == old(world).momentums,
        final(world).physic_world == old(world).physic_world,
        final(world).events == old(world).events,
{
    let n = world.events.0.len();
    let mut i: usize = 0;
    let mut yaw = world.player_control.pointer[0];
    let mut pitch = world.player_control.pointer[1];
    while i < n
        invariant
            n == world.events.0@.len(),
            i <= n,
            *world == *old(world),
            sens >= 1,
            -0x100000000 <= center_x <= 0x100000000,
            -0x100000000 <= center_y <= 0x100000000,
            forall|k: int|
                0 <= k < old(world).events.0@.len()
                    ==> (#[trigger] old(world).events.0@[k]
                    matches crate::event::Event::WindowEvent {
                    event: crate::event::WindowEvent::CursorMoved { x, y },
                    ..
                } ==> -0x100000000 <= x <= 0x100000000 && -0x100000000 <= y <= 0x100000000),
            -YAW_LIMIT <= yaw <= YAW_LIMIT,
            -crate::config::ANGLE_FRAC_PI_2 <= pitch <= crate::config::ANGLE_FRAC_PI_2,
            (yaw as int, pitch as int) == pointer_after(
                (
                    old(world).player_control.pointer@[0] as int,
                    old(world).player_control.pointer@[1] as int,
                ),
                old(world).events.0@.subrange(0, i as int),
                sens as int,
                center_x as int,
                center_y as int,
            ),
        decreases n - i,
    {
        let ev = world.events.0[i];
        proof {
            assert(old(world).events.0@.subrange(0, i as int + 1).drop_last() =~= old(
                world,
            ).events.0@.subrange(0, i as int));
            assert(old(world).events.0@.subrange(0, i as int + 1).last() == old(
                world,
            ).events.0@[i as int]);
        }
        match ev {
            crate::event::Event::WindowEvent {
                event: crate::event::WindowEvent::CursorMoved { x, y },
                ..
            } => {
                let dx = sens_quot_exec(x - center_x, sens);
                let dy = sens_quot_exec(y - center_y, sens);
                yaw = sat_add(yaw, dx, YAW_LIMIT);
                pitch = sat_add(pitch, dy, crate::config::ANGLE_FRAC_PI_2);
            },
            _ => {},
        }
        i = i + 1;
    }
    proof {
        assert(old(world).events.0@.subrange(0, n as int) =~= old(world).events.0@);
    }
    world.player_control.pointer = [yaw, pitch];
}

} // verus!
