//! The level lifecycle controller: given the frame's queued level-transition
//! requests, decides whether the world is torn down and rebuilt, applies the
//! teardown, and hands back what the level-construction collaborator must
//! build.

use vstd::prelude::*;

verus! {

use crate::audio::Sound;
use crate::config::Config;
use crate::entity::EntityConf;
use crate::level::kill_all_kruskal::Conf;
use crate::physics::PhysicsWorld;
use crate::physics::DIR_SCALE;
use crate::resource::Activated;
use crate::resource::CustomLevelConf;
use crate::resource::DepthCoef;
use crate::resource::Events;
use crate::resource::GameDuration;
use crate::resource::LevelAction;
use crate::world::count_alive;
use crate::world::World;

/// Where the simulation currently stands.
#[derive(Clone, Copy, PartialEq, Eq, Structural, Debug)]
pub enum Level {
    Hall,
    Custom,
    Level(usize, usize),
}

/// An illegal transition request, logged and answered with a safe fallback
/// instead of a crash: a running player must not lose the session to a
/// routing anomaly.
#[derive(Clone, Copy, PartialEq, Eq, Structural, Debug)]
pub enum LifecycleWarning {
    NextInHall,
    NextInCustom,
    EnterLevelOutsideHall,
}

/// What the level-construction collaborator is asked to build after a
/// teardown.
pub enum BuildPlan {
    Hall,
    LevelPart(usize, usize),
    Custom(Conf),
}

/// The state the lifecycle controller rebuilds for, given the current state
/// and the frame's first queued action; `None` means no rebuild this frame.
pub open spec fn next_level(
    cur: Option<Level>,
    action: Option<LevelAction>,
    levels: Seq<usize>,
) -> Option<Level> {
    match (cur, action) {
        (None, _) => Some(Level::Hall),
        (Some(Level::Hall), Some(LevelAction::Level(i))) => if levels[i as int] != 0 {
            Some(Level::Level(i, 0))
        } else {
            Some(Level::Hall)
        },
        (Some(Level::Level(i, p)), Some(LevelAction::Next)) => if levels[i as int] > p + 1 {
            Some(Level::Level(i, (p + 1) as usize))
        } else {
            Some(Level::Hall)
        },
        (cur2, Some(LevelAction::Reset)) => cur2,
        (_, Some(LevelAction::Custom)) => Some(Level::Custom),
        (_, Some(LevelAction::ReturnHall)) => Some(Level::Hall),
        (Some(_), None) => None,
        (Some(Level::Hall), Some(LevelAction::Next)) => Some(Level::Hall),
        (Some(Level::Custom), Some(LevelAction::Next)) => Some(Level::Hall),
        (Some(Level::Level(..)), Some(LevelAction::Level(..)))
        | (Some(Level::Custom), Some(LevelAction::Level(..))) => Some(Level::Hall),
    }
}

/// The invariant violation an illegal transition logs, if any.
pub open spec fn warning_of(cur: Option<Level>, action: Option<LevelAction>) -> Option<
    LifecycleWarning,
> {
    match (cur, action) {
        (None, _) => None,
        (Some(Level::Hall), Some(LevelAction::Level(_))) => None,
        (Some(Level::Level(..)), Some(LevelAction::Next)) => None,
        (_, Some(LevelAction::Reset)) => None,
        (_, Some(LevelAction::Custom)) => None,
        (_, Some(LevelAction::ReturnHall)) => None,
        (Some(_), None) => None,
        (Some(Level::Hall), Some(LevelAction::Next)) => Some(LifecycleWarning::NextInHall),
        (Some(Level::Custom), Some(LevelAction::Next)) => Some(LifecycleWarning::NextInCustom),
        (Some(Level::Level(..)), Some(LevelAction::Level(..)))
        | (Some(Level::Custom), Some(LevelAction::Level(..))) => Some(
            LifecycleWarning::EnterLevelOutsideHall,
        ),
    }
}

/// Whether the transition plays the portal cue.
pub open spec fn plays_cue(cur: Option<Level>, action: Option<LevelAction>) -> bool {
    match (cur, action) {
        (Some(Level::Hall), Some(LevelAction::Level(_))) => true,
        (Some(Level::Level(..)), Some(LevelAction::Next)) => true,
        _ => false,
    }
}

/// The score the transition records, if any: a zero-duration score when a
/// part-less level is entered, the accumulated game duration when a level's
/// last part is finished.
pub open spec fn score_recorded(
    cur: Option<Level>,
    action: Option<LevelAction>,
    levels: Seq<usize>,
    duration_ns: u64,
) -> Option<(usize, u64)> {
    match (cur, action) {
        (Some(Level::Hall), Some(LevelAction::Level(i))) => if levels[i as int] == 0 {
            Some((i, 0u64))
        } else {
            None
        },
        (Some(Level::Level(i, p)), Some(LevelAction::Next)) => if levels[i as int] > p + 1 {
            None
        } else {
            Some((i, duration_ns))
        },
        _ => None,
    }
}

/// The first queued action, before the queue is cleared.
pub open spec fn first_action(queue: Seq<LevelAction>) -> Option<LevelAction> {
    if queue.len() == 0 {
        None
    } else {
        Some(queue[0])
    }
}

/// A queued enter-level action names an existing level.
pub open spec fn action_in_range(action: Option<LevelAction>, levels: Seq<usize>) -> bool {
    action matches Some(LevelAction::Level(i)) ==> i < levels.len()
}

/// The entity seeding list a custom level is built with, in its fixed order.
pub open spec fn custom_entities(c: CustomLevelConf) -> Seq<(EntityConf, usize)> {
    seq![
        (EntityConf::MotionLess { eraser: false }, c.motion_less as usize),
        (EntityConf::MotionLess { eraser: true }, c.motion_less_eraser as usize),
        (EntityConf::Attracted { eraser: false }, c.attracted as usize),
        (EntityConf::Attracted { eraser: true }, c.attracted_eraser as usize),
        (EntityConf::Bouncer { eraser: false }, c.bouncer as usize),
        (EntityConf::Bouncer { eraser: true }, c.bouncer_eraser as usize),
        (EntityConf::Avoider { eraser: false }, c.avoider as usize),
        (EntityConf::Avoider { eraser: true }, c.avoider_eraser as usize),
        (EntityConf::Turret, c.turret as usize),
    ]
}

/// The plan handed back matches the state being rebuilt: the hall builder,
/// the indexed level-part builder, or a generated custom level whose
/// parameters come from the save file.
pub open spec fn plan_matches(plan: &BuildPlan, level: Level, c: CustomLevelConf) -> bool {
    match level {
        Level::Hall => *plan is Hall,
        Level::Level(i, p) => *plan == BuildPlan::LevelPart(i, p),
        Level::Custom => {
            &&& *plan is Custom
            &&& plan->Custom_0.size.0 == 2 * (c.maze_size as int) + 1
            &&& plan->Custom_0.size.1 == 2 * (c.maze_size as int) + 1
            &&& plan->Custom_0.percent == c.percent
            &&& plan->Custom_0.bug.0 == (if c.x_shift {
                1int
            } else {
                0int
            })
            &&& plan->Custom_0.bug.1 == (if c.y_shift {
                1int
            } else {
                0int
            })
            &&& plan->Custom_0.entities@ == custom_entities(c)
        },
    }
}

/// The lifecycle controller.
pub struct GameSystem {
    pub current_level: Option<Level>,
    /// The invariant violations logged so far.
    pub warnings: Vec<LifecycleWarning>,
}

impl GameSystem {
    /// The controller starts with no level, so its first run builds the hall.
    pub fn new() -> (r: GameSystem)
        ensures
            r.current_level is None,
            r.warnings@.len() == 0,
    {
        GameSystem { current_level: None, warnings: Vec::new() }
    }

    /// The current state always names an existing level part.
    pub open spec fn inv(self, config: &Config) -> bool {
        self.current_level matches Some(Level::Level(i, p)) ==> i < config.levels@.len()
            && p < config.levels@[i as int]
    }

    /// One frame of the lifecycle: drains the action queue, honours only the
    /// first request, and on any state change resets the attempt clock and
    /// the activated flag, tears the whole entity store down (the entity
    /// count is zero when this returns a plan), starts the erasure groups
    /// over, builds a fresh physics world from the configured solver tuning,
    /// and hands back the plan for the level-construction collaborator. The
    /// caller runs the collaborator on the plan and then flushes the store
    /// with a barrier.
    pub fn run(&mut self, world: &mut World, config: &Config) -> (r: Option<BuildPlan>)
        requires
            old(world).wf(),
            old(self).inv(config),
            action_in_range(first_action(old(world).level_actions.0@), config.levels@),
        ensures
            final(world).wf(),
            final(self).inv(config),
            final(world).level_actions.0@.len() == 0,
            ({
                let action = first_action(old(world).level_actions.0@);
                let next = next_level(old(self).current_level, action, config.levels@);
                let cur = old(self).current_level;
                &&& final(self).current_level == (if next is Some {
                    next
                } else {
                    cur
                })
                &&& final(self).warnings@ == (match warning_of(cur, action) {
                    Some(w) => old(self).warnings@.push(w),
                    None => old(self).warnings@,
                })
                &&& final(world).audio.queue@ == (if plays_cue(cur, action) {
                    old(world).audio.queue@.push(Sound::Portal)
                } else {
                    old(world).audio.queue@
                })
                &&& final(world).save.scores@ == (match score_recorded(
                    cur,
                    action,
                    config.levels@,
                    old(world).game_duration.0,
                ) {
                    Some(s) => old(world).save.scores@.push(s),
                    None => old(world).save.scores@,
                })
                &&& final(world).save.custom_conf == old(world).save.custom_conf
                &&& final(world).save.fullscreen == old(world).save.fullscreen
                &&& (r is Some <==> next is Some)
                &&& (next is Some ==> {
                    &&& final(world).n() == 0
                    &&& count_alive(final(world).alive@) == 0
                    &&& final(world).pending_deletion@.len() == 0
                    &&& final(world).game_duration.0 == 0
                    &&& !final(world).activated.0
                    &&& final(world).events.0@.len() == 0
                    &&& final(world).group_counter.counter == 1
                    &&& final(world).erased_status.amount == 0
                    &&& final(world).depth_coef.0 == DIR_SCALE
                    &&& final(world).physic_world.params == config.solver
                    &&& final(world).physic_world.bodies@.len() == 0
                    &&& final(world).physic_world.sensors@.len() == 0
                    &&& plan_matches(&r->Some_0, next->Some_0, old(world).save.custom_conf)
                })
                &&& (next is None ==> {
                    &&& final(world).alive == old(world).alive
                    &&& final(world).pending_deletion == old(world).pending_deletion
                    &&& final(world).players == old(world).players
                    &&& final(world).momentums == old(world).momentums
                    &&& final(world).hooks == old(world).hooks
                    &&& final(world).bodies == old(world).bodies
                    &&& final(world).sensors == old(world).sensors
                    &&& final(world).contactors == old(world).contactors
                    &&& final(world).proximitors == old(world).proximitors
                    &&& final(world).teleports == old(world).teleports
                    &&& final(world).avoiders == old(world).avoiders
                    &&& final(world).static_draws == old(world).static_draws
                    &&& final(world).dynamic_draws == old(world).dynamic_draws
                    &&& final(world).physic_world == old(world).physic_world
                    &&& final(world).game_duration == old(world).game_duration
                    &&& final(world).activated == old(world).activated
                    &&& final(world).group_counter == old(world).group_counter
                    &&& final(world).depth_coef == old(world).depth_coef
                    &&& final(world).erased_status == old(world).erased_status
                    &&& final(world).events == old(world).events
                    &&& final(world).update_time == old(world).update_time
                    &&& final(world).player_control == old(world).player_control
                    &&& final(world).rendering == old(world).rendering
                    &&& final(world).menu_state == old(world).menu_state
                })
            }),
    {
        let action: Option<LevelAction> = if world.level_actions.0.len() > 0 {
            Some(world.level_actions.0[0])
        } else {
            None
        };
        world.level_actions.0.clear();

        let recreate: Option<Level> = match (self.current_level, action) {
            (None, _) => Some(Level::Hall),
            (Some(Level::Hall), Some(LevelAction::Level(level))) => {
                world.audio.play_unspatial(Sound::Portal);
                if config.levels[level] != 0 {
                    Some(Level::Level(level, 0))
                } else {
                    world.save.insert_score(level, 0);
                    world.game_duration = GameDuration(0);
                    Some(Level::Hall)
                }
            },
            (Some(Level::Level(level, part)), Some(LevelAction::Next)) => {
                world.audio.play_unspatial(Sound::Portal);
                if config.levels[level] > part + 1 {
                    Some(Level::Level(level, part + 1))
                } else {
                    let duration = world.game_duration.0;
                    world.save.insert_score(level, duration);
                    world.game_duration = GameDuration(0);
                    Some(Level::Hall)
                }
            },
            (cur, Some(LevelAction::Reset)) => cur,
            (_, Some(LevelAction::Custom)) => Some(Level::Custom),
            (_, Some(LevelAction::ReturnHall)) => Some(Level::Hall),
            (Some(_), None) => None,
            (Some(Level::Hall), Some(LevelAction::Next)) => {
                self.warnings.push(LifecycleWarning::NextInHall);
                Some(Level::Hall)
            },
            (Some(Level::Custom), Some(LevelAction::Next)) => {
                self.warnings.push(LifecycleWarning::NextInCustom);
                Some(Level::Hall)
            },
            (Some(Level::Level(..)), Some(LevelAction::Level(..)))
            | (Some(Level::Custom), Some(LevelAction::Level(..))) => {
                self.warnings.push(LifecycleWarning::EnterLevelOutsideHall);
                Some(Level::Hall)
            },
        };

        match recreate {
            Some(level) => {
                world.game_duration = GameDuration(0);
                world.activated = Activated(false);
                self.current_level = Some(level);
                world.delete_all();
                world.events = Events(Vec::new());
                world.group_counter.reset();
                world.erased_status.clear();
                world.depth_coef = DepthCoef(DIR_SCALE);
                world.physic_world = PhysicsWorld::new(config.solver);
                let plan = match level {
                    Level::Hall => BuildPlan::Hall,
                    Level::Level(i, p) => BuildPlan::LevelPart(i, p),
                    Level::Custom => {
                        let conf = world.save.custom_level_conf();
                        let mut entities: Vec<(EntityConf, usize)> = Vec::new();
                        entities.push(
                            (EntityConf::MotionLess { eraser: false }, conf.motion_less as usize),
                        );
                        entities.push(
                            (
                                EntityConf::MotionLess { eraser: true },
                                conf.motion_less_eraser as usize,
                            ),
                        );
                        entities.push(
                            (EntityConf::Attracted { eraser: false }, conf.attracted as usize),
                        );
                        entities.push(
                            (
                                EntityConf::Attracted { eraser: true },
                                conf.attracted_eraser as usize,
                            ),
                        );
                        entities.push(
                            (EntityConf::Bouncer { eraser: false }, conf.bouncer as usize),
                        );
                        entities.push(
                            (EntityConf::Bouncer { eraser: true }, conf.bouncer_eraser as usize),
                        );
                        entities.push(
                            (EntityConf::Avoider { eraser: false }, conf.avoider as usize),
                        );
                        entities.push(
                            (EntityConf::Avoider { eraser: true }, conf.avoider_eraser as usize),
                        );
                        entities.push((EntityConf::Turret, conf.turret as usize));
                        proof {
                            assert(entities@ =~= custom_entities(conf));
                        }
                        BuildPlan::Custom(
                            Conf {
                                size: (
                                    conf.maze_size as i64 * 2 + 1,
                                    conf.maze_size as i64 * 2 + 1,
                                ),
                                percent: conf.percent,
                                bug: (
                                    if conf.x_shift {
                                        1
                                    } else {
                                        0
                                    },
                                    if conf.y_shift {
                                        1
                                    } else {
                                        0
                                    },
                                ),
                                entities,
                            },
                        )
                    },
                };
                Some(plan)
            },
            None => None,
        }
    }
}

} // verus!
