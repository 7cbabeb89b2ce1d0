//! Level lifecycle scenarios: the transition table, teardown, scores,
//! warnings, and the deferred-deletion barrier.

use hyperzen_core::component::Momentum;
use hyperzen_core::config::Config;
use hyperzen_core::entity::player::create_player;
use hyperzen_core::entity::teleport::create_teleport;
use hyperzen_core::frame::{advance, apply_frame_clock, FrameStep};
use hyperzen_core::physics::{SolverParams, DIR_SCALE};
use hyperzen_core::resource::{CustomLevelConf, GameDuration, LevelAction, Save};
use hyperzen_core::system::game::{BuildPlan, GameSystem, Level, LifecycleWarning};
use hyperzen_core::vec3::V3;
use hyperzen_core::world::{find_player, World};

fn params() -> SolverParams {
    SolverParams {
        impulse_step: 16,
        correction_a: 205,
        correction_b: 205,
        correction_c: 102,
        joint_corr_factor: 512,
        rest_eps: 16,
        num_first_order_iter: 0,
        num_second_order_iter: 10,
    }
}

fn custom_conf() -> CustomLevelConf {
    CustomLevelConf {
        maze_size: 7,
        percent: 15,
        motion_less: 1,
        motion_less_eraser: 2,
        attracted: 3,
        attracted_eraser: 4,
        bouncer: 5,
        bouncer_eraser: 6,
        avoider: 7,
        avoider_eraser: 8,
        turret: 9,
        x_shift: true,
        y_shift: false,
    }
}

fn save() -> Save {
    Save { scores: Vec::new(), custom_conf: custom_conf(), fullscreen: false }
}

fn config_with_levels(levels: Vec<usize>) -> Config {
    let mut c = Config::default();
    c.levels = levels;
    c
}

fn zero_momentum() -> Momentum {
    Momentum {
        damping: 0,
        ang_damping: 0,
        force: 0,
        direction: V3 { x: 0, y: 0, z: 0 },
        pnt_to_com: None,
        ang_force: None,
    }
}

#[test]
fn startup_builds_hall() {
    let mut world = World::new(params(), save());
    let mut game = GameSystem::new();
    let config = Config::default();
    let plan = game.run(&mut world, &config);
    assert!(matches!(plan, Some(BuildPlan::Hall)));
    assert_eq!(game.current_level, Some(Level::Hall));
    assert_eq!(world.entity_count(), 0);
}

#[test]
fn enter_partless_level_records_zero_score() {
    // From the hall into a level with no parts: back to the hall, with a
    // zero-duration score recorded for that level.
    let config = config_with_levels(vec![1, 1, 1, 0]);
    let mut world = World::new(params(), save());
    world.game_duration = GameDuration(5_000_000_000);
    let mut game = GameSystem::new();
    game.current_level = Some(Level::Hall);
    world.level_actions.0.push(LevelAction::Level(3));
    let plan = game.run(&mut world, &config);
    assert!(matches!(plan, Some(BuildPlan::Hall)));
    assert_eq!(game.current_level, Some(Level::Hall));
    assert_eq!(world.save.scores.len(), 1);
    assert_eq!(world.save.scores[0], (3, 0));
    assert_eq!(world.game_duration.0, 0);
    // The portal cue played.
    assert_eq!(world.audio.queue.len(), 1);
}

#[test]
fn finishing_last_part_records_duration() {
    // Level 2 has exactly two parts (indices 0 and 1); `Next` from part 1
    // goes back to the hall with the accumulated duration as the score.
    let config = config_with_levels(vec![0, 0, 2]);
    let mut world = World::new(params(), save());
    world.game_duration = GameDuration(77_000_000);
    let mut game = GameSystem::new();
    game.current_level = Some(Level::Level(2, 1));
    world.level_actions.0.push(LevelAction::Next);
    let plan = game.run(&mut world, &config);
    assert!(matches!(plan, Some(BuildPlan::Hall)));
    assert_eq!(game.current_level, Some(Level::Hall));
    assert_eq!(world.save.scores.len(), 1);
    assert_eq!(world.save.scores[0], (2, 77_000_000));
    assert_eq!(world.game_duration.0, 0);
}

#[test]
fn next_from_middle_part_advances() {
    let config = config_with_levels(vec![0, 0, 2]);
    let mut world = World::new(params(), save());
    let mut game = GameSystem::new();
    game.current_level = Some(Level::Level(2, 0));
    world.level_actions.0.push(LevelAction::Next);
    let plan = game.run(&mut world, &config);
    assert!(matches!(plan, Some(BuildPlan::LevelPart(2, 1))));
    assert_eq!(game.current_level, Some(Level::Level(2, 1)));
    assert_eq!(world.save.scores.len(), 0);
}

#[test]
fn next_in_custom_warns_and_falls_back_to_hall() {
    // A documented invariant violation: logged, answered with the hall, and
    // never a crash.
    let config = Config::default();
    let mut world = World::new(params(), save());
    let mut game = GameSystem::new();
    game.current_level = Some(Level::Custom);
    world.level_actions.0.push(LevelAction::Next);
    let plan = game.run(&mut world, &config);
    assert!(matches!(plan, Some(BuildPlan::Hall)));
    assert_eq!(game.current_level, Some(Level::Hall));
    assert_eq!(game.warnings.len(), 1);
    assert_eq!(game.warnings[0], LifecycleWarning::NextInCustom);
    assert_eq!(world.save.scores.len(), 0);
}

#[test]
fn next_in_hall_warns() {
    let config = Config::default();
    let mut world = World::new(params(), save());
    let mut game = GameSystem::new();
    game.current_level = Some(Level::Hall);
    world.level_actions.0.push(LevelAction::Next);
    let plan = game.run(&mut world, &config);
    assert!(matches!(plan, Some(BuildPlan::Hall)));
    assert_eq!(game.warnings[0], LifecycleWarning::NextInHall);
}

#[test]
fn teardown_empties_the_world_before_rebuild() {
    // After any state change the entity count is zero before the
    // level-construction collaborator runs.
    let config = Config::default();
    let mut world = World::new(params(), save());
    let mut game = GameSystem::new();
    game.run(&mut world, &config);
    create_player(
        &mut world,
        V3 { x: 0, y: 0, z: 512 },
        V3 { x: 0, y: 0, z: 0 },
        zero_momentum(),
    );
    create_teleport(&mut world, V3 { x: 100, y: 100, z: 0 });
    assert_eq!(world.entity_count(), 2);
    world.level_actions.0.push(LevelAction::Reset);
    let plan = game.run(&mut world, &config);
    assert!(plan.is_some());
    assert_eq!(world.entity_count(), 0);
    assert_eq!(world.game_duration.0, 0);
    assert!(!world.activated.0);
    assert_eq!(world.group_counter.counter, 1);
}

#[test]
fn no_action_means_no_rebuild() {
    let config = Config::default();
    let mut world = World::new(params(), save());
    let mut game = GameSystem::new();
    game.run(&mut world, &config);
    create_teleport(&mut world, V3 { x: 0, y: 0, z: 0 });
    let plan = game.run(&mut world, &config);
    assert!(plan.is_none());
    assert_eq!(world.entity_count(), 1);
}

#[test]
fn only_first_queued_action_is_honored() {
    let config = config_with_levels(vec![2, 2]);
    let mut world = World::new(params(), save());
    let mut game = GameSystem::new();
    game.current_level = Some(Level::Hall);
    world.level_actions.0.push(LevelAction::Level(1));
    world.level_actions.0.push(LevelAction::Custom);
    let plan = game.run(&mut world, &config);
    assert!(matches!(plan, Some(BuildPlan::LevelPart(1, 0))));
    assert_eq!(world.level_actions.0.len(), 0);
}

#[test]
fn custom_plan_carries_save_parameters() {
    let config = Config::default();
    let mut world = World::new(params(), save());
    let mut game = GameSystem::new();
    game.current_level = Some(Level::Hall);
    world.level_actions.0.push(LevelAction::Custom);
    let plan = game.run(&mut world, &config);
    match plan {
        Some(BuildPlan::Custom(conf)) => {
            assert_eq!(conf.size, (15, 15));
            assert_eq!(conf.percent, 15);
            assert_eq!(conf.bug, (1, 0));
            assert_eq!(conf.entities.len(), 9);
            assert_eq!(conf.entities[8].1, 9);
            let request = conf.create();
            assert_eq!(request.turrets, 9);
            assert_eq!(request.others, 1 + 2 + 3 + 4 + 5 + 6 + 7 + 8);
            assert_eq!(request.size, (15, 15));
        },
        _ => panic!("expected a custom build plan"),
    }
}

#[test]
fn deferred_deletion_applies_only_at_the_barrier() {
    let mut world = World::new(params(), save());
    let e0 = create_teleport(&mut world, V3 { x: 0, y: 0, z: 0 });
    let e1 = create_teleport(&mut world, V3 { x: 10, y: 0, z: 0 });
    let e2 = create_teleport(&mut world, V3 { x: 20, y: 0, z: 0 });
    world.delete_later(e1);
    // Marked but not yet reclaimed.
    assert_eq!(world.entity_count(), 3);
    assert!(world.teleports.get(e1).is_some());
    world.maintain();
    assert_eq!(world.entity_count(), 2);
    assert!(world.teleports.get(e1).is_none());
    assert!(world.sensors.get(e1).is_none());
    assert!(world.teleports.get(e0).is_some());
    assert!(world.teleports.get(e2).is_some());
}

#[test]
fn find_player_sees_exactly_the_marked_entity() {
    let mut world = World::new(params(), save());
    create_teleport(&mut world, V3 { x: 0, y: 0, z: 0 });
    assert!(find_player(&world).is_none());
    let p = create_player(
        &mut world,
        V3 { x: 0, y: 0, z: 0 },
        V3 { x: 0, y: 0, z: 0 },
        zero_momentum(),
    );
    assert_eq!(find_player(&world), Some(p));
}

#[test]
fn frame_steps_cycle_through_the_pipeline() {
    assert_eq!(advance(FrameStep::Idle, false), FrameStep::Input);
    assert_eq!(advance(FrameStep::Input, false), FrameStep::GameUpdate);
    assert_eq!(advance(FrameStep::Input, true), FrameStep::PauseUpdate);
    assert_eq!(advance(FrameStep::GameUpdate, false), FrameStep::Flush);
    assert_eq!(advance(FrameStep::PauseUpdate, true), FrameStep::Flush);
    assert_eq!(advance(FrameStep::Flush, false), FrameStep::PrepareDraw);
    assert_eq!(advance(FrameStep::PrepareDraw, false), FrameStep::Draw);
    assert_eq!(advance(FrameStep::Draw, false), FrameStep::Present);
    assert_eq!(advance(FrameStep::Present, false), FrameStep::Idle);
}

#[test]
fn paused_frames_freeze_the_clock() {
    let mut world = World::new(params(), save());
    world.menu_state.pause = true;
    apply_frame_clock(&mut world, 16_000_000);
    assert_eq!(world.update_time.0, 0);
    assert_eq!(world.game_duration.0, 0);
    world.menu_state.pause = false;
    apply_frame_clock(&mut world, 16_000_000);
    assert_eq!(world.update_time.0, 16_000_000);
    assert_eq!(world.game_duration.0, 16_000_000);
    apply_frame_clock(&mut world, 4_000_000);
    assert_eq!(world.game_duration.0, 20_000_000);
}

#[test]
fn save_records_scores_in_order() {
    let mut s = save();
    s.insert_score(1, 100);
    s.insert_score(0, 50);
    assert_eq!(s.scores, vec![(1, 100), (0, 50)]);
    assert_eq!(s.custom_level_conf().maze_size, 7);
    assert!(!s.fullscreen());
}

#[test]
fn depth_coef_resets_to_one_unit_on_rebuild() {
    let config = Config::default();
    let mut world = World::new(params(), save());
    world.depth_coef.0 = 5;
    let mut game = GameSystem::new();
    let plan = game.run(&mut world, &config);
    assert!(plan.is_some());
    assert_eq!(world.depth_coef.0, DIR_SCALE);
}

#[test]
fn enter_level_outside_hall_warns() {
    let config = config_with_levels(vec![2, 2]);
    let mut world = World::new(params(), save());
    let mut game = GameSystem::new();
    game.current_level = Some(Level::Level(0, 0));
    world.level_actions.0.push(LevelAction::Level(1));
    let plan = game.run(&mut world, &config);
    assert!(matches!(plan, Some(BuildPlan::Hall)));
    assert_eq!(game.warnings[0], LifecycleWarning::EnterLevelOutsideHall);
}

#[test]
fn custom_and_return_hall_work_from_any_state() {
    let config = config_with_levels(vec![2]);
    let mut world = World::new(params(), save());
    let mut game = GameSystem::new();
    game.current_level = Some(Level::Level(0, 1));
    world.level_actions.0.push(LevelAction::Custom);
    let plan = game.run(&mut world, &config);
    assert!(matches!(plan, Some(BuildPlan::Custom(_))));
    assert_eq!(game.current_level, Some(Level::Custom));
    assert!(game.warnings.is_empty());

    world.level_actions.0.push(LevelAction::ReturnHall);
    let plan = game.run(&mut world, &config);
    assert!(matches!(plan, Some(BuildPlan::Hall)));
    assert_eq!(game.current_level, Some(Level::Hall));
    assert!(game.warnings.is_empty());
}
