//! Input filtering, menu control, player control, steering, drawables, the
//! erasure-group counters and the small utilities.

use hyperzen_core::component::{DynamicDraw, Momentum, StaticDraw, WorldTrans};
use hyperzen_core::config::Config;
use hyperzen_core::entity::player::create_player;
use hyperzen_core::entity::static_draw::{create_static_draw_w, draw_score, score_layout};
use hyperzen_core::event::{
    filter_polled_events, DeviceEvent, ElementState, Event, KeyboardInput, MouseButtonDef,
    VirtualKeyCodeDef, WindowEvent,
};
use hyperzen_core::graphics::primitives::{GroupCounter, Primitive, GROUP_COUNTER_SIZE};
use hyperzen_core::graphics::render_pass::{CustomRenderPassDesc, SecondCustomRenderPassDesc};
use hyperzen_core::physics::{SolverParams, DIR_SCALE};
use hyperzen_core::resource::{CustomLevelConf, GameEvents, PlayerControl, Rendering, Save};
use hyperzen_core::scheduler::{conflicts_exec, decl, DispatcherBuilder};
use hyperzen_core::system::menu_control::{MenuGameControlSystem, MenuPauseControlSystem};
use hyperzen_core::system::{
    update_pointer, AvoiderControlSystem, PlayerControlSystem, UpdateDynamicDrawSystem,
};
use hyperzen_core::util::{high_byte, low_byte, Benchmarker, Direction, Pop};
use hyperzen_core::vec3::V3;
use hyperzen_core::world::World;

fn params() -> SolverParams {
    SolverParams {
        impulse_step: 16,
        correction_a: 205,
        correction_b: 205,
        correction_c: 102,
        joint_corr_factor: 512,
        rest_eps: 16,
        num_first_order_iter: 0,
        num_second_order_iter: 10,
    }
}

fn save() -> Save {
    Save {
        scores: Vec::new(),
        custom_conf: CustomLevelConf {
            maze_size: 3,
            percent: 10,
            motion_less: 0,
            motion_less_eraser: 0,
            attracted: 0,
            attracted_eraser: 0,
            bouncer: 0,
            bouncer_eraser: 0,
            avoider: 0,
            avoider_eraser: 0,
            turret: 0,
            x_shift: false,
            y_shift: false,
        },
        fullscreen: false,
    }
}

fn zero_momentum() -> Momentum {
    Momentum {
        damping: 0,
        ang_damping: 0,
        force: 0,
        direction: V3 { x: 0, y: 0, z: 0 },
        pnt_to_com: None,
        ang_force: None,
    }
}

fn key_event(window_id: u64, scancode: u32, state: ElementState) -> Event {
    Event::WindowEvent {
        window_id,
        event: WindowEvent::KeyboardInput {
            input: KeyboardInput { scancode, state, virtual_keycode: None },
        },
    }
}

fn escape_event(window_id: u64) -> Event {
    Event::WindowEvent {
        window_id,
        event: WindowEvent::KeyboardInput {
            input: KeyboardInput {
                scancode: 1,
                state: ElementState::Pressed,
                virtual_keycode: Some(VirtualKeyCodeDef::Escape),
            },
        },
    }
}

#[test]
fn polled_events_are_sifted_for_this_window() {
    let polled = vec![
        // From another window: dropped entirely.
        Event::WindowEvent { window_id: 9, event: WindowEvent::CloseRequested },
        // Regaining focus asks for a cursor re-grab but is not retained.
        Event::WindowEvent { window_id: 1, event: WindowEvent::Focused(true) },
        key_event(1, 25, ElementState::Pressed),
        Event::DeviceEvent { event: DeviceEvent::MouseMotion { dx: 3, dy: -2 } },
        Event::WindowEvent { window_id: 1, event: WindowEvent::CursorMoved { x: 10, y: 20 } },
        Event::WindowEvent { window_id: 1, event: WindowEvent::Other },
    ];
    let (kept, quit, refocus) = filter_polled_events(&polled, 1);
    assert!(!quit);
    assert!(refocus);
    assert_eq!(kept.len(), 3);
    assert_eq!(kept[0], key_event(1, 25, ElementState::Pressed));
    let (_, quit, _) = filter_polled_events(
        &vec![Event::WindowEvent { window_id: 1, event: WindowEvent::CloseRequested }],
        1,
    );
    assert!(quit);
}

#[test]
fn escape_toggles_pause_both_ways() {
    let mut world = World::new(params(), save());
    world.events.0.push(escape_event(1));
    let mut menu_game = MenuGameControlSystem;
    menu_game.run(&mut world);
    assert!(world.menu_state.pause);
    let mut menu_pause = MenuPauseControlSystem::new();
    menu_pause.run(&mut world);
    assert!(!world.menu_state.pause);
}

#[test]
fn mouse_buttons_are_tracked_for_the_menu() {
    let mut world = World::new(params(), save());
    world.events.0.push(Event::WindowEvent {
        window_id: 1,
        event: WindowEvent::MouseInput {
            state: ElementState::Pressed,
            button: MouseButtonDef::Left,
        },
    });
    world.events.0.push(Event::WindowEvent {
        window_id: 1,
        event: WindowEvent::MouseInput {
            state: ElementState::Pressed,
            button: MouseButtonDef::Other(1),
        },
    });
    world.events.0.push(Event::WindowEvent {
        window_id: 1,
        event: WindowEvent::MouseInput {
            state: ElementState::Released,
            button: MouseButtonDef::Left,
        },
    });
    let mut menu_pause = MenuPauseControlSystem::new();
    menu_pause.run(&mut world);
    assert_eq!(menu_pause.mouse_down, [false, false, false, false, true]);
}

#[test]
fn movement_keys_steer_the_player_momentum() {
    let mut world = World::new(params(), save());
    let p = create_player(
        &mut world,
        V3 { x: 0, y: 0, z: 0 },
        V3 { x: 0, y: 0, z: 0 },
        zero_momentum(),
    );
    // Forward pressed; a later release of an untracked key changes nothing.
    world.events.0.push(key_event(1, 25, ElementState::Pressed));
    let mut control = PlayerControlSystem::new();
    let yaw_x = V3 { x: DIR_SCALE, y: 0, z: 0 };
    let yaw_y = V3 { x: 0, y: DIR_SCALE, z: 0 };
    control.run(&mut world, p, yaw_x, yaw_y);
    assert_eq!(control.directions, vec![Direction::Forward]);
    let m = world.momentums.get(p).unwrap();
    // One axis pressed: the momentum points along the yaw x axis, unit
    // scaled.
    assert_eq!(m.direction, V3 { x: DIR_SCALE, y: 0, z: 0 });

    // Releasing the key leaves the player coasting with no direction.
    world.events.0.clear();
    world.events.0.push(key_event(1, 25, ElementState::Released));
    control.run(&mut world, p, yaw_x, yaw_y);
    assert_eq!(control.directions.len(), 0);
    let m = world.momentums.get(p).unwrap();
    assert_eq!(m.direction, V3 { x: 0, y: 0, z: 0 });
}

#[test]
fn repeated_press_moves_the_key_to_the_back() {
    let mut world = World::new(params(), save());
    let p = create_player(
        &mut world,
        V3 { x: 0, y: 0, z: 0 },
        V3 { x: 0, y: 0, z: 0 },
        zero_momentum(),
    );
    world.events.0.push(key_event(1, 25, ElementState::Pressed));
    world.events.0.push(key_event(1, 38, ElementState::Pressed));
    world.events.0.push(key_event(1, 25, ElementState::Pressed));
    let mut control = PlayerControlSystem::new();
    control.run(
        &mut world,
        p,
        V3 { x: DIR_SCALE, y: 0, z: 0 },
        V3 { x: 0, y: DIR_SCALE, z: 0 },
    );
    assert_eq!(control.directions, vec![Direction::Left, Direction::Forward]);
}

#[test]
fn avoiders_steer_toward_the_player() {
    let mut world = World::new(params(), save());
    let p = create_player(
        &mut world,
        V3 { x: 300, y: 400, z: 0 },
        V3 { x: 0, y: 0, z: 0 },
        zero_momentum(),
    );
    let e = world.create_entity();
    world.avoiders.put(e, hyperzen_core::component::Avoider);
    world.momentums.put(e, zero_momentum());
    world.add_body(
        e,
        hyperzen_core::physics::Body {
            entity: e,
            position: V3 { x: 0, y: 0, z: 0 },
            rotation: V3 { x: 0, y: 0, z: 0 },
            lin_vel: V3 { x: 0, y: 0, z: 0 },
            ang_vel: V3 { x: 0, y: 0, z: 0 },
            lin_force: V3 { x: 0, y: 0, z: 0 },
            ang_force: V3 { x: 0, y: 0, z: 0 },
            ang_acc_scale: DIR_SCALE,
        },
    );
    let mut system = AvoiderControlSystem;
    system.run(&mut world, p);
    let m = world.momentums.get(e).unwrap();
    // Distance 500: components scaled by 1024/500, truncating.
    assert_eq!(m.direction, V3 { x: 300 * DIR_SCALE / 500, y: 400 * DIR_SCALE / 500, z: 0 });
    // The player's own momentum is not an avoider's and stays put.
    assert_eq!(world.momentums.get(p).unwrap().direction, V3 { x: 0, y: 0, z: 0 });
}

#[test]
fn dynamic_drawables_follow_their_bodies() {
    let mut world = World::new(params(), save());
    let p = create_player(
        &mut world,
        V3 { x: 100, y: 200, z: 300 },
        V3 { x: 5, y: 6, z: 7 },
        zero_momentum(),
    );
    DynamicDraw::add(
        &mut world,
        p,
        7,
        WorldTrans {
            translation: V3 { x: 1, y: 2, z: 3 },
            rotation: V3 { x: 0, y: 0, z: 40 },
            scale: 9,
        },
    );
    let mut system = UpdateDynamicDrawSystem;
    system.run(&mut world);
    let d = world.dynamic_draws.get(p).as_ref().unwrap();
    assert_eq!(d.group, 7);
    assert_eq!(d.world_trans.translation, V3 { x: 101, y: 202, z: 303 });
    // The drawable carries the body's orientation; its own local rotation
    // stays in the primitive transform.
    assert_eq!(d.world_trans.rotation, V3 { x: 5, y: 6, z: 7 });
    assert_eq!(d.primitive_trans.rotation, V3 { x: 0, y: 0, z: 40 });
    assert_eq!(d.world_trans.scale, 9);
}

#[test]
fn primitives_map_to_buffer_indices_and_glyphs() {
    assert_eq!(Primitive::Plane.index(), 0);
    assert_eq!(Primitive::TextBestScores.index(), 23);
    assert_eq!(Primitive::from_char('0'), Primitive::Text0);
    assert_eq!(Primitive::from_char('7'), Primitive::Text7);
    assert_eq!(Primitive::from_char(':'), Primitive::TextColon);
    assert_eq!(Primitive::from_char('x'), Primitive::TextUnderScore);
    assert_eq!(Primitive::Cube.groups_size(10), 6);
    assert_eq!(Primitive::Hook.groups_size(10), 100);
}

#[test]
fn durations_render_as_score_glyphs() {
    // 83.45 seconds: one minute, 23 seconds, 45 centiseconds.
    let glyphs = Primitive::from_duration(Some(83_450_000_000));
    assert_eq!(
        glyphs,
        vec![
            Primitive::Text0,
            Primitive::Text1,
            Primitive::TextColon,
            Primitive::Text2,
            Primitive::Text3,
            Primitive::TextColon,
            Primitive::Text4,
            Primitive::Text5,
        ]
    );
    let empty = Primitive::from_duration(None);
    assert_eq!(empty[0], Primitive::TextUnderScore);
    assert_eq!(empty[2], Primitive::TextColon);
    assert_eq!(empty.len(), 8);
}

#[test]
fn group_counters_hand_out_sequential_identifiers() {
    let mut counter = GroupCounter::new();
    let groups = counter.instantiate(3);
    assert_eq!(groups, vec![1, 2, 3]);
    let more = counter.instantiate_unerasable(2);
    assert_eq!(more, vec![4 + GROUP_COUNTER_SIZE, 5 + GROUP_COUNTER_SIZE]);
    counter.reset();
    assert_eq!(counter.instantiate(1), vec![1]);

    let mut simple = hyperzen_core::graphics::GroupCounter::new();
    assert_eq!(simple.next(), 1);
    assert_eq!(simple.next(), 2);
}

#[test]
fn primitive_instances_own_their_groups() {
    let mut counter = GroupCounter::new();
    let (index, groups) = Primitive::Cube.instantiate(&mut counter, 10);
    assert_eq!(index, 5);
    assert_eq!(groups, vec![1, 2, 3, 4, 5, 6]);
    let reserved = Primitive::Plane.reserve(3, &mut counter, 10);
    assert_eq!(reserved, vec![vec![7], vec![8], vec![9]]);
}

#[test]
fn score_board_layout_is_a_fixed_grid() {
    let layout = score_layout();
    assert_eq!(layout.len(), 178);
    assert_eq!(layout[0], (Primitive::TextBestScores, 0, 0));
    assert_eq!(layout[1], (Primitive::TextLastScores, 40, 0));
    // First row, first slot: two digits, a colon, and so on.
    assert_eq!(layout[2], (Primitive::TextUnderScore, 4, -6));
    assert_eq!(layout[3], (Primitive::TextUnderScore, 7, -6));
    assert_eq!(layout[4], (Primitive::TextColon, 10, -6));
    // First row, second slot starts at the right column.
    assert_eq!(layout[10], (Primitive::TextUnderScore, 44, -6));
    // Last cell of the last row.
    assert_eq!(layout[177], (Primitive::TextUnderScore, 65, -66));
}

#[test]
fn score_board_spawns_one_drawable_per_cell() {
    let mut world = World::new(params(), save());
    draw_score(&mut world, V3 { x: 0, y: 0, z: 100 }, V3 { x: 0, y: 0, z: 0 }, 2, 51, 10);
    assert_eq!(world.entity_count(), 178);
    let first = world.static_draws.get(0).as_ref().unwrap();
    assert_eq!(first.group, 1);
    assert_eq!(first.world_trans.translation, V3 { x: 0, y: 0, z: 100 });
    assert_eq!(first.world_trans.scale, 51);
    let third = world.static_draws.get(2).as_ref().unwrap();
    assert_eq!(third.group, 3);
    assert_eq!(third.world_trans.translation, V3 { x: 8, y: -12, z: 100 });
}

#[test]
fn static_drawable_owns_the_first_group() {
    let mut world = World::new(params(), save());
    let e = create_static_draw_w(
        &mut world,
        V3 { x: 5, y: 6, z: 7 },
        V3 { x: 11, y: 0, z: 0 },
        10,
        Primitive::Cube,
        10,
    );
    let d = world.static_draws.get(e).as_ref().unwrap();
    assert_eq!(d.group, 1);
    assert_eq!(d.world_trans.translation, V3 { x: 5, y: 6, z: 7 });
    assert_eq!(d.world_trans.rotation, V3 { x: 11, y: 0, z: 0 });
    // The cube took six groups.
    assert_eq!(world.group_counter.counter, 7);
    let _ = StaticDraw {
        group: 0,
        world_trans: WorldTrans {
            translation: V3 { x: 0, y: 0, z: 0 },
            rotation: V3 { x: 0, y: 0, z: 0 },
            scale: 1,
        },
    };
}

#[test]
fn render_passes_have_the_documented_shape() {
    let first = CustomRenderPassDesc;
    assert_eq!(first.num_attachments(), 4);
    assert_eq!(first.num_subpasses(), 3);
    assert_eq!(first.num_dependencies(), 2);
    let second = SecondCustomRenderPassDesc::new();
    assert_eq!(second.num_attachments(), 1);
    assert_eq!(second.num_subpasses(), 1);
    assert_eq!(second.num_dependencies(), 0);
}

#[test]
fn byte_helpers_split_words() {
    assert_eq!(high_byte(0x1234), 0x12);
    assert_eq!(low_byte(0x1234), 0x34);
    assert_eq!(high_byte(0xff00), 0xff);
    assert_eq!(low_byte(0xff00), 0);
}

#[test]
fn directions_know_their_axes() {
    assert!(!Direction::Forward.orthogonal(Direction::Backward));
    assert!(Direction::Forward.orthogonal(Direction::Left));
    assert!(Direction::Forward.perpendicular(Direction::Backward));
    assert!(!Direction::Left.perpendicular(Direction::Forward));
}

#[test]
fn benchmarker_summarizes_windows() {
    let mut bench = Benchmarker::new();
    bench.start("update", 1_000);
    bench.end("update", 4_000);
    bench.start("update", 10_000);
    bench.end("update", 12_000);
    // Ending a phase that was never opened does nothing.
    bench.end("draw", 5_000);
    let all = bench.get_all();
    assert_eq!(all.len(), 1);
    assert_eq!(all[0].name, "update");
    assert_eq!(all[0].min, 2_000);
    assert_eq!(all[0].max, 3_000);
    // The mean divides the window sum by the fixed window size.
    assert_eq!(all[0].mean, 5_000 / 60);
}

#[test]
fn fresh_resources_start_empty() {
    let r = Rendering::new();
    assert!(r.image_num.is_none());
    assert!(r.command_buffer.is_none());
    assert!(r.second_command_buffer.is_none());
    let c = PlayerControl::new();
    assert_eq!(c.directions.len(), 0);
    assert_eq!(c.pointer, [0, 0]);
}

#[test]
fn dispatcher_splits_conflicting_footprints_into_stages() {
    // A writes kind 1; B reads it, so B runs in a later stage; C touches
    // only kind 2 and shares B's stage; the barrier forces D further down
    // even though its footprint is free of conflicts.
    let mut builder = DispatcherBuilder::new();
    builder.add(decl("force", vec![2], vec![1]));
    builder.add(decl("route", vec![1], vec![3]));
    builder.add(decl("draw_prep", vec![2], vec![4]));
    builder.add_barrier();
    builder.add(decl("life", vec![5], vec![6]));
    let dispatch = builder.build();
    assert_eq!(dispatch.stage_count(), 3);
    assert_eq!(dispatch.stages[0].len(), 1);
    assert_eq!(dispatch.stages[1].len(), 2);
    assert_eq!(dispatch.stages[2].len(), 1);
    assert_eq!(dispatch.stages[0][0].name, "force");
    assert_eq!(dispatch.stages[1][0].name, "route");
    assert_eq!(dispatch.stages[1][1].name, "draw_prep");
    assert_eq!(dispatch.stages[2][0].name, "life");
}

#[test]
fn footprint_conflicts_are_symmetric_on_writes() {
    let a = decl("a", vec![], vec![7]);
    let b = decl("b", vec![7], vec![]);
    let c = decl("c", vec![8], vec![9]);
    assert!(conflicts_exec(&a, &b));
    assert!(conflicts_exec(&b, &a));
    assert!(!conflicts_exec(&a, &c));
    // Two writers of the same kind conflict even with no readers.
    let d = decl("d", vec![], vec![7]);
    assert!(conflicts_exec(&a, &d));
}

#[test]
fn cursor_movement_accumulates_look_angles() {
    let mut world = World::new(params(), save());
    world.events.0.push(Event::WindowEvent {
        window_id: 1,
        event: WindowEvent::CursorMoved { x: 400, y: 360 },
    });
    update_pointer(&mut world, 8, 320, 240);
    // Offsets (80, 120) divided by the sensitivity of 8.
    assert_eq!(world.player_control.pointer, [10, 15]);
    // A huge vertical swing pins the pitch at a right angle.
    world.events.0.clear();
    world.events.0.push(Event::WindowEvent {
        window_id: 1,
        event: WindowEvent::CursorMoved { x: 320, y: 240 + 1_000_000 },
    });
    update_pointer(&mut world, 8, 320, 240);
    assert_eq!(world.player_control.pointer[0], 10);
    assert_eq!(world.player_control.pointer[1], hyperzen_core::config::ANGLE_FRAC_PI_2);
}

#[test]
fn pop_hands_back_the_newest_event() {
    let mut queue = GameEvents(vec![
        Event::WindowEvent { window_id: 1, event: WindowEvent::CloseRequested },
        Event::WindowEvent { window_id: 1, event: WindowEvent::Other },
    ]);
    assert_eq!(
        queue.pop(),
        Some(Event::WindowEvent { window_id: 1, event: WindowEvent::Other })
    );
    assert_eq!(
        queue.pop(),
        Some(Event::WindowEvent { window_id: 1, event: WindowEvent::CloseRequested })
    );
    assert_eq!(queue.pop(), None);
}

#[test]
fn benchmark_windows_keep_the_last_sixty_samples() {
    let mut bench = Benchmarker::new();
    // Seventy samples of 100 ns, then one slow 1000 ns outlier pushed out of
    // the window by sixty fresh samples.
    bench.start("frame", 0);
    bench.end("frame", 1_000);
    for k in 0..60u64 {
        let t0 = 10_000 + 200 * k;
        bench.start("frame", t0);
        bench.end("frame", t0 + 100);
    }
    let all = bench.get_all();
    assert_eq!(all.len(), 1);
    // The outlier is gone: only the sixty 100 ns samples remain.
    assert_eq!(all[0].min, 100);
    assert_eq!(all[0].max, 100);
    assert_eq!(all[0].mean, 100 * 60 / 60);
}
