//! End-to-end tests of the simulation engine: aiming, launching, motion.

use balls_core::ball_launcher::BALL_SPEED;
use balls_core::components::{Ball, BallState, Block, Color};
use balls_core::math::{Vec2i, POS_LIMIT, SCALE};
use balls_core::resources::{
    AimEval, GameBoundary, GameState, InputState, LastLaunchPoint, MIN_ANGLE, PI_FIXED,
};
use balls_core::world::World;

const SCALE_F: f64 = 1_000_000.0;

fn fixed(v: f64) -> i64 {
    (v * SCALE_F).round() as i64
}

fn white() -> Color {
    Color { r: 255, g: 255, b: 255, a: 255 }
}

fn boundary() -> GameBoundary {
    GameBoundary {
        top_left: Vec2i { x: fixed(-100.0), y: fixed(-100.0) },
        top_right: Vec2i { x: fixed(100.0), y: fixed(-100.0) },
        bottom_left: Vec2i { x: fixed(-100.0), y: fixed(100.0) },
        bottom_right: Vec2i { x: fixed(100.0), y: fixed(100.0) },
    }
}

/// A fresh session with `balls` unlaunched balls at the launch point
/// `launch`, mirroring level setup.
fn session(launch: (f64, f64), balls: usize) -> World {
    let launch_point = Vec2i { x: fixed(launch.0), y: fixed(launch.1) };
    let mut world = World::new(LastLaunchPoint(launch_point), boundary());
    for _ in 0..balls {
        world.create_ball(launch_point, 3, white());
    }
    world
}

/// What the input layer does with a pointer event: the angle between the
/// horizontal axis and `pointer - launch`, with its unit direction
/// (vertical component negated), both in fixed point.
fn evaluate_aim(pointer: (f64, f64), launch: (f64, f64)) -> AimEval {
    let dx = pointer.0 - launch.0;
    let dy = pointer.1 - launch.1;
    let len = (dx * dx + dy * dy).sqrt();
    let angle = (dx / len).clamp(-1.0, 1.0).acos();
    AimEval {
        angle: fixed(angle),
        unit: Vec2i { x: fixed(angle.cos()), y: fixed(-angle.sin()) },
    }
}

fn pointer_input(pointer: (f64, f64), confirm: bool) -> InputState {
    InputState { pos: Vec2i { x: fixed(pointer.0), y: fixed(pointer.1) }, perform_action: confirm }
}

fn ball_of(world: &World, i: usize) -> Ball {
    world.entities[i].ball.expect("entity should be a ball")
}

#[test]
fn valid_confirm_locks_state() {
    // Launch point (0, 50), pointer at (10, 0): direction (10, -50),
    // angle against the horizontal axis is about 78.7 degrees (1.374 rad).
    let launch = (0.0, 50.0);
    let mut world = session(launch, 1);
    world.input = pointer_input((10.0, 0.0), true);
    let aim = evaluate_aim((10.0, 0.0), launch);
    assert!((aim.angle - 1_374_000).abs() < 1_000);
    world.tick(&aim);
    match world.game_state {
        GameState::Simulate { initial_angle, .. } => assert_eq!(initial_angle, aim.angle),
        GameState::SelectDirection => panic!("aim should have been accepted"),
    }
}

#[test]
fn nearly_vertical_aim_accepted() {
    // Pointer at (0, 49), nearly straight up from (0, 50): angle about 90
    // degrees, well inside the accepted range.
    let launch = (0.0, 50.0);
    let mut world = session(launch, 1);
    world.input = pointer_input((0.0, 49.0), true);
    let aim = evaluate_aim((0.0, 49.0), launch);
    world.tick(&aim);
    assert!(matches!(world.game_state, GameState::Simulate { .. }));
}

#[test]
fn shallow_aim_rejected() {
    // Pointer at (49, 49.5): a very shallow angle, below the 5-degree
    // minimum, so the confirm is rejected silently.
    let launch = (0.0, 50.0);
    let mut world = session(launch, 1);
    world.input = pointer_input((49.0, 49.5), true);
    let aim = evaluate_aim((49.0, 49.5), launch);
    assert!(aim.angle < MIN_ANGLE);
    world.tick(&aim);
    assert_eq!(world.game_state, GameState::SelectDirection);
    assert_eq!(ball_of(&world, 0).state, BallState::Unlaunched);
}

#[test]
fn angle_bounds_are_inclusive() {
    let launch = (0.0, 50.0);
    let pointer = (10.0, 0.0);
    for (angle, accepted) in [
        (MIN_ANGLE, true),
        (PI_FIXED - MIN_ANGLE, true),
        (MIN_ANGLE - 1, false),
        (PI_FIXED - MIN_ANGLE + 1, false),
        (0, false),
        (PI_FIXED, false),
    ] {
        let mut world = session(launch, 1);
        world.input = pointer_input(pointer, true);
        let radians = angle as f64 / SCALE_F;
        let aim = AimEval {
            angle,
            unit: Vec2i { x: fixed(radians.cos()), y: fixed(-radians.sin()) },
        };
        world.tick(&aim);
        let locked = matches!(world.game_state, GameState::Simulate { .. });
        assert_eq!(locked, accepted, "angle {} fixed-point radians", angle);
    }
}

#[test]
fn pointer_on_launch_point_rejected() {
    // A pointer exactly on the launch point has a zero-length direction:
    // the confirm is rejected and the session keeps selecting.
    let launch = (0.0, 50.0);
    let mut world = session(launch, 1);
    world.input = pointer_input(launch, true);
    let aim = AimEval { angle: PI_FIXED / 2, unit: Vec2i { x: 0, y: -SCALE } };
    world.tick(&aim);
    assert_eq!(world.game_state, GameState::SelectDirection);
}

#[test]
fn confirm_flag_is_one_shot() {
    let launch = (0.0, 50.0);
    let mut world = session(launch, 2);
    world.input = pointer_input((10.0, 0.0), true);
    let aim = evaluate_aim((10.0, 0.0), launch);
    world.tick(&aim);
    // The tick driver clears the flag unconditionally.
    assert!(!world.input.perform_action);

    // Rejected confirms clear the flag too.
    let mut world = session(launch, 2);
    world.input = pointer_input((49.0, 49.5), true);
    world.tick(&evaluate_aim((49.0, 49.5), launch));
    assert!(!world.input.perform_action);
    // Without a fresh confirm the next tick does not transition.
    world.tick(&aim);
    assert_eq!(world.game_state, GameState::SelectDirection);
}

#[test]
fn lock_happens_once_per_session() {
    let launch = (0.0, 50.0);
    let mut world = session(launch, 5);
    world.input = pointer_input((10.0, 0.0), true);
    let first = evaluate_aim((10.0, 0.0), launch);
    world.tick(&first);
    let locked = world.game_state;

    // A later confirm with a different (valid) angle changes nothing.
    world.input = pointer_input((0.0, 49.0), true);
    world.tick(&evaluate_aim((0.0, 49.0), launch));
    assert_eq!(world.game_state, locked);
}

#[test]
fn volley_is_staggered_in_creation_order() {
    let launch = (0.0, 50.0);
    let balls = 3;
    let mut world = session(launch, balls);
    world.input = pointer_input((10.0, 0.0), true);
    let aim = evaluate_aim((10.0, 0.0), launch);

    // The very tick the aim is confirmed already launches the first ball.
    world.tick(&aim);
    let states: Vec<BallState> = (0..balls).map(|i| ball_of(&world, i).state).collect();
    assert_eq!(states, vec![BallState::Moving, BallState::Unlaunched, BallState::Unlaunched]);

    world.tick(&aim);
    let states: Vec<BallState> = (0..balls).map(|i| ball_of(&world, i).state).collect();
    assert_eq!(states, vec![BallState::Moving, BallState::Moving, BallState::Unlaunched]);

    // Two more ticks: all launched, and further ticks are safe no-ops for
    // the launcher.
    world.tick(&aim);
    world.tick(&aim);
    for i in 0..balls {
        assert_eq!(ball_of(&world, i).state, BallState::Moving);
        let vel = world.entities[i].velocity.expect("balls keep their velocity");
        assert_eq!(vel.speed, BALL_SPEED);
        assert_eq!(vel.angle, aim.angle);
        assert_eq!(vel.unit, aim.unit);
    }
}

#[test]
fn moving_ball_travels_linearly() {
    let launch = (0.0, 50.0);
    let mut world = session(launch, 1);
    world.input = pointer_input((10.0, 0.0), true);
    let aim = evaluate_aim((10.0, 0.0), launch);
    let start = world.entities[0].position.unwrap();

    // The per-tick displacement is the unit direction scaled by the speed,
    // rounded toward zero in fixed point.
    let dx = aim.unit.x * (BALL_SPEED / SCALE);
    let dy = aim.unit.y * (BALL_SPEED / SCALE);
    assert!(dx > 0 && dy < 0);

    for t in 1..=4i64 {
        world.tick(&aim);
        let pos = world.entities[0].position.unwrap();
        assert_eq!(pos.0.x, start.0.x + t * dx);
        assert_eq!(pos.0.y, start.0.y + t * dy);
    }
}

#[test]
fn unlaunched_balls_do_not_move() {
    let launch = (0.0, 50.0);
    let mut world = session(launch, 2);
    let start = world.entities[1].position.unwrap();
    world.input = pointer_input((10.0, 0.0), true);
    let aim = evaluate_aim((10.0, 0.0), launch);
    world.tick(&aim);
    // The second ball is still unlaunched: zero speed, no motion.
    assert_eq!(ball_of(&world, 1).state, BallState::Unlaunched);
    assert_eq!(world.entities[1].position.unwrap(), start);
}

#[test]
fn blocks_never_move() {
    let launch = (0.0, 50.0);
    let mut world = session(launch, 2);
    let block_pos = Vec2i { x: fixed(-20.0), y: fixed(-30.0) };
    world.create_block(
        block_pos,
        Block { value: 32, color: white(), width: 26, height: 26 },
    );
    world.input = pointer_input((10.0, 0.0), true);
    let aim = evaluate_aim((10.0, 0.0), launch);
    for _ in 0..10 {
        world.tick(&aim);
    }
    let block_entity = &world.entities[2];
    assert_eq!(block_entity.position.unwrap().0, block_pos);
    assert_eq!(block_entity.block.unwrap().value, 32);
    assert!(block_entity.velocity.is_none());
}

#[test]
fn position_limit_check() {
    let launch = (0.0, 50.0);
    let mut world = session(launch, 1);
    assert!(world.positions_within_limits());
    world.create_ball(Vec2i { x: POS_LIMIT + 1, y: 0 }, 3, white());
    assert!(!world.positions_within_limits());
}
