//! Tests of the individual systems and helpers.

use balls_core::components::{value_color, Color};
use balls_core::direction_select::DirectionSelect;
use balls_core::math::{Vec2i, SCALE};
use balls_core::resources::{
    AimEval, GameState, InputState, LastLaunchPoint, MIN_ANGLE, PI_FIXED,
};

fn straight_up_aim() -> AimEval {
    AimEval { angle: PI_FIXED / 2, unit: Vec2i { x: 0, y: -SCALE } }
}

#[test]
fn direction_select_locks_on_valid_confirm() {
    let mut state = GameState::SelectDirection;
    let input = InputState { pos: Vec2i { x: 0, y: 0 }, perform_action: true };
    let launch = LastLaunchPoint(Vec2i { x: 0, y: 50_000_000 });
    let aim = straight_up_aim();
    DirectionSelect::run(&mut state, &input, &launch, &aim);
    assert_eq!(
        state,
        GameState::Simulate { initial_angle: aim.angle, unit: aim.unit },
    );
}

#[test]
fn direction_select_ignores_ticks_without_confirm() {
    let mut state = GameState::SelectDirection;
    let input = InputState { pos: Vec2i { x: 0, y: 0 }, perform_action: false };
    let launch = LastLaunchPoint(Vec2i { x: 0, y: 50_000_000 });
    DirectionSelect::run(&mut state, &input, &launch, &straight_up_aim());
    assert_eq!(state, GameState::SelectDirection);
}

#[test]
fn direction_select_rejects_shallow_angles() {
    let launch = LastLaunchPoint(Vec2i { x: 0, y: 50_000_000 });
    let input = InputState { pos: Vec2i { x: 49_000_000, y: 49_500_000 }, perform_action: true };
    for angle in [0, MIN_ANGLE - 1, PI_FIXED - MIN_ANGLE + 1, PI_FIXED] {
        let mut state = GameState::SelectDirection;
        let aim = AimEval { angle, unit: Vec2i { x: SCALE, y: 0 } };
        DirectionSelect::run(&mut state, &input, &launch, &aim);
        assert_eq!(state, GameState::SelectDirection);
    }
}

#[test]
fn direction_select_never_leaves_simulate() {
    let locked = GameState::Simulate { initial_angle: PI_FIXED / 2, unit: Vec2i { x: 0, y: -SCALE } };
    let mut state = locked;
    let input = InputState { pos: Vec2i { x: 1_000_000, y: 0 }, perform_action: true };
    let launch = LastLaunchPoint(Vec2i { x: 0, y: 50_000_000 });
    DirectionSelect::run(&mut state, &input, &launch, &straight_up_aim());
    assert_eq!(state, locked);
}

#[test]
fn block_values_map_to_their_colors() {
    assert_eq!(value_color(0), Color { r: 38, g: 166, b: 154, a: 255 });
    assert_eq!(value_color(21), Color { r: 38, g: 166, b: 154, a: 255 });
    assert_eq!(value_color(22), Color { r: 33, g: 150, b: 243, a: 255 });
    assert_eq!(value_color(42), Color { r: 102, g: 187, b: 106, a: 255 });
    assert_eq!(value_color(64), Color { r: 255, g: 152, b: 0, a: 255 });
    assert_eq!(value_color(75), Color { r: 126, g: 87, b: 194, a: 255 });
    assert_eq!(value_color(88), Color { r: 77, g: 208, b: 225, a: 255 });
    assert_eq!(value_color(102), Color { r: 92, g: 107, b: 192, a: 255 });
    assert_eq!(value_color(103), Color { r: 158, g: 158, b: 158, a: 255 });
    assert_eq!(value_color(500), Color { r: 158, g: 158, b: 158, a: 255 });
}
