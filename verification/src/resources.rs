//! Session-wide singleton resources and the aiming state machine's
//! transition function.

use vstd::prelude::*;

use crate::math::{Vec2i, Vec2V, SCALE};

verus! {

/// The minimum launch angle on either side, measured from the horizontal axis
/// at the launch point: 5 degrees in fixed-point radians.
pub const MIN_ANGLE: i64 = 87_266;

/// Pi in fixed-point radians, rounded to the nearest fixed-point unit.
pub const PI_FIXED: i64 = 3_141_593;

/// An aim angle is accepted when it lies in `[MIN_ANGLE, PI_FIXED - MIN_ANGLE]`
/// (inclusive on both ends).
pub open spec fn valid_aim_angle(angle: int) -> bool {
    MIN_ANGLE <= angle <= PI_FIXED - MIN_ANGLE
}

/// Decides [`valid_aim_angle`] on a fixed-point angle.
pub fn is_valid_aim_angle(angle: i64) -> (r: bool)
    ensures
        r == valid_aim_angle(angle as int),
{
    MIN_ANGLE <= angle && angle <= PI_FIXED - MIN_ANGLE
}

/// The aim/launch state machine. Once `Simulate` is entered it is never left
/// for the lifetime of the session.
#[derive(Clone, Copy, Debug, PartialEq, Eq, Structural)]
pub enum GameState {
    /// Waiting for the player to confirm a launch direction.
    SelectDirection,
    /// The aim is locked; balls are being released and simulated.
    Simulate {
        /// The initial angle at which to launch each ball, in fixed-point
        /// radians.
        initial_angle: i64,
        /// The unit direction of travel for that angle,
        /// `(cos initial_angle, -sin initial_angle)` in fixed-point, as
        /// evaluated when the aim was confirmed.
        unit: Vec2i,
    },
}

/// Mathematical model of a [`GameState`].
pub enum GameStateV {
    SelectDirection,
    Simulate { initial_angle: int, unit: Vec2V },
}

impl GameStateV {
    /// A locked aim always carries an accepted angle and an at-most-unit
    /// direction vector.
    pub open spec fn wf(self) -> bool {
        self matches GameStateV::Simulate { initial_angle, unit } ==> {
            &&& valid_aim_angle(initial_angle)
            &&& -SCALE <= unit.x <= SCALE
            &&& -SCALE <= unit.y <= SCALE
        }
    }
}

impl View for GameState {
    type V = GameStateV;

    open spec fn view(&self) -> GameStateV {
        match *self {
            GameState::SelectDirection => GameStateV::SelectDirection,
            GameState::Simulate { initial_angle, unit } => GameStateV::Simulate {
                initial_angle: initial_angle as int,
                unit: unit@,
            },
        }
    }
}

/// The normalized pointer input for the current tick.
#[derive(Clone, Copy, Debug, PartialEq, Eq, Structural)]
pub struct InputState {
    /// The position of the mouse/touch in world coordinates.
    pub pos: Vec2i,
    /// True if an action should be performed (mouse click, touch release).
    /// One-shot: the tick driver clears it at the end of every tick.
    pub perform_action: bool,
}

/// Mathematical model of an [`InputState`].
pub struct InputV {
    pub pos: Vec2V,
    pub perform_action: bool,
}

impl View for InputState {
    type V = InputV;

    open spec fn view(&self) -> InputV {
        InputV { pos: self.pos@, perform_action: self.perform_action }
    }
}

impl Default for InputState {
    /// Pointer at the origin, no pending action.
    fn default() -> (s: InputState)
        ensures
            s@.pos == (Vec2V { x: 0, y: 0 }),
            !s@.perform_action,
    {
        InputState { pos: Vec2i { x: 0, y: 0 }, perform_action: false }
    }
}

/// The fixed world-space point from which the aim direction is measured; set
/// once at setup and read-only thereafter.
#[derive(Clone, Copy, Debug, PartialEq, Eq, Structural)]
pub struct LastLaunchPoint(pub Vec2i);

/// The four corners delimiting the playfield in world coordinates; read-only
/// for this engine.
#[derive(Clone, Copy, Debug, PartialEq, Eq, Structural)]
pub struct GameBoundary {
    /// The top left corner of the boundary in world coordinates.
    pub top_left: Vec2i,
    /// The top right corner of the boundary in world coordinates.
    pub top_right: Vec2i,
    /// The bottom left corner of the boundary in world coordinates.
    pub bottom_left: Vec2i,
    /// The bottom right corner of the boundary in world coordinates.
    pub bottom_right: Vec2i,
}

/// The trigonometric evaluation of the current pointer's aim, supplied by the
/// input layer along with the pointer position: the unsigned angle in `[0, pi]`
/// between the horizontal axis and `pos - launch_point`, and the unit
/// direction `(cos angle, -sin angle)`, both in fixed-point. The engine only
/// consults it on the tick of a confirm event.
#[derive(Clone, Copy, Debug, PartialEq, Eq, Structural)]
pub struct AimEval {
    /// The aim angle in fixed-point radians.
    pub angle: i64,
    /// The unit direction of travel for that angle, in fixed-point.
    pub unit: Vec2i,
}

/// Mathematical model of an [`AimEval`].
pub struct AimV {
    pub angle: int,
    pub unit: Vec2V,
}

impl AimV {
    /// The evaluated direction is at most a unit vector.
    pub open spec fn wf(self) -> bool {
        &&& -SCALE <= self.unit.x <= SCALE
        &&& -SCALE <= self.unit.y <= SCALE
    }
}

impl View for AimEval {
    type V = AimV;

    open spec fn view(&self) -> AimV {
        AimV { angle: self.angle as int, unit: self.unit@ }
    }
}

/// The aim that governs the launch step of the current tick, if any.
///
/// In `Simulate` the locked aim always governs. In `SelectDirection` the
/// tick's evaluated aim governs exactly when the player confirmed this tick,
/// the pointer is not exactly on the launch point (a zero-length direction has
/// no angle, so such a confirm is rejected and the state left unchanged), and
/// the evaluated angle is accepted; otherwise no aim governs and the whole
/// tick is a no-op for the launcher.
pub open spec fn effective_aim(
    gs: GameStateV,
    input: InputV,
    launch_point: Vec2V,
    aim: AimV,
) -> Option<(int, Vec2V)> {
    match gs {
        GameStateV::Simulate { initial_angle, unit } => Some((initial_angle, unit)),
        GameStateV::SelectDirection => {
            if input.perform_action && input.pos != launch_point && valid_aim_angle(aim.angle) {
                Some((aim.angle, aim.unit))
            } else {
                None
            }
        },
    }
}

/// The aiming state machine's transition: one-way from `SelectDirection` into
/// `Simulate`, entered on the first accepted confirm and never left.
pub open spec fn aim_transition(
    gs: GameStateV,
    input: InputV,
    launch_point: Vec2V,
    aim: AimV,
) -> GameStateV {
    match effective_aim(gs, input, launch_point, aim) {
        Some((angle, unit)) => GameStateV::Simulate { initial_angle: angle, unit },
        None => gs,
    }
}

} // verus!
