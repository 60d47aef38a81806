//! The stand-alone aiming system: drives the `GameState` machine from pointer
//! input without performing any launch.

use vstd::prelude::*;

use crate::resources::{
    aim_transition, AimEval, GameState, InputState, LastLaunchPoint, MIN_ANGLE, PI_FIXED,
};

verus! {

/// Converts a confirmed pointer direction into a locked launch angle.
pub struct DirectionSelect;

impl DirectionSelect {
    /// One tick of direction selection: on a confirm event with an accepted
    /// angle, locks the aim; on any other tick, leaves the state unchanged.
    pub fn run(
        game_state: &mut GameState,
        input: &InputState,
        launch: &LastLaunchPoint,
        aim: &AimEval,
    )
        ensures
            final(game_state)@ == aim_transition(old(game_state)@, input@, launch.0@, aim@),
    {
        match *game_state {
            GameState::SelectDirection => {},
            _ => {
                return ;
            },
        }
        if !input.perform_action {
            return ;
        }
        // A pointer exactly on the launch point gives a zero-length direction,
        // whose angle is undefined: reject the confirm, keep selecting.
        if input.pos == launch.0 {
            return ;
        }
        if aim.angle >= MIN_ANGLE && aim.angle <= PI_FIXED - MIN_ANGLE {
            *game_state = GameState::Simulate { initial_angle: aim.angle, unit: aim.unit };
        }
    }
}

} // verus!
