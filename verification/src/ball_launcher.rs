//! The aiming & launch system: drives the `GameState` machine and, once the
//! aim is locked, releases one ball per tick in creation order.

use vstd::prelude::*;
use vstd::pervasive::VecAdditionalExecFns;

use crate::components::{entities_view, Ball, BallState, Entity, EntityV, Velocity, VelocityV};
use crate::math::{Vec2i, Vec2V};
use crate::resources::{
    aim_transition, effective_aim, is_valid_aim_angle, AimEval, GameState, InputState,
    LastLaunchPoint,
};

verus! {

/// The speed given to every launched ball, in fixed-point world units per
/// tick (15 world units).
pub const BALL_SPEED: i64 = 15_000_000;

/// An entity the launcher may release: it carries both a ball and a velocity,
/// and the ball has not been launched yet.
pub open spec fn launchable(e: EntityV) -> bool {
    &&& e.ball matches Some(b) && b.state == BallState::Unlaunched
    &&& e.velocity matches Some(_v)
}

/// The least index at or after `i` holding a launchable entity, or `s.len()`
/// if there is none: the launcher scans in creation order.
pub open spec fn first_launchable_from(s: Seq<EntityV>, i: int) -> int
    decreases s.len() - i,
{
    if i < 0 || i >= s.len() {
        s.len() as int
    } else if launchable(s[i]) {
        i
    } else {
        first_launchable_from(s, i + 1)
    }
}

/// `first_launchable_from` lands on the first launchable entity: everything
/// before it is not launchable, and the result is launchable unless the scan
/// ran off the end.
pub proof fn lemma_first_launchable_from(s: Seq<EntityV>, i: int)
    requires
        0 <= i <= s.len(),
    ensures
        i <= first_launchable_from(s, i) <= s.len(),
        first_launchable_from(s, i) < s.len() ==> launchable(s[first_launchable_from(s, i)]),
        forall|j: int| i <= j < first_launchable_from(s, i) ==> !launchable(s[j]),
    decreases s.len() - i,
{
    if i < s.len() && !launchable(s[i]) {
        lemma_first_launchable_from(s, i + 1);
    }
}

/// The entity `e` after being launched at `angle`: its ball becomes `Moving`
/// and its velocity becomes `BALL_SPEED` along `unit`.
pub open spec fn launched(e: EntityV, angle: int, unit: Vec2V) -> EntityV {
    EntityV {
        velocity: Some(VelocityV { speed: BALL_SPEED as int, angle, unit }),
        ball: match e.ball {
            Some(b) => Some(Ball { state: BallState::Moving, ..b }),
            None => None,
        },
        ..e
    }
}

/// One launch step over the registry: if an aim governs this tick, the first
/// launchable entity (in creation order) is launched with it; with no
/// governing aim, or no launchable entity left, the registry is unchanged.
pub open spec fn launch_seq(s: Seq<EntityV>, eff: Option<(int, Vec2V)>) -> Seq<EntityV> {
    match eff {
        None => s,
        Some((angle, unit)) => {
            let i = first_launchable_from(s, 0);
            if i < s.len() {
                s.update(i, launched(s[i], angle, unit))
            } else {
                s
            }
        },
    }
}

/// Finds the first launchable entity in creation order, if any.
fn find_unlaunched(entities: &Vec<Entity>) -> (r: Option<usize>)
    ensures
        match r {
            Some(i) => {
                &&& i == first_launchable_from(entities_view(entities@), 0)
                &&& i < entities@.len()
            },
            None => first_launchable_from(entities_view(entities@), 0) == entities@.len(),
        },
{
    let ghost s = entities_view(entities@);
    let mut i: usize = 0;
    while i < entities.len()
        invariant
            0 <= i <= entities.len(),
            s == entities_view(entities@),
            s.len() == entities@.len(),
            first_launchable_from(s, 0) == first_launchable_from(s, i as int),
        decreases entities.len() - i,
    {
        let e = &entities[i];
        let is_launchable = match &e.ball {
            Some(b) => b.state == BallState::Unlaunched && e.velocity.is_some(),
            None => false,
        };
        assert(is_launchable == launchable(s[i as int]));
        if is_launchable {
            return Some(i);
        }
        assert(first_launchable_from(s, i as int) == first_launchable_from(s, i as int + 1));
        i = i + 1;
    }
    None
}

/// Releases the volley once the aim is confirmed: on every tick with a
/// governing aim, flips the first unlaunched ball to `Moving` and assigns its
/// velocity; at most one ball per tick.
pub struct BallLauncher;

impl BallLauncher {
    /// One tick of the aiming & launch system.
    ///
    /// Drives the state machine exactly as [`aim_transition`] says (one-way
    /// into `Simulate`, confirms with an invalid or undefined angle rejected
    /// silently), then performs the launch step of [`launch_seq`] under the
    /// aim returned by [`effective_aim`] — so a launch may already occur on
    /// the very tick a valid aim is confirmed.
    pub fn run(
        game_state: &mut GameState,
        input: &InputState,
        launch: &LastLaunchPoint,
        entities: &mut Vec<Entity>,
        aim: &AimEval,
    )
        ensures
            final(game_state)@ == aim_transition(old(game_state)@, input@, launch.0@, aim@),
            entities_view(final(entities)@) == launch_seq(
                entities_view(old(entities)@),
                effective_aim(old(game_state)@, input@, launch.0@, aim@),
            ),
    {
        let initial: Option<(i64, Vec2i)> = match *game_state {
            GameState::SelectDirection => {
                if !input.perform_action {
                    None
                } else if input.pos == launch.0 {
                    // A pointer exactly on the launch point gives a
                    // zero-length direction, whose angle is undefined: the
                    // confirm is rejected and the state left unchanged.
                    None
                } else if is_valid_aim_angle(aim.angle) {
                    *game_state = GameState::Simulate { initial_angle: aim.angle, unit: aim.unit };
                    Some((aim.angle, aim.unit))
                } else {
                    // Not within the minimum angle: rejected silently.
                    None
                }
            },
            GameState::Simulate { initial_angle, unit } => Some((initial_angle, unit)),
        };

        let ghost s0 = entities_view(entities@);
        match initial {
            None => {},
            Some((angle, unit)) => {
                // Launch one ball at a time.
                match find_unlaunched(entities) {
                    None => {},
                    Some(i) => {
                        let e = entities[i];
                        proof {
                            lemma_first_launchable_from(s0, 0);
                        }
                        let b = e.ball.unwrap();
                        let updated = Entity {
                            position: e.position,
                            velocity: Some(Velocity { speed: BALL_SPEED, angle, unit }),
                            ball: Some(
                                Ball { radius: b.radius, color: b.color, state: BallState::Moving },
                            ),
                            block: e.block,
                        };
                        entities.set(i, updated);
                        assert(entities_view(entities@) =~= s0.update(
                            i as int,
                            launched(s0[i as int], angle as int, unit@),
                        ));
                    },
                }
            },
        }
    }
}

} // verus!
