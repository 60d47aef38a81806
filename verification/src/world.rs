//! The world: the entity registry plus the session's singleton resources, and
//! the tick driver that runs the two systems in their fixed order.

use vstd::prelude::*;

use crate::ball_launcher::{
    first_launchable_from, launch_seq, launched, lemma_first_launchable_from, BallLauncher,
};
use crate::components::{
    entities_view, entities_wf, Ball, BallState, Block, Color, Entity, EntityV, Position, Velocity,
    VelocityV,
};
use crate::math::{Vec2i, Vec2V, POS_LIMIT, SCALE};
use crate::physics::{phys_seq, positions_in_bounds, Physics};
use crate::resources::{
    aim_transition, effective_aim, AimEval, AimV, GameBoundary, GameState, GameStateV, InputState,
    InputV, LastLaunchPoint,
};

verus! {

/// The world state store: all simulation entities in creation order, plus the
/// session-wide resources. Entities are created once at setup and never
/// destroyed during a session.
pub struct World {
    /// The aim/launch state machine.
    pub game_state: GameState,
    /// The normalized pointer input for the current tick; the outside input
    /// layer writes it before the tick runs.
    pub input: InputState,
    /// The fixed origin from which the aim direction is measured.
    pub launch_point: LastLaunchPoint,
    /// The playfield corners; read-only for this engine.
    pub boundary: GameBoundary,
    /// The registry: every entity with its attached components, in creation
    /// order. The launcher's deterministic scan relies on this order.
    pub entities: Vec<Entity>,
}

/// Mathematical model of a [`World`].
#[verifier::ext_equal]
pub struct WorldV {
    pub game_state: GameStateV,
    pub input: InputV,
    pub launch_point: Vec2V,
    pub boundary: GameBoundary,
    pub entities: Seq<EntityV>,
}

impl WorldV {
    /// Every entity and the locked aim (if any) are well-formed.
    pub open spec fn wf(self) -> bool {
        &&& self.game_state.wf()
        &&& entities_wf(self.entities)
    }
}

impl View for World {
    type V = WorldV;

    open spec fn view(&self) -> WorldV {
        WorldV {
            game_state: self.game_state@,
            input: self.input@,
            launch_point: self.launch_point.0@,
            boundary: self.boundary,
            entities: entities_view(self.entities@),
        }
    }
}

/// What one pass of the aiming & launch system does to the world: the state
/// machine steps by [`aim_transition`], and the launch step of [`launch_seq`]
/// runs under the aim of [`effective_aim`].
pub open spec fn launcher_spec(w: WorldV, aim: AimV) -> WorldV {
    WorldV {
        game_state: aim_transition(w.game_state, w.input, w.launch_point, aim),
        entities: launch_seq(
            w.entities,
            effective_aim(w.game_state, w.input, w.launch_point, aim),
        ),
        ..w
    }
}

/// What one pass of the integration system does to the world.
pub open spec fn physics_spec(w: WorldV) -> WorldV {
    WorldV { entities: phys_seq(w.entities), ..w }
}

/// The tick driver's final step: the one-shot confirm flag is cleared
/// unconditionally, whether or not it was consumed.
pub open spec fn clear_flag_spec(w: WorldV) -> WorldV {
    WorldV { input: InputV { pos: w.input.pos, perform_action: false }, ..w }
}

/// One full tick: aiming & launch, then integration — in that fixed order, so
/// a ball released this tick already moves this tick — then the one-shot
/// input flag is cleared.
pub open spec fn tick_spec(w: WorldV, aim: AimV) -> WorldV {
    clear_flag_spec(physics_spec(launcher_spec(w, aim)))
}

/// The launch step touches no position and leaves every entity well-formed,
/// provided the governing aim's direction is at most a unit vector.
proof fn lemma_launch_step_wf(s: Seq<EntityV>, eff: Option<(int, Vec2V)>)
    requires
        entities_wf(s),
        positions_in_bounds(s),
        eff matches Some(au) ==> {
            &&& -SCALE <= au.1.x <= SCALE
            &&& -SCALE <= au.1.y <= SCALE
        },
    ensures
        entities_wf(launch_seq(s, eff)),
        positions_in_bounds(launch_seq(s, eff)),
{
    match eff {
        None => {},
        Some(au) => {
            let fl = first_launchable_from(s, 0);
            lemma_first_launchable_from(s, 0);
            if fl < s.len() {
                let t = s.update(fl, launched(s[fl], au.0, au.1));
                assert(launch_seq(s, eff) == t);
                assert forall|i: int| 0 <= i < t.len() implies #[trigger] t[i].wf() by {
                    assert(s[i].wf());
                    if i != fl {
                        assert(t[i] == s[i]);
                    }
                }
                assert forall|i: int|
                    0 <= i < t.len() implies match (#[trigger] t[i].position, t[i].velocity) {
                    (Some(p), Some(_v)) => {
                        &&& -POS_LIMIT <= p.x <= POS_LIMIT
                        &&& -POS_LIMIT <= p.y <= POS_LIMIT
                    },
                    _ => true,
                } by {
                    assert(match (s[i].position, s[i].velocity) {
                        (Some(p), Some(_v)) => {
                            &&& -POS_LIMIT <= p.x <= POS_LIMIT
                            &&& -POS_LIMIT <= p.y <= POS_LIMIT
                        },
                        _ => true,
                    });
                    if i != fl {
                        assert(t[i] == s[i]);
                    } else {
                        assert(t[i].position == s[i].position);
                    }
                }
            }
        },
    }
}

/// A locked aim stays well-formed across a transition, and any aim that
/// governs a tick has an at-most-unit direction.
proof fn lemma_transition_wf(gs: GameStateV, input: InputV, launch_point: Vec2V, aim: AimV)
    requires
        gs.wf(),
        aim.wf(),
    ensures
        aim_transition(gs, input, launch_point, aim).wf(),
        effective_aim(gs, input, launch_point, aim) matches Some(au) ==> {
            &&& -SCALE <= au.1.x <= SCALE
            &&& -SCALE <= au.1.y <= SCALE
        },
{
}

impl World {
    /// A fresh session: no entities yet, the state machine in its initial
    /// `SelectDirection` state, no pending input.
    pub fn new(launch_point: LastLaunchPoint, boundary: GameBoundary) -> (w: World)
        ensures
            w@ == (WorldV {
                game_state: GameStateV::SelectDirection,
                input: InputV { pos: Vec2V { x: 0, y: 0 }, perform_action: false },
                launch_point: launch_point.0@,
                boundary,
                entities: Seq::<EntityV>::empty(),
            }),
            w@.wf(),
    {
        let w = World {
            game_state: GameState::SelectDirection,
            input: InputState::default(),
            launch_point,
            boundary,
            entities: Vec::new(),
        };
        proof {
            assert(entities_view(w.entities@) =~= Seq::<EntityV>::empty());
            assert(w@ =~= (WorldV {
                game_state: GameStateV::SelectDirection,
                input: InputV { pos: Vec2V { x: 0, y: 0 }, perform_action: false },
                launch_point: launch_point.0@,
                boundary,
                entities: Seq::<EntityV>::empty(),
            }));
        }
        w
    }

    /// Creates one ball entity at `position`, unlaunched and stationary, at
    /// the end of the registry (creation order).
    pub fn create_ball(&mut self, position: Vec2i, radius: u32, color: Color)
        ensures
            final(self)@ == (WorldV {
                entities: old(self)@.entities.push(EntityV {
                    position: Some(position@),
                    velocity: Some(VelocityV { speed: 0, angle: 0, unit: Vec2V { x: SCALE as int, y: 0 } }),
                    ball: Some(Ball { radius, color, state: BallState::Unlaunched }),
                    block: None,
                }),
                ..old(self)@
            }),
            old(self)@.wf() ==> final(self)@.wf(),
    {
        let e = Entity {
            position: Some(Position(position)),
            velocity: Some(Velocity::default()),
            ball: Some(Ball { radius, color, state: BallState::Unlaunched }),
            block: None,
        };
        let ghost s0 = entities_view(self.entities@);
        self.entities.push(e);
        proof {
            assert(entities_view(self.entities@) =~= s0.push(e@));
            assert(entities_wf(s0) ==> entities_wf(s0.push(e@)));
        }
    }

    /// Creates one block entity at `position`, at the end of the registry.
    /// Blocks carry no velocity component, so the integration system skips
    /// them entirely.
    pub fn create_block(&mut self, position: Vec2i, block: Block)
        ensures
            final(self)@ == (WorldV {
                entities: old(self)@.entities.push(EntityV {
                    position: Some(position@),
                    velocity: None,
                    ball: None,
                    block: Some(block),
                }),
                ..old(self)@
            }),
            old(self)@.wf() ==> final(self)@.wf(),
    {
        let e = Entity {
            position: Some(Position(position)),
            velocity: None,
            ball: None,
            block: Some(block),
        };
        let ghost s0 = entities_view(self.entities@);
        self.entities.push(e);
        proof {
            assert(entities_view(self.entities@) =~= s0.push(e@));
            assert(entities_wf(s0) ==> entities_wf(s0.push(e@)));
        }
    }

    /// Checks that every moving entity's position leaves room for one more
    /// tick of motion inside the fixed-point range.
    pub fn positions_within_limits(&self) -> (r: bool)
        ensures
            r == positions_in_bounds(self@.entities),
    {
        let ghost s = self@.entities;
        let mut i: usize = 0;
        while i < self.entities.len()
            invariant
                i <= self.entities.len(),
                s == entities_view(self.entities@),
                s.len() == self.entities@.len(),
                forall|j: int|
                    0 <= j < i ==> match (#[trigger] s[j].position, s[j].velocity) {
                        (Some(p), Some(_v)) => {
                            &&& -POS_LIMIT <= p.x <= POS_LIMIT
                            &&& -POS_LIMIT <= p.y <= POS_LIMIT
                        },
                        _ => true,
                    },
            decreases self.entities.len() - i,
        {
            let e = self.entities[i];
            assert(e@ == s[i as int]);
            match (e.position, e.velocity) {
                (Some(p), Some(_v)) => {
                    let in_range = -POS_LIMIT <= p.0.x && p.0.x <= POS_LIMIT && -POS_LIMIT
                        <= p.0.y && p.0.y <= POS_LIMIT;
                    if !in_range {
                        proof {
                            assert(s[i as int].position == Some(p@));
                            assert(!positions_in_bounds(s));
                        }
                        return false;
                    }
                },
                _ => {},
            }
            i = i + 1;
        }
        true
    }

    /// One full tick of the engine, in the fixed order the state machine
    /// relies on: the aiming & launch system first (so a ball released this
    /// tick is already moving this tick), then the integration system, then
    /// the unconditional clearing of the one-shot confirm flag.
    ///
    /// `aim` is the input layer's trigonometric evaluation of the current
    /// pointer's aim; it is consulted only on the tick of a confirm event.
    pub fn tick(&mut self, aim: &AimEval)
        requires
            old(self)@.wf(),
            aim@.wf(),
            positions_in_bounds(old(self)@.entities),
        ensures
            final(self)@ == tick_spec(old(self)@, aim@),
            final(self)@.wf(),
    {
        proof {
            lemma_transition_wf(self@.game_state, self@.input, self@.launch_point, aim@);
            lemma_launch_step_wf(
                self@.entities,
                effective_aim(self@.game_state, self@.input, self@.launch_point, aim@),
            );
        }
        BallLauncher::run(
            &mut self.game_state,
            &self.input,
            &self.launch_point,
            &mut self.entities,
            aim,
        );
        Physics::run(&mut self.entities);
        // Reset after every update so a single confirm can't launch twice.
        self.input.perform_action = false;
        proof {
            assert(final(self)@ =~= tick_spec(old(self)@, aim@));
        }
    }
}

} // verus!
