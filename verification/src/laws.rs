//! Session-level guarantees of the engine.
//!
//! A session is a world driven by a sequence of per-tick stimuli from the
//! input layer. The proof functions here state the engine's global laws over
//! that model: the aim transition happens at most once and is inclusive at
//! its angle bounds, the volley is released one ball per tick in creation
//! order, moving balls travel in exact straight lines, and blocks never move.

use vstd::prelude::*;

use crate::ball_launcher::{
    first_launchable_from, launch_seq, launchable, launched, lemma_first_launchable_from,
    BALL_SPEED,
};
use crate::components::{Ball, BallState, EntityV, VelocityV};
use crate::math::Vec2V;
use crate::physics::{displacement, phys_seq, phys_step};
use crate::resources::{valid_aim_angle, AimV, GameStateV, InputV, MIN_ANGLE, PI_FIXED};
use crate::world::{tick_spec, WorldV};

verus! {

/// What the input layer hands the engine for one tick: the normalized pointer
/// input and its trigonometric aim evaluation.
pub struct EventV {
    pub input: InputV,
    pub aim: AimV,
}

/// One tick of a session: the input layer writes the tick's input, then the
/// engine runs its full tick.
pub open spec fn apply_event(w: WorldV, e: EventV) -> WorldV {
    tick_spec(WorldV { input: e.input, ..w }, e.aim)
}

/// A whole session: the world after every event of `events`, in order.
pub open spec fn run_ticks(w: WorldV, events: Seq<EventV>) -> WorldV
    decreases events.len(),
{
    if events.len() == 0 {
        w
    } else {
        run_ticks(apply_event(w, events[0]), events.subrange(1, events.len() as int))
    }
}

/// An entity that counts as a ball for the launcher: it carries both a ball
/// and a velocity component.
pub open spec fn is_ball(e: EntityV) -> bool {
    e.ball is Some && e.velocity is Some
}

/// The number of ball entities at indices below `i`: a ball's rank in
/// creation order.
pub open spec fn balls_before(s: Seq<EntityV>, i: int) -> int
    decreases i,
{
    if i <= 0 {
        0
    } else {
        balls_before(s, i - 1) + if 0 <= i - 1 < s.len() && is_ball(s[i - 1]) {
            1int
        } else {
            0int
        }
    }
}

/// The number of ball entities in the registry.
pub open spec fn ball_count(s: Seq<EntityV>) -> int {
    balls_before(s, s.len() as int)
}

/// An entity whose ball has been launched.
pub open spec fn is_moving_ball(e: EntityV) -> bool {
    e.ball matches Some(b) && b.state == BallState::Moving
}

/// The number of launched balls at indices below `i`.
pub open spec fn moving_before(s: Seq<EntityV>, i: int) -> int
    decreases i,
{
    if i <= 0 {
        0
    } else {
        moving_before(s, i - 1) + if 0 <= i - 1 < s.len() && is_moving_ball(s[i - 1]) {
            1int
        } else {
            0int
        }
    }
}

/// Every ball of the registry still awaits launch and carries a velocity
/// component — the state in which level setup leaves a session.
pub open spec fn session_start(s: Seq<EntityV>) -> bool {
    forall|i: int|
        0 <= i < s.len() ==> match (#[trigger] s[i]).ball {
            Some(b) => b.state == BallState::Unlaunched && s[i].velocity is Some,
            None => true,
        }
}

/// How one entity looks `k` ticks into the volley, relative to its state `e0`
/// at session start: launched if its creation rank is below `k` (moving at
/// `BALL_SPEED` along the locked aim), untouched otherwise. Positions are not
/// constrained here — integration moves them every tick.
pub open spec fn volley_entity(e0: EntityV, e: EntityV, launched_now: bool, a: int, u: Vec2V) -> bool {
    if launched_now && is_ball(e0) {
        match e0.ball {
            Some(b0) => {
                &&& e.ball == Some(Ball { radius: b0.radius, color: b0.color, state: BallState::Moving })
                &&& e.velocity == Some(VelocityV { speed: BALL_SPEED as int, angle: a, unit: u })
                &&& e.block == e0.block
            },
            None => false,
        }
    } else {
        &&& e.ball == e0.ball
        &&& e.velocity == e0.velocity
        &&& e.block == e0.block
    }
}

/// The registry `k` ticks into the volley, relative to session start `s0`:
/// exactly the balls of creation rank below `k` have been launched, all with
/// the same locked aim.
pub open spec fn volley_state(s0: Seq<EntityV>, s: Seq<EntityV>, k: int, a: int, u: Vec2V) -> bool {
    &&& s.len() == s0.len()
    &&& forall|i: int|
        0 <= i < s.len() ==> volley_entity(
            s0[i],
            s[i],
            #[trigger] balls_before(s0, i) < k,
            a,
            u,
        )
}

/// On a confirm with a defined, accepted angle, the state machine transitions
/// into `Simulate` carrying exactly that angle and its direction — and a
/// session makes this transition at most once, since
/// [`lemma_simulate_is_terminal`] shows it is never left again.
pub proof fn lemma_valid_confirm_locks(w: WorldV, e: EventV)
    requires
        w.game_state == GameStateV::SelectDirection,
        e.input.perform_action,
        e.input.pos != w.launch_point,
        valid_aim_angle(e.aim.angle),
    ensures
        apply_event(w, e).game_state == (GameStateV::Simulate {
            initial_angle: e.aim.angle,
            unit: e.aim.unit,
        }),
{
}

/// Once locked, the state machine never changes again: later events, confirm
/// or not, valid angle or not, have no further effect on the game state.
pub proof fn lemma_simulate_is_terminal(w: WorldV, events: Seq<EventV>, a: int, u: Vec2V)
    requires
        w.game_state == (GameStateV::Simulate { initial_angle: a, unit: u }),
    ensures
        run_ticks(w, events).game_state == w.game_state,
    decreases events.len(),
{
    if events.len() > 0 {
        lemma_simulate_is_terminal(
            apply_event(w, events[0]),
            events.subrange(1, events.len() as int),
            a,
            u,
        );
    }
}

/// A tick with no accepted confirm while selecting — no action, an angle
/// outside the accepted range, or a pointer exactly on the launch point
/// (undefined direction) — is rejected silently: the state stays
/// `SelectDirection` and no ball is launched; only integration runs.
pub proof fn lemma_invalid_confirm_rejected(w: WorldV, e: EventV)
    requires
        w.game_state == GameStateV::SelectDirection,
        !e.input.perform_action || e.input.pos == w.launch_point || !valid_aim_angle(
            e.aim.angle,
        ),
    ensures
        apply_event(w, e).game_state == GameStateV::SelectDirection,
        apply_event(w, e).entities == phys_seq(w.entities),
{
}

/// The accepted range is inclusive on both ends: a confirm exactly at
/// `MIN_ANGLE`, or exactly at `PI_FIXED - MIN_ANGLE`, locks the aim.
pub proof fn lemma_angle_bounds_inclusive(w: WorldV, e: EventV)
    requires
        w.game_state == GameStateV::SelectDirection,
        e.input.perform_action,
        e.input.pos != w.launch_point,
        e.aim.angle == MIN_ANGLE || e.aim.angle == PI_FIXED - MIN_ANGLE,
    ensures
        apply_event(w, e).game_state == (GameStateV::Simulate {
            initial_angle: e.aim.angle,
            unit: e.aim.unit,
        }),
{
}

/// One tick leaves an entity without a velocity component — a block —
/// exactly as it was.
proof fn lemma_tick_keeps_no_velocity(w: WorldV, e: EventV, i: int)
    requires
        0 <= i < w.entities.len(),
        w.entities[i].velocity is None,
    ensures
        apply_event(w, e).entities.len() == w.entities.len(),
        apply_event(w, e).entities[i] == w.entities[i],
{
    let s = w.entities;
    if first_launchable_from(s, 0) < s.len() {
        lemma_first_launchable_from(s, 0);
        assert(launchable(s[first_launchable_from(s, 0)]));
    }
}

/// Block entities' positions — and all their other components — are
/// invariant under any number of ticks: an entity with no velocity component
/// is never selected by the launcher and is skipped by integration.
pub proof fn lemma_blocks_static(w: WorldV, events: Seq<EventV>, i: int)
    requires
        0 <= i < w.entities.len(),
        w.entities[i].velocity is None,
    ensures
        run_ticks(w, events).entities.len() == w.entities.len(),
        run_ticks(w, events).entities[i] == w.entities[i],
    decreases events.len(),
{
    if events.len() > 0 {
        lemma_tick_keeps_no_velocity(w, events[0], i);
        lemma_blocks_static(
            apply_event(w, events[0]),
            events.subrange(1, events.len() as int),
            i,
        );
    }
}

/// One tick moves a moving ball by exactly the displacement of its velocity
/// and touches nothing else of it: the launcher only ever selects unlaunched
/// balls.
proof fn lemma_tick_moving_ball(w: WorldV, e: EventV, i: int)
    requires
        0 <= i < w.entities.len(),
        w.entities[i].ball matches Some(b) && b.state == BallState::Moving,
        w.entities[i].velocity is Some,
        w.entities[i].position is Some,
    ensures
        apply_event(w, e).entities.len() == w.entities.len(),
        apply_event(w, e).entities[i] == (match (w.entities[i].position, w.entities[i].velocity) {
            (Some(p), Some(v)) => EntityV {
                position: Some(
                    Vec2V { x: p.x + displacement(v).x, y: p.y + displacement(v).y },
                ),
                ..w.entities[i]
            },
            _ => w.entities[i],
        }),
{
    let s = w.entities;
    if first_launchable_from(s, 0) < s.len() {
        lemma_first_launchable_from(s, 0);
        assert(launchable(s[first_launchable_from(s, 0)]));
    }
}

/// Linear motion: a moving ball's velocity never changes, and after `T`
/// ticks its position is its start plus exactly `T` times the per-tick
/// displacement of that velocity.
pub proof fn lemma_moving_ball_linear(w: WorldV, events: Seq<EventV>, i: int)
    requires
        0 <= i < w.entities.len(),
        w.entities[i].ball matches Some(b) && b.state == BallState::Moving,
        w.entities[i].velocity is Some,
        w.entities[i].position is Some,
    ensures
        run_ticks(w, events).entities.len() == w.entities.len(),
        run_ticks(w, events).entities[i] == (match (
            w.entities[i].position,
            w.entities[i].velocity,
        ) {
            (Some(p), Some(v)) => EntityV {
                position: Some(
                    Vec2V {
                        x: p.x + events.len() * displacement(v).x,
                        y: p.y + events.len() * displacement(v).y,
                    },
                ),
                ..w.entities[i]
            },
            _ => w.entities[i],
        }),
    decreases events.len(),
{
    match (w.entities[i].position, w.entities[i].velocity) {
        (Some(p), Some(v)) => {
            let dx = displacement(v).x;
            let dy = displacement(v).y;
            let k = events.len() as int;
            if events.len() == 0 {
                assert(k * dx == 0 && k * dy == 0) by (nonlinear_arith)
                    requires k == 0;
                assert(run_ticks(w, events).entities[i] =~= (EntityV {
                    position: Some(Vec2V { x: p.x + k * dx, y: p.y + k * dy }),
                    ..w.entities[i]
                }));
            } else {
                lemma_tick_moving_ball(w, events[0], i);
                let w1 = apply_event(w, events[0]);
                lemma_moving_ball_linear(w1, events.subrange(1, events.len() as int), i);
                assert((k - 1) * dx + dx == k * dx) by (nonlinear_arith);
                assert((k - 1) * dy + dy == k * dy) by (nonlinear_arith);
                assert(run_ticks(w1, events.subrange(1, events.len() as int)).entities[i]
                    =~= (EntityV {
                    position: Some(Vec2V { x: p.x + k * dx, y: p.y + k * dy }),
                    ..w.entities[i]
                }));
            }
        },
        _ => {},
    }
}

/// Ball ranks never decrease along the registry.
proof fn lemma_balls_before_le(s: Seq<EntityV>, i: int, j: int)
    requires
        i <= j,
    ensures
        balls_before(s, i) <= balls_before(s, j),
    decreases j - i,
{
    if i < j {
        lemma_balls_before_le(s, i, j - 1);
    }
}

/// Two distinct balls have distinct ranks: the earlier one's is strictly
/// smaller.
proof fn lemma_ball_rank_strict(s: Seq<EntityV>, i: int, j: int)
    requires
        0 <= i < j,
        i < s.len(),
        is_ball(s[i]),
    ensures
        balls_before(s, i) + 1 <= balls_before(s, j),
{
    assert(balls_before(s, i + 1) == balls_before(s, i) + 1);
    lemma_balls_before_le(s, i + 1, j);
}

/// Mid-volley, the launcher's scan finds exactly the ball of rank `k`, or
/// nothing once all `ball_count` balls are gone.
proof fn lemma_first_by_rank(s0: Seq<EntityV>, s: Seq<EntityV>, k: int, a: int, u: Vec2V, j: int)
    requires
        session_start(s0),
        volley_state(s0, s, k, a, u),
        0 <= j <= s.len(),
        balls_before(s0, j) <= k,
    ensures
        k < ball_count(s0) ==> {
            &&& first_launchable_from(s, j) < s.len()
            &&& is_ball(s0[first_launchable_from(s, j)])
            &&& balls_before(s0, first_launchable_from(s, j)) == k
        },
        k >= ball_count(s0) ==> first_launchable_from(s, j) == s.len(),
    decreases s.len() - j,
{
    if j == s.len() {
        lemma_balls_before_le(s0, j, s0.len() as int);
    } else {
        let rank = balls_before(s0, j);
        assert(balls_before(s0, j + 1) == rank + if is_ball(s0[j]) { 1int } else { 0int });
        if is_ball(s0[j]) && rank == k {
            assert(volley_entity(s0[j], s[j], balls_before(s0, j) < k, a, u));
            assert(!(rank < k));
            assert(s[j].ball == s0[j].ball && s[j].velocity == s0[j].velocity);
            assert(launchable(s[j]));
            assert(first_launchable_from(s, j) == j);
            lemma_ball_rank_strict(s0, j, s0.len() as int);
        } else {
            assert(volley_entity(s0[j], s[j], balls_before(s0, j) < k, a, u));
            assert(!launchable(s[j])) by {
                if is_ball(s0[j]) {
                    assert(rank < k);
                } else {
                    assert(s[j].ball == s0[j].ball && s[j].velocity == s0[j].velocity);
                }
            }
            assert(first_launchable_from(s, j) == first_launchable_from(s, j + 1));
            lemma_first_by_rank(s0, s, k, a, u, j + 1);
        }
    }
}

/// One launch step advances the volley from `k` to `k + 1` launched balls.
proof fn lemma_launch_step_volley(s0: Seq<EntityV>, s: Seq<EntityV>, k: int, a: int, u: Vec2V)
    requires
        session_start(s0),
        volley_state(s0, s, k, a, u),
        0 <= k,
    ensures
        volley_state(s0, launch_seq(s, Some((a, u))), k + 1, a, u),
{
    let f = first_launchable_from(s, 0);
    lemma_first_by_rank(s0, s, k, a, u, 0);
    lemma_first_launchable_from(s, 0);
    let t = launch_seq(s, Some((a, u)));
    if k < ball_count(s0) {
        assert(t == s.update(f, launched(s[f], a, u)));
        assert forall|i: int|
            0 <= i < t.len() implies volley_entity(
            s0[i],
            t[i],
            #[trigger] balls_before(s0, i) < k + 1,
            a,
            u,
        ) by {
            assert(volley_entity(s0[i], s[i], balls_before(s0, i) < k, a, u));
            if i == f {
                assert(!(balls_before(s0, i) < k));
                assert(s[i].ball == s0[i].ball && s[i].velocity == s0[i].velocity && s[i].block
                    == s0[i].block);
                assert(t[i] == launched(s[i], a, u));
            } else {
                assert(t[i] == s[i]);
                if is_ball(s0[i]) && balls_before(s0, i) == k {
                    // Ranks are unique, so only `f` has rank `k`.
                    if i < f {
                        lemma_ball_rank_strict(s0, i, f);
                    } else {
                        lemma_ball_rank_strict(s0, f, i);
                    }
                    assert(false);
                }
            }
        }
    } else {
        assert(t == s);
        assert forall|i: int|
            0 <= i < t.len() implies volley_entity(
            s0[i],
            t[i],
            #[trigger] balls_before(s0, i) < k + 1,
            a,
            u,
        ) by {
            assert(volley_entity(s0[i], s[i], balls_before(s0, i) < k, a, u));
            if is_ball(s0[i]) && balls_before(s0, i) == k {
                lemma_ball_rank_strict(s0, i, s0.len() as int);
                assert(false);
            }
        }
    }
}

/// Integration touches no ball, velocity or block component.
proof fn lemma_phys_preserves_volley(s0: Seq<EntityV>, s: Seq<EntityV>, k: int, a: int, u: Vec2V)
    requires
        volley_state(s0, s, k, a, u),
    ensures
        volley_state(s0, phys_seq(s), k, a, u),
{
    let t = phys_seq(s);
    assert forall|i: int|
        0 <= i < t.len() implies volley_entity(
        s0[i],
        t[i],
        #[trigger] balls_before(s0, i) < k,
        a,
        u,
    ) by {
        assert(volley_entity(s0[i], s[i], balls_before(s0, i) < k, a, u));
        assert(t[i] == phys_step(s[i]));
    }
}

/// Once the state machine sits in `Simulate`, each further tick launches the
/// next unlaunched ball in creation order and changes no other ball.
proof fn lemma_tick_volley(s0: Seq<EntityV>, w: WorldV, e: EventV, k: int, a: int, u: Vec2V)
    requires
        session_start(s0),
        w.game_state == (GameStateV::Simulate { initial_angle: a, unit: u }),
        volley_state(s0, w.entities, k, a, u),
        0 <= k,
    ensures
        apply_event(w, e).game_state == w.game_state,
        apply_event(w, e).launch_point == w.launch_point,
        apply_event(w, e).boundary == w.boundary,
        volley_state(s0, apply_event(w, e).entities, k + 1, a, u),
{
    lemma_launch_step_volley(s0, w.entities, k, a, u);
    lemma_phys_preserves_volley(s0, launch_seq(w.entities, Some((a, u))), k + 1, a, u);
}

/// After any further `events`, a volley `k` ticks in has advanced to
/// `k + events.len()` ticks in, and the locked state never changes.
proof fn lemma_run_ticks_volley(
    s0: Seq<EntityV>,
    w: WorldV,
    events: Seq<EventV>,
    k: int,
    a: int,
    u: Vec2V,
)
    requires
        session_start(s0),
        w.game_state == (GameStateV::Simulate { initial_angle: a, unit: u }),
        volley_state(s0, w.entities, k, a, u),
        0 <= k,
    ensures
        run_ticks(w, events).game_state == w.game_state,
        run_ticks(w, events).launch_point == w.launch_point,
        run_ticks(w, events).boundary == w.boundary,
        volley_state(s0, run_ticks(w, events).entities, k + events.len(), a, u),
    decreases events.len(),
{
    if events.len() > 0 {
        lemma_tick_volley(s0, w, events[0], k, a, u);
        lemma_run_ticks_volley(
            s0,
            apply_event(w, events[0]),
            events.subrange(1, events.len() as int),
            k + 1,
            a,
            u,
        );
    }
}

/// With a confirmed valid aim `Simulate { a, u }` and all `N` balls
/// unlaunched, after any `K` further ticks exactly the balls of creation rank
/// below `K` are `Moving` — one new ball per tick, in creation order — each
/// with speed `BALL_SPEED` and the shared locked angle `a`; every other ball
/// is still exactly as it was, and the state machine never leaves
/// `Simulate { a, u }`.
pub proof fn lemma_staggered_volley(w: WorldV, events: Seq<EventV>, a: int, u: Vec2V)
    requires
        w.game_state == (GameStateV::Simulate { initial_angle: a, unit: u }),
        session_start(w.entities),
    ensures
        run_ticks(w, events).game_state == w.game_state,
        volley_state(w.entities, run_ticks(w, events).entities, events.len() as int, a, u),
{
    let s0 = w.entities;
    assert forall|i: int|
        0 <= i < s0.len() implies volley_entity(
        s0[i],
        s0[i],
        #[trigger] balls_before(s0, i) < 0,
        a,
        u,
    ) by {
        lemma_balls_before_le(s0, 0, i);
    }
    lemma_run_ticks_volley(s0, w, events, 0, a, u);
}

/// `K` ticks into a volley of `N` balls, exactly `min(K, N)` balls are
/// `Moving`.
pub proof fn lemma_volley_count(s0: Seq<EntityV>, s: Seq<EntityV>, k: int, a: int, u: Vec2V)
    requires
        session_start(s0),
        volley_state(s0, s, k, a, u),
        0 <= k,
    ensures
        moving_before(s, s.len() as int) == if k <= ball_count(s0) {
            k
        } else {
            ball_count(s0)
        },
{
    lemma_moving_prefix(s0, s, k, a, u, s.len() as int);
}

/// Along every prefix, the launched balls are exactly the first
/// `min(k, rank)` ones.
proof fn lemma_moving_prefix(s0: Seq<EntityV>, s: Seq<EntityV>, k: int, a: int, u: Vec2V, j: int)
    requires
        session_start(s0),
        volley_state(s0, s, k, a, u),
        0 <= k,
        0 <= j <= s.len(),
    ensures
        moving_before(s, j) == if k <= balls_before(s0, j) {
            k
        } else {
            balls_before(s0, j)
        },
    decreases j,
{
    if j > 0 {
        lemma_moving_prefix(s0, s, k, a, u, j - 1);
        assert(volley_entity(s0[j - 1], s[j - 1], balls_before(s0, j - 1) < k, a, u));
        if is_ball(s0[j - 1]) {
            if balls_before(s0, j - 1) < k {
                assert(is_moving_ball(s[j - 1]));
            } else {
                assert(s[j - 1].ball == s0[j - 1].ball);
                assert(!is_moving_ball(s[j - 1]));
            }
        } else {
            assert(s[j - 1].ball == s0[j - 1].ball);
            assert(!is_moving_ball(s[j - 1]));
        }
    }
}

} // verus!
