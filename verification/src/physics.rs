//! The integration system: advances every entity carrying both a position and
//! a velocity by one fixed tick of forward Euler motion.

use vstd::prelude::*;
use vstd::pervasive::VecAdditionalExecFns;

use crate::components::{entities_view, entities_wf, Entity, EntityV, Position, VelocityV};
use crate::math::{scaled, spec_scaled, Vec2i, Vec2V, POS_LIMIT};

verus! {

/// The displacement one tick of motion adds to a position: the unit direction
/// of travel scaled by the speed. The unit vector already carries the negated
/// vertical component, so no sign flip happens here.
pub open spec fn displacement(v: VelocityV) -> Vec2V {
    Vec2V { x: spec_scaled(v.unit.x, v.speed), y: spec_scaled(v.unit.y, v.speed) }
}

/// One tick of motion for one entity: an entity with both a position and a
/// velocity advances by [`displacement`]; any other entity — a block carries
/// no velocity at all — is left untouched.
pub open spec fn phys_step(e: EntityV) -> EntityV {
    match (e.position, e.velocity) {
        (Some(p), Some(v)) => EntityV {
            position: Some(
                Vec2V { x: p.x + displacement(v).x, y: p.y + displacement(v).y },
            ),
            ..e
        },
        _ => e,
    }
}

/// One tick of motion over the whole registry.
pub open spec fn phys_seq(s: Seq<EntityV>) -> Seq<EntityV> {
    s.map_values(|e: EntityV| phys_step(e))
}

/// Every moving entity's position is far enough from the edge of the
/// representable range that one tick of motion stays inside `i64`.
pub open spec fn positions_in_bounds(s: Seq<EntityV>) -> bool {
    forall|i: int|
        0 <= i < s.len() ==> match (#[trigger] s[i].position, s[i].velocity) {
            (Some(p), Some(_v)) => {
                &&& -POS_LIMIT <= p.x <= POS_LIMIT
                &&& -POS_LIMIT <= p.y <= POS_LIMIT
            },
            _ => true,
        }
}

/// Advances position by velocity, one fixed tick at a time.
pub struct Physics;

impl Physics {
    /// One tick of integration: every entity with both a position and a
    /// velocity moves by exactly [`displacement`] of its velocity; every
    /// other entity, and every other component, is left untouched.
    pub fn run(entities: &mut Vec<Entity>)
        requires
            entities_wf(entities_view(old(entities)@)),
            positions_in_bounds(entities_view(old(entities)@)),
        ensures
            entities_view(final(entities)@) == phys_seq(entities_view(old(entities)@)),
    {
        let ghost s0 = entities_view(entities@);
        let mut i: usize = 0;
        while i < entities.len()
            invariant
                i <= entities.len(),
                entities@.len() == s0.len(),
                entities_wf(s0),
                positions_in_bounds(s0),
                forall|j: int| 0 <= j < i ==> #[trigger] entities@[j]@ == phys_step(s0[j]),
                forall|j: int| i <= j < s0.len() ==> #[trigger] entities@[j]@ == s0[j],
            decreases entities.len() - i,
        {
            let e = entities[i];
            assert(e@ == s0[i as int]);
            match (e.position, e.velocity) {
                (Some(p), Some(v)) => {
                    let dx = scaled(v.unit.x, v.speed);
                    let dy = scaled(v.unit.y, v.speed);
                    let moved = Entity {
                        position: Some(Position(Vec2i { x: p.0.x + dx, y: p.0.y + dy })),
                        velocity: e.velocity,
                        ball: e.ball,
                        block: e.block,
                    };
                    entities.set(i, moved);
                },
                _ => {},
            }
            i = i + 1;
        }
        assert(entities_view(entities@) =~= phys_seq(s0));
    }
}

} // verus!
