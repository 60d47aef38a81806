//! Per-entity components and the entity record of the registry.
//!
//! An entity is a row in the world's registry: an open set of optional
//! components. Balls carry `Position`, `Velocity` and `Ball`; blocks carry
//! `Position` and `Block` and nothing else, so the integration system skips
//! them entirely.

use vstd::prelude::*;

use crate::math::{Vec2i, Vec2V, MAX_SPEED, SCALE};

verus! {

/// An RGBA color, as the rendering layer consumes it.
#[derive(Clone, Copy, Debug, PartialEq, Eq, Structural)]
pub struct Color {
    pub r: u8,
    pub g: u8,
    pub b: u8,
    pub a: u8,
}

/// The color in which a block of the given value is drawn.
pub open spec fn spec_value_color(value: int) -> Color {
    if value <= 21 {
        Color { r: 38, g: 166, b: 154, a: 255 }
    } else if value <= 35 {
        Color { r: 33, g: 150, b: 243, a: 255 }
    } else if value <= 52 {
        Color { r: 102, g: 187, b: 106, a: 255 }
    } else if value <= 65 {
        Color { r: 255, g: 152, b: 0, a: 255 }
    } else if value <= 78 {
        Color { r: 126, g: 87, b: 194, a: 255 }
    } else if value <= 91 {
        Color { r: 77, g: 208, b: 225, a: 255 }
    } else if value <= 102 {
        Color { r: 92, g: 107, b: 192, a: 255 }
    } else {
        Color { r: 158, g: 158, b: 158, a: 255 }
    }
}

/// Maps a block's numeric value to its display color.
pub fn value_color(value: usize) -> (c: Color)
    ensures
        c == spec_value_color(value as int),
{
    if value <= 21 {
        Color { r: 38, g: 166, b: 154, a: 255 }
    } else if value <= 35 {
        Color { r: 33, g: 150, b: 243, a: 255 }
    } else if value <= 52 {
        Color { r: 102, g: 187, b: 106, a: 255 }
    } else if value <= 65 {
        Color { r: 255, g: 152, b: 0, a: 255 }
    } else if value <= 78 {
        Color { r: 126, g: 87, b: 194, a: 255 }
    } else if value <= 91 {
        Color { r: 77, g: 208, b: 225, a: 255 }
    } else if value <= 102 {
        Color { r: 92, g: 107, b: 192, a: 255 }
    } else {
        Color { r: 158, g: 158, b: 158, a: 255 }
    }
}

/// The current position of a given entity.
#[derive(Clone, Copy, Debug, PartialEq, Eq, Structural)]
pub struct Position(pub Vec2i);

impl View for Position {
    type V = Vec2V;

    open spec fn view(&self) -> Vec2V {
        self.0@
    }
}

/// The current speed and direction of a given entity.
///
/// `angle` is the launch angle in fixed-point radians, measured
/// counter-clockwise from the horizontal axis. Because the engine's arithmetic
/// is exact integer arithmetic, the trigonometric evaluation of that angle is
/// not recomputed here: `unit` carries the unit direction of travel,
/// `(cos angle, -sin angle)` in fixed-point (the vertical component is negated
/// because the world's vertical axis grows downward), as evaluated by the
/// layer that confirmed the aim.
#[derive(Clone, Copy, Debug, PartialEq, Eq, Structural)]
pub struct Velocity {
    /// The speed of the entity, in fixed-point world units per tick.
    pub speed: i64,
    /// The angle of travel in fixed-point radians.
    pub angle: i64,
    /// The unit direction of travel, `(cos angle, -sin angle)`, in fixed-point.
    pub unit: Vec2i,
}

/// Mathematical model of a [`Velocity`].
pub struct VelocityV {
    pub speed: int,
    pub angle: int,
    pub unit: Vec2V,
}

impl VelocityV {
    /// Bounds under which one tick of motion stays inside `i64` arithmetic:
    /// the direction is at most a unit vector and the speed is capped.
    pub open spec fn wf(self) -> bool {
        &&& 0 <= self.speed <= MAX_SPEED
        &&& -SCALE <= self.unit.x <= SCALE
        &&& -SCALE <= self.unit.y <= SCALE
    }
}

impl View for Velocity {
    type V = VelocityV;

    open spec fn view(&self) -> VelocityV {
        VelocityV { speed: self.speed as int, angle: self.angle as int, unit: self.unit@ }
    }
}

impl Default for Velocity {
    /// A stationary velocity: zero speed, aimed along the horizontal axis.
    fn default() -> (v: Velocity)
        ensures
            v@ == (VelocityV { speed: 0, angle: 0, unit: Vec2V { x: SCALE as int, y: 0 } }),
            v@.wf(),
    {
        Velocity { speed: 0, angle: 0, unit: Vec2i { x: SCALE, y: 0 } }
    }
}

/// The lifecycle of a single ball.
#[derive(Clone, Copy, Debug, PartialEq, Eq, Structural)]
pub enum BallState {
    /// Ball hasn't been launched yet.
    Unlaunched,
    /// Ball is being simulated.
    Moving,
    /// Ball is stopped.
    Stopped,
}

/// Signifies that a circle should be drawn centered around this entity's
/// position.
#[derive(Clone, Copy, Debug, PartialEq, Eq, Structural)]
pub struct Ball {
    /// The radius of the ball.
    pub radius: u32,
    /// The color of the ball.
    pub color: Color,
    /// The current state of this ball.
    pub state: BallState,
}

/// Signifies that a rectangle should be drawn centered around this entity's
/// position.
#[derive(Clone, Copy, Debug, PartialEq, Eq, Structural)]
pub struct Block {
    /// The numeric value shown on the block.
    pub value: usize,
    /// The color of the rectangle to draw.
    pub color: Color,
    /// The width of the rectangle.
    pub width: u32,
    /// The height of the rectangle.
    pub height: u32,
}

/// One entity of the registry: an identity with its attached components.
#[derive(Clone, Copy, Debug)]
pub struct Entity {
    pub position: Option<Position>,
    pub velocity: Option<Velocity>,
    pub ball: Option<Ball>,
    pub block: Option<Block>,
}

/// Mathematical model of an [`Entity`].
pub struct EntityV {
    pub position: Option<Vec2V>,
    pub velocity: Option<VelocityV>,
    pub ball: Option<Ball>,
    pub block: Option<Block>,
}

impl EntityV {
    pub open spec fn wf(self) -> bool {
        self.velocity matches Some(v) ==> v.wf()
    }
}

/// The view of a sequence of registry entities.
pub open spec fn entities_view(s: Seq<Entity>) -> Seq<EntityV> {
    s.map_values(|e: Entity| e@)
}

/// Every entity of the registry is well-formed.
pub open spec fn entities_wf(s: Seq<EntityV>) -> bool {
    forall|i: int| 0 <= i < s.len() ==> s[i].wf()
}

impl View for Entity {
    type V = EntityV;

    open spec fn view(&self) -> EntityV {
        EntityV {
            position: match self.position {
                Some(p) => Some(p@),
                None => None,
            },
            velocity: match self.velocity {
                Some(v) => Some(v@),
                None => None,
            },
            ball: self.ball,
            block: self.block,
        }
    }
}

} // verus!
