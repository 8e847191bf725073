use vstd::prelude::*;

use crate::direction::{delta_x, delta_y, direction_of, token_down, token_left, token_right, token_up, MoveDirection, STEP};

verus! {

/// A simulation entity's position. Every reachable position is a whole
/// multiple of `STEP` on each axis, so coordinates are held as integers.
#[derive(Clone, Copy, Debug, PartialEq, Eq, Structural)]
pub struct Position {
    pub x: i64,
    pub y: i64,
    pub z: i64,
}

/// Addition on one coordinate, saturating at the ends of the `i64` range.
pub open spec fn sat_add(a: int, b: int) -> int {
    if a + b > i64::MAX as int {
        i64::MAX as int
    } else if a + b < i64::MIN as int {
        i64::MIN as int
    } else {
        a + b
    }
}

/// The position one movement command leads to: the command's fixed delta
/// applied to each axis, saturating at the ends of the coordinate range.
pub open spec fn applied(p: Position, d: MoveDirection) -> Position {
    Position {
        x: sat_add(p.x as int, delta_x(d)) as i64,
        y: sat_add(p.y as int, delta_y(d)) as i64,
        z: p.z,
    }
}

/// Adds a delta to one coordinate, saturating at the ends of the range.
fn sat_add_exec(a: i64, b: i64) -> (r: i64)
    ensures
        r as int == sat_add(a as int, b as int),
{
    if b >= 0 {
        if a > i64::MAX - b {
            i64::MAX
        } else {
            a + b
        }
    } else {
        if a < i64::MIN - b {
            i64::MIN
        } else {
            a + b
        }
    }
}

impl Position {
    /// The position every entity starts at.
    pub open spec fn spec_origin() -> Position {
        Position { x: 0, y: 0, z: 0 }
    }

    /// The position every entity starts at.
    pub fn origin() -> (r: Position)
        ensures
            r == Position::spec_origin(),
    {
        Position { x: 0, y: 0, z: 0 }
    }

    /// Applies one movement command to this position: a fixed-magnitude
    /// delta along the command's axis, and no change for the no-op command.
    pub fn apply(&self, d: MoveDirection) -> (r: Position)
        ensures
            r == applied(*self, d),
    {
        match d {
            MoveDirection::Up => Position { x: self.x, y: sat_add_exec(self.y, STEP), z: self.z },
            MoveDirection::Down => Position {
                x: self.x,
                y: sat_add_exec(self.y, -STEP),
                z: self.z,
            },
            MoveDirection::Left => Position {
                x: sat_add_exec(self.x, -STEP),
                y: self.y,
                z: self.z,
            },
            MoveDirection::Right => Position {
                x: sat_add_exec(self.x, STEP),
                y: self.y,
                z: self.z,
            },
            MoveDirection::Noop => *self,
        }
    }
}

/// A coordinate far enough from the ends of the range that one movement
/// command still applies its exact delta.
pub open spec fn coord_in_range(c: int) -> bool {
    i64::MIN as int + STEP as int <= c <= i64::MAX as int - STEP as int
}

/// Every coordinate is far enough from the ends of the range for one
/// more command's exact delta.
pub open spec fn in_range(p: Position) -> bool {
    coord_in_range(p.x as int) && coord_in_range(p.y as int) && coord_in_range(p.z as int)
}

/// For every valid movement command, the position delta is fixed and
/// deterministic: up adds `STEP` to y, down subtracts it, left subtracts
/// `STEP` from x, right adds it, and z never changes.
pub proof fn lemma_valid_direction_delta(p: Position)
    requires
        in_range(p),
    ensures
        applied(p, MoveDirection::Up) == (Position { x: p.x, y: (p.y + STEP) as i64, z: p.z }),
        applied(p, MoveDirection::Down) == (Position { x: p.x, y: (p.y - STEP) as i64, z: p.z }),
        applied(p, MoveDirection::Left) == (Position { x: (p.x - STEP) as i64, y: p.y, z: p.z }),
        applied(p, MoveDirection::Right) == (Position { x: (p.x + STEP) as i64, y: p.y, z: p.z }),
{
}

/// For every valid direction token, the resulting position delta is fixed
/// and deterministic: "up" adds the step to y, "down" subtracts it, "left"
/// subtracts the step from x, "right" adds it, and z never changes.
pub proof fn lemma_valid_token_delta(p: Position)
    requires
        in_range(p),
    ensures
        applied(p, direction_of(token_up())) == (Position {
            x: p.x,
            y: (p.y + STEP) as i64,
            z: p.z,
        }),
        applied(p, direction_of(token_down())) == (Position {
            x: p.x,
            y: (p.y - STEP) as i64,
            z: p.z,
        }),
        applied(p, direction_of(token_left())) == (Position {
            x: (p.x - STEP) as i64,
            y: p.y,
            z: p.z,
        }),
        applied(p, direction_of(token_right())) == (Position {
            x: (p.x + STEP) as i64,
            y: p.y,
            z: p.z,
        }),
{
    assert(direction_of(token_up()) == MoveDirection::Up);
    assert(direction_of(token_down()) == MoveDirection::Down);
    assert(direction_of(token_left()) == MoveDirection::Left);
    assert(direction_of(token_right())
        == MoveDirection::Right);
}

/// For every frame outside the four movement words, the applied delta is
/// the zero vector: decoding yields the no-op command and applying the
/// no-op command returns the position unchanged.
pub proof fn lemma_unknown_token_noop(p: Position, frame: Seq<u8>)
    requires
        frame != token_up(),
        frame != token_down(),
        frame != token_left(),
        frame != token_right(),
    ensures
        direction_of(frame) == MoveDirection::Noop,
        applied(p, MoveDirection::Noop) == p,
{
}

} // verus!
