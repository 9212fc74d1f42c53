//! Points, axis-aligned boxes and the overlap test that every collision of
//! the game goes through.

use vstd::prelude::*;

verus! {

/// One world unit, in the millionths in which all lengths are counted.
pub const UNIT: i64 = 1_000_000;

/// The edge of a map tile.
pub const TILE_SIZE: i64 = 32_000_000;

/// The edge of the square box of a character or a weapon.
pub const CHARACTER_SIZE: i64 = 32_000_000;

/// The largest distance from the origin, on either axis, at which the game
/// computes: from there every step of a tick still fits the integers.
pub const COORD_LIMIT: i64 = 0x1000_0000_0000_0000;

/// A point or a displacement in the plane; `y` grows upwards.
#[derive(Clone, Copy, Debug, PartialEq, Eq, Structural)]
pub struct Vector {
    pub x: i64,
    pub y: i64,
}

impl Vector {
    /// Both coordinates lie within `COORD_LIMIT` of the origin.
    pub open spec fn within_limit(self) -> bool {
        &&& -COORD_LIMIT <= self.x <= COORD_LIMIT
        &&& -COORD_LIMIT <= self.y <= COORD_LIMIT
    }

    /// Tells whether both coordinates lie within `COORD_LIMIT` of the origin.
    pub fn is_within_limit(&self) -> (ok: bool)
        ensures
            ok == self.within_limit(),
    {
        -COORD_LIMIT <= self.x && self.x <= COORD_LIMIT && -COORD_LIMIT <= self.y && self.y <= COORD_LIMIT
    }
}

/// The way an actor or a weapon faces.
#[derive(Clone, Copy, Debug, PartialEq, Eq, Structural)]
pub enum Direction {
    Left,
    Right,
}

impl Direction {
    /// The coordinate `distance` away from `x` in this direction.
    pub open spec fn ahead(self, x: int, distance: int) -> int {
        match self {
            Direction::Left => x - distance,
            Direction::Right => x + distance,
        }
    }

    /// The coordinate `distance` away from `x` in this direction.
    pub fn step_from(self, x: i64, distance: i64) -> (r: i64)
        requires
            i64::MIN <= self.ahead(x as int, distance as int) <= i64::MAX,
        ensures
            r == self.ahead(x as int, distance as int),
    {
        match self {
            Direction::Left => x - distance,
            Direction::Right => x + distance,
        }
    }
}

/// The way in which a box meets another one.
///
/// `Left` says that the first box reaches into the second from its left,
/// `Bottom` that it reaches in from below, and so on. `Inside` says that on
/// neither axis one box sticks out on one side only.
#[derive(Clone, Copy, Debug, PartialEq, Eq, Structural)]
pub enum Side {
    Left,
    Right,
    Top,
    Bottom,
    Inside,
}

/// An axis-aligned box, given by its centre and its full width and height.
#[derive(Clone, Copy, Debug, PartialEq, Eq, Structural)]
pub struct Aabb {
    pub center: Vector,
    pub size: Vector,
}

impl Aabb {
    /// Twice the coordinate of the left edge. Edges are doubled so that the
    /// half of an odd size needs no rounding.
    pub open spec fn min_x2(self) -> int {
        2 * self.center.x - self.size.x
    }

    /// Twice the coordinate of the right edge.
    pub open spec fn max_x2(self) -> int {
        2 * self.center.x + self.size.x
    }

    /// Twice the coordinate of the lower edge.
    pub open spec fn min_y2(self) -> int {
        2 * self.center.y - self.size.y
    }

    /// Twice the coordinate of the upper edge.
    pub open spec fn max_y2(self) -> int {
        2 * self.center.y + self.size.y
    }

    /// The two boxes share an area; boxes that only touch do not.
    pub open spec fn intersects(self, other: Aabb) -> bool {
        &&& self.min_x2() < other.max_x2()
        &&& self.max_x2() > other.min_x2()
        &&& self.min_y2() < other.max_y2()
        &&& self.max_y2() > other.min_y2()
    }

    /// The box of a character or a weapon centred at `center`.
    pub open spec fn character(center: Vector) -> Aabb {
        Aabb { center, size: Vector { x: CHARACTER_SIZE, y: CHARACTER_SIZE } }
    }

    /// The box of a character or a weapon centred at `center`.
    pub fn of_character(center: Vector) -> (b: Aabb)
        ensures
            b == Aabb::character(center),
    {
        Aabb { center, size: Vector { x: CHARACTER_SIZE, y: CHARACTER_SIZE } }
    }
}

/// On one axis, the interval `a` sticks out of `b` at the low end only.
pub open spec fn enters_from_low(a_min: int, a_max: int, b_min: int, b_max: int) -> bool {
    a_min < b_min && a_max > b_min && a_max < b_max
}

/// On one axis, the interval `a` sticks out of `b` at the high end only.
pub open spec fn enters_from_high(a_min: int, a_max: int, b_min: int, b_max: int) -> bool {
    a_min > b_min && a_min < b_max && a_max > b_max
}

/// How deep interval `a` reaches into `b`, for an `a` that enters from one end.
pub open spec fn penetration(a_min: int, a_max: int, b_min: int, b_max: int) -> int {
    if enters_from_low(a_min, a_max, b_min, b_max) {
        a_max - b_min
    } else {
        b_max - a_min
    }
}

/// The side on which box `a` meets box `b`, or `None` where they share no area.
///
/// Each axis is looked at on its own: `a` enters `b` from one end, or it does
/// not (it lies within `b`, covers it, or shares an edge with it). Where `a`
/// enters on both axes, the axis of the smaller penetration names the side,
/// and the horizontal one on a tie. Where it enters on one axis, that axis
/// names the side. Where it enters on neither, the result is `Inside`.
pub open spec fn overlap_spec(a: Aabb, b: Aabb) -> Option<Side> {
    if !a.intersects(b) {
        None
    } else {
        let left = enters_from_low(a.min_x2(), a.max_x2(), b.min_x2(), b.max_x2());
        let right = enters_from_high(a.min_x2(), a.max_x2(), b.min_x2(), b.max_x2());
        let bottom = enters_from_low(a.min_y2(), a.max_y2(), b.min_y2(), b.max_y2());
        let top = enters_from_high(a.min_y2(), a.max_y2(), b.min_y2(), b.max_y2());
        let x_depth = penetration(a.min_x2(), a.max_x2(), b.min_x2(), b.max_x2());
        let y_depth = penetration(a.min_y2(), a.max_y2(), b.min_y2(), b.max_y2());
        if (bottom || top) && (!(left || right) || y_depth < x_depth) {
            Some(if bottom { Side::Bottom } else { Side::Top })
        } else if left {
            Some(Side::Left)
        } else if right {
            Some(Side::Right)
        } else {
            Some(Side::Inside)
        }
    }
}

/// Tests two boxes for overlap and names the side of the contact.
pub fn overlap(a: Aabb, b: Aabb) -> (side: Option<Side>)
    ensures
        side == overlap_spec(a, b),
{
    let a_min_x: i128 = 2 * (a.center.x as i128) - (a.size.x as i128);
    let a_max_x: i128 = 2 * (a.center.x as i128) + (a.size.x as i128);
    let a_min_y: i128 = 2 * (a.center.y as i128) - (a.size.y as i128);
    let a_max_y: i128 = 2 * (a.center.y as i128) + (a.size.y as i128);
    let b_min_x: i128 = 2 * (b.center.x as i128) - (b.size.x as i128);
    let b_max_x: i128 = 2 * (b.center.x as i128) + (b.size.x as i128);
    let b_min_y: i128 = 2 * (b.center.y as i128) - (b.size.y as i128);
    let b_max_y: i128 = 2 * (b.center.y as i128) + (b.size.y as i128);

    if !(a_min_x < b_max_x && a_max_x > b_min_x && a_min_y < b_max_y && a_max_y > b_min_y) {
        return None;
    }
    let left = a_min_x < b_min_x && a_max_x < b_max_x;
    let right = a_min_x > b_min_x && a_max_x > b_max_x;
    let bottom = a_min_y < b_min_y && a_max_y < b_max_y;
    let top = a_min_y > b_min_y && a_max_y > b_max_y;
    let x_depth: i128 = if left { a_max_x - b_min_x } else { b_max_x - a_min_x };
    let y_depth: i128 = if bottom { a_max_y - b_min_y } else { b_max_y - a_min_y };
    if (bottom || top) && (!(left || right) || y_depth < x_depth) {
        Some(if bottom { Side::Bottom } else { Side::Top })
    } else if left {
        Some(Side::Left)
    } else if right {
        Some(Side::Right)
    } else {
        Some(Side::Inside)
    }
}

/// Two boxes of the same size overlap exactly when their centres are less
/// than one size apart on both axes.
pub proof fn lemma_equal_boxes_overlap(a: Aabb, b: Aabb)
    requires
        a.size == b.size,
    ensures
        overlap_spec(a, b) is Some <==> {
            &&& -a.size.x < a.center.x - b.center.x < a.size.x
            &&& -a.size.y < a.center.y - b.center.y < a.size.y
        },
{
}

} // verus!
