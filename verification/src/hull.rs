use vstd::prelude::*;

verus! {

/// How many steps of a length make one world unit, and how many steps of an
/// angle make one radian.
pub const STEPS_PER_UNIT: i32 = 1000;

/// A point in the ship's own frame: `x` to the right, `y` up, `z` towards the
/// stern.
#[derive(Clone, Copy, Debug, PartialEq, Eq, Structural)]
pub struct HullPoint {
    pub x: i32,
    pub y: i32,
    pub z: i32,
}

/// The part of a hull that floating depends on: how deep it lies, and the
/// triangle of reference points below which the water surface is sampled.
#[derive(Clone, Copy, Debug, PartialEq, Eq, Structural)]
pub struct Ship {
    /// Height of the ship's origin over the water that carries it.
    pub water_line: i32,
    /// Reference point at the bow.
    pub front: HullPoint,
    /// Reference point at the port quarter.
    pub back_left: HullPoint,
    /// Reference point at the starboard quarter.
    pub back_right: HullPoint,
}

impl HullPoint {
    /// Whether this is the point with the coordinates given.
    pub open spec fn is_at(self, x: int, y: int, z: int) -> bool {
        self.x == x && self.y == y && self.z == z
    }
}

impl Ship {
    /// Whether this is the hull that lies `water_line` over the water, with
    /// its bow point on the centreline at `front` and its two stern points
    /// abreast at `back`, at `left` and `right` of the centreline, all three
    /// in the plane `y == 0`.
    pub open spec fn is_hull(self, water_line: int, front: int, back: int, left: int, right: int) -> bool {
        &&& self.water_line == water_line
        &&& self.front.is_at(0, 0, front)
        &&& self.back_left.is_at(left, 0, back)
        &&& self.back_right.is_at(right, 0, back)
    }

    /// The hull of the measures given.
    pub fn new(water_line: i32, front: i32, back: i32, left: i32, right: i32) -> (ship: Ship)
        ensures
            ship.is_hull(water_line as int, front as int, back as int, left as int, right as int),
    {
        Ship {
            water_line,
            front: HullPoint { x: 0, y: 0, z: front },
            back_left: HullPoint { x: left, y: 0, z: back },
            back_right: HullPoint { x: right, y: 0, z: back },
        }
    }
}

impl Default for Ship {
    /// The hull with every measure zero: all of it in the origin.
    fn default() -> (ship: Ship)
        ensures
            ship.is_hull(0, 0, 0, 0, 0),
    {
        Ship::new(0, 0, 0, 0, 0)
    }
}

} // verus!
