use crate::hull::Ship;
use vstd::prelude::*;

verus! {

/// Where a ship is put into the world: its position, and its heading as a
/// turn about the vertical axis.
#[derive(Clone, Copy, Debug, PartialEq, Eq, Structural)]
pub struct Pose {
    pub x: i32,
    pub y: i32,
    pub z: i32,
    pub yaw: i32,
}

/// One ship to put to sea.
#[derive(Clone, Copy, Debug)]
pub struct Berth {
    pub name: &'static str,
    pub ship: Ship,
    pub pose: Pose,
}

/// All that is put to sea: the ships, and the model that each of them shows.
#[derive(Debug)]
pub struct Fleet {
    /// Asset path of the scene that is hung below every ship.
    pub scene: &'static str,
    /// Quarter turns about the vertical axis that line the model up with the
    /// ship's own frame.
    pub scene_quarter_turns: i32,
    /// The ships, in the order in which they are spawned.
    pub berths: Vec<Berth>,
}

impl Pose {
    /// Whether this is the pose at the position and with the heading given.
    pub open spec fn is_at(self, x: int, y: int, z: int, yaw: int) -> bool {
        self.x == x && self.y == y && self.z == z && self.yaw == yaw
    }
}

/// The fleet: two ships of one hull and one model, the first in the harbour.
pub fn spawn_ships() -> (fleet: Fleet)
    ensures
        fleet.scene@ == "models/dutch_ship_medium_1k/dutch_ship_medium_1k.gltf#Scene0"@,
        fleet.scene_quarter_turns == 1,
        fleet.berths@.len() == 2,
        fleet.berths@[0].name@ == "Ship 1"@,
        fleet.berths@[0].ship.is_hull(-400, -8000, 9000, -2000, 2000),
        fleet.berths@[0].pose.is_at(35000, 0, 2000, 2400),
        fleet.berths@[1].name@ == "Ship 2"@,
        fleet.berths@[1].ship.is_hull(-400, -8000, 9000, -2000, 2000),
        fleet.berths@[1].pose.is_at(180000, 0, -113000, 4800),
{
    let ship = Ship::new(-400, -8000, 9000, -2000, 2000);
    let mut berths: Vec<Berth> = Vec::new();
    berths.push(Berth { name: "Ship 1", ship, pose: Pose { x: 35000, y: 0, z: 2000, yaw: 2400 } });
    berths.push(
        Berth { name: "Ship 2", ship, pose: Pose { x: 180000, y: 0, z: -113000, yaw: 4800 } },
    );
    Fleet {
        scene: "models/dutch_ship_medium_1k/dutch_ship_medium_1k.gltf#Scene0",
        scene_quarter_turns: 1,
        berths,
    }
}

} // verus!
