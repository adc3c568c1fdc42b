//! The units a session starts with: a fixed number on a diagonal line, each
//! at rest on its own destination.
use vstd::prelude::*;
use crate::panel::Editing;

verus! {

/// How many units a session starts with.
pub const UNIT_COUNT: usize = 50;

/// The distance between neighbouring units along each axis.
pub const UNIT_SPACING: u32 = 50;

/// The speed every unit moves at, in world units per second.
pub const UNIT_SPEED: u32 = 50;

/// The health every unit starts with.
pub const UNIT_HEALTH: u32 = 1;

/// The radius of the circle drawn at each unit's position.
pub const MARKER_RADIUS: u32 = 50;

/// What a unit starts with. Its position and its destination are both the
/// point `(x, y)`.
#[derive(Debug, Clone, Copy, PartialEq, Eq, Structural, Hash)]
pub struct UnitSpawn {
    pub x: u32,
    pub y: u32,
    pub speed: u32,
    pub health: u32,
    pub editing: Editing,
}

/// The unit placed at step `i` along the diagonal.
pub open spec fn spec_unit_spawn(i: int) -> UnitSpawn {
    UnitSpawn {
        x: (i * UNIT_SPACING) as u32,
        y: (i * UNIT_SPACING) as u32,
        speed: UNIT_SPEED,
        health: UNIT_HEALTH,
        editing: Editing(false),
    }
}

/// The unit placed at step `i` along the diagonal.
pub fn unit_spawn(i: u32) -> (r: UnitSpawn)
    requires
        i < UNIT_COUNT,
    ensures
        r == spec_unit_spawn(i as int),
        r.x == i * UNIT_SPACING,
{
    let offset: u32 = i * UNIT_SPACING;
    UnitSpawn {
        x: offset,
        y: offset,
        speed: UNIT_SPEED,
        health: UNIT_HEALTH,
        editing: Editing::hidden(),
    }
}

/// All the units a session starts with, in order along the diagonal.
pub fn initial_units() -> (r: Vec<UnitSpawn>)
    ensures
        r.len() == UNIT_COUNT,
        forall|i: int| 0 <= i < r.len() ==> #[trigger] r[i] == spec_unit_spawn(i),
{
    let mut units: Vec<UnitSpawn> = Vec::new();
    let mut i: u32 = 0;
    while (i as usize) < UNIT_COUNT
        invariant
            i <= UNIT_COUNT,
            units.len() == i,
            forall|k: int| 0 <= k < units.len() ==> #[trigger] units[k] == spec_unit_spawn(k),
        decreases UNIT_COUNT - i,
    {
        units.push(unit_spawn(i));
        i = i + 1;
    }
    units
}

} // verus!
