//! Fans and their air currents: a sensor volume that pushes dynamic bodies
//! along the fan's direction while they overlap it.  The overlap bookkeeping
//! uses the same reentrant counter pattern as the ground detector, clamping
//! at zero instead of underflowing when a stop notification has no matching
//! start.

use vstd::prelude::*;
use crate::physics::Velocity;

verus! {

/// Acceleration applied to a body inside an air current, in milli-units per
/// second squared.
pub const FAN_FORCE: i64 = 700_000;

/// Strength recorded on a force area, in milli-units.
pub const FORCE_AREA_STRENGTH: i64 = 1_000_000;

/// A cardinal direction a fan can blow in.
#[derive(Clone, Copy, Debug, PartialEq, Eq, Structural)]
pub enum Direction {
    North,
    South,
    East,
    West,
}

impl Direction {
    /// The unit vector of the direction, on the axes of the world.
    pub open spec fn spec_unit(self) -> (int, int) {
        match self {
            Direction::North => (0int, 1int),
            Direction::South => (0int, -1int),
            Direction::East => (1int, 0int),
            Direction::West => (-1int, 0int),
        }
    }
}

/// Marker (and facing) of a fan entity.
#[derive(Clone, Copy, Debug, PartialEq, Eq, Structural)]
pub struct Fan {
    pub direction: Direction,
}

/// Marker for the air-current sensor a fan projects.
#[derive(Clone, Copy, Debug, PartialEq, Eq, Structural)]
pub struct AirCurrent;

/// The push a force area applies to bodies inside it.
#[derive(Clone, Copy, Debug, PartialEq, Eq, Structural)]
pub struct ForceArea {
    pub direction: Direction,
    pub strength: i64,
}

/// Per-body overlap bookkeeping: how many force areas the body currently
/// overlaps, and the direction of the one entered last.
#[derive(Clone, Copy, Debug, PartialEq, Eq, Structural)]
pub struct Dynamic {
    pub counter: u8,
    pub direction: Direction,
}

/// The bookkeeping after one overlap notification: entering an area counts it
/// (saturating) and adopts its direction; leaving uncounts it, clamping at
/// zero when no matching entry was seen.
pub open spec fn spec_area_contact(movable: Dynamic, started: bool, area_direction: Direction) -> Dynamic {
    if started {
        Dynamic {
            counter: if movable.counter < 255 {
                (movable.counter + 1) as u8
            } else {
                255u8
            },
            direction: area_direction,
        }
    } else {
        Dynamic {
            counter: if movable.counter > 0 {
                (movable.counter - 1) as u8
            } else {
                0u8
            },
            direction: movable.direction,
        }
    }
}

/// Consume one overlap notification between a dynamic body and a force area.
/// Returns whether a stop arrived without a matching prior start.
pub fn check_collision(movable: &mut Dynamic, started: bool, area_direction: Direction) -> (underflow: bool)
    ensures
        *final(movable) == spec_area_contact(*old(movable), started, area_direction),
        underflow == (!started && old(movable).counter == 0),
{
    if started {
        if movable.counter < 255 {
            movable.counter = movable.counter + 1;
        }
        movable.direction = area_direction;
        false
    } else {
        if movable.counter > 0 {
            movable.counter = movable.counter - 1;
            false
        } else {
            true
        }
    }
}

/// The acceleration a body receives this tick: the fan force along the last
/// entered direction while it overlaps at least one area, nothing otherwise.
pub open spec fn spec_applied_force(movable: Dynamic) -> Velocity {
    if movable.counter > 0 {
        Velocity {
            x: (movable.direction.spec_unit().0 * FAN_FORCE) as i64,
            y: (movable.direction.spec_unit().1 * FAN_FORCE) as i64,
        }
    } else {
        Velocity { x: 0, y: 0 }
    }
}

/// Compute the acceleration applied to one body (see `spec_applied_force`).
pub fn apply_force(movable: &Dynamic) -> (acceleration: Velocity)
    ensures
        acceleration == spec_applied_force(*movable),
{
    if movable.counter > 0 {
        match movable.direction {
            Direction::North => Velocity { x: 0, y: FAN_FORCE },
            Direction::South => Velocity { x: 0, y: -FAN_FORCE },
            Direction::East => Velocity { x: FAN_FORCE, y: 0 },
            Direction::West => Velocity { x: -FAN_FORCE, y: 0 },
        }
    } else {
        Velocity { x: 0, y: 0 }
    }
}

} // verus!
