//! The typed entity model: every object kind that can appear in a snapshot,
//! each wrapping a common physical-body record.
//!
//! Fractional quantities of the arena (mass, friction, a tanker's throttle)
//! are carried in thousandths so that every field is a plain integer; the
//! decision algorithms never read them, but classification records them.

use vstd::prelude::*;
use crate::geometry::Coordinate;
use crate::geometry::SpeedVector;

verus! {

/// Friction constant of a Reaper, in thousandths.
pub const REAPER_FRICTION_MILLI: i64 = 200;

/// Friction constant of a Destroyer, in thousandths.
pub const DESTROYER_FRICTION_MILLI: i64 = 300;

/// Friction constant of a Doof, in thousandths.
pub const DOOF_FRICTION_MILLI: i64 = 250;

/// Friction constant of a Tanker, in thousandths.
pub const TANKER_FRICTION_MILLI: i64 = 400;

/// The physical body common to every object kind. All fields are set once
/// at classification time from the snapshot row; bodies are never mutated.
#[derive(Clone, Copy, Debug, PartialEq, Eq, Structural)]
pub struct Unit {
    pub unit_id: i32,
    pub unit_type: i32,
    pub player_id: i32,
    pub mass_milli: i64,
    pub radius: i32,
    pub coordinate: Coordinate,
    pub speed: SpeedVector,
}

/// The body that a snapshot row with these scalar fields describes.
pub open spec fn unit_record(
    unit_id: i32,
    unit_type: i32,
    player_id: i32,
    mass_milli: i64,
    radius: i32,
    x: i32,
    y: i32,
    vx: i32,
    vy: i32,
) -> Unit {
    Unit {
        unit_id,
        unit_type,
        player_id,
        mass_milli,
        radius,
        coordinate: Coordinate { x, y },
        speed: SpeedVector { vx, vy },
    }
}

impl Unit {
    /// Build a body from the scalar fields of a snapshot row.
    pub fn new(
        unit_id: i32,
        unit_type: i32,
        player_id: i32,
        mass_milli: i64,
        radius: i32,
        x: i32,
        y: i32,
        vx: i32,
        vy: i32,
    ) -> (u: Unit)
        ensures
            u == unit_record(unit_id, unit_type, player_id, mass_milli, radius, x, y, vx, vy),
    {
        Unit {
            unit_id,
            unit_type,
            player_id,
            mass_milli,
            radius,
            coordinate: Coordinate::new(x, y),
            speed: SpeedVector::new(vx, vy),
        }
    }
}

/// Harvests water from wrecks; can create tar pools.
#[derive(Clone, Copy, Debug, PartialEq, Eq, Structural)]
pub struct Reaper {
    pub unit: Unit,
    pub friction_milli: i64,
}

impl Reaper {
    /// Build a Reaper; the friction constant is fixed by the kind.
    pub fn new(
        unit_id: i32,
        unit_type: i32,
        player_id: i32,
        mass_milli: i64,
        radius: i32,
        x: i32,
        y: i32,
        vx: i32,
        vy: i32,
    ) -> (r: Reaper)
        ensures
            r.unit == unit_record(unit_id, unit_type, player_id, mass_milli, radius, x, y, vx, vy),
            r.friction_milli == REAPER_FRICTION_MILLI,
    {
        Reaper {
            unit: Unit::new(unit_id, unit_type, player_id, mass_milli, radius, x, y, vx, vy),
            friction_milli: REAPER_FRICTION_MILLI,
        }
    }
}

/// Destroys tankers to create wrecks; can throw a ranged area skill.
#[derive(Clone, Copy, Debug, PartialEq, Eq, Structural)]
pub struct Destroyer {
    pub unit: Unit,
    pub friction_milli: i64,
}

impl Destroyer {
    /// Build a Destroyer; the friction constant is fixed by the kind.
    pub fn new(
        unit_id: i32,
        unit_type: i32,
        player_id: i32,
        mass_milli: i64,
        radius: i32,
        x: i32,
        y: i32,
        vx: i32,
        vy: i32,
    ) -> (d: Destroyer)
        ensures
            d.unit == unit_record(unit_id, unit_type, player_id, mass_milli, radius, x, y, vx, vy),
            d.friction_milli == DESTROYER_FRICTION_MILLI,
    {
        Destroyer {
            unit: Unit::new(unit_id, unit_type, player_id, mass_milli, radius, x, y, vx, vy),
            friction_milli: DESTROYER_FRICTION_MILLI,
        }
    }
}

/// Generates rage proportional to its speed; can create oil pools.
#[derive(Clone, Copy, Debug, PartialEq, Eq, Structural)]
pub struct Doof {
    pub unit: Unit,
    pub friction_milli: i64,
}

impl Doof {
    /// Build a Doof; the friction constant is fixed by the kind.
    pub fn new(
        unit_id: i32,
        unit_type: i32,
        player_id: i32,
        mass_milli: i64,
        radius: i32,
        x: i32,
        y: i32,
        vx: i32,
        vy: i32,
    ) -> (d: Doof)
        ensures
            d.unit == unit_record(unit_id, unit_type, player_id, mass_milli, radius, x, y, vx, vy),
            d.friction_milli == DOOF_FRICTION_MILLI,
    {
        Doof {
            unit: Unit::new(unit_id, unit_type, player_id, mass_milli, radius, x, y, vx, vy),
            friction_milli: DOOF_FRICTION_MILLI,
        }
    }
}

/// A tanker's throttle in thousandths, derived from its cargo: 2.5 plus 0.5
/// per unit of water carried.
pub open spec fn tanker_throttle_milli(water_quantity: i32) -> int {
    2500 + 500 * water_quantity
}

/// Transports water; destroyed by Destroyers, spawning a Wreck.
#[derive(Clone, Copy, Debug, PartialEq, Eq, Structural)]
pub struct Tanker {
    pub unit: Unit,
    pub friction_milli: i64,
    pub throttle_milli: i64,
    pub water_quantity: i32,
    pub water_capacity: i32,
}

impl Tanker {
    /// Build a Tanker; `extra` is its water quantity, `extra_2` its capacity.
    pub fn new(
        unit_id: i32,
        unit_type: i32,
        player_id: i32,
        mass_milli: i64,
        radius: i32,
        x: i32,
        y: i32,
        vx: i32,
        vy: i32,
        extra: i32,
        extra_2: i32,
    ) -> (t: Tanker)
        ensures
            t.unit == unit_record(unit_id, unit_type, player_id, mass_milli, radius, x, y, vx, vy),
            t.friction_milli == TANKER_FRICTION_MILLI,
            t.throttle_milli == tanker_throttle_milli(extra),
            t.water_quantity == extra,
            t.water_capacity == extra_2,
    {
        Tanker {
            unit: Unit::new(unit_id, unit_type, player_id, mass_milli, radius, x, y, vx, vy),
            friction_milli: TANKER_FRICTION_MILLI,
            throttle_milli: 2500 + 500 * (extra as i64),
            water_quantity: extra,
            water_capacity: extra_2,
        }
    }
}

/// A transient water source left where a Tanker was destroyed.
#[derive(Clone, Copy, Debug, PartialEq, Eq, Structural)]
pub struct Wreck {
    pub unit: Unit,
    pub water_quantity: i32,
}

impl Wreck {
    /// Build a Wreck; `extra` is the water it still holds.
    pub fn new(
        unit_id: i32,
        unit_type: i32,
        player_id: i32,
        mass_milli: i64,
        radius: i32,
        x: i32,
        y: i32,
        vx: i32,
        vy: i32,
        extra: i32,
    ) -> (w: Wreck)
        ensures
            w.unit == unit_record(unit_id, unit_type, player_id, mass_milli, radius, x, y, vx, vy),
            w.water_quantity == extra,
    {
        Wreck {
            unit: Unit::new(unit_id, unit_type, player_id, mass_milli, radius, x, y, vx, vy),
            water_quantity: extra,
        }
    }
}

/// A transient obstacle that increases mass and shields tankers.
#[derive(Clone, Copy, Debug, PartialEq, Eq, Structural)]
pub struct TarPool {
    pub unit: Unit,
}

impl TarPool {
    /// Build a TarPool.
    pub fn new(
        unit_id: i32,
        unit_type: i32,
        player_id: i32,
        mass_milli: i64,
        radius: i32,
        x: i32,
        y: i32,
        vx: i32,
        vy: i32,
    ) -> (p: TarPool)
        ensures
            p.unit == unit_record(unit_id, unit_type, player_id, mass_milli, radius, x, y, vx, vy),
    {
        TarPool { unit: Unit::new(unit_id, unit_type, player_id, mass_milli, radius, x, y, vx, vy) }
    }
}

/// A transient field that removes friction and blocks harvesting.
#[derive(Clone, Copy, Debug, PartialEq, Eq, Structural)]
pub struct OilPool {
    pub unit: Unit,
}

impl OilPool {
    /// Build an OilPool.
    pub fn new(
        unit_id: i32,
        unit_type: i32,
        player_id: i32,
        mass_milli: i64,
        radius: i32,
        x: i32,
        y: i32,
        vx: i32,
        vy: i32,
    ) -> (p: OilPool)
        ensures
            p.unit == unit_record(unit_id, unit_type, player_id, mass_milli, radius, x, y, vx, vy),
    {
        OilPool { unit: Unit::new(unit_id, unit_type, player_id, mass_milli, radius, x, y, vx, vy) }
    }
}

} // verus!
