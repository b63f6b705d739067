//! A multi-car elevator dispatch library.
//!
//! The library decides, for every incoming passenger request, which car should
//! serve it, and advances each car's physical motion tick by tick: a
//! constant-acceleration profile with braking-distance control, arrival
//! detection, and a door cycle.
//!
//! All physical quantities are fixed-point integers:
//! - positions are in *position units*, with one floor = [`SCALE`] units
//!   (floor `f` sits at `f * SCALE`);
//! - speeds are in position units per millisecond;
//! - accelerations are in position units per millisecond squared;
//! - times are in milliseconds.
use vstd::prelude::*;

pub mod algorithms;
pub mod config;
pub mod controller;
pub mod convergence;
pub mod elevator;
pub mod scheduler;

use crate::config::SystemConfig;

verus! {

/// Position units per floor: one floor is a billion units, so one unit is a
/// nano-floor. At this resolution the reference parameters (an acceleration of
/// 2.5 floors/s², a tick of 100 ms) are exact integers.
pub const SCALE: i64 = 1_000_000_000;

/// Arrival threshold, in position units: a car strictly closer than this to its
/// target floor (0.01 floors) docks there.
pub const EPSILON: i64 = 10_000_000;

/// Travel direction of a car, or of a request.
#[derive(Clone, Copy, Debug, PartialEq, Eq, Structural)]
pub enum Direction {
    Up,
    Down,
    Idle,
}

/// Where a car's doors are in their cycle.
///
/// Doors only ever cycle `Closed -> Opening -> Open -> Closing -> Closed`,
/// one step per tick; `Open` dwells for a single tick before closing begins.
#[derive(Clone, Copy, Debug, PartialEq, Eq, Structural)]
pub enum DoorState {
    Open,
    Closed,
    Opening,
    Closing,
}

/// Why an input was rejected at the boundary.
#[derive(Clone, Copy, Debug, PartialEq, Eq, Structural)]
pub enum LiftError {
    /// A request floor lies outside `[1, num_floors]`, or pickup equals destination.
    InvalidFloor,
    /// A request carries no passengers, or more than a car holds.
    InvalidPassengerCount,
    /// A tick of zero duration.
    InvalidDeltaTime,
}

/// One passenger request. Immutable once created.
#[derive(Clone, Copy, Debug, PartialEq, Eq, Structural)]
pub struct Request {
    pub from_floor: u32,
    pub to_floor: u32,
    /// Creation time, in milliseconds since the system started.
    pub timestamp: u64,
    pub passenger_count: u8,
}

impl Request {
    /// A request is well formed for a building of `num_floors` floors when both
    /// floors exist, they differ, and at least one passenger rides.
    pub open spec fn valid(self, num_floors: u32) -> bool {
        &&& 1 <= self.from_floor <= num_floors
        &&& 1 <= self.to_floor <= num_floors
        &&& self.from_floor != self.to_floor
        &&& self.passenger_count >= 1
    }

    /// The direction a request travels in: up exactly when the destination lies
    /// above the pickup floor.
    pub open spec fn travel_direction(self) -> Direction {
        if self.to_floor > self.from_floor {
            Direction::Up
        } else {
            Direction::Down
        }
    }

    /// The derived direction of this request.
    pub fn direction(&self) -> (d: Direction)
        ensures
            d == self.travel_direction(),
    {
        if self.to_floor > self.from_floor {
            Direction::Up
        } else {
            Direction::Down
        }
    }

    /// Validated construction at the ingress boundary: floors must exist in the
    /// building and differ, and the passenger count must be between one and the
    /// car capacity. Rejected requests never enter the system.
    pub fn new(
        from_floor: u32,
        to_floor: u32,
        timestamp: u64,
        passenger_count: u8,
        config: &SystemConfig,
    ) -> (r: Result<Request, LiftError>)
        ensures
            ({
                let floors_ok = 1 <= from_floor <= config.num_floors
                    && 1 <= to_floor <= config.num_floors && from_floor != to_floor;
                let count_ok = 1 <= passenger_count && passenger_count <= config.max_load;
                match r {
                    Ok(req) => floors_ok && count_ok && req == (Request {
                        from_floor,
                        to_floor,
                        timestamp,
                        passenger_count,
                    }),
                    Err(e) => !(floors_ok && count_ok) && e == (if !floors_ok {
                        LiftError::InvalidFloor
                    } else {
                        LiftError::InvalidPassengerCount
                    }),
                }
            }),
            r is Ok ==> r->Ok_0.valid(config.num_floors),
    {
        if from_floor < 1 || from_floor > config.num_floors || to_floor < 1
            || to_floor > config.num_floors || from_floor == to_floor {
            return Err(LiftError::InvalidFloor);
        }
        if passenger_count < 1 || passenger_count as u32 > config.max_load {
            return Err(LiftError::InvalidPassengerCount);
        }
        Ok(Request { from_floor, to_floor, timestamp, passenger_count })
    }
}

} // verus!
