//! Immutable building-wide parameters, created once at startup.
use vstd::prelude::*;

verus! {

/// Building parameters, read-only for the process lifetime.
///
/// `acceleration_rate` is in position units per millisecond squared and
/// `max_speed` in position units per millisecond (see the crate doc for the
/// fixed-point units); `max_load` is the capacity of one car, in passengers.
#[derive(Clone, Copy, Debug)]
pub struct SystemConfig {
    pub num_elevators: usize,
    pub num_floors: u32,
    pub acceleration_rate: u32,
    pub max_speed: u32,
    pub max_load: u32,
}

impl SystemConfig {
    /// All parameters positive, and at least two floors.
    pub open spec fn wf(self) -> bool {
        &&& self.num_elevators >= 1
        &&& self.num_floors >= 2
        &&& self.acceleration_rate >= 1
        &&& self.max_speed >= 1
        &&& self.max_load >= 1
    }

    /// Validated construction: every field must be positive and the building
    /// must have at least two floors, else there is nothing to dispatch.
    pub fn new(
        num_elevators: usize,
        num_floors: u32,
        acceleration_rate: u32,
        max_speed: u32,
        max_load: u32,
    ) -> (r: Option<SystemConfig>)
        ensures
            r is Some <==> (num_elevators >= 1 && num_floors >= 2 && acceleration_rate >= 1
                && max_speed >= 1 && max_load >= 1),
            r is Some ==> r->0 == (SystemConfig {
                num_elevators,
                num_floors,
                acceleration_rate,
                max_speed,
                max_load,
            }) && r->0.wf(),
    {
        if num_elevators >= 1 && num_floors >= 2 && acceleration_rate >= 1 && max_speed >= 1
            && max_load >= 1 {
            Some(SystemConfig { num_elevators, num_floors, acceleration_rate, max_speed, max_load })
        } else {
            None
        }
    }
}

} // verus!
