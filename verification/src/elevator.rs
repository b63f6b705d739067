//! One elevator car and its motion model.
//!
//! A car follows a constant-acceleration bang-bang profile toward its target:
//! while the braking distance `v^2 / (2a)` stays below the remaining distance
//! it accelerates toward the target, otherwise it decelerates (opposing its
//! current velocity); position advances by `speed * delta_time` each tick and
//! is clamped to the building, `[1, num_floors]` in floors. A car strictly
//! within [`EPSILON`] of its target snaps to it, zeroes its speed, clears the
//! target and begins opening its doors.
use vstd::math::abs;
use vstd::prelude::*;

use crate::config::SystemConfig;
use crate::{Direction, DoorState, LiftError, Request, EPSILON, SCALE};

verus! {

/// The sign of `x`: `1`, `-1` or `0`.
pub open spec fn sgn(x: int) -> int {
    if x > 0 {
        1
    } else if x < 0 {
        -1
    } else {
        0
    }
}

/// `x` forced into `[lo, hi]`.
pub open spec fn clamp_int(x: int, lo: int, hi: int) -> int {
    if x < lo {
        lo
    } else if x > hi {
        hi
    } else {
        x
    }
}

/// `x` forced into the range of an `i64`.
pub open spec fn sat_i64(x: int) -> int {
    clamp_int(x, i64::MIN as int, i64::MAX as int)
}

/// Distance (in position units) a car moving at speed `v` needs in order to
/// stop when decelerating at `a`.
pub open spec fn braking_distance(v: int, a: int) -> int
    recommends
        a >= 1,
{
    (v * v) / (2 * a)
}

/// The speed after one tick of `dt` milliseconds, before saturation, for a car
/// at signed distance `d` from its target, moving at `v`, accelerating at `a`:
/// decelerate when the braking distance has reached the remaining distance,
/// else accelerate toward the target.
pub open spec fn next_speed(d: int, v: int, a: int, dt: int) -> int {
    if braking_distance(v, a) >= abs(d) {
        v - sgn(v) * (a * dt)
    } else {
        v + sgn(d) * (a * dt)
    }
}

/// One step of the door cycle, taken each tick: opening doors finish opening,
/// open doors dwell for that one tick and begin closing, closing doors finish
/// closing, closed doors stay closed.
pub open spec fn door_next(d: DoorState) -> DoorState {
    match d {
        DoorState::Opening => DoorState::Open,
        DoorState::Open => DoorState::Closing,
        DoorState::Closing => DoorState::Closed,
        DoorState::Closed => DoorState::Closed,
    }
}

/// One elevator car.
///
/// `current_floor` is the car's position in position units (floor `f` sits at
/// `f * SCALE`), `speed` is in position units per millisecond, and
/// `acceleration`, fixed per car, in position units per millisecond squared.
#[derive(Clone, Debug)]
pub struct Elevator {
    pub id: usize,
    pub current_floor: i64,
    pub target_floor: Option<u32>,
    pub direction: Direction,
    pub passengers: Vec<Request>,
    pub speed: i64,
    pub acceleration: i64,
    pub load: u32,
    pub max_load: u32,
    pub door_state: DoorState,
    pub num_floors: u32,
}

impl Elevator {
    /// The car's safety invariant: it sits inside the building, any target is a
    /// real floor, its fixed acceleration is positive (and small enough for the
    /// arithmetic below), and a car without a target is at rest.
    pub open spec fn wf(self) -> bool {
        &&& self.num_floors >= 2
        &&& 1 <= self.acceleration <= u32::MAX
        &&& SCALE <= self.current_floor <= self.num_floors * SCALE
        &&& match self.target_floor {
            Some(t) => 1 <= t <= self.num_floors,
            None => self.speed == 0 && self.direction is Idle,
        }
    }

    /// Signed distance from the car to floor `t`, in position units.
    pub open spec fn distance_to(self, t: u32) -> int {
        t * SCALE - self.current_floor
    }

    /// The car state one tick of `dt` milliseconds later.
    ///
    /// Without a target the car rests: speed decays to zero, direction goes
    /// idle. With a target it either docks (the arrival transition: snap to
    /// the target, zero the speed, clear the target, begin opening the doors)
    /// when strictly within [`EPSILON`] of it, or moves by the bang-bang
    /// profile, its position clamped to the building. The doors advance one
    /// step per tick, except on the arrival tick itself, which only begins the
    /// opening.
    pub open spec fn advanced(self, dt: u64) -> Elevator {
        match self.target_floor {
            None => Elevator {
                speed: 0,
                direction: Direction::Idle,
                door_state: door_next(self.door_state),
                ..self
            },
            Some(t) => {
                let d = self.distance_to(t);
                if abs(d) < EPSILON {
                    Elevator {
                        current_floor: (t * SCALE) as i64,
                        speed: 0,
                        target_floor: None,
                        direction: Direction::Idle,
                        door_state: DoorState::Opening,
                        ..self
                    }
                } else {
                    let v2 = sat_i64(next_speed(d, self.speed as int, self.acceleration as int, dt as int));
                    let p2 = clamp_int(self.current_floor + v2 * dt, SCALE as int, self.num_floors * SCALE);
                    Elevator {
                        current_floor: p2 as i64,
                        speed: v2 as i64,
                        direction: (if d > EPSILON {
                            Direction::Up
                        } else if d < -(EPSILON as int) {
                            Direction::Down
                        } else {
                            Direction::Idle
                        }),
                        door_state: door_next(self.door_state),
                        ..self
                    }
                }
            }
        }
    }

    /// A freshly built car with this id under this configuration: parked at
    /// floor 1, idle, empty, doors closed.
    pub open spec fn is_initial(self, id: usize, config: SystemConfig) -> bool {
        &&& self.id == id
        &&& self.current_floor == SCALE
        &&& self.target_floor is None
        &&& self.direction is Idle
        &&& self.passengers@ == Seq::<Request>::empty()
        &&& self.speed == 0
        &&& self.acceleration == config.acceleration_rate
        &&& self.load == 0
        &&& self.max_load == config.max_load
        &&& self.door_state is Closed
        &&& self.num_floors == config.num_floors
    }

    /// A new car, parked at floor 1 with no passengers and closed doors.
    pub fn new(id: usize, config: &SystemConfig) -> (e: Elevator)
        requires
            config.wf(),
        ensures
            e.is_initial(id, *config),
            e.wf(),
    {
        Elevator {
            id,
            current_floor: SCALE,
            target_floor: None,
            direction: Direction::Idle,
            passengers: Vec::new(),
            speed: 0,
            acceleration: config.acceleration_rate as i64,
            load: 0,
            max_load: config.max_load,
            door_state: DoorState::Closed,
            num_floors: config.num_floors,
        }
    }

    /// The arrival transition: dock at the target floor, come to rest, clear
    /// the target and begin opening the doors.
    fn arrive_at_floor(&mut self)
        requires
            old(self).wf(),
            old(self).target_floor is Some,
        ensures
            *final(self) == (Elevator {
                current_floor: (old(self).target_floor->0 * SCALE) as i64,
                speed: 0,
                target_floor: None,
                direction: Direction::Idle,
                door_state: DoorState::Opening,
                ..*old(self)
            }),
    {
        let t = match self.target_floor {
            Some(t) => t,
            None => 1,  // unreachable: a car only arrives somewhere when it has a target
        };
        self.current_floor = (t as i64) * SCALE;
        self.speed = 0;
        self.target_floor = None;
        self.direction = Direction::Idle;
        self.door_state = DoorState::Opening;
    }

    /// Advance the doors one step of their cycle.
    fn step_doors(&mut self)
        ensures
            *final(self) == (Elevator { door_state: door_next(old(self).door_state), ..*old(self) }),
    {
        self.door_state = match self.door_state {
            DoorState::Opening => DoorState::Open,
            DoorState::Open => DoorState::Closing,
            DoorState::Closing => DoorState::Closed,
            DoorState::Closed => DoorState::Closed,
        };
    }

    /// Advance this car by `delta_time_ms` milliseconds of motion, exactly as
    /// [`Elevator::advanced`] describes. A zero tick is rejected and leaves
    /// the car untouched. The car never leaves `[1, num_floors]` whatever the
    /// tick length or acceleration.
    pub fn update(&mut self, delta_time_ms: u64) -> (r: Result<(), LiftError>)
        requires
            old(self).wf(),
        ensures
            final(self).wf(),
            SCALE <= final(self).current_floor <= final(self).num_floors * SCALE,
            delta_time_ms == 0 ==> r == Err::<(), LiftError>(LiftError::InvalidDeltaTime)
                && *final(self) == *old(self),
            delta_time_ms >= 1 ==> r == Ok::<(), LiftError>(())
                && *final(self) == old(self).advanced(delta_time_ms),
    {
        if delta_time_ms == 0 {
            return Err(LiftError::InvalidDeltaTime);
        }
        match self.target_floor {
            None => {
                self.speed = 0;
                self.direction = Direction::Idle;
                self.step_doors();
            }
            Some(t) => {
                let target_pos: i64 = (t as i64) * SCALE;
                let d: i64 = target_pos - self.current_floor;
                let d_mag: u64 = if d >= 0 {
                    d as u64
                } else {
                    (-(d as i128)) as u64
                };
                if d_mag < EPSILON as u64 {
                    self.arrive_at_floor();
                } else {
                    self.direction = if d > EPSILON {
                        Direction::Up
                    } else if d < -EPSILON {
                        Direction::Down
                    } else {
                        Direction::Idle
                    };
                    let a128: u128 = self.acceleration as u128;
                    let v_mag: u128 = if self.speed >= 0 {
                        self.speed as u128
                    } else {
                        (-(self.speed as i128)) as u128
                    };
                    assert(v_mag * v_mag == self.speed * self.speed
                        && v_mag * v_mag < 0x80000000000000000000000000000000) by (nonlinear_arith)
                        requires
                            v_mag == abs(self.speed as int),
                            v_mag <= 0x8000000000000000,
                    ;
                    let brake: u128 = (v_mag * v_mag) / (2 * a128);
                    assert(brake == braking_distance(self.speed as int, self.acceleration as int));
                    assert(a128 * (delta_time_ms as u128) <= 0xffffffff * 0xffffffffffffffff) by (nonlinear_arith)
                        requires
                            a128 <= 0xffffffff,
                            delta_time_ms <= 0xffffffffffffffff,
                    ;
                    let dv: u128 = a128 * (delta_time_ms as u128);
                    let delta_v: i128 = if brake >= d_mag as u128 {
                        if self.speed > 0 {
                            -(dv as i128)
                        } else if self.speed < 0 {
                            dv as i128
                        } else {
                            0
                        }
                    } else {
                        if d > 0 {
                            dv as i128
                        } else {
                            -(dv as i128)
                        }
                    };
                    let v_next: i128 = (self.speed as i128) + delta_v;
                    assert(v_next == next_speed(d as int, self.speed as int, self.acceleration as int, delta_time_ms as int));
                    let v2: i64 = if v_next > i64::MAX as i128 {
                        i64::MAX
                    } else if v_next < i64::MIN as i128 {
                        i64::MIN
                    } else {
                        v_next as i64
                    };
                    assert(v2 == sat_i64(v_next as int));
                    self.speed = v2;
                    assert(-0x80000000000000000000000000000000 < (v2 as int) * (delta_time_ms as int)
                        && (v2 as int) * (delta_time_ms as int) < 0x7fffffffffffffff0000000000000000) by (nonlinear_arith)
                        requires
                            -0x8000000000000000 <= v2 <= 0x7fffffffffffffff,
                            0 <= delta_time_ms <= 0xffffffffffffffff,
                    ;
                    let dp: i128 = (v2 as i128) * (delta_time_ms as i128);
                    let p_next: i128 = (self.current_floor as i128) + dp;
                    let lo: i64 = SCALE;
                    let hi: i64 = (self.num_floors as i64) * SCALE;
                    self.current_floor = if p_next < lo as i128 {
                        lo
                    } else if p_next > hi as i128 {
                        hi
                    } else {
                        p_next as i64
                    };
                    self.step_doors();
                }
            }
        }
        proof {
            lemma_advanced_wf(*old(self), delta_time_ms);
        }
        Ok(())
    }
}

/// A tick from any well-formed car state leaves the car well formed.
pub proof fn lemma_advanced_wf(e: Elevator, dt: u64)
    requires
        e.wf(),
        dt >= 1,
    ensures
        e.advanced(dt).wf(),
{
}

} // verus!
