//! The building controller: builds the car fleet, drives the motion ticks,
//! forwards requests to the dispatcher, and serves read-only status snapshots.
//!
//! The controller is the single owner of all mutable state; callers that run
//! the motion loop and the dispatcher concurrently serialize on it (or keep
//! per-car locks and use [`crate::scheduler::select_car`] on a snapshot plus
//! [`crate::scheduler::commit`] under the winning car's lock, which re-checks
//! idleness at commit time).
use vstd::prelude::*;

use crate::config::SystemConfig;
use crate::elevator::{lemma_advanced_wf, Elevator};
use crate::scheduler::{best_car, committable, registry_wf, Scheduler};
use crate::{Direction, DoorState, LiftError, Request};

verus! {

/// A read-only view of one car, safe to hand out for display: a copy, never
/// the car itself.
#[derive(Clone, Copy, Debug, PartialEq, Eq, Structural)]
pub struct ElevatorStatus {
    pub id: usize,
    pub current_floor: i64,
    pub direction: Direction,
    pub door_state: DoorState,
}

/// The status view of a car.
pub open spec fn status_of(e: Elevator) -> ElevatorStatus {
    ElevatorStatus {
        id: e.id,
        current_floor: e.current_floor,
        direction: e.direction,
        door_state: e.door_state,
    }
}

/// The whole system: the immutable configuration and the dispatcher that owns
/// the cars.
pub struct LiftController {
    pub config: SystemConfig,
    pub scheduler: Scheduler,
}

impl LiftController {
    pub open spec fn wf(self) -> bool {
        &&& self.config.wf()
        &&& self.scheduler.wf()
        &&& self.scheduler.elevators@.len() == self.config.num_elevators
        &&& self.scheduler.num_floors_spec() == self.config.num_floors
    }

    /// Build the fleet: one fresh car per configured slot, ids `0..n`, and a
    /// dispatcher with an empty log over them.
    pub fn new(config: SystemConfig) -> (c: LiftController)
        requires
            config.wf(),
        ensures
            c.wf(),
            c.config == config,
            c.scheduler.requests@ == Seq::<Request>::empty(),
            c.scheduler.elevators@.len() == config.num_elevators,
            forall|i: int|
                0 <= i < config.num_elevators ==> (#[trigger] c.scheduler.elevators@[i]).is_initial(
                    i as usize,
                    config,
                ),
    {
        let mut elevators: Vec<Elevator> = Vec::new();
        let mut id: usize = 0;
        while id < config.num_elevators
            invariant
                id <= config.num_elevators,
                config.wf(),
                elevators@.len() == id,
                forall|i: int|
                    0 <= i < id ==> (#[trigger] elevators@[i]).is_initial(i as usize, config)
                        && elevators@[i].wf(),
            decreases config.num_elevators - id,
        {
            elevators.push(Elevator::new(id, &config));
            id += 1;
        }
        let scheduler = Scheduler::new(elevators);
        LiftController { config, scheduler }
    }

    /// One motion tick: advance every car by `delta_time_ms` milliseconds, as
    /// [`Elevator::advanced`] describes; a zero tick is rejected and changes
    /// nothing. Targets and the request log are never touched here.
    pub fn tick_all(&mut self, delta_time_ms: u64) -> (r: Result<(), LiftError>)
        requires
            old(self).wf(),
        ensures
            final(self).wf(),
            final(self).config == old(self).config,
            final(self).scheduler.requests@ == old(self).scheduler.requests@,
            final(self).scheduler.elevators@.len() == old(self).scheduler.elevators@.len(),
            delta_time_ms == 0 ==> r == Err::<(), LiftError>(LiftError::InvalidDeltaTime)
                && *final(self) == *old(self),
            delta_time_ms >= 1 ==> r == Ok::<(), LiftError>(()) && forall|i: int|
                0 <= i < old(self).scheduler.elevators@.len()
                    ==> final(self).scheduler.elevators@[i] == (#[trigger] old(
                    self,
                ).scheduler.elevators@[i]).advanced(delta_time_ms),
    {
        if delta_time_ms == 0 {
            return Err(LiftError::InvalidDeltaTime);
        }
        let n = self.scheduler.elevators.len();
        let mut i: usize = 0;
        while i < n
            invariant
                i <= n,
                delta_time_ms >= 1,
                self.config == old(self).config,
                self.config.wf(),
                self.scheduler.requests@ == old(self).scheduler.requests@,
                n == old(self).scheduler.elevators@.len(),
                self.scheduler.elevators@.len() == n,
                n == self.config.num_elevators,
                registry_wf(old(self).scheduler.elevators@, old(self).scheduler.num_floors_spec()),
                old(self).scheduler.num_floors_spec() == self.config.num_floors,
                n >= 1,
                forall|k: int|
                    0 <= k < i ==> self.scheduler.elevators@[k] == (#[trigger] old(
                        self,
                    ).scheduler.elevators@[k]).advanced(delta_time_ms),
                forall|k: int|
                    i <= k < n ==> self.scheduler.elevators@[k] == (#[trigger] old(
                        self,
                    ).scheduler.elevators@[k]),
            decreases n - i,
        {
            proof {
                lemma_advanced_wf(old(self).scheduler.elevators@[i as int], delta_time_ms);
            }
            let _ = self.scheduler.elevators[i].update(delta_time_ms);
            i += 1;
        }
        proof {
            assert forall|k: int| 0 <= k < n implies (#[trigger] self.scheduler.elevators@[k]).wf()
                && self.scheduler.elevators@[k].num_floors == self.config.num_floors
                && self.scheduler.elevators@[k].id == k by {
                lemma_advanced_wf(old(self).scheduler.elevators@[k], delta_time_ms);
            }
        }
        Ok(())
    }

    /// Dispatch one request: one scheduling pass of the dispatcher
    /// ([`Scheduler::add_request`]). Returns the committed car's id, or `None`
    /// when the request was only logged and deferred. A busy car is never
    /// handed a new target.
    pub fn dispatch(&mut self, request: Request) -> (assigned: Option<usize>)
        requires
            old(self).wf(),
            request.valid(old(self).config.num_floors),
        ensures
            final(self).wf(),
            final(self).config == old(self).config,
            final(self).scheduler.requests@ == old(self).scheduler.requests@.push(request),
            final(self).scheduler.elevators@.len() == old(self).scheduler.elevators@.len(),
            match assigned {
                Some(i) => {
                    &&& i < old(self).scheduler.elevators@.len()
                    &&& best_car(old(self).scheduler.elevators@, request) == Some(i as int)
                    &&& committable(old(self).scheduler.elevators@[i as int])
                    &&& final(self).scheduler.elevators@ == old(self).scheduler.elevators@.update(
                        i as int,
                        (Elevator {
                            target_floor: Some(request.from_floor),
                            ..old(self).scheduler.elevators@[i as int]
                        }),
                    )
                },
                None => {
                    &&& final(self).scheduler.elevators@ == old(self).scheduler.elevators@
                    &&& match best_car(old(self).scheduler.elevators@, request) {
                        Some(b) => !committable(old(self).scheduler.elevators@[b]),
                        None => false,
                    }
                },
            },
            forall|i: int|
                0 <= i < old(self).scheduler.elevators@.len()
                    && old(self).scheduler.elevators@[i].target_floor is Some
                    ==> final(self).scheduler.elevators@[i] == old(self).scheduler.elevators@[i],
    {
        self.scheduler.add_request(request)
    }

    /// The egress snapshot: a freshly copied, read-only status view of every
    /// car, in id order.
    pub fn statuses(&self) -> (sts: Vec<ElevatorStatus>)
        ensures
            sts@.len() == self.scheduler.elevators@.len(),
            forall|i: int|
                0 <= i < sts@.len() ==> sts@[i] == status_of(
                    #[trigger] self.scheduler.elevators@[i],
                ),
    {
        let mut sts: Vec<ElevatorStatus> = Vec::new();
        let mut i: usize = 0;
        while i < self.scheduler.elevators.len()
            invariant
                i <= self.scheduler.elevators@.len(),
                sts@.len() == i,
                forall|k: int|
                    0 <= k < i ==> sts@[k] == status_of(#[trigger] self.scheduler.elevators@[k]),
            decreases self.scheduler.elevators@.len() - i,
        {
            let e = &self.scheduler.elevators[i];
            sts.push(ElevatorStatus {
                id: e.id,
                current_floor: e.current_floor,
                direction: e.direction,
                door_state: e.door_state,
            });
            i += 1;
        }
        sts
    }
}

} // verus!
