//! Pluggable scheduling strategies.
//!
//! A strategy turns a batch of pending requests and a snapshot of the cars
//! into assignments. The shipped default, [`OptimizedScan`], applies the
//! greedy nearest-cost policy of [`crate::scheduler`] to one request at a
//! time; richer batch or look-ahead strategies can implement the same trait.
use vstd::prelude::*;

use crate::elevator::Elevator;
use crate::scheduler::{best_car, committable, cost, cost_spec, select_car};
use crate::{DoorState, Request};

verus! {

/// One decision of a scheduling pass: the car, the requests it is to serve,
/// and the cost (in position units) the strategy charged it.
#[derive(Clone, Debug)]
pub struct Assignment {
    pub elevator_id: usize,
    pub requests: Vec<Request>,
    pub cost: i64,
}

/// The car/request pairs a greedy pass forms: for each request in order, the
/// minimal-cost car, kept only when that car can take a target right now.
pub open spec fn greedy_pairs(cars: Seq<Elevator>, reqs: Seq<Request>) -> Seq<(int, Request)>
    decreases reqs.len(),
{
    if reqs.len() == 0 {
        Seq::empty()
    } else {
        let prefix = greedy_pairs(cars, reqs.drop_last());
        let r = reqs.last();
        match best_car(cars, r) {
            Some(b) => if committable(cars[b]) {
                prefix.push((b, r))
            } else {
                prefix
            },
            None => prefix,
        }
    }
}

/// A scheduling strategy: one pass over the pending requests against a
/// snapshot of the cars. Whatever its policy, every assignment it produces
/// names a real car.
pub trait SchedulingAlgorithm {
    fn compute_assignments(&self, requests: &Vec<Request>, elevators: &Vec<Elevator>) -> (assignments: Vec<Assignment>)
        requires
            forall|i: int| 0 <= i < elevators@.len() ==> (#[trigger] elevators@[i]).wf(),
            forall|i: int, j: int|
                0 <= i < elevators@.len() && 0 <= j < requests@.len()
                    ==> #[trigger] requests@[j].valid(elevators@[i].num_floors),
        ensures
            forall|k: int|
                0 <= k < assignments@.len() ==> (#[trigger] assignments@[k]).elevator_id
                    < elevators@.len(),
    ;
}

/// The shipped greedy nearest-cost strategy. The window and weight fields
/// parameterize the designed look-ahead extension (an energy- and wait-time
/// weighted scan); the greedy baseline itself does not read them.
#[derive(Clone, Copy, Debug)]
pub struct OptimizedScan {
    /// How far ahead a batching pass may look, in milliseconds.
    pub look_ahead_window_ms: u64,
    /// Weight of the energy term, in thousandths.
    pub energy_weight: u32,
    /// Weight of the aggregate wait-time term, in thousandths.
    pub wait_time_weight: u32,
}

impl OptimizedScan {
    /// The default tuning: a five-second window, both terms weighted equally.
    pub fn new() -> (s: OptimizedScan)
        ensures
            s == (OptimizedScan {
                look_ahead_window_ms: 5000,
                energy_weight: 500,
                wait_time_weight: 500,
            }),
    {
        OptimizedScan { look_ahead_window_ms: 5000, energy_weight: 500, wait_time_weight: 500 }
    }
}

impl SchedulingAlgorithm for OptimizedScan {
    /// One greedy pass: each request is paired with its minimal-cost car
    /// (lowest id on ties), kept only when that car is idle with closed
    /// doors; each kept pair becomes one single-request assignment carrying
    /// that car's cost.
    fn compute_assignments(&self, requests: &Vec<Request>, elevators: &Vec<Elevator>) -> (assignments: Vec<Assignment>)
        ensures
            ({
                let pairs = greedy_pairs(elevators@, requests@);
                &&& assignments@.len() == pairs.len()
                &&& forall|k: int|
                    0 <= k < pairs.len() ==> {
                        &&& (#[trigger] assignments@[k]).elevator_id == pairs[k].0
                        &&& assignments@[k].requests@ == seq![pairs[k].1]
                        &&& assignments@[k].cost == cost_spec(
                            elevators@[pairs[k].0],
                            pairs[k].1,
                        )
                    }
            }),
    {
        let mut assignments: Vec<Assignment> = Vec::new();
        let mut i: usize = 0;
        while i < requests.len()
            invariant
                i <= requests@.len(),
                forall|n: int| 0 <= n < elevators@.len() ==> (#[trigger] elevators@[n]).wf(),
                forall|n: int, j: int|
                    0 <= n < elevators@.len() && 0 <= j < requests@.len()
                        ==> #[trigger] requests@[j].valid(elevators@[n].num_floors),
                ({
                    let pairs = greedy_pairs(elevators@, requests@.take(i as int));
                    &&& assignments@.len() == pairs.len()
                    &&& forall|k: int|
                        0 <= k < pairs.len() ==> {
                            &&& (#[trigger] assignments@[k]).elevator_id == pairs[k].0
                            &&& assignments@[k].requests@ == seq![pairs[k].1]
                            &&& assignments@[k].cost == cost_spec(
                                elevators@[pairs[k].0],
                                pairs[k].1,
                            )
                        }
                    &&& forall|k: int|
                        0 <= k < assignments@.len() ==> (#[trigger] assignments@[k]).elevator_id
                            < elevators@.len()
                }),
            decreases requests@.len() - i,
        {
            let r = requests[i];
            proof {
                assert(requests@.take(i + 1).drop_last() =~= requests@.take(i as int));
                assert(requests@.take(i + 1).last() == requests@[i as int]);
            }
            match select_car(elevators, &r) {
                Some(b) => {
                    if elevators[b].target_floor.is_none()
                        && elevators[b].door_state == DoorState::Closed {
                        let c = cost(&elevators[b], &r);
                        assignments.push(Assignment { elevator_id: b, requests: vec![r], cost: c });
                    }
                }
                None => {}
            }
            i += 1;
        }
        proof {
            assert(requests@.take(requests@.len() as int) =~= requests@);
        }
        assignments
    }
}

} // verus!
