//! Dispatch: the cost model, car selection, and assignment commit.
//!
//! The cost of serving a request with a car is a proxy for its response delay,
//! in position units; lower is better. Ties are broken toward the car that is
//! enumerated first, so dispatch is deterministic.
use vstd::math::abs;
use vstd::prelude::*;

use crate::elevator::Elevator;
use crate::{DoorState, Request, SCALE};

verus! {

/// The greedy cost (estimated response delay, in position units) of serving
/// `r` with car `e`:
/// - an idle car pays its distance to the pickup floor;
/// - a car that will pass the pickup floor en route pays the same;
/// - any other busy car pays the detour: finish the current leg, then travel
///   from its target to the pickup floor.
pub open spec fn cost_spec(e: Elevator, r: Request) -> int {
    match e.target_floor {
        None => abs(e.current_floor - r.from_floor * SCALE) as int,
        Some(t) => if moving_toward(e, t, r) {
            abs(e.current_floor - r.from_floor * SCALE) as int
        } else {
            abs(e.current_floor - t * SCALE) + abs(t * SCALE - r.from_floor * SCALE) as int
        },
    }
}

/// A car bound for `t` will pass the pickup floor of `r` en route: it moves in
/// the request's own direction and the pickup floor lies between its position
/// and its target, inclusive.
pub open spec fn moving_toward(e: Elevator, t: u32, r: Request) -> bool {
    ||| (e.direction is Up && r.travel_direction() is Up
        && e.current_floor <= r.from_floor * SCALE <= t * SCALE)
    ||| (e.direction is Down && r.travel_direction() is Down
        && t * SCALE <= r.from_floor * SCALE <= e.current_floor)
}

/// A car may take a new target only when it has none and its doors are fully
/// closed: no retargeting mid-transit, and never during a door cycle.
pub open spec fn committable(e: Elevator) -> bool {
    e.target_floor is None && e.door_state is Closed
}

/// A well-formed car registry: every car is well formed, serves the same
/// building, and carries its index as id.
pub open spec fn registry_wf(cars: Seq<Elevator>, num_floors: u32) -> bool {
    forall|i: int|
        0 <= i < cars.len() ==> (#[trigger] cars[i]).wf() && cars[i].num_floors == num_floors
            && cars[i].id == i
}

/// `|x - y|` for machine integers.
fn abs_diff(x: i64, y: i64) -> (r: i64)
    requires
        0 <= x,
        0 <= y,
    ensures
        r == abs(x - y),
{
    if x >= y {
        x - y
    } else {
        y - x
    }
}

/// The cost of serving `request` with this car, per [`cost_spec`].
pub fn cost(elevator: &Elevator, request: &Request) -> (c: i64)
    requires
        elevator.wf(),
        request.valid(elevator.num_floors),
    ensures
        c == cost_spec(*elevator, *request),
        0 <= c,
{
    let from_pos: i64 = (request.from_floor as i64) * SCALE;
    match elevator.target_floor {
        None => abs_diff(elevator.current_floor, from_pos),
        Some(t) => {
            let target_pos: i64 = (t as i64) * SCALE;
            let request_dir = request.direction();
            let toward: bool = match elevator.direction {
                crate::Direction::Up => request_dir == crate::Direction::Up
                    && elevator.current_floor <= from_pos && from_pos <= target_pos,
                crate::Direction::Down => request_dir == crate::Direction::Down
                    && target_pos <= from_pos && from_pos <= elevator.current_floor,
                crate::Direction::Idle => false,
            };
            if toward {
                abs_diff(elevator.current_floor, from_pos)
            } else {
                abs_diff(elevator.current_floor, target_pos) + abs_diff(target_pos, from_pos)
            }
        }
    }
}

/// Idle cost monotonicity: between idle cars, the one strictly closer to its
/// pickup floor always costs strictly less.
pub proof fn lemma_idle_cost_monotonic(e1: Elevator, r1: Request, e2: Elevator, r2: Request)
    requires
        e1.target_floor is None,
        e2.target_floor is None,
        abs(e1.current_floor - r1.from_floor * SCALE) < abs(e2.current_floor - r2.from_floor * SCALE),
    ensures
        cost_spec(e1, r1) < cost_spec(e2, r2),
{
}

/// The car a scheduling pass picks among the first `n`: the one of minimal
/// cost, the earliest on a tie.
pub open spec fn best_car_upto(cars: Seq<Elevator>, r: Request, n: int) -> Option<int>
    decreases n,
{
    if n <= 0 {
        None
    } else {
        match best_car_upto(cars, r, n - 1) {
            None => Some(n - 1),
            Some(b) => if cost_spec(cars[n - 1], r) < cost_spec(cars[b], r) {
                Some(n - 1)
            } else {
                Some(b)
            },
        }
    }
}

/// The car a scheduling pass picks for `r`.
pub open spec fn best_car(cars: Seq<Elevator>, r: Request) -> Option<int> {
    best_car_upto(cars, r, cars.len() as int)
}

/// The picked car has minimal cost among the first `n`, and every car before
/// it costs strictly more.
pub proof fn lemma_best_car_bounds(cars: Seq<Elevator>, r: Request, n: int)
    requires
        0 <= n <= cars.len(),
    ensures
        match best_car_upto(cars, r, n) {
            None => n == 0,
            Some(b) => {
                &&& 0 <= b < n
                &&& forall|k: int|
                    0 <= k < n ==> cost_spec(cars[b], r) <= #[trigger] cost_spec(cars[k], r)
                &&& forall|k: int|
                    0 <= k < b ==> #[trigger] cost_spec(cars[k], r) > cost_spec(cars[b], r)
            },
        },
    decreases n,
{
    if n > 0 {
        lemma_best_car_bounds(cars, r, n - 1);
    }
}

/// Deterministic tie-break: when two cars cost the same, the pass never picks
/// the one with the higher id.
pub proof fn lemma_deterministic_tie_break(cars: Seq<Elevator>, r: Request, i: int, j: int)
    requires
        0 <= i < j < cars.len(),
        cost_spec(cars[i], r) == cost_spec(cars[j], r),
    ensures
        best_car(cars, r) is Some,
        best_car(cars, r) != Some(j),
{
    lemma_best_car_bounds(cars, r, cars.len() as int);
    if best_car(cars, r) == Some(j) {
        assert(cost_spec(cars[i], r) > cost_spec(cars[j], r));
    }
}

/// The car of minimal cost for `request`, the lowest-id car on a tie; `None`
/// only when there are no cars at all. The cars are only read.
pub fn select_car(elevators: &Vec<Elevator>, request: &Request) -> (best: Option<usize>)
    requires
        forall|i: int|
            0 <= i < elevators@.len() ==> (#[trigger] elevators@[i]).wf()
                && request.valid(elevators@[i].num_floors),
    ensures
        match best {
            Some(b) => b < elevators@.len() && best_car(elevators@, *request) == Some(b as int),
            None => elevators@.len() == 0 && best_car(elevators@, *request) is None,
        },
{
    let mut i: usize = 0;
    let mut best: Option<usize> = None;
    let mut best_cost: i64 = 0;
    while i < elevators.len()
        invariant
            i <= elevators@.len(),
            forall|k: int|
                0 <= k < elevators@.len() ==> (#[trigger] elevators@[k]).wf()
                    && request.valid(elevators@[k].num_floors),
            match best {
                None => i == 0 && best_car_upto(elevators@, *request, i as int) is None,
                Some(b) => b < i && best_car_upto(elevators@, *request, i as int) == Some(b as int)
                    && best_cost == cost_spec(elevators@[b as int], *request),
            },
        decreases elevators@.len() - i,
    {
        let c = cost(&elevators[i], request);
        match best {
            None => {
                best = Some(i);
                best_cost = c;
            }
            Some(_) => {
                if c < best_cost {
                    best = Some(i);
                    best_cost = c;
                }
            }
        }
        i += 1;
    }
    best
}

/// Check-then-act assignment commit: the car takes the pickup floor as its new
/// target only if, right now, it is idle with closed doors; a busy car is left
/// exactly as it was.
pub fn commit(elevator: &mut Elevator, request: &Request) -> (committed: bool)
    requires
        old(elevator).wf(),
        request.valid(old(elevator).num_floors),
    ensures
        final(elevator).wf(),
        committed == committable(*old(elevator)),
        committed ==> *final(elevator) == (Elevator {
            target_floor: Some(request.from_floor),
            ..*old(elevator)
        }),
        !committed ==> *final(elevator) == *old(elevator),
{
    if elevator.target_floor.is_none() && elevator.door_state == DoorState::Closed {
        elevator.target_floor = Some(request.from_floor);
        true
    } else {
        false
    }
}

/// The dispatcher: owns the car registry and the historical request log.
pub struct Scheduler {
    /// Every request ever enqueued, committed or deferred.
    pub requests: Vec<Request>,
    pub elevators: Vec<Elevator>,
}

impl Scheduler {
    /// The building height all cars serve.
    pub open spec fn num_floors_spec(self) -> u32 {
        self.elevators@[0].num_floors
    }

    pub open spec fn wf(self) -> bool {
        &&& self.elevators@.len() >= 1
        &&& registry_wf(self.elevators@, self.num_floors_spec())
    }

    /// A dispatcher over the given cars, with an empty request log.
    pub fn new(elevators: Vec<Elevator>) -> (s: Scheduler)
        requires
            elevators@.len() >= 1,
            registry_wf(elevators@, elevators@[0].num_floors),
        ensures
            s.wf(),
            s.elevators == elevators,
            s.requests@ == Seq::<Request>::empty(),
    {
        Scheduler { requests: Vec::new(), elevators }
    }

    /// One scheduling pass for one request: evaluate the cost of every car,
    /// then commit the pickup floor as the target of the cheapest car — but
    /// only if that car can take a target right now; otherwise the request is
    /// deferred (no car is touched) and a later pass must retry it. Either
    /// way the request is appended to the log.
    ///
    /// A busy car — one whose target is already set — is never handed a new
    /// target, nor otherwise changed, by this pass.
    pub fn add_request(&mut self, request: Request) -> (assigned: Option<usize>)
        requires
            old(self).wf(),
            request.valid(old(self).num_floors_spec()),
        ensures
            final(self).wf(),
            final(self).num_floors_spec() == old(self).num_floors_spec(),
            final(self).requests@ == old(self).requests@.push(request),
            final(self).elevators@.len() == old(self).elevators@.len(),
            match assigned {
                Some(i) => {
                    &&& i < old(self).elevators@.len()
                    &&& best_car(old(self).elevators@, request) == Some(i as int)
                    &&& committable(old(self).elevators@[i as int])
                    &&& final(self).elevators@ == old(self).elevators@.update(
                        i as int,
                        (Elevator {
                            target_floor: Some(request.from_floor),
                            ..old(self).elevators@[i as int]
                        }),
                    )
                },
                None => {
                    &&& final(self).elevators@ == old(self).elevators@
                    &&& match best_car(old(self).elevators@, request) {
                        Some(b) => !committable(old(self).elevators@[b]),
                        None => false,
                    }
                },
            },
            forall|i: int|
                0 <= i < old(self).elevators@.len()
                    && old(self).elevators@[i].target_floor is Some
                    ==> final(self).elevators@[i] == old(self).elevators@[i],
    {
        let best = select_car(&self.elevators, &request);
        let assigned = match best {
            Some(i) => {
                let did = commit(&mut self.elevators[i], &request);
                if did {
                    Some(i)
                } else {
                    proof {
                        assert(self.elevators@ =~= old(self).elevators@);
                    }
                    None
                }
            }
            None => None,
        };
        self.requests.push(request);
        assigned
    }
}

} // verus!
