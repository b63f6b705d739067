//! Arrival convergence of the motion model.
//!
//! The main result, [`lemma_arrival_convergence`], shows that a car with a
//! target and starting speed zero, advanced repeatedly by any fixed and small
//! enough tick, docks at its target — clearing it — within finitely many
//! ticks. "Small enough" means the distance one tick of acceleration covers,
//! `a * dt * dt`, is at least 4 position units (so integer progress is made)
//! and at most a quarter of [`EPSILON`] (so the car cannot hop over the
//! docking window).
//!
//! The proof tracks the ranking measure *distance to target plus braking
//! distance*: every tick outside the docking window shrinks it by at least
//! one unit.
use vstd::arithmetic::div_mod::{
    lemma_div_denominator, lemma_div_is_ordered, lemma_div_multiples_vanish, lemma_div_of0,
    lemma_div_pos_is_pos, lemma_fundamental_div_mod, lemma_mod_division_less_than_divisor,
    lemma_multiply_divide_lt,
};
use vstd::math::abs;
use vstd::prelude::*;

use crate::elevator::{
    braking_distance, clamp_int, lemma_advanced_wf, next_speed, sat_i64, Elevator,
};
use crate::{EPSILON, SCALE};

verus! {

/// How far a car still is from docking, as one number: its distance to the
/// target plus the distance it needs to shed its current speed. Zero for an
/// idle car.
pub open spec fn measure(e: Elevator) -> int {
    match e.target_floor {
        Some(t) => abs(e.distance_to(t)) + braking_distance(e.speed as int, e.acceleration as int),
        None => 0,
    }
}

/// The car state after `n` ticks of `dt` milliseconds each.
pub open spec fn advanced_iter(e: Elevator, dt: u64, n: nat) -> Elevator
    decreases n,
{
    if n == 0 {
        e
    } else {
        advanced_iter(e.advanced(dt), dt, (n - 1) as nat)
    }
}

/// Nonnegative numbers compare as their squares do.
proof fn lemma_square_order(x: int, y: int)
    requires
        0 <= x,
        0 <= y,
        x * x < y * y,
    ensures
        x < y,
{
    if x >= y {
        assert(x * x >= y * y) by (nonlinear_arith)
            requires
                x >= y,
                y >= 0,
        ;
    }
}

/// Changing a speed by one tick of acceleration, `a * dt`, changes the braking
/// distance by the speed's own contribution `v * dt` plus at most half the
/// tick's acceleration distance (and a unit of division slop).
proof fn lemma_braking_shift(v: int, a: int, dt: int)
    requires
        1 <= a,
        1 <= dt,
    ensures
        braking_distance(v + a * dt, a) <= braking_distance(v, a) + v * dt + (a * dt * dt) / 2 + 1,
        braking_distance(v - a * dt, a) <= braking_distance(v, a) - (v * dt) + (a * dt * dt) / 2 + 1,
{
    let u = a * dt;
    let c = a * dt * dt;
    let q = braking_distance(v, a);
    let h = c / 2;
    let r = (v * v) % (2 * a);
    let rh = c % 2;
    lemma_fundamental_div_mod(v * v, 2 * a);
    lemma_mod_division_less_than_divisor(v * v, 2 * a);
    lemma_fundamental_div_mod(c, 2);
    lemma_mod_division_less_than_divisor(c, 2);
    assert(u * u == a * c && c >= 1) by (nonlinear_arith)
        requires
            u == a * dt,
            c == a * dt * dt,
            a >= 1,
            dt >= 1,
    ;
    // The braking distance from speed `u` alone is exactly `h`:
    // u*u / (2*a) == (a*c) / (a*2) == ((a*c) / a) / 2 == c / 2.
    lemma_div_denominator(a * c, a, 2);
    lemma_div_multiples_vanish(c, a);
    assert(a * 2 == 2 * a);
    assert((u * u) / (2 * a) == h);
    // Both shifted squares, decomposed over the divisor 2*a.
    assert((v + u) * (v + u) == (2 * a) * (q + v * dt + h) + (r + a * rh) && (v - u) * (v - u)
        == (2 * a) * (q - v * dt + h) + (r + a * rh)) by (nonlinear_arith)
        requires
            u == a * dt,
            v * v == (2 * a) * q + r,
            u * u == a * c,
            c == 2 * h + rh,
    ;
    assert(0 <= r + a * rh && r + a * rh < 4 * a) by (nonlinear_arith)
        requires
            0 <= r < 2 * a,
            0 <= rh < 2,
            a >= 1,
    ;
    assert((v + u) * (v + u) < (2 * a) * ((q + v * dt + h) + 2) && (v - u) * (v - u) < (2 * a) * ((q
        - v * dt + h) + 2)) by (nonlinear_arith)
        requires
            (v + u) * (v + u) == (2 * a) * (q + v * dt + h) + (r + a * rh),
            (v - u) * (v - u) == (2 * a) * (q - v * dt + h) + (r + a * rh),
            r + a * rh < 4 * a,
    ;
    lemma_multiply_divide_lt((v + u) * (v + u), 2 * a, (q + v * dt + h) + 2);
    lemma_multiply_divide_lt((v - u) * (v - u), 2 * a, (q - v * dt + h) + 2);
}

/// One tick of the distance/speed dynamics toward a target `d > 0` units away
/// shrinks the ranking measure, as long as the car is outside the docking
/// window and the tick is small (`4 <= a*dt*dt` and `4*a*dt*dt <= EPSILON`).
proof fn lemma_step_progress_pos(d: int, v: int, a: int, dt: int)
    requires
        1 <= a,
        1 <= dt,
        EPSILON <= d,
        4 <= a * dt * dt,
        4 * (a * dt * dt) <= EPSILON,
    ensures
        ({
            let v2 = next_speed(d, v, a, dt);
            abs(d - v2 * dt) + braking_distance(v2, a) + 1 <= d + braking_distance(v, a)
        }),
{
    let u = a * dt;
    let c = a * dt * dt;
    let h = c / 2;
    let q = braking_distance(v, a);
    let v2 = next_speed(d, v, a, dt);
    let r = (v * v) % (2 * a);
    lemma_fundamental_div_mod(v * v, 2 * a);
    lemma_mod_division_less_than_divisor(v * v, 2 * a);
    lemma_fundamental_div_mod(c, 2);
    lemma_mod_division_less_than_divisor(c, 2);
    lemma_braking_shift(v, a, dt);
    assert(u * u == a * c && u >= 1 && u <= c && u * dt == c) by (nonlinear_arith)
        requires
            u == a * dt,
            c == a * dt * dt,
            a >= 1,
            dt >= 1,
    ;
    // h is at least 2 and c - h is at least h.
    lemma_div_is_ordered(4, c, 2);
    assert(h >= 2 && h <= c - h);
    if q < d {
        // Acceleration toward the target: v2 = v + u.
        assert(v2 == v + u);
        assert(v2 * dt == v * dt + c) by (nonlinear_arith)
            requires
                v2 == v + u,
                u * dt == c,
        ;
        // The tick cannot carry the car past the target: v2 * dt < d.
        if v <= 0 {
            assert(v * dt <= 0) by (nonlinear_arith)
                requires
                    v <= 0,
                    dt >= 1,
            ;
        } else {
            // v*v < 2*a*d, since the braking distance still fits below d.
            assert(v * v < 2 * a * d) by (nonlinear_arith)
                requires
                    v * v == (2 * a) * q + r,
                    r < 2 * a,
                    q <= d - 1,
                    a >= 1,
            ;
            assert((v * dt) * (v * dt) < 2 * d * c) by (nonlinear_arith)
                requires
                    v * v < 2 * a * d,
                    c == a * dt * dt,
                    dt >= 1,
                    v > 0,
                    d > 0,
            ;
            assert((d - c) * (d - c) > 2 * d * c) by (nonlinear_arith)
                requires
                    d >= 4 * c,
                    c >= 4,
            ;
            assert(v * dt >= 0) by (nonlinear_arith)
                requires
                    v > 0,
                    dt >= 1,
            ;
            lemma_square_order(v * dt, d - c);
        }
        assert(v2 * dt < d);
        assert(abs(d - v2 * dt) == d - (v * dt) - c);
        assert(braking_distance(v2, a) <= q + v * dt + h + 1);
    } else {
        // Braking: the stopping distance has reached the remaining distance.
        if v == 0 {
            lemma_div_of0(2 * a);
            assert(false);
        }
        // The speed is large: v*v >= 8*u*u, so |v| > 2*u.
        assert(v * v >= 8 * (u * u)) by (nonlinear_arith)
            requires
                v * v == (2 * a) * q + r,
                r >= 0,
                q >= d,
                d >= EPSILON,
                EPSILON >= 4 * c,
                u * u == a * c,
                a >= 1,
                c >= 4,
        ;
        if v > 0 {
            assert((2 * u) * (2 * u) < v * v) by (nonlinear_arith)
                requires
                    v * v >= 8 * (u * u),
                    u >= 1,
            ;
            lemma_square_order(2 * u, v);
            assert(v2 == v - u);
            assert(v2 * dt == v * dt - c) by (nonlinear_arith)
                requires
                    v2 == v - u,
                    u * dt == c,
            ;
            assert(v * dt >= 2 * c + dt) by (nonlinear_arith)
                requires
                    v >= 2 * u + 1,
                    u * dt == c,
                    dt >= 1,
            ;
            assert(braking_distance(v2, a) <= q - (v * dt) + h + 1);
            let d2 = d - v2 * dt;
            if d2 >= 0 {
                assert(abs(d2) == d - (v * dt) + c);
            } else {
                assert(abs(d2) == (v * dt) - c - d);
            }
        } else {
            assert((2 * u) * (2 * u) < (-v) * (-v)) by (nonlinear_arith)
                requires
                    v * v >= 8 * (u * u),
                    u >= 1,
            ;
            lemma_square_order(2 * u, -v);
            assert(v2 == v + u);
            assert(v2 * dt == v * dt + c && v * dt <= -(2 * c) - dt) by (nonlinear_arith)
                requires
                    v2 == v + u,
                    u * dt == c,
                    v <= -(2 * u) - 1,
                    dt >= 1,
            ;
            assert(braking_distance(v2, a) <= q + v * dt + h + 1);
            assert(abs(d - v2 * dt) == d - (v * dt) - c);
        }
    }
}

/// The dynamics are symmetric: mirroring distance and speed mirrors the next
/// speed.
proof fn lemma_step_mirror(d: int, v: int, a: int, dt: int)
    requires
        1 <= a,
    ensures
        next_speed(-d, -v, a, dt) == -next_speed(d, v, a, dt),
{
    let u = a * dt;
    assert((-v) * (-v) == v * v) by (nonlinear_arith);
    assert(braking_distance(-v, a) == braking_distance(v, a));
    assert(abs(-d) == abs(d));
    if braking_distance(v, a) >= abs(d) {
        if v > 0 {
            assert(next_speed(d, v, a, dt) == v - 1 * u);
            assert(next_speed(-d, -v, a, dt) == -v - (-1) * u);
        } else if v < 0 {
            assert(next_speed(d, v, a, dt) == v - (-1) * u);
            assert(next_speed(-d, -v, a, dt) == -v - 1 * u);
        } else {
            assert(next_speed(d, v, a, dt) == v - 0 * u);
            assert(next_speed(-d, -v, a, dt) == -v - 0 * u);
        }
    } else {
        if d > 0 {
            assert(next_speed(d, v, a, dt) == v + 1 * u);
            assert(next_speed(-d, -v, a, dt) == -v + (-1) * u);
        } else if d < 0 {
            assert(next_speed(d, v, a, dt) == v + (-1) * u);
            assert(next_speed(-d, -v, a, dt) == -v + 1 * u);
        } else {
            assert(next_speed(d, v, a, dt) == v + 0 * u);
            assert(next_speed(-d, -v, a, dt) == -v + 0 * u);
        }
    }
}

/// One tick shrinks the ranking measure whatever the direction of travel.
proof fn lemma_step_progress(d: int, v: int, a: int, dt: int)
    requires
        1 <= a,
        1 <= dt,
        EPSILON <= abs(d),
        4 <= a * dt * dt,
        4 * (a * dt * dt) <= EPSILON,
    ensures
        ({
            let v2 = next_speed(d, v, a, dt);
            abs(d - v2 * dt) + braking_distance(v2, a) + 1 <= abs(d) + braking_distance(v, a)
        }),
{
    if d > 0 {
        lemma_step_progress_pos(d, v, a, dt);
    } else {
        lemma_step_progress_pos(-d, -v, a, dt);
        lemma_step_mirror(d, v, a, dt);
        let v2 = next_speed(d, v, a, dt);
        let w2 = next_speed(-d, -v, a, dt);
        assert(w2 == -v2);
        assert(w2 * w2 == v2 * v2 && (-d) - w2 * dt == -(d - v2 * dt) && (-v) * (-v) == v * v)
            by (nonlinear_arith)
            requires
                w2 == -v2,
        ;
        assert(braking_distance(-v, a) == braking_distance(v, a));
        assert(braking_distance(w2, a) == braking_distance(v2, a));
        assert(abs((-d) - w2 * dt) == abs(d - v2 * dt));
    }
}

/// One tick of a well-formed car bound for a target: inside the docking window
/// it docks (arriving exactly at the target floor and clearing it); outside,
/// it keeps its target and strictly shrinks the ranking measure.
pub proof fn lemma_tick_progress(e: Elevator, dt: u64)
    requires
        e.wf(),
        dt >= 1,
        e.target_floor is Some,
        4 <= e.acceleration * dt * dt,
        4 * (e.acceleration * dt * dt) <= EPSILON,
        measure(e) <= e.num_floors * SCALE,
    ensures
        ({
            let e2 = e.advanced(dt);
            let t = e.target_floor->0;
            if abs(e.distance_to(t)) < EPSILON {
                e2.target_floor is None && e2.current_floor == t * SCALE
            } else {
                e2.target_floor == e.target_floor && measure(e2) + 1 <= measure(e)
            }
        }),
{
    let t = e.target_floor->0;
    let d = e.distance_to(t);
    let a = e.acceleration as int;
    let v = e.speed as int;
    let dti = dt as int;
    if abs(d) >= EPSILON {
        let q = braking_distance(v, a);
        let r = (v * v) % (2 * a);
        let c = a * dti * dti;
        lemma_fundamental_div_mod(v * v, 2 * a);
        lemma_mod_division_less_than_divisor(v * v, 2 * a);
        assert(v * v >= 0) by (nonlinear_arith);
        lemma_div_pos_is_pos(v * v, 2 * a);
        assert(0 <= q && abs(d) + q <= e.num_floors * SCALE);
        assert(q <= 4294967295000000000);
        // The speed is bounded by the measure, so one tick's arithmetic never
        // saturates a 64-bit value.
        assert(v * v < 40000000000000000000000000000) by (nonlinear_arith)
            requires
                v * v == (2 * a) * q + r,
                0 <= r < 2 * a,
                0 <= q <= 4294967295000000000,
                1 <= a <= 4294967295,
        ;
        assert(-200000000000000 < v < 200000000000000) by (nonlinear_arith)
            requires
                v * v < 40000000000000000000000000000,
        ;
        assert(a * dti <= c && dti * dti <= c && c <= 2500000) by (nonlinear_arith)
            requires
                c == a * dti * dti,
                a >= 1,
                dti >= 1,
                4 * c <= EPSILON,
        ;
        assert(dti < 1582) by (nonlinear_arith)
            requires
                dti * dti <= 2500000,
                dti >= 1,
        ;
        let v2 = next_speed(d, v, a, dti);
        assert(-200002500000000 < v2 < 200002500000000);
        assert(sat_i64(v2) == v2);
        assert(-320000000000000000 < v2 * dti < 320000000000000000) by (nonlinear_arith)
            requires
                -200002500000000 < v2 < 200002500000000,
                1 <= dti < 1582,
        ;
        lemma_step_progress(d, v, a, dti);
        let e2 = e.advanced(dt);
        let p2 = clamp_int(e.current_floor + v2 * dti, SCALE as int, e.num_floors * SCALE);
        assert(e2.current_floor == p2 && e2.speed == v2 && e2.target_floor == Some(t));
        // Clamping to the building only moves the car toward its target.
        assert(abs(t * SCALE - p2) <= abs(d - v2 * dti));
        assert(measure(e2) == abs(t * SCALE - p2) + braking_distance(v2, a));
    }
}

/// A car whose measure is at most `k` docks within `k + 1` further ticks.
proof fn lemma_convergence_from(e: Elevator, dt: u64, k: int)
    requires
        e.wf(),
        dt >= 1,
        e.target_floor is Some,
        4 <= e.acceleration * dt * dt,
        4 * (e.acceleration * dt * dt) <= EPSILON,
        0 <= measure(e) <= k,
        k <= e.num_floors * SCALE,
    ensures
        exists|n: nat|
            n <= k + 1 && (#[trigger] advanced_iter(e, dt, n)).target_floor is None
                && advanced_iter(e, dt, n).current_floor == e.target_floor->0 * SCALE,
    decreases k,
{
    let t = e.target_floor->0;
    lemma_tick_progress(e, dt);
    if abs(e.distance_to(t)) < EPSILON {
        assert(advanced_iter(e.advanced(dt), dt, 0) == e.advanced(dt));
        assert(advanced_iter(e, dt, 1) == e.advanced(dt));
        assert(advanced_iter(e, dt, 1).target_floor is None && advanced_iter(
            e,
            dt,
            1,
        ).current_floor == t * SCALE);
    } else {
        let e2 = e.advanced(dt);
        lemma_advanced_wf(e, dt);
        assert(e2.acceleration == e.acceleration && e2.num_floors == e.num_floors
            && e2.target_floor == Some(t));
        // The measure is never negative.
        assert(e2.speed * e2.speed >= 0) by (nonlinear_arith);
        lemma_div_pos_is_pos(e2.speed * e2.speed, 2 * (e2.acceleration as int));
        lemma_convergence_from(e2, dt, k - 1);
        let n2 = choose|n: nat|
            n <= k && (#[trigger] advanced_iter(e2, dt, n)).target_floor is None && advanced_iter(
                e2,
                dt,
                n,
            ).current_floor == t * SCALE;
        assert(advanced_iter(e, dt, (n2 + 1) as nat) == advanced_iter(e2, dt, n2));
        assert(advanced_iter(e, dt, (n2 + 1) as nat).target_floor is None);
    }
}

/// Arrival convergence: a well-formed car with a target and starting speed
/// zero, advanced repeatedly with any fixed small enough tick, docks exactly
/// at its target floor and clears the target within finitely many ticks —
/// at most one more than its initial distance in position units. "Small
/// enough" means `4 <= a*dt*dt` and `4*(a*dt*dt) <= EPSILON`; larger ticks can
/// hop over the docking window and oscillate forever.
pub proof fn lemma_arrival_convergence(e: Elevator, dt: u64)
    requires
        e.wf(),
        e.target_floor is Some,
        e.speed == 0,
        dt >= 1,
        4 <= e.acceleration * dt * dt,
        4 * (e.acceleration * dt * dt) <= EPSILON,
    ensures
        exists|n: nat|
            n <= e.num_floors * SCALE + 1 && (#[trigger] advanced_iter(
                e,
                dt,
                n,
            )).target_floor is None && advanced_iter(e, dt, n).current_floor == e.target_floor->0
                * SCALE,
{
    lemma_div_of0(2 * (e.acceleration as int));
    assert(braking_distance(0, e.acceleration as int) == 0);
    lemma_convergence_from(e, dt, e.num_floors * SCALE);
}

} // verus!
