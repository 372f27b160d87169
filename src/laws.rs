//! What holds over many ticks of the vehicle update.
use vstd::arithmetic::power::{lemma_pow_positive, pow};
use vstd::prelude::*;

use crate::fixed::rate_step_spec;
use crate::vehicle::{decay_spec, decayed, Car, InputIntent};

verus! {

/// The car after each `(intent, dt)` tick in turn.
pub open spec fn drive(car: Car, ticks: Seq<(InputIntent, u64)>) -> Car
    decreases ticks.len(),
{
    if ticks.len() == 0 {
        car
    } else {
        drive(car, ticks.drop_last()).step(ticks.last().0, ticks.last().1 as int)
    }
}

/// How much speed coasting at `rate` can shed over all the ticks.
pub open spec fn coast_total(rate: int, ticks: Seq<(InputIntent, u64)>) -> int
    decreases ticks.len(),
{
    if ticks.len() == 0 {
        0
    } else {
        coast_total(rate, ticks.drop_last()) + rate_step_spec(rate, ticks.last().1 as int)
    }
}

pub open spec fn abs(x: int) -> int {
    if x >= 0 { x } else { -x }
}

/// One relaxation step keeps the sign and loses at most a tenth plus rounding.
proof fn lemma_decay_bounds(a: int)
    ensures
        a >= 0 ==> 0 <= decay_spec(a) <= a,
        a <= 0 ==> a <= decay_spec(a) <= 0,
        9 * abs(a) - 9 <= 10 * abs(decay_spec(a)) <= 9 * abs(a),
        decay_spec(-a) == -decay_spec(a),
{
    let m = abs(a);
    assert(0 <= m * 9 / 10 <= m && 9 * m - 9 <= 10 * (m * 9 / 10) <= 9 * m) by (nonlinear_arith)
        requires
            m >= 0,
    ;
}

/// One tick keeps speed and steering within their limits, whatever the intent and `dt`.
pub proof fn lemma_step_within_limits(car: Car, intent: InputIntent, dt: u64)
    requires
        car.wf(),
    ensures
        car.step(intent, dt as int).wf(),
        -car.max_speed <= car.step(intent, dt as int).speed <= car.max_speed,
        -car.max_steering_angle <= car.step(intent, dt as int).steering_angle
            <= car.max_steering_angle,
{
    lemma_decay_bounds(car.steering_angle as int);
}

/// Any run of ticks keeps speed and steering within their limits, and leaves the
/// car's parameters as they were.
pub proof fn lemma_drive_within_limits(car: Car, ticks: Seq<(InputIntent, u64)>)
    requires
        car.wf(),
    ensures
        drive(car, ticks).wf(),
        drive(car, ticks) == (Car {
            speed: drive(car, ticks).speed,
            steering_angle: drive(car, ticks).steering_angle,
            ..car
        }),
    decreases ticks.len(),
{
    if ticks.len() > 0 {
        lemma_drive_within_limits(car, ticks.drop_last());
        lemma_step_within_limits(
            drive(car, ticks.drop_last()),
            ticks.last().0,
            ticks.last().1,
        );
    }
}

/// Coasting (neither throttle nor brake held) sheds speed toward zero at the
/// acceleration rate and never crosses zero: after any run of coasting ticks the
/// magnitude is what was left after subtracting the total, or zero; so enough ticks
/// bring the car to rest, and a tick that sheds no more than the speed has lands
/// exactly on the difference.
pub proof fn lemma_coasting(car: Car, ticks: Seq<(InputIntent, u64)>)
    requires
        car.wf(),
        forall|i: int|
            0 <= i < ticks.len() ==> !(#[trigger] ticks[i]).0.throttle_forward
                && !ticks[i].0.throttle_reverse,
    ensures
        abs(drive(car, ticks).speed as int) == if abs(car.speed as int) >= coast_total(
            car.accel_rate as int,
            ticks,
        ) {
            abs(car.speed as int) - coast_total(car.accel_rate as int, ticks)
        } else {
            0
        },
        car.speed >= 0 ==> drive(car, ticks).speed >= 0,
        car.speed <= 0 ==> drive(car, ticks).speed <= 0,
        abs(drive(car, ticks).speed as int) <= abs(car.speed as int),
    decreases ticks.len(),
{
    if ticks.len() > 0 {
        let prefix = ticks.drop_last();
        assert forall|i: int|
            0 <= i < prefix.len() implies !(#[trigger] prefix[i]).0.throttle_forward
            && !prefix[i].0.throttle_reverse by {
            assert(prefix[i] == ticks[i]);
        }
        lemma_coasting(car, prefix);
        lemma_drive_within_limits(car, prefix);
        assert(ticks[ticks.len() - 1] == ticks.last());
        let dt = ticks.last().1 as int;
        assert(rate_step_spec(car.accel_rate as int, dt) >= 0) by (nonlinear_arith)
            requires
                car.accel_rate >= 0,
                dt >= 0,
        ;
        assert(coast_total(car.accel_rate as int, prefix) >= 0) by {
            lemma_coast_total_nonneg(car.accel_rate as int, prefix);
        }
    }
}

/// A coasting tick that sheds no more speed than the car has moves it exactly that
/// much toward zero, so it never overshoots.
pub proof fn lemma_coast_tick(car: Car, intent: InputIntent, dt: u64)
    requires
        car.wf(),
        !intent.throttle_forward,
        !intent.throttle_reverse,
        rate_step_spec(car.accel_rate as int, dt as int) <= abs(car.speed as int),
    ensures
        car.speed > 0 ==> car.next_speed(intent, dt as int) == car.speed - rate_step_spec(
            car.accel_rate as int,
            dt as int,
        ) >= 0,
        car.speed <= 0 ==> car.next_speed(intent, dt as int) == car.speed + rate_step_spec(
            car.accel_rate as int,
            dt as int,
        ) <= 0,
{
    let d = dt as int;
    assert(rate_step_spec(car.accel_rate as int, d) >= 0) by (nonlinear_arith)
        requires
            car.accel_rate >= 0,
            d >= 0,
    ;
}

proof fn lemma_coast_total_nonneg(rate: int, ticks: Seq<(InputIntent, u64)>)
    requires
        rate >= 0,
    ensures
        coast_total(rate, ticks) >= 0,
    decreases ticks.len(),
{
    if ticks.len() > 0 {
        lemma_coast_total_nonneg(rate, ticks.drop_last());
        let dt = ticks.last().1 as int;
        assert(rate_step_spec(rate, dt) >= 0) by (nonlinear_arith)
            requires
                rate >= 0,
                dt >= 0,
        ;
    }
}

/// With no steering key held, the steering angle after `n` ticks is the initial
/// angle relaxed `n` times, whatever the tick lengths were.
pub proof fn lemma_steering_relaxes(car: Car, ticks: Seq<(InputIntent, u64)>)
    requires
        car.wf(),
        forall|i: int|
            0 <= i < ticks.len() ==> !(#[trigger] ticks[i]).0.steer_left
                && !ticks[i].0.steer_right,
    ensures
        drive(car, ticks).steering_angle == decayed(car.steering_angle as int, ticks.len()),
    decreases ticks.len(),
{
    if ticks.len() > 0 {
        let prefix = ticks.drop_last();
        assert forall|i: int|
            0 <= i < prefix.len() implies !(#[trigger] prefix[i]).0.steer_left
            && !prefix[i].0.steer_right by {
            assert(prefix[i] == ticks[i]);
        }
        lemma_steering_relaxes(car, prefix);
        lemma_drive_within_limits(car, prefix);
        lemma_decay_bounds(drive(car, prefix).steering_angle as int);
        assert(ticks[ticks.len() - 1] == ticks.last());
    }
}

/// Relaxing `n` times is the geometric law `angle * 0.9^n` up to rounding toward
/// zero: the magnitude never exceeds `|angle| * 9^n / 10^n`, falls short of it by
/// less than nine, and the sign is kept.
pub proof fn lemma_decayed_geometric(angle: int, n: nat)
    ensures
        0 <= abs(angle) * pow(9, n) - abs(decayed(angle, n)) * pow(10, n) <= 9 * (pow(10, n)
            - pow(9, n)),
        angle >= 0 ==> decayed(angle, n) >= 0,
        angle <= 0 ==> decayed(angle, n) <= 0,
    decreases n,
{
    reveal(pow);
    if n > 0 {
        let k = (n - 1) as nat;
        lemma_pow_positive(10, k);
        lemma_decayed_geometric(angle, k);
        let d = decayed(angle, k);
        lemma_decay_bounds(d);
        let p9 = pow(9, k);
        let p10 = pow(10, k);
        let a = abs(angle);
        let m = abs(d);
        let m2 = abs(decay_spec(d));
        assert(pow(9, n) == 9 * p9 && pow(10, n) == 10 * p10);
        assert(0 <= a * (9 * p9) - m2 * (10 * p10) <= 9 * (10 * p10 - 9 * p9))
            by (nonlinear_arith)
            requires
                0 <= a * p9 - m * p10 <= 9 * (p10 - p9),
                9 * m - 9 <= 10 * m2 <= 9 * m,
                p10 >= 0,
        ;
    }
}

} // verus!
