//! The vehicle state and its per-tick update: throttle, brake, coasting and steering.
//!
//! Speeds are in micro-units per second, rates in micro-units per second squared,
//! angles in micro-radians and `dt` in microseconds.
use vstd::prelude::*;

use crate::fixed::{clamp_spec, clamp_wide, rate_step, rate_step_spec, MICROS_PER_SECOND};

verus! {

/// How fast the wheels turn while a steering key is held: 60 degrees per second.
pub const STEER_RATE: i64 = 1_047_198;

/// The largest steering limit a car may have: the last micro-radian below a right angle.
pub const STEERING_LIMIT: i64 = 1_570_796;

/// Thirty degrees, the steering limit of the default car.
pub const DEFAULT_MAX_STEERING: i64 = 523_599;

/// The held-key state sampled at one tick.
#[derive(Clone, Copy, Debug, PartialEq, Eq, Structural)]
pub struct InputIntent {
    pub throttle_forward: bool,
    pub throttle_reverse: bool,
    pub steer_left: bool,
    pub steer_right: bool,
}

impl InputIntent {
    /// No key held.
    pub fn idle() -> (r: InputIntent)
        ensures
            !r.throttle_forward && !r.throttle_reverse && !r.steer_left && !r.steer_right,
    {
        InputIntent {
            throttle_forward: false,
            throttle_reverse: false,
            steer_left: false,
            steer_right: false,
        }
    }
}

/// Why a configuration cannot make a car.
#[derive(Clone, Copy, Debug, PartialEq, Eq, Structural)]
pub enum ConfigError {
    /// `max_speed` is zero or negative.
    NonPositiveMaxSpeed,
    /// `max_steering_angle` is not strictly between zero and a right angle.
    SteeringLimitOutOfRange,
    /// `accel_rate` or `brake_rate` is negative.
    NegativeRate,
    /// `wheel_base` is zero or negative.
    NonPositiveWheelBase,
}

/// The first rule a configuration breaks, checked in the order of the fields.
pub open spec fn config_error(
    max_speed: int,
    max_steering_angle: int,
    accel_rate: int,
    brake_rate: int,
    wheel_base: int,
) -> Option<ConfigError> {
    if max_speed <= 0 {
        Some(ConfigError::NonPositiveMaxSpeed)
    } else if max_steering_angle <= 0 || max_steering_angle > STEERING_LIMIT {
        Some(ConfigError::SteeringLimitOutOfRange)
    } else if accel_rate < 0 || brake_rate < 0 {
        Some(ConfigError::NegativeRate)
    } else if wheel_base <= 0 {
        Some(ConfigError::NonPositiveWheelBase)
    } else {
        None
    }
}

/// Steering relaxation toward the centre: nine tenths, rounded toward zero.
pub open spec fn decay_spec(angle: int) -> int {
    if angle >= 0 {
        angle * 9 / 10
    } else {
        -((-angle) * 9 / 10)
    }
}

/// The steering angle after `n` ticks of relaxation.
pub open spec fn decayed(angle: int, n: nat) -> int
    decreases n,
{
    if n == 0 {
        angle
    } else {
        decay_spec(decayed(angle, (n - 1) as nat))
    }
}

/// The motion state and the fixed parameters of one car.
#[derive(Clone, Copy, Debug, PartialEq, Eq, Structural)]
pub struct Car {
    /// Signed longitudinal speed; the sign tells forward from reverse.
    pub speed: i64,
    pub max_speed: i64,
    /// Heading in micro-radians.
    pub yaw: i64,
    /// Signed front-wheel angle; positive turns left.
    pub steering_angle: i64,
    pub max_steering_angle: i64,
    /// Speed gained per second under throttle, and lost per second while coasting.
    pub accel_rate: i64,
    /// Speed lost per second while the brake (reverse) is held.
    pub brake_rate: i64,
    /// Distance between the front and rear axle centres.
    pub wheel_base: i64,
    /// Distance between the left and right wheels; only drawn, never simulated.
    pub track: i64,
}

impl Car {
    /// A well-formed car: a valid configuration, and speed and steering within their limits.
    pub open spec fn wf(self) -> bool {
        &&& config_error(
            self.max_speed as int,
            self.max_steering_angle as int,
            self.accel_rate as int,
            self.brake_rate as int,
            self.wheel_base as int,
        ) is None
        &&& -self.max_speed <= self.speed <= self.max_speed
        &&& -self.max_steering_angle <= self.steering_angle <= self.max_steering_angle
    }

    /// The speed after one tick of `dt` microseconds under `intent`.
    pub open spec fn next_speed(self, intent: InputIntent, dt: int) -> int {
        let s = self.speed as int;
        let max = self.max_speed as int;
        if intent.throttle_forward {
            clamp_spec(s + rate_step_spec(self.accel_rate as int, dt), -max, max)
        } else if intent.throttle_reverse {
            clamp_spec(s - rate_step_spec(self.brake_rate as int, dt), -max, max)
        } else if s > 0 {
            clamp_spec(s - rate_step_spec(self.accel_rate as int, dt), 0, max)
        } else {
            clamp_spec(s + rate_step_spec(self.accel_rate as int, dt), -max, 0)
        }
    }

    /// The steering angle after one tick of `dt` microseconds under `intent`.
    pub open spec fn next_steering(self, intent: InputIntent, dt: int) -> int {
        let a = self.steering_angle as int;
        let max = self.max_steering_angle as int;
        if intent.steer_left {
            clamp_spec(a + rate_step_spec(STEER_RATE as int, dt), -max, max)
        } else if intent.steer_right {
            clamp_spec(a - rate_step_spec(STEER_RATE as int, dt), -max, max)
        } else {
            decay_spec(a)
        }
    }

    /// The car after one tick: speed and steering move, everything else stays.
    pub open spec fn step(self, intent: InputIntent, dt: int) -> Car {
        Car {
            speed: self.next_speed(intent, dt) as i64,
            steering_angle: self.next_steering(intent, dt) as i64,
            ..self
        }
    }

    /// Distance covered at `speed` over `dt` microseconds, rounded toward zero.
    pub open spec fn travel_spec(self, dt: int) -> int {
        let s = self.speed as int;
        if s >= 0 {
            s * dt / (MICROS_PER_SECOND as int)
        } else {
            -((-s) * dt / (MICROS_PER_SECOND as int))
        }
    }

    /// A car at rest, heading straight, with the given parameters; or the first
    /// rule that the parameters break.
    pub fn new(
        max_speed: i64,
        max_steering_angle: i64,
        accel_rate: i64,
        brake_rate: i64,
        wheel_base: i64,
        track: i64,
    ) -> (r: Result<Car, ConfigError>)
        ensures
            match r {
                Ok(car) => {
                    &&& config_error(
                        max_speed as int,
                        max_steering_angle as int,
                        accel_rate as int,
                        brake_rate as int,
                        wheel_base as int,
                    ) is None
                    &&& car.wf()
                    &&& car == (Car {
                        speed: 0,
                        max_speed,
                        yaw: 0,
                        steering_angle: 0,
                        max_steering_angle,
                        accel_rate,
                        brake_rate,
                        wheel_base,
                        track,
                    })
                },
                Err(e) => config_error(
                    max_speed as int,
                    max_steering_angle as int,
                    accel_rate as int,
                    brake_rate as int,
                    wheel_base as int,
                ) == Some(e),
            },
    {
        if max_speed <= 0 {
            Err(ConfigError::NonPositiveMaxSpeed)
        } else if max_steering_angle <= 0 || max_steering_angle > STEERING_LIMIT {
            Err(ConfigError::SteeringLimitOutOfRange)
        } else if accel_rate < 0 || brake_rate < 0 {
            Err(ConfigError::NegativeRate)
        } else if wheel_base <= 0 {
            Err(ConfigError::NonPositiveWheelBase)
        } else {
            Ok(
                Car {
                    speed: 0,
                    max_speed,
                    yaw: 0,
                    steering_angle: 0,
                    max_steering_angle,
                    accel_rate,
                    brake_rate,
                    wheel_base,
                    track,
                },
            )
        }
    }

    /// Applies throttle, brake or coasting for one tick.
    pub fn update_speed(&mut self, intent: InputIntent, dt: u64)
        requires
            old(self).wf(),
        ensures
            final(self).wf(),
            *final(self) == (Car { speed: old(self).next_speed(intent, dt as int) as i64, ..*old(self) }),
    {
        let s: i128 = self.speed as i128;
        let max: i64 = self.max_speed;
        if intent.throttle_forward {
            let d = rate_step(self.accel_rate, dt);
            self.speed = clamp_wide(s + d, -max, max);
        } else if intent.throttle_reverse {
            let d = rate_step(self.brake_rate, dt);
            self.speed = clamp_wide(s - d, -max, max);
        } else if s > 0 {
            let d = rate_step(self.accel_rate, dt);
            self.speed = clamp_wide(s - d, 0, max);
        } else {
            let d = rate_step(self.accel_rate, dt);
            self.speed = clamp_wide(s + d, -max, 0);
        }
    }

    /// Turns the wheels, or lets them relax toward the centre, for one tick.
    pub fn update_steering(&mut self, intent: InputIntent, dt: u64)
        requires
            old(self).wf(),
        ensures
            final(self).wf(),
            *final(self) == (Car {
                steering_angle: old(self).next_steering(intent, dt as int) as i64,
                ..*old(self)
            }),
    {
        let a: i64 = self.steering_angle;
        let max: i64 = self.max_steering_angle;
        if intent.steer_left {
            let d = rate_step(STEER_RATE, dt);
            self.steering_angle = clamp_wide(a as i128 + d, -max, max);
        } else if intent.steer_right {
            let d = rate_step(STEER_RATE, dt);
            self.steering_angle = clamp_wide(a as i128 - d, -max, max);
        } else if a >= 0 {
            self.steering_angle = a * 9 / 10;
        } else {
            self.steering_angle = -((-a) * 9 / 10);
        }
    }

    /// One tick of `dt` microseconds under `intent`: speed first, then steering.
    pub fn update(&mut self, intent: InputIntent, dt: u64)
        requires
            old(self).wf(),
        ensures
            final(self).wf(),
            *final(self) == old(self).step(intent, dt as int),
            -final(self).max_speed <= final(self).speed <= final(self).max_speed,
            -final(self).max_steering_angle <= final(self).steering_angle
                <= final(self).max_steering_angle,
    {
        self.update_speed(intent, dt);
        self.update_steering(intent, dt);
    }

    /// Distance covered at the current speed over `dt` microseconds, rounded toward
    /// zero; negative when reversing.
    pub fn travel_distance(&self, dt: u64) -> (r: i128)
        ensures
            r == self.travel_spec(dt as int),
    {
        let s: i128 = self.speed as i128;
        let m: u128 = if s >= 0 { s as u128 } else { (-s) as u128 };
        let b: u128 = dt as u128;
        assert(m * b <= 0x8000_0000_0000_0000 * 0xffff_ffff_ffff_ffff) by (nonlinear_arith)
            requires
                m <= 0x8000_0000_0000_0000,
                b <= 0xffff_ffff_ffff_ffff,
        ;
        let p: u128 = m * b;
        let q: u128 = p / (MICROS_PER_SECOND as u128);
        assert(q <= p / 1_000_000 && p / 1_000_000 <= 0x8000_0000_0000_0000 * 0xffff_ffff_ffff_ffff / 1_000_000) by (nonlinear_arith)
            requires
                q == p / 1_000_000,
                p <= 0x8000_0000_0000_0000 * 0xffff_ffff_ffff_ffff,
        ;
        if s >= 0 {
            q as i128
        } else {
            -(q as i128)
        }
    }
}

impl Default for Car {
    /// The stock car: top speed 400, thirty degrees of steering lock, wheel base 50
    /// and track 30, at rest.
    fn default() -> (r: Car)
        ensures
            r.wf(),
            r == (Car {
                speed: 0,
                max_speed: 400_000_000,
                yaw: 0,
                steering_angle: 0,
                max_steering_angle: DEFAULT_MAX_STEERING,
                accel_rate: 6_000_000,
                brake_rate: 3_000_000,
                wheel_base: 50_000_000,
                track: 30_000_000,
            }),
    {
        Car {
            speed: 0,
            max_speed: 400_000_000,
            yaw: 0,
            steering_angle: 0,
            max_steering_angle: DEFAULT_MAX_STEERING,
            accel_rate: 6_000_000,
            brake_rate: 3_000_000,
            wheel_base: 50_000_000,
            track: 30_000_000,
        }
    }
}

} // verus!
