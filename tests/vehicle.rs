use car_sim::{clamp, Car, ConfigError, InputIntent, Position, World, DEFAULT_MAX_STEERING};

const TICK: u64 = 8333;

fn intent(forward: bool, reverse: bool, left: bool, right: bool) -> InputIntent {
    InputIntent {
        throttle_forward: forward,
        throttle_reverse: reverse,
        steer_left: left,
        steer_right: right,
    }
}

fn demo_car() -> Car {
    Car::new(150_000_000, DEFAULT_MAX_STEERING, 40_000_000, 60_000_000, 50_000_000, 30_000_000)
        .unwrap()
}

#[test]
fn clamp_limits_both_sides() {
    assert_eq!(clamp(5, 0, 3), 3);
    assert_eq!(clamp(-5, 0, 3), 0);
    assert_eq!(clamp(2, 0, 3), 2);
    assert_eq!(clamp(3, 0, 3), 3);
    assert_eq!(clamp(i64::MIN, -10, 10), -10);
}

#[test]
fn clamp_with_crossed_bounds_gives_min() {
    assert_eq!(clamp(5, 4, 1), 4);
    assert_eq!(clamp(0, 4, 1), 4);
}

#[test]
fn new_car_is_at_rest() {
    let car = demo_car();
    assert_eq!(car.speed, 0);
    assert_eq!(car.yaw, 0);
    assert_eq!(car.steering_angle, 0);
    assert_eq!(car.max_speed, 150_000_000);
    assert_eq!(car.track, 30_000_000);
}

#[test]
fn new_rejects_each_bad_parameter() {
    assert_eq!(Car::new(0, 1, 1, 1, 1, 1), Err(ConfigError::NonPositiveMaxSpeed));
    assert_eq!(Car::new(1, 0, 1, 1, 1, 1), Err(ConfigError::SteeringLimitOutOfRange));
    assert_eq!(Car::new(1, 1_570_797, 1, 1, 1, 1), Err(ConfigError::SteeringLimitOutOfRange));
    assert!(Car::new(1, 1_570_796, 1, 1, 1, 1).is_ok());
    assert_eq!(Car::new(1, 1, -1, 1, 1, 1), Err(ConfigError::NegativeRate));
    assert_eq!(Car::new(1, 1, 1, -1, 1, 1), Err(ConfigError::NegativeRate));
    assert_eq!(Car::new(1, 1, 1, 1, 0, 1), Err(ConfigError::NonPositiveWheelBase));
    assert_eq!(Car::new(-1, 0, -1, 1, 0, 1), Err(ConfigError::NonPositiveMaxSpeed));
}

#[test]
fn default_car_parameters() {
    let car = Car::default();
    assert_eq!(car.max_speed, 400_000_000);
    assert_eq!(car.max_steering_angle, 523_599);
    assert_eq!(car.accel_rate, 6_000_000);
    assert_eq!(car.brake_rate, 3_000_000);
    assert_eq!(car.wheel_base, 50_000_000);
    assert_eq!(car.track, 30_000_000);
    assert_eq!(car.speed, 0);
}

#[test]
fn one_forward_tick_from_rest() {
    let mut car = demo_car();
    car.update(intent(true, false, false, false), TICK);
    assert_eq!(car.speed, 333_320);
    assert!((car.speed as f64 / 1e6 - 0.333).abs() < 1e-3);
    assert_eq!(car.steering_angle, 0);
    assert_eq!(car.yaw, 0);
    let distance = car.travel_distance(TICK);
    assert_eq!(distance, 2777);
    let world = World::new(1_200_000_000, 800_000_000).unwrap();
    let mut pos = Position::origin();
    pos.translate_clamped(0, distance as i64, &world);
    assert_eq!(pos, Position { x: 0, y: 2777 });
}

#[test]
fn forward_wins_over_reverse() {
    let mut car = demo_car();
    car.update(intent(true, true, false, false), TICK);
    assert_eq!(car.speed, 333_320);
}

#[test]
fn brake_from_rest_reverses() {
    let mut car = demo_car();
    car.update(intent(false, true, false, false), TICK);
    assert_eq!(car.speed, -499_980);
    assert_eq!(car.travel_distance(TICK), -4166);
}

#[test]
fn speed_stops_at_max() {
    let mut car = demo_car();
    car.speed = 149_900_000;
    car.update(intent(true, false, false, false), TICK);
    assert_eq!(car.speed, 150_000_000);
    car.speed = -149_900_000;
    car.update(intent(false, true, false, false), TICK);
    assert_eq!(car.speed, -150_000_000);
}

#[test]
fn coasting_sheds_speed_without_crossing_zero() {
    let mut car = demo_car();
    car.speed = 1_000_000;
    car.update(InputIntent::idle(), TICK);
    assert_eq!(car.speed, 666_680);
    car.update(InputIntent::idle(), TICK);
    assert_eq!(car.speed, 333_360);
    car.update(InputIntent::idle(), TICK);
    assert_eq!(car.speed, 40);
    car.update(InputIntent::idle(), TICK);
    assert_eq!(car.speed, 0);
    car.update(InputIntent::idle(), TICK);
    assert_eq!(car.speed, 0);
}

#[test]
fn coasting_backwards_sheds_speed() {
    let mut car = demo_car();
    car.speed = -500_000;
    car.update(InputIntent::idle(), TICK);
    assert_eq!(car.speed, -166_680);
    car.update(InputIntent::idle(), TICK);
    assert_eq!(car.speed, 0);
}

#[test]
fn steering_turns_and_stops_at_lock() {
    let mut car = demo_car();
    car.update(intent(false, false, true, false), TICK);
    assert_eq!(car.steering_angle, 8726);
    car.update(intent(false, false, true, true), TICK);
    assert_eq!(car.steering_angle, 17452);
    for _ in 0..100 {
        car.update(intent(false, false, true, false), TICK);
    }
    assert_eq!(car.steering_angle, DEFAULT_MAX_STEERING);
    for _ in 0..200 {
        car.update(intent(false, false, false, true), TICK);
    }
    assert_eq!(car.steering_angle, -DEFAULT_MAX_STEERING);
}

#[test]
fn steering_relaxes_by_nine_tenths_each_tick() {
    let mut car = demo_car();
    car.steering_angle = 500_000;
    car.update(InputIntent::idle(), TICK);
    assert_eq!(car.steering_angle, 450_000);
    car.update(InputIntent::idle(), 1);
    assert_eq!(car.steering_angle, 405_000);
    car.update(InputIntent::idle(), 1_000_000);
    assert_eq!(car.steering_angle, 364_500);
    car.steering_angle = -7;
    car.update(InputIntent::idle(), TICK);
    assert_eq!(car.steering_angle, -6);
    car.steering_angle = 7;
    car.update(InputIntent::idle(), TICK);
    assert_eq!(car.steering_angle, 6);
}

#[test]
fn steering_relaxation_follows_geometric_law() {
    let dts = [TICK, 1, 0, 1_000_000, 16_667, 5, 123_456, TICK, 2, 99];
    for &initial in &[523_599i64, -523_599, 100_000, -1] {
        let mut car = demo_car();
        car.steering_angle = initial;
        for (n, &dt) in dts.iter().enumerate() {
            car.update(intent(n % 2 == 0, false, false, false), dt);
            let exact = initial as f64 * 0.9f64.powi(n as i32 + 1);
            let got = car.steering_angle as f64;
            assert!(got.abs() <= exact.abs() + 1e-6);
            assert!(exact.abs() - got.abs() < 9.0);
        }
    }
}

#[test]
fn limits_hold_over_mixed_input() {
    let mut car = demo_car();
    for n in 0..2000u64 {
        let i = intent(n % 3 == 0, n % 5 == 0, n % 7 < 3, n % 11 < 4);
        car.update(i, (n * 7919) % 200_000);
        assert!(car.speed.abs() <= car.max_speed);
        assert!(car.steering_angle.abs() <= car.max_steering_angle);
    }
}

#[test]
fn world_halves_its_size() {
    let world = World::new(1_200_000_000, 800_000_000).unwrap();
    assert_eq!(world.half_width, 600_000_000);
    assert_eq!(world.half_height, 400_000_000);
    assert_eq!(World::new(7, 5).unwrap(), World { half_width: 3, half_height: 2 });
    assert_eq!(World::new(-1, 5), None);
    assert_eq!(World::new(5, -1), None);
}

#[test]
fn translate_stops_on_the_violated_border() {
    let world = World::new(1_200_000_000, 800_000_000).unwrap();
    let mut pos = Position { x: 599_000_000, y: 10 };
    pos.translate_clamped(5_000_000, 20, &world);
    assert_eq!(pos, Position { x: 600_000_000, y: 30 });
    let mut pos = Position { x: -5, y: -399_999_000 };
    pos.translate_clamped(7, -2_000, &world);
    assert_eq!(pos, Position { x: 2, y: -400_000_000 });
    let mut pos = Position { x: 0, y: 0 };
    pos.translate_clamped(i64::MIN, i64::MAX, &world);
    assert_eq!(pos, Position { x: -600_000_000, y: 400_000_000 });
    let mut pos = Position { x: 1, y: 1 };
    pos.translate_clamped(3, 4, &world);
    assert_eq!(pos, Position { x: 4, y: 5 });
}

#[test]
fn clamp_position_projects_onto_world() {
    let world = World::new(10, 20).unwrap();
    assert_eq!(world.clamp_position(Position { x: 9, y: -30 }), Position { x: 5, y: -10 });
    assert_eq!(world.clamp_position(Position { x: -2, y: 3 }), Position { x: -2, y: 3 });
}
