use bjr_logic::limits::{
    Limit, LimitChecker, LimitError, LimitLevel, LimitReport, LimitWarning, MotorControlVelLimit,
    MotorPosLimit, MotorVelLimit,
};

// The velocity limits are the defaults of MotorUpperVelLimit / MotorLowerVelLimit.
const UPPER: f32 = 1e6;
const LOWER: f32 = -1e6;

#[test]
fn test_limit_within() {
    let test_motor_vel_limit = MotorVelLimit::new(LimitLevel::Error);
    let mut test_value = 10f32;
    assert!(test_motor_vel_limit.check(&mut test_value, UPPER, LOWER) == Ok(None));
}

#[test]
fn test_limit_above() {
    let test_motor_vel_limit = MotorVelLimit::new(LimitLevel::Error);
    let mut test_value = 1e7f32;
    assert!(
        test_motor_vel_limit.check(&mut test_value, UPPER, LOWER)
            == Err(LimitError::OverLimit(LimitReport { limit: 1e6, value: 1e7 }))
    );
}

#[test]
fn test_limit_below() {
    let test_motor_vel_limit = MotorVelLimit::new(LimitLevel::Error);
    let mut test_value = -1e7f32;
    assert!(
        test_motor_vel_limit.check(&mut test_value, UPPER, LOWER)
            == Err(LimitError::UnderLimit(LimitReport { limit: -1e6, value: -1e7 }))
    );
}

#[test]
fn test_limit_above_disabled() {
    let test_motor_vel_limit = MotorVelLimit::new(LimitLevel::Ignore);
    let mut test_value = 1e7f32;
    assert!(test_motor_vel_limit.check(&mut test_value, UPPER, LOWER) == Ok(None));
}

#[test]
fn limit_warn_returns_warning_and_keeps_value() {
    let limit = MotorPosLimit::new(LimitLevel::Warn);
    let mut value = 25i32;
    let result = limit.check(&mut value, 20, -20);
    assert_eq!(result, Ok(Some(LimitWarning(LimitReport { limit: 20, value: 25 }))));
    assert_eq!(value, 25);
}

#[test]
fn limit_clamp_replaces_value_by_crossed_bound() {
    let limit = MotorControlVelLimit::new(LimitLevel::Clamp);
    let mut high = 0.05f32;
    assert_eq!(limit.check(&mut high, 0.04, -0.04), Ok(None));
    assert_eq!(high, 0.04);
    let mut low = -0.05f32;
    assert_eq!(limit.check(&mut low, 0.04, -0.04), Ok(None));
    assert_eq!(low, -0.04);
    let mut inside = 0.01f32;
    assert_eq!(limit.check(&mut inside, 0.04, -0.04), Ok(None));
    assert_eq!(inside, 0.01);
}

#[test]
fn limit_level_can_be_changed() {
    let mut limit = MotorVelLimit::new(LimitLevel::Ignore);
    Limit::<i64>::set_level(&mut limit, LimitLevel::Error);
    assert_eq!(Limit::<i64>::get_level(&limit), LimitLevel::Error);
    let mut value = -5i64;
    assert_eq!(
        limit.check(&mut value, 10, 0),
        Err(LimitError::UnderLimit(LimitReport { limit: 0, value: -5 }))
    );
    let _checker = LimitChecker::new();
}

#[test]
fn limit_bound_itself_is_inside() {
    let limit = MotorPosLimit::new(LimitLevel::Error);
    let mut at_upper = 20u32;
    assert_eq!(limit.check(&mut at_upper, 20, 10), Ok(None));
    let mut at_lower = 10u32;
    assert_eq!(limit.check(&mut at_lower, 20, 10), Ok(None));
}

#[test]
fn limit_clamped_integers_stay_within_bounds() {
    let limit = MotorPosLimit::new(LimitLevel::Clamp);
    for start in [-100i32, -21, -20, 0, 20, 21, 100] {
        let mut value = start;
        assert_eq!(limit.check(&mut value, 20, -20), Ok(None));
        assert!((-20..=20).contains(&value));
    }
}

#[test]
fn limit_value_within_bounds_passes_every_level() {
    for level in [LimitLevel::Ignore, LimitLevel::Warn, LimitLevel::Clamp, LimitLevel::Error] {
        let limit = MotorVelLimit::new(level);
        let mut value = 7i32;
        assert_eq!(limit.check(&mut value, 10, -10), Ok(None));
        assert_eq!(value, 7);
    }
}
