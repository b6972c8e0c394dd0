use bjr_logic::parameter_manager::{
    FloatBits, LogicRunnerPeriodUs, LongPressThresholdMs, MCKp, MotorUpperVelLimit, ParameterList,
    ParameterManager, ParameterType, TouchCenterOffsetX, TouchCenterOffsetY, PARAMETER_COUNT,
};

#[test]
fn parameters_start_at_their_defaults() {
    let pm = ParameterManager::new();
    assert_eq!(pm.get::<LongPressThresholdMs>(), 1000);
    assert_eq!(pm.get::<LogicRunnerPeriodUs>(), 3000);
    assert_eq!(pm.get::<TouchCenterOffsetX>(), -2712);
    assert_eq!(pm.get::<TouchCenterOffsetY>(), -1933);
    assert_eq!(f32::from_bits(pm.get::<MotorUpperVelLimit>().bits), 1e6f32);
    assert_eq!(f32::from_bits(pm.get::<MCKp>().bits), 27.5f32);
}

#[test]
fn parameter_read_returns_write_and_keeps_others() {
    let mut pm = ParameterManager::new();
    pm.set::<TouchCenterOffsetX>(-5);
    assert_eq!(pm.get::<TouchCenterOffsetX>(), -5);
    assert_eq!(pm.get::<TouchCenterOffsetY>(), -1933);
    pm.set::<MCKp>(FloatBits { bits: 3.5f32.to_bits() });
    assert_eq!(f32::from_bits(pm.get::<MCKp>().bits), 3.5f32);
    assert_eq!(pm.get::<LongPressThresholdMs>(), 1000);
}

#[test]
fn parameter_words_by_name() {
    let mut pm = ParameterManager::new();
    assert_eq!(pm.get_word(ParameterList::LongPressThresholdMs), 1000);
    pm.set_word(ParameterList::LongPressThresholdMs, 250);
    assert_eq!(pm.get::<LongPressThresholdMs>(), 250);
    assert_eq!(ParameterList::LongPressThresholdMs.index(), LongPressThresholdMs::index());
    assert!(ParameterList::TrimPlateAngleB.index() < PARAMETER_COUNT);
    assert_eq!(pm.get_word(ParameterList::TouchCenterOffsetX), (-2712i32) as u32);
}
