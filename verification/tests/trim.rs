use bjr_logic::parameter_manager::{FloatBits, ParameterManager, TrimPlateAngleA, TrimPlateAngleB};
use bjr_logic::trim::{Trimmer, TrimmerError};

fn bits(value: f32) -> FloatBits {
    FloatBits { bits: value.to_bits() }
}

/// Averages a full window and stores the mean, as the application does.
fn save<const N: usize>(trimmer: &mut Trimmer<TrimPlateAngleA, N>, params: &mut ParameterManager) -> Result<(), TrimmerError> {
    let mean = {
        let window = trimmer.full_window()?;
        let sum: f32 = window.iter().map(|sample| f32::from_bits(sample.bits)).sum();
        sum / (N as f32)
    };
    trimmer.save_trimming(params, bits(mean))
}

#[test]
fn test_load_and_flush() {
    let expected_trim_value = 1.0f32;
    let mut params = ParameterManager::new();
    params.set::<TrimPlateAngleA>(bits(expected_trim_value));
    let mut test_trimmer = Trimmer::<TrimPlateAngleA, 2>::new();
    assert_eq!(f32::from_bits(test_trimmer.get_trimming(&params).bits), expected_trim_value);
    test_trimmer.load_value(bits(10.0));
    assert!(save(&mut test_trimmer, &mut params) == Err(TrimmerError::BufferLowError));
    test_trimmer.flush_buffer();
    test_trimmer.load_value(bits(20.0));
    assert!(save(&mut test_trimmer, &mut params) == Err(TrimmerError::BufferLowError));
    test_trimmer.load_value(bits(10.0));
    test_trimmer.load_value(bits(20.0));
    assert!(save(&mut test_trimmer, &mut params) == Ok(()));
    assert!((f32::from_bits(test_trimmer.get_trimming(&params).bits) - 15.0).abs() < 1e-5f32);
}

#[test]
fn window_keeps_the_latest_samples() {
    let mut trimmer = Trimmer::<TrimPlateAngleA, 2>::new();
    trimmer.load_value(bits(1.0));
    trimmer.load_value(bits(2.0));
    trimmer.load_value(bits(3.0));
    assert_eq!(trimmer.full_window(), Ok(&[bits(2.0), bits(3.0)][..]));
}

#[test]
fn window_below_capacity_is_not_full() {
    let mut trimmer = Trimmer::<TrimPlateAngleA, 3>::new();
    trimmer.load_value(bits(1.0));
    trimmer.load_value(bits(2.0));
    assert_eq!(trimmer.full_window(), Err(TrimmerError::BufferLowError));
}

#[test]
fn refused_save_leaves_parameters_unchanged() {
    let mut params = ParameterManager::new();
    let before = params.get::<TrimPlateAngleA>();
    let mut trimmer = Trimmer::<TrimPlateAngleA, 2>::new();
    trimmer.load_value(bits(4.0));
    assert_eq!(trimmer.save_trimming(&mut params, bits(4.0)), Err(TrimmerError::BufferLowError));
    assert_eq!(params.get::<TrimPlateAngleA>(), before);
}

#[test]
fn save_writes_only_its_own_parameter() {
    let mut params = ParameterManager::new();
    let other = params.get::<TrimPlateAngleB>();
    let mut trimmer = Trimmer::<TrimPlateAngleA, 1>::new();
    trimmer.load_value(bits(0.5));
    assert_eq!(trimmer.save_trimming(&mut params, bits(0.5)), Ok(()));
    assert_eq!(params.get::<TrimPlateAngleA>(), bits(0.5));
    assert_eq!(params.get::<TrimPlateAngleB>(), other);
}
