use fwumious_wabbit::float_bits::ONE_BITS;
use fwumious_wabbit::model_instance::ModelInstance;
use fwumious_wabbit::regressor::Regressor;

const ONE: u32 = ONE_BITS;

/// One full learn call: the verified dot product, the logistic link and the
/// adaptive factors (the two transcendental float steps the library leaves
/// to its driver), then the verified in-place update.
fn learn(rr: &mut Regressor, feature_buffer: &Vec<u32>, update: bool) -> f32 {
    let wsum = f32::from_bits(rr.dot_product(feature_buffer));
    let prediction: f32 = (1.0 + (-wsum).exp()).recip();
    if update {
        let prediction_bits = prediction.to_bits();
        let seen = rr.accumulate_gradients(feature_buffer, prediction_bits);
        let minus_power_t = -f32::from_bits(rr.model_instance.power_t_bits);
        let adapt: Vec<u32> = seen
            .iter()
            .map(|g| f32::from_bits(*g).powf(minus_power_t).to_bits())
            .collect();
        rr.apply_updates(feature_buffer, prediction_bits, &adapt);
    }
    prediction
}

#[test]
fn test_power_t_zero() {
    let mut mi = ModelInstance::new_empty();
    mi.learning_rate_bits = 0.1f32.to_bits();
    mi.power_t_bits = 0.0f32.to_bits();
    mi.hash_bits = 18;

    let mut rr = Regressor::new(&mi);
    let mut p: f32;

    // Empty model: no matter how many features, prediction is 0.5
    p = learn(&mut rr, &vec![0], false);
    assert_eq!(p, 0.5);
    p = learn(&mut rr, &vec![0, 1, ONE], false);
    assert_eq!(p, 0.5);
    p = learn(&mut rr, &vec![0, 1, ONE, 2, ONE], false);
    assert_eq!(p, 0.5);

    p = learn(&mut rr, &vec![0, 1, ONE], true);
    assert_eq!(p, 0.5);
    p = learn(&mut rr, &vec![0, 1, ONE], true);
    assert_eq!(p, 0.48750263);
    p = learn(&mut rr, &vec![0, 1, ONE], true);
    assert_eq!(p, 0.47533244);
}

#[test]
fn test_power_t_half() {
    let mut mi = ModelInstance::new_empty();
    mi.learning_rate_bits = 0.1f32.to_bits();
    mi.power_t_bits = 0.5f32.to_bits();
    mi.hash_bits = 18;

    let mut rr = Regressor::new(&mi);
    let mut p: f32;

    p = learn(&mut rr, &vec![0, 1, ONE], true);
    assert_eq!(p, 0.5);
    p = learn(&mut rr, &vec![0, 1, ONE], true);
    assert_eq!(p, 0.4750208);
    p = learn(&mut rr, &vec![0, 1, ONE], true);
    assert_eq!(p, 0.45788094);
}

#[test]
fn test_power_t_half_two_features() {
    let mut mi = ModelInstance::new_empty();
    mi.learning_rate_bits = 0.1f32.to_bits();
    mi.power_t_bits = 0.5f32.to_bits();
    mi.hash_bits = 18;

    let mut rr = Regressor::new(&mi);
    let mut p: f32;

    // Here we take twice two features and then once just one
    p = learn(&mut rr, &vec![0, 1, ONE, 2, ONE], true);
    assert_eq!(p, 0.5);
    p = learn(&mut rr, &vec![0, 1, ONE, 2, ONE], true);
    assert_eq!(p, 0.45016602);
    p = learn(&mut rr, &vec![0, 1, ONE], true);
    assert_eq!(p, 0.45836908);
}

#[test]
fn test_non_one_weight() {
    let mut mi = ModelInstance::new_empty();
    mi.learning_rate_bits = 0.1f32.to_bits();
    mi.power_t_bits = 0.0f32.to_bits();
    mi.hash_bits = 18;

    let mut rr = Regressor::new(&mi);
    let mut p: f32;
    let two = 2.0_f32.to_bits();

    p = learn(&mut rr, &vec![0, 1, two], true);
    assert_eq!(p, 0.5);
    p = learn(&mut rr, &vec![0, 1, two], true);
    assert_eq!(p, 0.45016602);
    p = learn(&mut rr, &vec![0, 1, two], true);
    assert_eq!(p, 0.40611085);
}
