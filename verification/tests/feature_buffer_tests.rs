use fwumious_wabbit::feature_buffer::FeatureBuffer;
use fwumious_wabbit::float_bits::ONE_BITS;
use fwumious_wabbit::model_instance::{FeatureComboDesc, ModelInstance};

const ONE: u32 = ONE_BITS;
const VOWPAL_FNV_PRIME: u32 = 16777619;

fn add_header(v2: Vec<u32>) -> Vec<u32> {
    let mut rr: Vec<u32> = vec![100, 1];
    rr.extend(v2);
    rr
}

#[test]
fn test_constant() {
    let mut mi = ModelInstance::new_empty();
    mi.add_constant_feature = true;
    mi.feature_combo_descs.push(FeatureComboDesc {
        feature_indices: vec![0],
        weight_bits: 1.0f32.to_bits(),
    });

    let mut fb = FeatureBuffer::new(&mi);
    let rb = add_header(vec![0, 0]); // no feature
    fb.translate_vowpal(&rb);
    assert_eq!(fb.output_buffer, vec![1, 11650396, ONE]); // vw compatibility - no feature is no feature
}

#[test]
fn test_single_once() {
    let mut mi = ModelInstance::new_empty();
    mi.add_constant_feature = false;
    mi.feature_combo_descs.push(FeatureComboDesc {
        feature_indices: vec![0],
        weight_bits: 1.0f32.to_bits(),
    });

    let mut fb = FeatureBuffer::new(&mi);
    let rb = add_header(vec![0, 0]); // no feature
    fb.translate_vowpal(&rb);
    assert_eq!(fb.output_buffer, vec![1]); // vw compatibility - no feature is no feature

    let rb = add_header(vec![4, 5, 0xfea]);
    fb.translate_vowpal(&rb);
    assert_eq!(fb.output_buffer, vec![1, 0xfea, ONE]);

    let rb = add_header(vec![4, 6, 0xfea, 0xfeb]);
    fb.translate_vowpal(&rb);
    assert_eq!(fb.output_buffer, vec![1, 0xfea, ONE, 0xfeb, ONE]);
}

#[test]
fn test_single_twice() {
    let mut mi = ModelInstance::new_empty();
    mi.add_constant_feature = false;
    mi.feature_combo_descs.push(FeatureComboDesc {
        feature_indices: vec![0],
        weight_bits: 1.0f32.to_bits(),
    });
    mi.feature_combo_descs.push(FeatureComboDesc {
        feature_indices: vec![1],
        weight_bits: 1.0f32.to_bits(),
    });

    let mut fb = FeatureBuffer::new(&mi);

    let rb = add_header(vec![0, 0, 0, 0]);
    fb.translate_vowpal(&rb);
    assert_eq!(fb.output_buffer, vec![1]);

    let rb = add_header(vec![6, 7, 0, 0, 0xfea]);
    fb.translate_vowpal(&rb);
    assert_eq!(fb.output_buffer, vec![1, 0xfea, ONE]);

    let rb = add_header(vec![6, 7, 7, 8, 0xfea, 0xfeb]);
    fb.translate_vowpal(&rb);
    assert_eq!(fb.output_buffer, vec![1, 0xfea, ONE, 0xfeb, ONE]);
}

// for singles, vowpal and fwumnious are the same
// however for doubles they are not
#[test]
fn test_double_vowpal() {
    let mut mi = ModelInstance::new_empty();
    mi.add_constant_feature = false;
    mi.feature_combo_descs.push(FeatureComboDesc {
        feature_indices: vec![0, 1],
        weight_bits: 1.0f32.to_bits(),
    });

    let mut fb = FeatureBuffer::new(&mi);
    let rb = add_header(vec![0, 0, 0, 0]);
    fb.translate_vowpal(&rb);
    assert_eq!(fb.output_buffer, vec![1]);

    let rb = add_header(vec![6, 7, 0, 0, (0xfea as u32).overflowing_mul(VOWPAL_FNV_PRIME).0]);
    fb.translate_vowpal(&rb);
    assert_eq!(fb.output_buffer, vec![1]); // since the other feature is missing - VW compatibility says no feature is here

    let rb = add_header(vec![6, 7, 7, 8, 2988156968, 2422381320]);
    fb.translate_vowpal(&rb);
    assert_eq!(fb.output_buffer, vec![1, 434843120, ONE]);
}

#[test]
fn test_double_fwumnious() {
    let mut mi = ModelInstance::new_empty();
    mi.add_constant_feature = false;
    mi.feature_combo_descs.push(FeatureComboDesc {
        feature_indices: vec![0, 1],
        weight_bits: 1.0f32.to_bits(),
    });

    let mut fb = FeatureBuffer::new(&mi);
    let rb = add_header(vec![0, 0, 0, 0]);
    fb.translate_fwumnious(&rb);
    assert_eq!(fb.output_buffer, vec![1]);

    let rb = add_header(vec![6, 7, 0, 0, 0xfea]);
    fb.translate_fwumnious(&rb);
    assert_eq!(fb.output_buffer, vec![1]); // since the other feature is missing - VW compatibility says no feature is here

    let rb = add_header(vec![6, 8, 8, 10, 0xfea, 0xfeb, 0xfec, 0xfed]);
    fb.translate_fwumnious(&rb);
    assert_eq!(
        fb.output_buffer,
        vec![
            1,
            0xfea + 0xfec,
            ONE,
            0xfeb + 0xfec,
            ONE,
            0xfea + 0xfed,
            ONE,
            0xfeb + 0xfed,
            ONE
        ]
    );
}

#[test]
fn test_single_with_weight() {
    let mut mi = ModelInstance::new_empty();
    mi.add_constant_feature = false;
    mi.feature_combo_descs.push(FeatureComboDesc {
        feature_indices: vec![0],
        weight_bits: 2.0f32.to_bits(),
    });

    let mut fb = FeatureBuffer::new(&mi);
    let rb = add_header(vec![4, 5, 0xfea]);
    fb.translate_vowpal(&rb);
    let two = 2.0_f32.to_bits();

    assert_eq!(fb.output_buffer, vec![1, 0xfea, two]);
}
