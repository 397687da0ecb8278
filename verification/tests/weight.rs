use bitcoin::transaction::predict_weight;
use split_spend::weight::{compact_size, InputWeightPrediction, SCHNORR_SIGNATURE_SIZE};

/// What bitcoin adds to the weight of a transaction for the unlocking
/// script and the witness of its one input.
fn bitcoin_weight(input_script_len: usize, lengths: &[usize]) -> u64 {
    let with = bitcoin::transaction::InputWeightPrediction::new(input_script_len, lengths);
    let total = predict_weight([with], []).to_wu();
    // Version, counts and locktime at factor four, outpoint and sequence,
    // and the two bytes of segwit marker and flag where there is a witness.
    let frame = 4 * (4 + 1 + 1 + 4) + 4 * (32 + 4 + 4);
    if lengths.is_empty() {
        total - frame
    } else {
        total - frame - 2
    }
}

#[test]
fn compact_sizes_grow_at_the_boundaries() {
    assert_eq!(compact_size(0), 1);
    assert_eq!(compact_size(0xfc), 1);
    assert_eq!(compact_size(0xfd), 3);
    assert_eq!(compact_size(0xffff), 3);
    assert_eq!(compact_size(0x1_0000), 5);
    assert_eq!(compact_size(0xffff_ffff), 5);
    assert_eq!(compact_size(0x1_0000_0000), 9);
}

#[test]
fn signature_size_is_that_of_bitcoin() {
    assert_eq!(SCHNORR_SIGNATURE_SIZE, bitcoin::key::constants::SCHNORR_SIGNATURE_SIZE);
}

#[test]
fn a_key_spend_weighs_seventy() {
    let prediction = InputWeightPrediction::new(0, &[64]);
    assert_eq!(prediction.script_size(), 1);
    assert_eq!(prediction.witness_size(), 1 + 1 + 64);
    assert_eq!(prediction.weight(), 70);
}

#[test]
fn an_empty_witness_takes_no_bytes() {
    let prediction = InputWeightPrediction::new(0, &[]);
    assert_eq!(prediction.script_size(), 1);
    assert_eq!(prediction.witness_size(), 0);
    assert_eq!(prediction.weight(), 4);
}

#[test]
fn script_bytes_count_four_times() {
    let prediction = InputWeightPrediction::new(107, &[]);
    assert_eq!(prediction.script_size(), 108);
    assert_eq!(prediction.weight(), 432);
    let prediction = InputWeightPrediction::new(253, &[]);
    assert_eq!(prediction.script_size(), 256);
}

#[test]
fn long_elements_take_longer_compact_sizes() {
    let prediction = InputWeightPrediction::new(0, &[64, 253, 70_000]);
    assert_eq!(prediction.witness_size(), 1 + (1 + 64) + (3 + 253) + (5 + 70_000));
    let many = vec![0usize; 253];
    let prediction = InputWeightPrediction::new(0, &many);
    assert_eq!(prediction.witness_size(), 3 + 253);
}

#[test]
fn predictions_agree_with_bitcoin() {
    let cases: [(usize, Vec<usize>); 8] = [
        (0, vec![]),
        (0, vec![64]),
        (0, vec![64, 32, 74, 97]),
        (0, vec![64, 40, 97]),
        (0, vec![64, 32, 69, 65]),
        (107, vec![]),
        (23, vec![72, 33]),
        (0, vec![0, 252, 253, 65535, 65536]),
    ];
    for (script_len, lengths) in cases {
        let prediction = InputWeightPrediction::new(script_len, &lengths);
        assert_eq!(
            prediction.weight() as u64,
            bitcoin_weight(script_len, &lengths),
            "script {} witness {:?}",
            script_len,
            lengths
        );
    }
}

#[test]
fn a_prediction_is_a_plain_value() {
    let prediction = InputWeightPrediction::new(0, &[64, 32]);
    let copy = prediction;
    assert_eq!(copy, prediction);
    assert_ne!(prediction, InputWeightPrediction::new(0, &[64, 33]));
}
