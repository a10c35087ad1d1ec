use rl::agent::Agent;
use rl::mlp::{Layer, MultiLayerPerceptron, argmax};
use rl::model_io::{ModelError, NamedTensor, TensorData, slot_key};
use rl::mountaincar::{MountainAction, MountainCar, ParabolicGround};

fn valley() -> ParabolicGround {
    ParabolicGround::new(500, 1000, 1000)
}

fn car_at(pos: i64, speed: i64) -> MountainCar<ParabolicGround> {
    MountainCar { pos, speed, ground: valley() }
}

fn single_layer_net() -> MultiLayerPerceptron<2, 3> {
    let weight = TensorData { dims: vec![3, 2], data: vec![1000, 0, 0, 1000, 500, 500] };
    let bias = TensorData { dims: vec![3], data: vec![0, 0, 100] };
    MultiLayerPerceptron { layers: vec![Layer { weight, bias }] }
}

#[test]
fn slot_keys_are_fixed_width() {
    assert_eq!(slot_key(0), "00");
    assert_eq!(slot_key(1), "01");
    assert_eq!(slot_key(10), "10");
    assert_eq!(slot_key(99), "99");
}

#[test]
fn argmax_returns_first_greatest() {
    assert_eq!(argmax(&vec![5, 5, 1]), 0);
    assert_eq!(argmax(&vec![1, 5, 5]), 1);
    assert_eq!(argmax(&vec![1, 2, 9]), 2);
    assert_eq!(argmax(&vec![7]), 0);
}

#[test]
fn forward_computes_exact_fixed_point_values() {
    let m = single_layer_net();
    let y = m.forward(&vec![200, 300]).unwrap();
    assert_eq!(y, vec![200, 300, 350]);
}

#[test]
fn forward_rejects_wrong_input_length() {
    let m = single_layer_net();
    assert!(m.forward(&vec![200]).is_err());
    assert!(m.forward(&vec![1, 2, 3]).is_err());
}

#[test]
fn mlp_policy_follows_index_convention() {
    let m = single_layer_net();
    // Outputs [200, 300, 350]: the last index wins, playing Right.
    assert_eq!(m.policy(&car_at(200, 300)), Ok(MountainAction::Right));
    // Outputs [300, 200, 350 - 100 = 250 + 100]: index 0 wins only
    // when it strictly dominates or ties first.
    assert_eq!(m.policy(&car_at(300, -300)), Ok(MountainAction::Left));
}

#[test]
fn new_builds_chained_zero_layers() {
    let m = MultiLayerPerceptron::<2, 3>::new(&vec![4, 8]).unwrap();
    assert_eq!(m.layers.len(), 3);
    assert_eq!(m.layers[0].weight.dims, vec![4, 2]);
    assert_eq!(m.layers[1].weight.dims, vec![8, 4]);
    assert_eq!(m.layers[2].weight.dims, vec![3, 8]);
    assert!(m.layers[0].weight.data.iter().all(|v| *v == 0));
    assert_eq!(m.layers[0].bias.dims, vec![4]);
}

#[test]
fn new_rejects_empty_topology() {
    assert_eq!(
        MultiLayerPerceptron::<2, 3>::new(&vec![]).unwrap_err(),
        ModelError::BadTopology,
    );
    assert_eq!(
        MultiLayerPerceptron::<2, 3>::new(&vec![0]).unwrap_err(),
        ModelError::BadTopology,
    );
}

// The model round trip: saving and reloading reproduces every weight
// and bias exactly, and the reloaded network chooses the same actions
// on a battery of feature vectors.
#[test]
fn model_round_trip_is_exact() {
    let m = MultiLayerPerceptron::<2, 3>::new(&vec![4, 8]).unwrap();
    let mut m = m;
    m.layers[0].weight.data[0] = 700;
    m.layers[0].bias.data[1] = -300;
    m.layers[1].weight.data[5] = 250;
    m.layers[2].weight.data[7] = -999;
    m.layers[2].bias.data[2] = 123;
    let entries = m.to_entries();
    assert_eq!(entries.len(), 6);
    assert_eq!(entries[0].name, "00");
    assert_eq!(entries[1].name, "01");
    assert_eq!(entries[4].name, "04");
    let m2 = MultiLayerPerceptron::<2, 3>::from_entries(&entries).unwrap();
    assert_eq!(m2.layers.len(), m.layers.len());
    for i in 0..m.layers.len() {
        assert_eq!(m2.layers[i].weight.dims, m.layers[i].weight.dims);
        assert_eq!(m2.layers[i].weight.data, m.layers[i].weight.data);
        assert_eq!(m2.layers[i].bias.dims, m.layers[i].bias.dims);
        assert_eq!(m2.layers[i].bias.data, m.layers[i].bias.data);
    }
    let battery =
        [(0, 0), (200, 300), (-500, 100), (1000, -1000), (275, 0), (900, 150)];
    for (pos, speed) in battery {
        assert_eq!(m.policy(&car_at(pos, speed)), m2.policy(&car_at(pos, speed)));
    }
}

#[test]
fn mlp_load_reports_odd_key_count() {
    let m = single_layer_net();
    let mut entries = m.to_entries();
    entries.pop();
    assert_eq!(
        MultiLayerPerceptron::<2, 3>::from_entries(&entries).unwrap_err(),
        ModelError::OddKeyCount,
    );
}

#[test]
fn mlp_load_reports_empty_model() {
    let entries: Vec<NamedTensor> = vec![];
    assert_eq!(
        MultiLayerPerceptron::<2, 3>::from_entries(&entries).unwrap_err(),
        ModelError::BadTopology,
    );
}

#[test]
fn mlp_load_reports_missing_slot() {
    let m = single_layer_net();
    let mut entries = m.to_entries();
    entries[1].name = "07".to_owned();
    assert_eq!(
        MultiLayerPerceptron::<2, 3>::from_entries(&entries).unwrap_err(),
        ModelError::MissingKey,
    );
}

#[test]
fn mlp_load_reports_shape_mismatch() {
    let m = single_layer_net();
    let mut entries = m.to_entries();
    entries[1].tensor = TensorData { dims: vec![2], data: vec![0, 0] };
    assert_eq!(
        MultiLayerPerceptron::<2, 3>::from_entries(&entries).unwrap_err(),
        ModelError::ShapeMismatch,
    );
}

#[test]
fn mlp_load_reports_out_of_range_value() {
    let m = single_layer_net();
    let mut entries = m.to_entries();
    entries[0].tensor.data[1] = 1_500_000_000;
    assert_eq!(
        MultiLayerPerceptron::<2, 3>::from_entries(&entries).unwrap_err(),
        ModelError::ValueOutOfRange,
    );
}

#[test]
fn model_error_messages_are_descriptive() {
    assert_eq!(
        ModelError::MissingKey.message(),
        "A required tensor key is not in the model file.",
    );
    assert!(ModelError::OddKeyCount.message().len() > 0);
    assert!(ModelError::ShapeMismatch.message().len() > 0);
    assert!(ModelError::ValueOutOfRange.message().len() > 0);
    assert!(ModelError::BadTopology.message().len() > 0);
}
