use comp_ae::{intensity_from_byte, CompAENetwork, CompAENeuron, NeuronicInput, WeightHolder, ONE};

fn load_image(network: &mut CompAENetwork, side: usize, pixels: &[u64]) {
    for y in 0..side {
        for x in 0..side {
            network.load_val(x, y, pixels[y * side + x]);
        }
    }
}

fn weights_of(network: &CompAENetwork) -> Vec<Vec<u64>> {
    network.get_neurons().iter().map(|n| n.get_weights().clone()).collect()
}

#[test]
fn end_to_end_scenario() {
    let mut network = CompAENetwork::new(100_000, 2, vec![vec![250_000; 4]]);
    load_image(&mut network, 2, &[ONE, 0, 0, 0]);
    network.perform_adjustment();

    let neuron = &network.get_neurons()[0];
    assert_eq!(neuron.get_current_em(), 250_000);
    let holder = network.get_weight_holder();
    assert_eq!(holder.get_total_weight(), 250_000);
    for input in network.get_inputs() {
        assert_eq!(input.total_weighted_prediction, 62_500_000_000);
        assert_eq!(input.get_reconstruction(holder), 250_000);
    }
    assert_eq!(network.get_inputs()[0].get_reconstruction_error(), -750_000);
    assert_eq!(network.get_inputs()[1].get_reconstruction_error(), 250_000);
    assert_eq!(neuron.get_weights()[0], 325_000);
    assert_eq!(neuron.get_weights(), &vec![325_000, 225_000, 225_000, 225_000]);
}

#[test]
fn neuron_phases_step_by_step() {
    let mut holder = WeightHolder::new();
    let mut inputs = vec![NeuronicInput::new(); 4];
    inputs[0].load_input_measure(ONE);
    let mut neuron = CompAENeuron::new("a".to_string(), 100_000, vec![250_000; 4]);
    assert_eq!(neuron.compute_em(&inputs), 250_000);

    neuron.run_prediction_phase(&mut inputs, &mut holder);
    assert_eq!(neuron.get_current_em(), 250_000);
    assert_eq!(holder.get_total_weight(), 250_000);
    assert!(inputs.iter().all(|i| i.total_weighted_prediction == 62_500_000_000));

    for input in inputs.iter_mut() {
        input.cache_reconstruction_error(&holder);
    }
    assert_eq!(inputs[0].get_reconstruction_error(), -750_000);

    neuron.run_learning_phase(&inputs, &holder);
    assert_eq!(neuron.get_weights(), &vec![325_000, 225_000, 225_000, 225_000]);
    assert_eq!(neuron.get_name(), "a");
}

#[test]
fn weights_stay_in_range_over_training() {
    let side = 3;
    let initial: Vec<Vec<u64>> = (0..4u64)
        .map(|k| (0..9u64).map(|i| 1 + (k * 37 + i * 11) % 100_000).collect())
        .collect();
    let mut network = CompAENetwork::new(ONE, side, initial);
    for round in 0..30u64 {
        let pixels: Vec<u64> = (0..9u64).map(|i| ((round * 7 + i * 3) % 5) * ONE / 4).collect();
        load_image(&mut network, side, &pixels);
        network.perform_adjustment();
        for neuron in network.get_neurons() {
            assert_eq!(neuron.get_weights().len(), 9);
        }
    }
}

#[test]
fn clamp_drives_weight_to_exactly_zero() {
    let holder = WeightHolder { total_weights: ONE };
    let mut input = NeuronicInput::new();
    input.current_reconstruction_error = 900_000;
    let inputs = vec![input];
    let mut neuron = CompAENeuron::new("n".to_string(), ONE, vec![10]);
    neuron.current_em = ONE;
    neuron.run_learning_phase(&inputs, &holder);
    assert_eq!(neuron.get_weights()[0], 0);
    neuron.run_learning_phase(&inputs, &holder);
    neuron.run_learning_phase(&inputs, &holder);
    assert_eq!(neuron.get_weights()[0], 0);
}

#[test]
fn weight_grows_without_a_cap() {
    let holder = WeightHolder { total_weights: ONE };
    let mut input = NeuronicInput::new();
    input.current_reconstruction_error = -(ONE as i128);
    let mut neuron = CompAENeuron::new("n".to_string(), ONE, vec![999_999_995]);
    neuron.current_em = ONE;
    neuron.run_learning_phase(&vec![input], &holder);
    assert_eq!(neuron.get_weights()[0], 1_000_999_995);
}

#[test]
fn weight_growth_stops_at_largest_u64() {
    let holder = WeightHolder { total_weights: 1 };
    let mut input = NeuronicInput::new();
    input.current_reconstruction_error = -(ONE as i128);
    let mut neuron = CompAENeuron::new("n".to_string(), ONE, vec![u64::MAX - 5]);
    neuron.current_em = ONE;
    neuron.run_learning_phase(&vec![input], &holder);
    assert_eq!(neuron.get_weights()[0], u64::MAX);
}

#[test]
fn two_runs_give_identical_weights() {
    let side = 2;
    let initial = vec![vec![10_000, 20_000, 30_000, 40_000], vec![90_000, 5_000, 70_000, 1]];
    let images = [[ONE, 0, 500_000, 250_000], [0, ONE, ONE, 0], [300_000, 300_000, 0, ONE]];
    let mut a = CompAENetwork::new(1_000, side, initial.clone());
    let mut b = CompAENetwork::new(1_000, side, initial);
    for _epoch in 0..3 {
        for image in images.iter() {
            load_image(&mut a, side, image);
            a.perform_adjustment();
            load_image(&mut b, side, image);
            b.perform_adjustment();
        }
    }
    assert_eq!(weights_of(&a), weights_of(&b));
    assert_ne!(weights_of(&a), vec![vec![10_000, 20_000, 30_000, 40_000], vec![90_000, 5_000, 70_000, 1]]);
}

#[test]
fn total_is_sum_of_activations() {
    let initial = vec![vec![100_000, 0, 0, 0], vec![0, 200_000, 0, 0], vec![50_000; 4]];
    let mut network = CompAENetwork::new(1_000, 2, initial);
    load_image(&mut network, 2, &[ONE, 500_000, 0, 0]);
    network.perform_adjustment();
    let ems: Vec<u64> = network.get_neurons().iter().map(|n| n.get_current_em()).collect();
    assert_eq!(ems, vec![ONE, 500_000, 375_000]);
    assert_eq!(network.get_weight_holder().get_total_weight(), ems.iter().sum::<u64>());
}

#[test]
fn single_neuron_reconstruction_is_its_activation() {
    let mut network = CompAENetwork::new(1_000, 2, vec![vec![500_000; 4]]);
    load_image(&mut network, 2, &[500_000; 4]);
    network.perform_adjustment();
    let em = network.get_neurons()[0].get_current_em();
    assert_eq!(em, 500_000);
    let holder = network.get_weight_holder();
    for input in network.get_inputs() {
        assert_eq!(input.get_reconstruction(holder), em as u128);
        assert_eq!(input.get_reconstruction_error(), 0);
    }
    assert_eq!(network.get_neurons()[0].get_weights(), &vec![500_000; 4]);
}

#[test]
fn zero_weights_give_zero_activation() {
    let mut network = CompAENetwork::new(ONE, 2, vec![vec![0; 4]]);
    load_image(&mut network, 2, &[ONE; 4]);
    network.perform_adjustment();
    assert_eq!(network.get_neurons()[0].get_current_em(), 0);
    assert_eq!(network.get_weight_holder().get_total_weight(), 0);
    let holder = network.get_weight_holder();
    for input in network.get_inputs() {
        assert_eq!(input.get_reconstruction(holder), 0);
        assert_eq!(input.get_reconstruction_error(), -(ONE as i128));
    }
    assert_eq!(network.get_neurons()[0].get_weights(), &vec![0; 4]);
}

#[test]
fn loading_origin_clears_total() {
    let mut network = CompAENetwork::new(1_000, 2, vec![vec![250_000; 4]]);
    load_image(&mut network, 2, &[ONE, 0, 0, 0]);
    network.perform_adjustment();
    assert_eq!(network.get_weight_holder().get_total_weight(), 250_000);
    network.load_val(1, 1, 400_000);
    assert_eq!(network.get_weight_holder().get_total_weight(), 250_000);
    assert_eq!(network.get_inputs()[3].get_measure(), 400_000);
    assert_eq!(network.get_inputs()[3].total_weighted_prediction, 0);
    assert_eq!(network.get_inputs()[0].total_weighted_prediction, 62_500_000_000);
    network.load_val(0, 0, 0);
    assert_eq!(network.get_weight_holder().get_total_weight(), 0);
    assert_eq!(network.get_inputs()[0].get_measure(), 0);
}

#[test]
fn pixel_index_is_row_major() {
    let mut network = CompAENetwork::new(1_000, 3, vec![]);
    network.load_val(2, 1, 123);
    assert_eq!(network.get_inputs()[5].get_measure(), 123);
    assert_eq!(network.get_inputs().len(), 9);
}

#[test]
fn new_network_names_and_shapes() {
    let network = CompAENetwork::new(7, 2, vec![vec![1, 2, 3, 4], vec![5, 6, 7, 8]]);
    let neurons = network.get_neurons();
    assert_eq!(neurons.len(), 2);
    assert_eq!(neurons[0].get_name(), "0");
    assert_eq!(neurons[1].get_name(), "1");
    assert_eq!(neurons[1].learning_constant, 7);
    assert_eq!(neurons[1].get_weights(), &vec![5, 6, 7, 8]);
    assert!(network.get_inputs().iter().all(|i| i.get_measure() == 0));
}

#[test]
fn export_weights_as_grid() {
    let network = CompAENetwork::new(7, 2, vec![vec![1, 2, 3, 4], vec![5, 6, 7, 8]]);
    assert_eq!(network.get_neurons()[0].to_serializable(2), vec![vec![1, 2], vec![3, 4]]);
    assert_eq!(
        network.weight_matrices(),
        vec![vec![vec![1, 2], vec![3, 4]], vec![vec![5, 6], vec![7, 8]]]
    );
}

#[test]
fn holder_accumulates_and_clears() {
    let mut holder = WeightHolder::new();
    holder.incr_weight(5);
    holder.incr_weight(7);
    assert_eq!(holder.get_total_weight(), 12);
    holder.clear();
    assert_eq!(holder.get_total_weight(), 0);
}

#[test]
fn input_reconstruction_and_error() {
    let holder = WeightHolder { total_weights: 400_000 };
    let mut input = NeuronicInput::new();
    input.load_input_measure(100_000);
    input.incr_total_weighted_prediction(30_000_000_000);
    input.incr_total_weighted_prediction(50_000_000_000);
    assert_eq!(input.get_reconstruction(&holder), 200_000);
    input.cache_reconstruction_error(&holder);
    assert_eq!(input.get_reconstruction_error(), 100_000);
    input.clear_total_weighted_prediction();
    assert_eq!(input.get_reconstruction(&holder), 0);
    assert_eq!(input.get_reconstruction(&WeightHolder::new()), 0);
}

#[test]
fn intensity_scaling() {
    assert_eq!(intensity_from_byte(0), 0);
    assert_eq!(intensity_from_byte(255), ONE);
    assert_eq!(intensity_from_byte(128), 501_960);
}

#[test]
fn neuron_names_are_decimal_indices() {
    let network = CompAENetwork::new(7, 1, vec![vec![1]; 12]);
    let neurons = network.get_neurons();
    assert_eq!(neurons[9].get_name(), "9");
    assert_eq!(neurons[10].get_name(), "10");
    assert_eq!(neurons[11].get_name(), "11");
}

#[test]
fn single_neuron_reconstruction_is_its_weight() {
    let weights = vec![500_000, 1, 3, 0];
    let mut network = CompAENetwork::new(1_000, 2, vec![weights.clone()]);
    load_image(&mut network, 2, &[ONE, ONE, ONE, ONE]);
    network.perform_adjustment();
    assert_eq!(network.get_neurons()[0].get_current_em(), ONE);
    let holder = network.get_weight_holder();
    for (i, input) in network.get_inputs().iter().enumerate() {
        assert_eq!(input.get_reconstruction(holder), weights[i] as u128);
    }
}
