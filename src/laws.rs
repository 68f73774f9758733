//! Properties of the learning rule and of one adjustment step.
use vstd::prelude::*;

use crate::fixed::ONE;
use crate::neurology::{
    contribution, em_total, lemma_em_total_prefix, learned_weight, prediction, reconstruction,
    step_size, CompAENetwork,
};

verus! {

/// A learning step never makes a weight negative, whatever the error, and
/// keeps it representable.
pub proof fn lemma_learned_weight_in_range(w: int, error: int, em: int, rate: int, total: int)
    requires
        0 <= w <= u64::MAX,
        0 <= em,
        0 <= rate,
        0 <= total,
    ensures
        0 <= learned_weight(w, error, em, rate, total) <= u64::MAX,
{
    lemma_step_size_nonneg(error, em, rate, total);
}

proof fn lemma_step_size_nonneg(error: int, em: int, rate: int, total: int)
    requires
        0 <= em,
        0 <= rate,
        0 <= total,
    ensures
        step_size(error, em, rate, total) >= 0,
{
    if total != 0 {
        let m = crate::neurology::abs(error);
        assert(m * em * rate / (total * (ONE as int)) >= 0) by (nonlinear_arith)
            requires m >= 0, em >= 0, rate >= 0, total > 0;
    }
}

/// When an error would drive a weight below 0, the weight becomes exactly
/// 0, and further steps against a positive error leave it at 0.
pub proof fn lemma_clamp_at_floor(
    w: int,
    error: int,
    em: int,
    rate: int,
    total: int,
    next_error: int,
    next_em: int,
    next_rate: int,
    next_total: int,
)
    requires
        error > 0,
        w - step_size(error, em, rate, total) < 0,
        next_error > 0,
        0 <= next_em,
        0 <= next_rate,
        0 <= next_total,
    ensures
        learned_weight(w, error, em, rate, total) == 0,
        learned_weight(
            learned_weight(w, error, em, rate, total),
            next_error,
            next_em,
            next_rate,
            next_total,
        ) == 0,
{
    lemma_step_size_nonneg(next_error, next_em, next_rate, next_total);
}

/// One adjustment is a function of the state it starts from: two equal
/// networks end with the same activations, total, inputs and weights.
pub proof fn lemma_adjustment_deterministic(
    a: CompAENetwork,
    b: CompAENetwork,
    a_next: CompAENetwork,
    b_next: CompAENetwork,
)
    requires
        a.wf(),
        a == b,
        a.adjusts_to(&a_next),
        b.adjusts_to(&b_next),
    ensures
        a_next.weight_holder == b_next.weight_holder,
        a_next.inputs@ == b_next.inputs@,
        a_next.neurons.len() == b_next.neurons.len(),
        forall|j: int|
            0 <= j < a_next.neurons.len() ==> {
                &&& (#[trigger] a_next.neurons[j]).current_em == b_next.neurons[j].current_em
                &&& a_next.neurons[j].weights@ == b_next.neurons[j].weights@
            },
{
    let k = a.neurons.len();
    lemma_em_total_prefix(a_next.neurons@, b_next.neurons@, k as nat);
    assert(a_next.inputs@ =~= b_next.inputs@);
    assert forall|j: int| 0 <= j < a_next.neurons.len() implies {
        &&& (#[trigger] a_next.neurons[j]).current_em == b_next.neurons[j].current_em
        &&& a_next.neurons[j].weights@ == b_next.neurons[j].weights@
    } by {
        assert forall|i: int| 0 <= i < a_next.neurons[j].weights.len() implies a_next.neurons[j].weights[i]
            == b_next.neurons[j].weights[i] by {
            assert(a_next.neurons[j].weights[i] == learned_weight(
                a.neurons[j].weights[i] as int,
                a_next.inputs[i].current_reconstruction_error as int,
                a_next.neurons[j].current_em as int,
                a.neurons[j].learning_constant as int,
                a_next.weight_holder.total_weights as int,
            ));
        }
        assert(a_next.neurons[j].weights@ =~= b_next.neurons[j].weights@);
    }
}

/// With a single neuron, the reconstruction of every pixel is exactly the
/// neuron's weight for it; so with uniform weights equal to the activation,
/// every reconstruction is the activation.
pub proof fn lemma_single_neuron_reconstruction(a: CompAENetwork, next: CompAENetwork, i: int)
    requires
        a.wf(),
        a.neurons.len() == 1,
        a.adjusts_to(&next),
        next.neurons[0].current_em > 0,
        0 <= i < a.inputs.len(),
    ensures
        next.weight_holder.total_weights == next.neurons[0].current_em,
        reconstruction(
            next.inputs[i].total_weighted_prediction as int,
            next.weight_holder.total_weights as int,
        ) == a.neurons[0].weights[i],
        a.neurons[0].weights[i] == next.neurons[0].current_em ==> reconstruction(
            next.inputs[i].total_weighted_prediction as int,
            next.weight_holder.total_weights as int,
        ) == next.neurons[0].current_em,
{
    let em = next.neurons[0].current_em as int;
    let w = a.neurons[0].weights[i] as int;
    let first = next.neurons[0];
    reveal_with_fuel(em_total, 2);
    reveal_with_fuel(prediction, 2);
    assert(em_total(next.neurons@, 1) == em);
    assert(prediction(a.neurons@, a.inputs@, i, 1) == contribution(em, w));
    assert(em * w / em == w) by (nonlinear_arith)
        requires em > 0;
}

} // verus!
