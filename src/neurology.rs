//! The competing neurons, their shared inputs and the shared activation total.
use vstd::prelude::*;

use crate::fixed::{MAX_INPUTS, MAX_LEARNING_CONSTANT, MAX_NEURONS, ONE};

verus! {

/// The total activation produced by all neurons during the current
/// prediction phase; the normalizer of every reconstruction.
pub struct WeightHolder {
    pub total_weights: u64,
}

impl WeightHolder {
    pub fn new() -> (r: WeightHolder)
        ensures
            r.total_weights == 0,
    {
        WeightHolder { total_weights: 0 }
    }

    pub fn clear(&mut self)
        ensures
            final(self).total_weights == 0,
    {
        self.total_weights = 0;
    }

    pub fn incr_weight(&mut self, weight: u64)
        requires
            old(self).total_weights + weight <= u64::MAX,
        ensures
            final(self).total_weights == old(self).total_weights + weight,
    {
        self.total_weights = self.total_weights + weight;
    }

    pub fn get_total_weight(&self) -> (r: u64)
        ensures
            r == self.total_weights,
    {
        self.total_weights
    }
}

/// The reconstruction of a pixel: its accumulated prediction (kept at scale
/// `ONE * ONE`) divided by the total activation (at scale `ONE`), which gives
/// a value at scale `ONE`; 0 when no neuron was active.
pub open spec fn reconstruction(accumulated: int, total: int) -> int {
    if total == 0 {
        0
    } else {
        accumulated / total
    }
}

/// A pixel with nothing loaded.
pub open spec fn blank_input() -> NeuronicInput {
    NeuronicInput { measure: 0, total_weighted_prediction: 0, current_reconstruction_error: 0 }
}

/// One pixel: its measured intensity, the sum of the neurons' weighted
/// predictions for it (at scale `ONE * ONE`, so that no precision is lost),
/// and the cached signed reconstruction error.
#[derive(Clone, Copy)]
pub struct NeuronicInput {
    pub measure: u64,
    pub total_weighted_prediction: u128,
    pub current_reconstruction_error: i128,
}

impl NeuronicInput {
    pub fn new() -> (r: NeuronicInput)
        ensures
            r == blank_input(),
    {
        NeuronicInput { measure: 0, total_weighted_prediction: 0, current_reconstruction_error: 0 }
    }

    pub fn get_measure(&self) -> (r: u64)
        ensures
            r == self.measure,
    {
        self.measure
    }

    pub fn load_input_measure(&mut self, measure: u64)
        ensures
            *final(self) == (NeuronicInput { measure, ..*old(self) }),
    {
        self.measure = measure;
    }

    pub fn incr_total_weighted_prediction(&mut self, weighted_prediction: u128)
        requires
            old(self).total_weighted_prediction + weighted_prediction <= u128::MAX,
        ensures
            *final(self) == (NeuronicInput {
                total_weighted_prediction: (old(self).total_weighted_prediction
                    + weighted_prediction) as u128,
                ..*old(self)
            }),
    {
        self.total_weighted_prediction = self.total_weighted_prediction + weighted_prediction;
    }

    pub fn clear_total_weighted_prediction(&mut self)
        ensures
            *final(self) == (NeuronicInput { total_weighted_prediction: 0, ..*old(self) }),
    {
        self.total_weighted_prediction = 0;
    }

    /// The accumulated prediction normalized by the total activation.
    pub fn get_reconstruction(&self, weight_holder: &WeightHolder) -> (r: u128)
        ensures
            r == reconstruction(
                self.total_weighted_prediction as int,
                weight_holder.total_weights as int,
            ),
            r <= self.total_weighted_prediction,
    {
        let total = weight_holder.total_weights;
        if total == 0 {
            0
        } else {
            self.total_weighted_prediction / (total as u128)
        }
    }

    /// Stores the signed error `reconstruction - measure`.
    pub fn cache_reconstruction_error(&mut self, weight_holder: &WeightHolder)
        requires
            old(self).total_weighted_prediction <= i128::MAX,
        ensures
            *final(self) == (NeuronicInput {
                current_reconstruction_error: (reconstruction(
                    old(self).total_weighted_prediction as int,
                    weight_holder.total_weights as int,
                ) - old(self).measure) as i128,
                ..*old(self)
            }),
            final(self).current_reconstruction_error == reconstruction(
                old(self).total_weighted_prediction as int,
                weight_holder.total_weights as int,
            ) - old(self).measure,
    {
        let r = self.get_reconstruction(weight_holder);
        self.current_reconstruction_error = r as i128 - self.measure as i128;
    }

    pub fn get_reconstruction_error(&self) -> (r: i128)
        ensures
            r == self.current_reconstruction_error,
    {
        self.current_reconstruction_error
    }
}


/// The sum of the first `n` weights.
pub open spec fn weight_sum(w: Seq<u64>, n: nat) -> int
    decreases n,
{
    if n == 0 {
        0
    } else {
        weight_sum(w, (n - 1) as nat) + w[n - 1]
    }
}

/// The sum of `w[i] * inputs[i].measure` over the first `n` indices.
pub open spec fn weighted_measure_sum(w: Seq<u64>, inputs: Seq<NeuronicInput>, n: nat) -> int
    decreases n,
{
    if n == 0 {
        0
    } else {
        weighted_measure_sum(w, inputs, (n - 1) as nat) + w[n - 1] * inputs[n - 1].measure
    }
}

/// A neuron's activation ("em"): its weighted sum of the measures divided by
/// the sum of its weights (the weight-sum normalization policy), or 0 when all
/// of its weights are 0.
pub open spec fn activation(w: Seq<u64>, inputs: Seq<NeuronicInput>) -> int {
    let mass = weight_sum(w, w.len());
    if mass == 0 {
        0
    } else {
        weighted_measure_sum(w, inputs, w.len()) / mass
    }
}

/// What a neuron with activation `em` adds to the prediction of a pixel that
/// it weighs with `w`, at scale `ONE * ONE`.
pub open spec fn contribution(em: int, w: int) -> int {
    em * w
}

/// The size of a learning step: `|error| * (em / total) * rate`, or 0 when the
/// total activation is 0.
pub open spec fn step_size(error: int, em: int, rate: int, total: int) -> int {
    if total == 0 {
        0
    } else {
        abs(error) * em * rate / (total * (ONE as int))
    }
}

pub open spec fn abs(x: int) -> int {
    if x < 0 {
        -x
    } else {
        x
    }
}

/// A weight after one learning step: it moves against the sign of the
/// error and is clamped at 0 from below. A weight that would grow past the
/// largest `u64` stays at that value: a limit of the representation, not of
/// the learning rule.
pub open spec fn learned_weight(w: int, error: int, em: int, rate: int, total: int) -> int {
    let step = step_size(error, em, rate, total);
    if error > 0 {
        if w >= step {
            w - step
        } else {
            0
        }
    } else if w + step <= u64::MAX {
        w + step
    } else {
        u64::MAX as int
    }
}

pub proof fn lemma_weight_sum_bound(w: Seq<u64>, n: nat)
    requires
        n <= w.len(),
    ensures
        0 <= weight_sum(w, n) <= n * u64::MAX,
    decreases n,
{
    if n > 0 {
        lemma_weight_sum_bound(w, (n - 1) as nat);
    }
}

pub proof fn lemma_weighted_measure_sum_bound(w: Seq<u64>, inputs: Seq<NeuronicInput>, n: nat)
    requires
        n <= w.len(),
        n <= inputs.len(),
        forall|i: int| 0 <= i < inputs.len() ==> inputs[i].measure <= ONE,
    ensures
        0 <= weighted_measure_sum(w, inputs, n) <= ONE * weight_sum(w, n),
    decreases n,
{
    if n > 0 {
        lemma_weighted_measure_sum_bound(w, inputs, (n - 1) as nat);
        let a = w[n - 1] as int;
        let b = inputs[n - 1].measure as int;
        assert(0 <= a * b <= ONE * a) by (nonlinear_arith)
            requires 0 <= a, 0 <= b <= ONE;
    }
}

pub proof fn lemma_activation_bound(w: Seq<u64>, inputs: Seq<NeuronicInput>)
    requires
        w.len() <= inputs.len(),
        forall|i: int| 0 <= i < inputs.len() ==> inputs[i].measure <= ONE,
    ensures
        0 <= activation(w, inputs) <= ONE,
{
    let mass = weight_sum(w, w.len());
    lemma_weighted_measure_sum_bound(w, inputs, w.len());
    if mass != 0 {
        let s = weighted_measure_sum(w, inputs, w.len());
        assert(0 <= s / mass <= ONE) by (nonlinear_arith)
            requires 0 <= s <= ONE * mass, mass > 0;
    }
}

pub proof fn lemma_contribution_bound(em: int, w: int)
    requires
        0 <= em <= ONE,
        0 <= w <= u64::MAX,
    ensures
        0 <= contribution(em, w) <= em * u64::MAX,
        em * u64::MAX <= ONE * u64::MAX,
{
    assert(0 <= em * w <= em * u64::MAX) by (nonlinear_arith)
        requires 0 <= em, 0 <= w <= u64::MAX;
    assert(em * u64::MAX <= ONE * u64::MAX) by (nonlinear_arith)
        requires em <= ONE;
}

/// One competing unit: a weight per input and its current activation.
pub struct CompAENeuron {
    pub name: String,
    pub learning_constant: u64,
    pub weights: Vec<u64>,
    pub current_em: u64,
}

impl CompAENeuron {
    /// At most `MAX_INPUTS` weights, a learning constant within range, and an
    /// activation no larger than 1.0.
    pub open spec fn wf(&self) -> bool {
        &&& self.weights.len() <= MAX_INPUTS
        &&& self.learning_constant <= MAX_LEARNING_CONSTANT
        &&& self.current_em <= ONE
    }

    pub fn new(name: String, learning_constant: u64, weights: Vec<u64>) -> (r: CompAENeuron)
        requires
            learning_constant <= MAX_LEARNING_CONSTANT,
            weights.len() <= MAX_INPUTS,
        ensures
            r.wf(),
            r.name == name,
            r.learning_constant == learning_constant,
            r.weights == weights,
            r.current_em == 0,
    {
        CompAENeuron { name, learning_constant, weights, current_em: 0 }
    }

    pub fn get_name(&self) -> (r: String)
        ensures
            r@ == self.name@,
    {
        self.name.clone()
    }

    pub fn get_weights(&self) -> (r: &Vec<u64>)
        ensures
            r == &self.weights,
    {
        &self.weights
    }

    pub fn get_current_em(&self) -> (r: u64)
        ensures
            r == self.current_em,
    {
        self.current_em
    }

    /// The weights as a `side * side` grid, row by row.
    pub fn to_serializable(&self, side: usize) -> (r: Vec<Vec<u64>>)
        requires
            side * side == self.weights.len(),
        ensures
            r.len() == side,
            forall|j: int|
                0 <= j < side ==> (#[trigger] r[j])@ == self.weights@.subrange(
                    j * side,
                    (j + 1) * side,
                ),
    {
        let mut val_matrix: Vec<Vec<u64>> = Vec::new();
        let mut j: usize = 0;
        while j < side
            invariant
                j <= side,
                side * side == self.weights.len(),
                val_matrix.len() == j,
                forall|k: int|
                    0 <= k < j ==> (#[trigger] val_matrix[k])@ == self.weights@.subrange(
                        k * side,
                        (k + 1) * side,
                    ),
            decreases side - j,
        {
            proof {
                assert((j + 1) * side <= side * side) by (nonlinear_arith)
                    requires j < side;
                assert((j + 1) * side == j * side + side) by (nonlinear_arith);
            }
            let row_start = j * side;
            let mut val_row: Vec<u64> = Vec::new();
            let mut i: usize = 0;
            while i < side
                invariant
                    i <= side,
                    row_start == j * side,
                    row_start + side <= self.weights.len(),
                    val_row@ == self.weights@.subrange(row_start as int, row_start + i),
                decreases side - i,
            {
                val_row.push(self.weights[row_start + i]);
                i = i + 1;
                assert(val_row@ =~= self.weights@.subrange(row_start as int, row_start + i));
            }
            val_matrix.push(val_row);
            j = j + 1;
        }
        val_matrix
    }

    /// The activation of this neuron on the measures now loaded.
    pub fn compute_em(&self, inputs: &Vec<NeuronicInput>) -> (r: u64)
        requires
            self.wf(),
            self.weights.len() <= inputs.len(),
            forall|i: int| 0 <= i < inputs.len() ==> inputs[i].measure <= ONE,
        ensures
            r == activation(self.weights@, inputs@),
    {
        let n = self.weights.len();
        let mut total_weight: u128 = 0;
        let mut total_weighted_em: u128 = 0;
        let mut i: usize = 0;
        while i < n
            invariant
                self.wf(),
                n == self.weights.len(),
                n <= inputs.len(),
                forall|j: int| 0 <= j < inputs.len() ==> inputs[j].measure <= ONE,
                i <= n,
                total_weight == weight_sum(self.weights@, i as nat),
                total_weighted_em == weighted_measure_sum(self.weights@, inputs@, i as nat),
            decreases n - i,
        {
            proof {
                lemma_weight_sum_bound(self.weights@, (i + 1) as nat);
                lemma_weighted_measure_sum_bound(self.weights@, inputs@, (i + 1) as nat);
                assert((i + 1) * u64::MAX <= MAX_INPUTS * u64::MAX) by (nonlinear_arith)
                    requires i + 1 <= MAX_INPUTS;
                assert(ONE * weight_sum(self.weights@, (i + 1) as nat) <= ONE * (MAX_INPUTS
                    * u64::MAX)) by (nonlinear_arith)
                    requires weight_sum(self.weights@, (i + 1) as nat) <= MAX_INPUTS * u64::MAX;
            }
            let w = self.weights[i];
            total_weight = total_weight + w as u128;
            total_weighted_em = total_weighted_em + (w as u128) * (inputs[i].measure as u128);
            i = i + 1;
        }
        proof {
            lemma_activation_bound(self.weights@, inputs@);
        }
        if total_weight == 0 {
            0
        } else {
            (total_weighted_em / total_weight) as u64
        }
    }

    /// Computes the activation, adds it to the shared total and adds this
    /// neuron's weighted activation to every input's accumulated prediction.
    pub fn run_prediction_phase(
        &mut self,
        inputs: &mut Vec<NeuronicInput>,
        weight_holder: &mut WeightHolder,
    )
        requires
            old(self).wf(),
            old(self).weights.len() == old(inputs).len(),
            forall|i: int| 0 <= i < old(inputs).len() ==> old(inputs)[i].measure <= ONE,
            old(weight_holder).total_weights + ONE <= u64::MAX,
            forall|i: int|
                0 <= i < old(inputs).len() ==> old(inputs)[i].total_weighted_prediction + ONE
                    * u64::MAX <= u128::MAX,
        ensures
            final(self).wf(),
            final(self).current_em == activation(old(self).weights@, old(inputs)@),
            final(self).name == old(self).name,
            final(self).learning_constant == old(self).learning_constant,
            final(self).weights == old(self).weights,
            final(weight_holder).total_weights == old(weight_holder).total_weights
                + final(self).current_em,
            final(inputs).len() == old(inputs).len(),
            forall|i: int|
                0 <= i < old(inputs).len() ==> final(inputs)[i] == (NeuronicInput {
                    total_weighted_prediction: (old(inputs)[i].total_weighted_prediction
                        + contribution(final(self).current_em as int, old(self).weights[i] as int))
                        as u128,
                    ..old(inputs)[i]
                }),
            forall|i: int|
                0 <= i < old(inputs).len() ==> final(inputs)[i].total_weighted_prediction
                    == old(inputs)[i].total_weighted_prediction + contribution(
                    final(self).current_em as int,
                    old(self).weights[i] as int,
                ),
    {
        let em = self.compute_em(inputs);
        proof {
            lemma_activation_bound(self.weights@, inputs@);
        }
        self.current_em = em;
        weight_holder.incr_weight(em);
        let n = self.weights.len();
        let mut i: usize = 0;
        while i < n
            invariant
                self.wf(),
                self.current_em == em,
                em <= ONE,
                self.weights == old(self).weights,
                n == self.weights.len(),
                n == inputs.len(),
                i <= n,
                forall|j: int|
                    0 <= j < i ==> inputs[j] == (NeuronicInput {
                        total_weighted_prediction: (old(inputs)[j].total_weighted_prediction
                            + contribution(em as int, self.weights[j] as int)) as u128,
                        ..old(inputs)[j]
                    }),
                forall|j: int|
                    0 <= j < i ==> inputs[j].total_weighted_prediction
                        == old(inputs)[j].total_weighted_prediction + contribution(
                        em as int,
                        self.weights[j] as int,
                    ),
                forall|j: int| i <= j < n ==> inputs[j] == old(inputs)[j],
                forall|j: int|
                    0 <= j < n ==> old(inputs)[j].total_weighted_prediction + ONE * u64::MAX
                        <= u128::MAX,
            decreases n - i,
        {
            let w = self.weights[i];
            proof {
                lemma_contribution_bound(em as int, w as int);
            }
            let share = (em as u128) * (w as u128);
            let mut input = inputs[i];
            input.incr_total_weighted_prediction(share);
            inputs.set(i, input);
            i = i + 1;
        }
    }

    /// Moves every weight against its input's cached error, in proportion to
    /// this neuron's share of the total activation, clamping at 0.
    pub fn run_learning_phase(&mut self, inputs: &Vec<NeuronicInput>, weight_holder: &WeightHolder)
        requires
            old(self).wf(),
            old(self).weights.len() == inputs.len(),
            forall|i: int|
                0 <= i < inputs.len() ==> -(u64::MAX as int) <= (#[trigger] inputs[i]).current_reconstruction_error
                    <= u64::MAX,
        ensures
            final(self).wf(),
            final(self).name == old(self).name,
            final(self).learning_constant == old(self).learning_constant,
            final(self).current_em == old(self).current_em,
            final(self).weights.len() == old(self).weights.len(),
            forall|i: int|
                0 <= i < inputs.len() ==> final(self).weights[i] == learned_weight(
                    old(self).weights[i] as int,
                    inputs[i].current_reconstruction_error as int,
                    old(self).current_em as int,
                    old(self).learning_constant as int,
                    weight_holder.total_weights as int,
                ),
    {
        let em = self.current_em;
        let rate = self.learning_constant;
        let total = weight_holder.total_weights;
        let n = self.weights.len();
        let mut i: usize = 0;
        while i < n
            invariant
                self.wf(),
                self.name == old(self).name,
                self.learning_constant == rate,
                rate == old(self).learning_constant,
                self.current_em == em,
                em == old(self).current_em,
                total == weight_holder.total_weights,
                n == self.weights.len(),
                n == inputs.len(),
                n == old(self).weights.len(),
                i <= n,
                forall|j: int|
                    0 <= j < inputs.len() ==> -(u64::MAX as int) <= (#[trigger] inputs[j]).current_reconstruction_error
                        <= u64::MAX,
                forall|j: int|
                    0 <= j < i ==> self.weights[j] == learned_weight(
                        old(self).weights[j] as int,
                        inputs[j].current_reconstruction_error as int,
                        em as int,
                        rate as int,
                        total as int,
                    ),
                forall|j: int| i <= j < n ==> self.weights[j] == old(self).weights[j],
            decreases n - i,
        {
            let w = self.weights[i];
            let error = inputs[i].current_reconstruction_error;
            let magnitude: u64 = if error < 0 {
                (-error) as u64
            } else {
                error as u64
            };
            let step: u128 = if total == 0 {
                0
            } else {
                proof {
                    assert((magnitude as int) * (em as int) <= (u64::MAX as int) * (ONE as int))
                        by (nonlinear_arith)
                        requires magnitude <= u64::MAX, em <= ONE;
                    assert((magnitude as int) * (em as int) * (rate as int) <= (u64::MAX as int)
                        * (ONE as int) * (MAX_LEARNING_CONSTANT as int)) by (nonlinear_arith)
                        requires
                            (magnitude as int) * (em as int) <= (u64::MAX as int) * (ONE as int),
                            rate <= MAX_LEARNING_CONSTANT,
                            0 <= (magnitude as int) * (em as int);
                    assert((total as int) * (ONE as int) <= (u64::MAX as int) * (ONE as int))
                        by (nonlinear_arith)
                        requires total <= u64::MAX;
                    assert((total as int) * (ONE as int) > 0) by (nonlinear_arith)
                        requires total > 0;
                }
                (magnitude as u128) * (em as u128) * (rate as u128) / ((total as u128)
                    * (ONE as u128))
            };
            let new_weight: u64 = if error > 0 {
                if (w as u128) >= step {
                    w - step as u64
                } else {
                    0
                }
            } else if (w as u128) + step <= u64::MAX as u128 {
                w + step as u64
            } else {
                u64::MAX
            };
            self.weights.set(i, new_weight);
            i = i + 1;
        }
    }
}


/// The activation of a neuron depends on the inputs' measures alone.
pub proof fn lemma_activation_reads_measures(
    w: Seq<u64>,
    a: Seq<NeuronicInput>,
    b: Seq<NeuronicInput>,
    n: nat,
)
    requires
        n <= a.len(),
        n <= b.len(),
        forall|i: int| 0 <= i < n ==> a[i].measure == b[i].measure,
    ensures
        weighted_measure_sum(w, a, n) == weighted_measure_sum(w, b, n),
    decreases n,
{
    if n > 0 {
        lemma_activation_reads_measures(w, a, b, (n - 1) as nat);
    }
}

pub proof fn lemma_em_total_prefix(a: Seq<CompAENeuron>, b: Seq<CompAENeuron>, n: nat)
    requires
        n <= a.len(),
        n <= b.len(),
        forall|j: int| 0 <= j < n ==> a[j].current_em == b[j].current_em,
    ensures
        em_total(a, n) == em_total(b, n),
    decreases n,
{
    if n > 0 {
        lemma_em_total_prefix(a, b, (n - 1) as nat);
    }
}

/// The character of a decimal digit `d < 10`.
pub open spec fn digit_char(d: nat) -> char {
    seq!['0', '1', '2', '3', '4', '5', '6', '7', '8', '9'][d as int]
}

/// The decimal digits of `n`, most significant first, without leading zeros.
pub open spec fn decimal(n: nat) -> Seq<char>
    decreases n,
{
    if n < 10 {
        seq![digit_char(n)]
    } else {
        decimal(n / 10).push(digit_char(n % 10))
    }
}

/// Relies on the `Display` impl of `usize` (through `ToString::to_string`):
/// it writes the number in decimal, without sign or leading zeros.
#[verifier::external_body]
fn decimal_name(k: usize) -> (r: String)
    ensures
        r@ == decimal(k as nat),
{
    k.to_string()
}

/// The sum of the activations of the first `n` neurons.
pub open spec fn em_total(neurons: Seq<CompAENeuron>, n: nat) -> int
    decreases n,
{
    if n == 0 {
        0
    } else {
        em_total(neurons, (n - 1) as nat) + neurons[n - 1].current_em
    }
}

/// What the first `n` neurons, each at its activation on `inputs`, predict
/// together for pixel `i`.
pub open spec fn prediction(
    neurons: Seq<CompAENeuron>,
    inputs: Seq<NeuronicInput>,
    i: int,
    n: nat,
) -> int
    decreases n,
{
    if n == 0 {
        0
    } else {
        prediction(neurons, inputs, i, (n - 1) as nat) + contribution(
            activation(neurons[n - 1].weights@, inputs),
            neurons[n - 1].weights[i] as int,
        )
    }
}

/// The network: its neurons, its `side * side` inputs and the shared
/// activation total.
pub struct CompAENetwork {
    pub neurons: Vec<CompAENeuron>,
    pub inputs: Vec<NeuronicInput>,
    pub weight_holder: WeightHolder,
    pub side: usize,
}

impl CompAENetwork {
    /// Every neuron holds one weight per input; sizes, weights and measures
    /// are within range.
    pub open spec fn wf(&self) -> bool {
        &&& self.side * self.side == self.inputs.len()
        &&& self.inputs.len() <= MAX_INPUTS
        &&& self.neurons.len() <= MAX_NEURONS
        &&& forall|k: int|
            0 <= k < self.neurons.len() ==> (#[trigger] self.neurons[k]).wf()
                && self.neurons[k].weights.len() == self.inputs.len()
        &&& forall|i: int| 0 <= i < self.inputs.len() ==> (#[trigger] self.inputs[i]).measure <= ONE
    }

    /// A new image has been loaded: the total and every accumulated
    /// prediction are 0.
    pub open spec fn ready(&self) -> bool {
        &&& self.weight_holder.total_weights == 0
        &&& forall|i: int|
            0 <= i < self.inputs.len() ==> (#[trigger] self.inputs[i]).total_weighted_prediction == 0
    }

    /// What one adjustment makes of `self`: every neuron takes its activation
    /// on the loaded measures, the total is the sum of those activations,
    /// every input caches its reconstruction error, and every weight takes
    /// one learning step.
    pub open spec fn adjusts_to(&self, next: &CompAENetwork) -> bool {
        let k = self.neurons.len();
        let total = next.weight_holder.total_weights as int;
        &&& next.side == self.side
        &&& next.neurons.len() == k
        &&& next.inputs.len() == self.inputs.len()
        &&& total == em_total(next.neurons@, k as nat)
        &&& forall|j: int|
            0 <= j < k ==> {
                &&& (#[trigger] next.neurons[j]).name == self.neurons[j].name
                &&& next.neurons[j].learning_constant == self.neurons[j].learning_constant
                &&& next.neurons[j].current_em == activation(self.neurons[j].weights@, self.inputs@)
                &&& next.neurons[j].weights.len() == self.neurons[j].weights.len()
            }
        &&& forall|i: int|
            0 <= i < self.inputs.len() ==> {
                &&& (#[trigger] next.inputs[i]).measure == self.inputs[i].measure
                &&& next.inputs[i].total_weighted_prediction == prediction(
                    self.neurons@,
                    self.inputs@,
                    i,
                    k as nat,
                )
                &&& next.inputs[i].current_reconstruction_error == reconstruction(
                    next.inputs[i].total_weighted_prediction as int,
                    total,
                ) - self.inputs[i].measure
            }
        &&& forall|j: int, i: int|
            0 <= j < k && 0 <= i < self.inputs.len() ==> (#[trigger] next.neurons[j].weights[i])
                == learned_weight(
                self.neurons[j].weights[i] as int,
                next.inputs[i].current_reconstruction_error as int,
                next.neurons[j].current_em as int,
                self.neurons[j].learning_constant as int,
                total,
            )
    }

    /// A network of `initial_weights.len()` neurons over a `side * side`
    /// image; neuron `k` is named `k` in decimal and starts with the weights
    /// `initial_weights[k]`.
    pub fn new(
        learning_constant: u64,
        side: usize,
        initial_weights: Vec<Vec<u64>>,
    ) -> (r: CompAENetwork)
        requires
            learning_constant <= MAX_LEARNING_CONSTANT,
            side * side <= MAX_INPUTS,
            initial_weights.len() <= MAX_NEURONS,
            forall|k: int|
                0 <= k < initial_weights.len() ==> (#[trigger] initial_weights[k]).len() == side
                    * side,
        ensures
            r.wf(),
            r.ready(),
            r.side == side,
            r.neurons.len() == initial_weights.len(),
            forall|k: int|
                0 <= k < initial_weights.len() ==> {
                    &&& (#[trigger] r.neurons[k]).weights@ == initial_weights[k]@
                    &&& r.neurons[k].name@ == decimal(k as nat)
                    &&& r.neurons[k].learning_constant == learning_constant
                    &&& r.neurons[k].current_em == 0
                },
            forall|i: int| 0 <= i < side * side ==> #[trigger] r.inputs[i] == blank_input(),
    {
        let num_inputs = side * side;
        let mut inputs: Vec<NeuronicInput> = Vec::new();
        let mut i: usize = 0;
        while i < num_inputs
            invariant
                i <= num_inputs,
                inputs.len() == i,
                forall|j: int| 0 <= j < i ==> #[trigger] inputs[j] == blank_input(),
            decreases num_inputs - i,
        {
            inputs.push(NeuronicInput::new());
            i = i + 1;
        }
        let mut neurons: Vec<CompAENeuron> = Vec::new();
        let mut rows = initial_weights;
        let num_neurons = rows.len();
        let mut k: usize = 0;
        while k < num_neurons
            invariant
                k <= num_neurons,
                num_neurons == initial_weights.len(),
                neurons.len() == k,
                rows.len() == num_neurons - k,
                forall|j: int| 0 <= j < rows.len() ==> #[trigger] rows[j] == initial_weights[j + k],
                forall|j: int|
                    0 <= j < k ==> {
                        &&& (#[trigger] neurons[j]).wf()
                        &&& neurons[j].weights@ == initial_weights[j]@
                        &&& neurons[j].name@ == decimal(j as nat)
                        &&& neurons[j].learning_constant == learning_constant
                        &&& neurons[j].current_em == 0
                    },
                learning_constant <= MAX_LEARNING_CONSTANT,
                side * side <= MAX_INPUTS,
                forall|j: int|
                    0 <= j < initial_weights.len() ==> (#[trigger] initial_weights[j]).len() == side
                        * side,
            decreases num_neurons - k,
        {
            let weights = rows.remove(0);
            assert(weights == initial_weights[k as int]);
            neurons.push(CompAENeuron::new(decimal_name(k), learning_constant, weights));
            k = k + 1;
        }
        CompAENetwork { neurons, inputs, weight_holder: WeightHolder::new(), side }
    }

    pub fn get_neurons(&self) -> (r: &Vec<CompAENeuron>)
        ensures
            r == &self.neurons,
    {
        &self.neurons
    }

    pub fn get_inputs(&self) -> (r: &Vec<NeuronicInput>)
        ensures
            r == &self.inputs,
    {
        &self.inputs
    }

    pub fn get_weight_holder(&self) -> (r: &WeightHolder)
        ensures
            r == &self.weight_holder,
    {
        &self.weight_holder
    }

    /// Loads the measure of pixel `(x, y)` and clears its accumulated
    /// prediction; loading pixel `(0, 0)` starts a new image and clears the
    /// total activation.
    pub fn load_val(&mut self, x: usize, y: usize, val: u64)
        requires
            old(self).wf(),
            x < old(self).side,
            y < old(self).side,
            val <= ONE,
        ensures
            final(self).wf(),
            final(self).side == old(self).side,
            final(self).neurons == old(self).neurons,
            final(self).inputs.len() == old(self).inputs.len(),
            final(self).inputs[old(self).side * y + x] == (NeuronicInput {
                measure: val,
                total_weighted_prediction: 0,
                ..old(self).inputs[old(self).side * y + x]
            }),
            forall|i: int|
                0 <= i < old(self).inputs.len() && i != old(self).side * y + x ==> (#[trigger] final(self).inputs[i])
                    == old(self).inputs[i],
            final(self).weight_holder.total_weights == if x == 0 && y == 0 {
                0
            } else {
                old(self).weight_holder.total_weights
            },
    {
        proof {
            assert(self.side * y + x < self.side * self.side) by (nonlinear_arith)
                requires x < self.side, y < self.side;
        }
        let input_index = self.side * y + x;
        let mut input = self.inputs[input_index];
        input.load_input_measure(val);
        input.clear_total_weighted_prediction();
        self.inputs.set(input_index, input);
        if x == 0 && y == 0 {
            self.weight_holder.clear();
        }
    }

    /// Runs the prediction phase of every neuron, in order.
    fn predict_all(&mut self)
        requires
            old(self).wf(),
            old(self).ready(),
        ensures
            final(self).wf(),
            final(self).side == old(self).side,
            final(self).neurons.len() == old(self).neurons.len(),
            final(self).inputs.len() == old(self).inputs.len(),
            forall|j: int|
                0 <= j < old(self).neurons.len() ==> {
                    &&& (#[trigger] final(self).neurons[j]).name == old(self).neurons[j].name
                    &&& final(self).neurons[j].learning_constant
                        == old(self).neurons[j].learning_constant
                    &&& final(self).neurons[j].weights == old(self).neurons[j].weights
                    &&& final(self).neurons[j].current_em == activation(
                        old(self).neurons[j].weights@,
                        old(self).inputs@,
                    )
                },
            final(self).weight_holder.total_weights == em_total(
                final(self).neurons@,
                old(self).neurons.len() as nat,
            ),
            forall|i: int|
                0 <= i < old(self).inputs.len() ==> {
                    &&& (#[trigger] final(self).inputs[i]).measure == old(self).inputs[i].measure
                    &&& final(self).inputs[i].current_reconstruction_error
                        == old(self).inputs[i].current_reconstruction_error
                    &&& final(self).inputs[i].total_weighted_prediction == prediction(
                        old(self).neurons@,
                        old(self).inputs@,
                        i,
                        old(self).neurons.len() as nat,
                    )
                    &&& final(self).inputs[i].total_weighted_prediction
                        <= final(self).weight_holder.total_weights * u64::MAX
                    &&& final(self).inputs[i].total_weighted_prediction <= i128::MAX
                },
    {
        let num_neurons = self.neurons.len();
        let ghost old_neurons = self.neurons@;
        let ghost old_inputs = self.inputs@;
        let mut k: usize = 0;
        while k < num_neurons
            invariant
                self.wf(),
                k <= num_neurons,
                num_neurons == self.neurons.len(),
                old_neurons == old(self).neurons@,
                old_neurons.len() == num_neurons,
                old_inputs == old(self).inputs@,
                self.side == old(self).side,
                self.inputs.len() == old_inputs.len(),
                forall|j: int|
                    0 <= j < k ==> {
                        &&& (#[trigger] self.neurons[j]).name == old_neurons[j].name
                        &&& self.neurons[j].learning_constant == old_neurons[j].learning_constant
                        &&& self.neurons[j].weights == old_neurons[j].weights
                        &&& self.neurons[j].current_em == activation(
                            old_neurons[j].weights@,
                            old_inputs,
                        )
                    },
                forall|j: int| k <= j < num_neurons ==> #[trigger] self.neurons[j] == old_neurons[j],
                self.weight_holder.total_weights == em_total(self.neurons@, k as nat),
                self.weight_holder.total_weights <= k * ONE,
                forall|i: int|
                    0 <= i < old_inputs.len() ==> {
                        &&& (#[trigger] self.inputs[i]).measure == old_inputs[i].measure
                        &&& self.inputs[i].current_reconstruction_error
                            == old_inputs[i].current_reconstruction_error
                        &&& self.inputs[i].total_weighted_prediction == prediction(
                            old_neurons,
                            old_inputs,
                            i,
                            k as nat,
                        )
                        &&& self.inputs[i].total_weighted_prediction <= k * (ONE * u64::MAX)
                        &&& self.inputs[i].total_weighted_prediction
                            <= self.weight_holder.total_weights * u64::MAX
                    },
            decreases num_neurons - k,
        {
            let ghost before = self.neurons@;
            let ghost inputs_before = self.inputs@;
            let ghost total_before = self.weight_holder.total_weights;
            proof {
                assert(self.neurons[k as int].wf());
                lemma_activation_reads_measures(
                    old_neurons[k as int].weights@,
                    inputs_before,
                    old_inputs,
                    old_inputs.len(),
                );
            }
            self.neurons[k].run_prediction_phase(&mut self.inputs, &mut self.weight_holder);
            proof {
                lemma_em_total_prefix(before, self.neurons@, k as nat);
                assert forall|i: int| 0 <= i < old_inputs.len() implies {
                    &&& (#[trigger] self.inputs[i]).measure == old_inputs[i].measure
                    &&& self.inputs[i].current_reconstruction_error
                        == old_inputs[i].current_reconstruction_error
                    &&& self.inputs[i].total_weighted_prediction == prediction(
                        old_neurons,
                        old_inputs,
                        i,
                        (k + 1) as nat,
                    )
                    &&& self.inputs[i].total_weighted_prediction <= (k + 1) * (ONE * u64::MAX)
                    &&& self.inputs[i].total_weighted_prediction
                        <= self.weight_holder.total_weights * u64::MAX
                } by {
                    let w = old_neurons[k as int].weights@;
                    assert(activation(w, inputs_before) == activation(w, old_inputs));
                    lemma_contribution_bound(activation(w, old_inputs), w[i] as int);
                    assert(prediction(old_neurons, old_inputs, i, (k + 1) as nat) == prediction(
                        old_neurons,
                        old_inputs,
                        i,
                        k as nat,
                    ) + contribution(activation(w, old_inputs), w[i] as int));
                    let em = activation(w, old_inputs);
                    let t0 = total_before as int;
                    let a0 = inputs_before[i].total_weighted_prediction as int;
                    assert(a0 <= k * (ONE * u64::MAX));
                    assert(a0 <= t0 * u64::MAX);
                    assert(k * (ONE * u64::MAX) + ONE * u64::MAX == (k + 1) * (ONE * u64::MAX))
                        by (nonlinear_arith);
                    assert(t0 * u64::MAX + em * u64::MAX == (t0 + em) * u64::MAX)
                        by (nonlinear_arith);
                }
            }
            k = k + 1;
        }
    }

    /// Caches the reconstruction error of every input.
    fn cache_errors(&mut self)
        requires
            old(self).wf(),
            forall|i: int|
                0 <= i < old(self).inputs.len() ==> (#[trigger] old(
                    self,
                ).inputs[i]).total_weighted_prediction <= old(self).weight_holder.total_weights
                    * u64::MAX,
            forall|i: int|
                0 <= i < old(self).inputs.len() ==> (#[trigger] old(
                    self,
                ).inputs[i]).total_weighted_prediction <= i128::MAX,
        ensures
            final(self).wf(),
            final(self).side == old(self).side,
            final(self).neurons == old(self).neurons,
            final(self).weight_holder == old(self).weight_holder,
            final(self).inputs.len() == old(self).inputs.len(),
            forall|i: int|
                0 <= i < old(self).inputs.len() ==> {
                    &&& (#[trigger] final(self).inputs[i]).measure == old(self).inputs[i].measure
                    &&& final(self).inputs[i].total_weighted_prediction
                        == old(self).inputs[i].total_weighted_prediction
                    &&& final(self).inputs[i].current_reconstruction_error == reconstruction(
                        old(self).inputs[i].total_weighted_prediction as int,
                        old(self).weight_holder.total_weights as int,
                    ) - old(self).inputs[i].measure
                    &&& -(u64::MAX as int) <= final(self).inputs[i].current_reconstruction_error
                        <= u64::MAX
                },
    {
        let n = self.inputs.len();
        let mut i: usize = 0;
        while i < n
            invariant
                self.wf(),
                i <= n,
                n == self.inputs.len(),
                self.side == old(self).side,
                self.neurons == old(self).neurons,
                self.weight_holder == old(self).weight_holder,
                forall|j: int|
                    0 <= j < n ==> (#[trigger] old(self).inputs[j]).total_weighted_prediction
                        <= old(self).weight_holder.total_weights * u64::MAX
                        && old(self).inputs[j].total_weighted_prediction <= i128::MAX,
                forall|j: int|
                    0 <= j < i ==> {
                        &&& (#[trigger] self.inputs[j]).measure == old(self).inputs[j].measure
                        &&& self.inputs[j].total_weighted_prediction
                            == old(self).inputs[j].total_weighted_prediction
                        &&& self.inputs[j].current_reconstruction_error == reconstruction(
                            old(self).inputs[j].total_weighted_prediction as int,
                            old(self).weight_holder.total_weights as int,
                        ) - old(self).inputs[j].measure
                        &&& -(u64::MAX as int) <= self.inputs[j].current_reconstruction_error
                            <= u64::MAX
                    },
                forall|j: int| i <= j < n ==> #[trigger] self.inputs[j] == old(self).inputs[j],
            decreases n - i,
        {
            let mut input = self.inputs[i];
            proof {
                let a = input.total_weighted_prediction as int;
                let t = self.weight_holder.total_weights as int;
                if t > 0 {
                    assert(a / t <= u64::MAX) by (nonlinear_arith)
                        requires a <= t * u64::MAX, t > 0, a >= 0;
                }
            }
            input.cache_reconstruction_error(&self.weight_holder);
            self.inputs.set(i, input);
            i = i + 1;
        }
    }

    /// Runs the learning phase of every neuron, in order.
    fn learn_all(&mut self)
        requires
            old(self).wf(),
            forall|i: int|
                0 <= i < old(self).inputs.len() ==> -(u64::MAX as int) <= (#[trigger] old(
                    self,
                ).inputs[i]).current_reconstruction_error <= u64::MAX,
        ensures
            final(self).wf(),
            final(self).side == old(self).side,
            final(self).inputs == old(self).inputs,
            final(self).weight_holder == old(self).weight_holder,
            final(self).neurons.len() == old(self).neurons.len(),
            forall|j: int|
                0 <= j < old(self).neurons.len() ==> {
                    &&& (#[trigger] final(self).neurons[j]).name == old(self).neurons[j].name
                    &&& final(self).neurons[j].learning_constant
                        == old(self).neurons[j].learning_constant
                    &&& final(self).neurons[j].current_em == old(self).neurons[j].current_em
                    &&& final(self).neurons[j].weights.len() == old(self).neurons[j].weights.len()
                },
            forall|j: int, i: int|
                0 <= j < old(self).neurons.len() && 0 <= i < old(self).inputs.len() ==> (
                #[trigger] final(self).neurons[j].weights[i]) == learned_weight(
                    old(self).neurons[j].weights[i] as int,
                    old(self).inputs[i].current_reconstruction_error as int,
                    old(self).neurons[j].current_em as int,
                    old(self).neurons[j].learning_constant as int,
                    old(self).weight_holder.total_weights as int,
                ),
    {
        let num_neurons = self.neurons.len();
        let mut k: usize = 0;
        while k < num_neurons
            invariant
                self.wf(),
                k <= num_neurons,
                num_neurons == self.neurons.len(),
                self.side == old(self).side,
                self.inputs == old(self).inputs,
                self.weight_holder == old(self).weight_holder,
                forall|i: int|
                    0 <= i < self.inputs.len() ==> -(u64::MAX as int) <= (
                    #[trigger] self.inputs[i]).current_reconstruction_error <= u64::MAX,
                forall|j: int|
                    0 <= j < k ==> {
                        &&& (#[trigger] self.neurons[j]).name == old(self).neurons[j].name
                        &&& self.neurons[j].learning_constant
                            == old(self).neurons[j].learning_constant
                        &&& self.neurons[j].current_em == old(self).neurons[j].current_em
                        &&& self.neurons[j].weights.len() == old(self).neurons[j].weights.len()
                    },
                forall|j: int, i: int|
                    0 <= j < k && 0 <= i < self.inputs.len() ==> (
                    #[trigger] self.neurons[j].weights[i]) == learned_weight(
                        old(self).neurons[j].weights[i] as int,
                        old(self).inputs[i].current_reconstruction_error as int,
                        old(self).neurons[j].current_em as int,
                        old(self).neurons[j].learning_constant as int,
                        old(self).weight_holder.total_weights as int,
                    ),
                forall|j: int| k <= j < num_neurons ==> #[trigger] self.neurons[j] == old(
                    self,
                ).neurons[j],
            decreases num_neurons - k,
        {
            proof {
                assert(self.neurons[k as int].wf());
            }
            self.neurons[k].run_learning_phase(&self.inputs, &self.weight_holder);
            k = k + 1;
        }
    }

    /// One training step on the loaded image: every neuron predicts, then
    /// every input caches its error, then every neuron learns.
    pub fn perform_adjustment(&mut self)
        requires
            old(self).wf(),
            old(self).ready(),
        ensures
            final(self).wf(),
            old(self).adjusts_to(&*final(self)),
            forall|i: int|
                0 <= i < final(self).inputs.len() ==> {
                    &&& (#[trigger] final(self).inputs[i]).total_weighted_prediction
                        <= final(self).weight_holder.total_weights * u64::MAX
                    &&& final(self).inputs[i].total_weighted_prediction <= i128::MAX
                },
    {
        self.predict_all();
        let ghost predicted = *self;
        self.cache_errors();
        self.learn_all();
        proof {
            lemma_em_total_prefix(predicted.neurons@, self.neurons@, self.neurons.len() as nat);
        }
    }

    /// Every neuron's weights as a `side * side` grid, in neuron order.
    pub fn weight_matrices(&self) -> (r: Vec<Vec<Vec<u64>>>)
        requires
            self.wf(),
        ensures
            r.len() == self.neurons.len(),
            forall|k: int| 0 <= k < self.neurons.len() ==> (#[trigger] r[k]).len() == self.side,
            forall|k: int, j: int|
                0 <= k < self.neurons.len() && 0 <= j < self.side ==> (#[trigger] r[k][j])@
                    == self.neurons[k].weights@.subrange(j * self.side, (j + 1) * self.side),
    {
        let mut matrices: Vec<Vec<Vec<u64>>> = Vec::new();
        let mut k: usize = 0;
        while k < self.neurons.len()
            invariant
                self.wf(),
                k <= self.neurons.len(),
                matrices.len() == k,
                forall|m: int| 0 <= m < k ==> (#[trigger] matrices[m]).len() == self.side,
                forall|m: int, j: int|
                    0 <= m < k && 0 <= j < self.side ==> (#[trigger] matrices[m][j])@
                        == self.neurons[m].weights@.subrange(j * self.side, (j + 1) * self.side),
            decreases self.neurons.len() - k,
        {
            assert(self.neurons[k as int].wf());
            matrices.push(self.neurons[k].to_serializable(self.side));
            k = k + 1;
        }
        matrices
    }
}

} // verus!
