//! Composable processing components and their block semantics.
//!
//! A component turns one input block into one output block of the same
//! length, reading resolved parameters from the runtime as it goes.  The
//! two structural combinators — sequential chain and weighted mix — nest
//! arbitrarily, so whole processing graphs are built by composition alone.
//!
//! The meaning of a component is the spec function [`comp_sem`], defined
//! over unbounded integers; [`sem_ok`] says that every value a run would
//! store fits `i64`, and is what the runtime's execution requires.

use vstd::prelude::*;

use crate::handles::ParameterHandle;
use crate::modulator::Modulator;
use crate::params::ParameterRuntime;
use crate::BUFFER_SIZE;

verus! {

/// One branch of a weighted mix.
pub struct Branch {
    /// Scalar the branch's output is multiplied by before accumulation.
    pub weight: i64,
    /// The component the branch runs.
    pub comp: Component,
}

/// A composable stateful processing unit: leaves transform samples, the
/// two combinators compose whole subgraphs.
pub enum Component {
    /// Copies the input block to the output block.
    Identity,
    /// Scales every input sample by a fixed weight.
    Gain {
        /// Scalar every sample is multiplied by.
        weight: i64,
    },
    /// Ignores the input and writes the resolved value of one parameter
    /// field at every sample index.
    Modulate {
        /// The parameter set read.
        param: ParameterHandle,
        /// The field of that parameter set.
        field: usize,
    },
    /// Sequential chain: feeds the block through each stage in order.  An
    /// empty chain passes the input through unchanged.
    Serial {
        /// The stages, run first to last.
        stages: Vec<Component>,
    },
    /// Weighted mix: runs every branch on the same input and sums the
    /// weight-scaled branch outputs.  Weights are not normalized — the sum
    /// may exceed full scale by design.
    Mix {
        /// The branches, accumulated in order.
        branches: Vec<Branch>,
    },
}

/// The view of a sample buffer as a sequence of unbounded integers.
pub open spec fn ints(s: Seq<i64>) -> Seq<int> {
    s.map_values(|x: i64| x as int)
}

/// Whether a mathematical value fits the sample type.
pub open spec fn in_i64(x: int) -> bool {
    i64::MIN <= x <= i64::MAX
}

/// Structural validity of a component against the runtime's parameter
/// slots: every parameter handle names a slot, every field index a field.
pub open spec fn comp_wf(c: Component, params: Seq<ParameterRuntime>) -> bool
    decreases c,
{
    match c {
        Component::Identity => true,
        Component::Gain { .. } => true,
        Component::Modulate { param, field } => param.slot < params.len() && field < params[
            param.slot as int
        ].nfields(),
        Component::Serial { stages } => forall|k: int|
            0 <= k < stages@.len() ==> comp_wf(#[trigger] stages@[k], params),
        Component::Mix { branches } => forall|k: int|
            0 <= k < branches@.len() ==> comp_wf(#[trigger] branches@[k].comp, params),
    }
}

/// The output block a component produces from `input`, given the
/// modulators' current state and the parameter sets' routing.
pub open spec fn comp_sem(
    c: Component,
    sources: Seq<Modulator>,
    params: Seq<ParameterRuntime>,
    input: Seq<int>,
) -> Seq<int>
    decreases c, 0nat,
{
    match c {
        Component::Identity => input,
        Component::Gain { weight } => Seq::new(input.len(), |i: int| input[i] * weight),
        Component::Modulate { param, field } => Seq::new(
            input.len(),
            |i: int|
                params[param.slot as int].spec_resolved(
                    sources,
                    field as int,
                    i % (BUFFER_SIZE as int),
                ),
        ),
        Component::Serial { stages } => serial_sem(stages@, sources, params, input, stages@.len()),
        Component::Mix { branches } => mix_sem(branches@, sources, params, input, branches@.len()),
    }
}

/// The block after the first `k` stages of a sequential chain.
pub open spec fn serial_sem(
    stages: Seq<Component>,
    sources: Seq<Modulator>,
    params: Seq<ParameterRuntime>,
    input: Seq<int>,
    k: nat,
) -> Seq<int>
    decreases stages, k,
{
    if k == 0 || k > stages.len() {
        input
    } else {
        comp_sem(
            stages[k - 1],
            sources,
            params,
            serial_sem(stages, sources, params, input, (k - 1) as nat),
        )
    }
}

/// The accumulated output of the first `k` branches of a weighted mix.
pub open spec fn mix_sem(
    branches: Seq<Branch>,
    sources: Seq<Modulator>,
    params: Seq<ParameterRuntime>,
    input: Seq<int>,
    k: nat,
) -> Seq<int>
    decreases branches, k,
{
    if k == 0 || k > branches.len() {
        Seq::new(input.len(), |i: int| 0)
    } else {
        let prev = mix_sem(branches, sources, params, input, (k - 1) as nat);
        let branch = comp_sem(branches[k - 1].comp, sources, params, input);
        Seq::new(input.len(), |i: int| prev[i] + branches[k - 1].weight * branch[i])
    }
}

/// Every value a run of `c` would store fits `i64`: the products of a gain
/// leaf, and every partial accumulation of a mix.  The runtime requires
/// this of the block it is handed.
pub open spec fn sem_ok(
    c: Component,
    sources: Seq<Modulator>,
    params: Seq<ParameterRuntime>,
    input: Seq<int>,
) -> bool
    decreases c, 0nat,
{
    match c {
        Component::Identity => true,
        Component::Gain { weight } => forall|i: int|
            0 <= i < input.len() ==> in_i64(#[trigger] input[i] * weight),
        Component::Modulate { .. } => true,
        Component::Serial { stages } => forall|k: int|
            0 <= k < stages@.len() ==> sem_ok(
                #[trigger] stages@[k],
                sources,
                params,
                serial_sem(stages@, sources, params, input, k as nat),
            ),
        Component::Mix { branches } => {
            &&& forall|k: int|
                0 <= k < branches@.len() ==> sem_ok(
                    #[trigger] branches@[k].comp,
                    sources,
                    params,
                    input,
                )
            &&& forall|k: int, i: int|
                1 <= k <= branches@.len() && 0 <= i < input.len() ==> in_i64(
                    #[trigger] mix_sem(branches@, sources, params, input, k as nat)[i],
                )
        },
    }
}

/// Structural validity only reads the parameter slots' field counts, so it
/// survives any change — such as installing a routing — that keeps every
/// slot's field count.
pub proof fn lemma_comp_wf_same_shape(
    c: Component,
    params1: Seq<ParameterRuntime>,
    params2: Seq<ParameterRuntime>,
)
    requires
        comp_wf(c, params1),
        params2.len() == params1.len(),
        forall|p: int|
            0 <= p < params1.len() ==> (#[trigger] params2[p]).nfields() == params1[p].nfields(),
    ensures
        comp_wf(c, params2),
    decreases c,
{
    match c {
        Component::Identity => {
        },
        Component::Gain { .. } => {
        },
        Component::Modulate { .. } => {
        },
        Component::Serial { stages } => {
            assert forall|k: int| 0 <= k < stages@.len() implies comp_wf(
                #[trigger] stages@[k],
                params2,
            ) by {
                lemma_comp_wf_same_shape(stages@[k], params1, params2);
            }
        },
        Component::Mix { branches } => {
            assert forall|k: int| 0 <= k < branches@.len() implies comp_wf(
                #[trigger] branches@[k].comp,
                params2,
            ) by {
                lemma_comp_wf_same_shape(branches@[k].comp, params1, params2);
            }
        },
    }
}

/// A sequential chain with no stages is the identity: the output equals
/// the input, whatever the contents and length of the block.
pub proof fn lemma_serial_empty(
    c: Component,
    sources: Seq<Modulator>,
    params: Seq<ParameterRuntime>,
    input: Seq<int>,
)
    requires
        c matches Component::Serial { stages } && stages@.len() == 0,
    ensures
        comp_sem(c, sources, params, input) == input,
{
}

/// A sequential chain of one pass-through stage reproduces the input
/// exactly.
pub proof fn lemma_serial_single_identity(
    c: Component,
    sources: Seq<Modulator>,
    params: Seq<ParameterRuntime>,
    input: Seq<int>,
)
    requires
        c matches Component::Serial { stages } && stages@.len() == 1 && stages@[0]
            is Identity,
    ensures
        comp_sem(c, sources, params, input) == input,
{
    let stages = c->Serial_stages;
    assert(serial_sem(stages@, sources, params, input, 0) == input);
    assert(serial_sem(stages@, sources, params, input, 1) == comp_sem(
        stages@[0],
        sources,
        params,
        input,
    ));
}

/// A weighted mix of one pass-through branch of weight `w` multiplies
/// every sample by `w`.
pub proof fn lemma_mix_single_identity(
    c: Component,
    sources: Seq<Modulator>,
    params: Seq<ParameterRuntime>,
    input: Seq<int>,
    w: int,
)
    requires
        c matches Component::Mix { branches } && branches@.len() == 1 && branches@[0].comp
            is Identity && branches@[0].weight == w,
    ensures
        comp_sem(c, sources, params, input).len() == input.len(),
        forall|i: int|
            0 <= i < input.len() ==> comp_sem(c, sources, params, input)[i] == w * input[i],
{
    let branches = c->Mix_branches;
    assert(comp_sem(branches@[0].comp, sources, params, input) == input);
    let zeros = mix_sem(branches@, sources, params, input, 0);
    assert(forall|i: int| 0 <= i < input.len() ==> zeros[i] == 0);
    assert forall|i: int| 0 <= i < input.len() implies comp_sem(c, sources, params, input)[i] == w
        * input[i] by {
        assert(comp_sem(c, sources, params, input)[i] == zeros[i] + w * input[i]);
    }
}

/// A weighted mix of two pass-through branches of weights `w1` and `w2`
/// sums to `(w1 + w2)` times every sample: weights are accumulated, never
/// normalized.
pub proof fn lemma_mix_two_identity(
    c: Component,
    sources: Seq<Modulator>,
    params: Seq<ParameterRuntime>,
    input: Seq<int>,
    w1: int,
    w2: int,
)
    requires
        c matches Component::Mix { branches } && branches@.len() == 2 && branches@[0].comp
            is Identity && branches@[0].weight == w1 && branches@[1].comp is Identity
            && branches@[1].weight == w2,
    ensures
        comp_sem(c, sources, params, input).len() == input.len(),
        forall|i: int|
            0 <= i < input.len() ==> comp_sem(c, sources, params, input)[i] == (w1 + w2)
                * input[i],
{
    let branches = c->Mix_branches;
    assert(comp_sem(branches@[0].comp, sources, params, input) == input);
    assert(comp_sem(branches@[1].comp, sources, params, input) == input);
    let zeros = mix_sem(branches@, sources, params, input, 0);
    assert(forall|i: int| 0 <= i < input.len() ==> zeros[i] == 0);
    let once = mix_sem(branches@, sources, params, input, 1);
    assert forall|i: int| 0 <= i < input.len() implies comp_sem(c, sources, params, input)[i] == (
    w1 + w2) * input[i] by {
        assert(once[i] == zeros[i] + w1 * input[i]);
        assert(comp_sem(c, sources, params, input)[i] == once[i] + w2 * input[i]);
        assert(w1 * input[i] + w2 * input[i] == (w1 + w2) * input[i]) by (nonlinear_arith);
    }
}

} // verus!
