//! The execution context: materialized slot arrays and the per-block tick.
//!
//! The runtime owns every slot array and the root component.  Handles
//! issued by the builder resolve to slots in O(1); the per-block tick
//! updates every modulator with the drained events and then runs the root
//! component over the block.

use vstd::prelude::*;

use crate::component::comp_sem;
use crate::component::comp_wf;
use crate::component::in_i64;
use crate::component::ints;
use crate::component::lemma_comp_wf_same_shape;
use crate::component::mix_sem;
use crate::component::sem_ok;
use crate::component::serial_sem;
use crate::component::Component;
use crate::handles::ModulatorHandle;
use crate::handles::ParameterHandle;
use crate::handles::StateHandle;
use crate::modulator::Modulator;
use crate::params::lemma_i64_product_in_i128;
use crate::params::ModulationRouting;
use crate::params::ParameterAccessor;
use crate::params::ParameterRuntime;
use crate::BUFFER_SIZE;

verus! {

/// Copies one sample buffer into another of the same length.
fn copy_samples(src: &Vec<i64>, dst: &mut Vec<i64>)
    requires
        old(dst)@.len() == src@.len(),
    ensures
        final(dst)@ == src@,
{
    let n = src.len();
    let mut i: usize = 0;
    while i < n
        invariant
            n == src@.len(),
            dst@.len() == n,
            i <= n,
            forall|j: int| 0 <= j < i ==> dst@[j] == src@[j],
        decreases n - i,
    {
        dst[i] = src[i];
        i = i + 1;
    }
    proof {
        assert(dst@ =~= src@);
    }
}

/// Every modulator's state after one block's worth of `n_events` events is
/// fed to all of them.
pub open spec fn sources_updated(sources: Seq<Modulator>, n_events: nat) -> Seq<Modulator> {
    Seq::new(sources.len(), |s: int| sources[s].spec_updated(n_events))
}

/// The materialized execution context: state slots, parameter-set slots,
/// modulator slots, and the root component.
pub struct Runtime<S> {
    /// Persistent state objects, one per state slot.
    pub states: Vec<S>,
    /// Parameter runtimes, one per parameter-set slot.
    pub params: Vec<ParameterRuntime>,
    /// Modulators, one per modulator slot.
    pub sources: Vec<Modulator>,
    /// The root component the tick runs.
    pub root: Component,
}

impl<S> Runtime<S> {
    /// Internal consistency: every parameter runtime is well formed and
    /// routes only to existing modulator slots, and the root component
    /// names only existing parameter slots and fields.
    pub open spec fn wf(self) -> bool {
        &&& forall|p: int|
            0 <= p < self.params@.len() ==> (#[trigger] self.params@[p]).wf()
                && self.params@[p].routing_valid(self.sources@.len() as int)
        &&& comp_wf(self.root, self.params@)
    }

    /// Number of state slots.
    pub fn state_count(&self) -> (n: usize)
        ensures
            n == self.states@.len(),
    {
        self.states.len()
    }

    /// Number of parameter-set slots.
    pub fn param_count(&self) -> (n: usize)
        ensures
            n == self.params@.len(),
    {
        self.params.len()
    }

    /// Number of modulator slots.
    pub fn source_count(&self) -> (n: usize)
        ensures
            n == self.sources@.len(),
    {
        self.sources.len()
    }

    /// Resolves a state handle to a read reference on its slot.
    pub fn get(&self, handle: StateHandle) -> (r: &S)
        requires
            handle.slot < self.states@.len(),
        ensures
            *r == self.states@[handle.slot as int],
    {
        &self.states[handle.slot]
    }

    /// Resolves a state handle to a write reference on its slot.
    pub fn get_mut(&mut self, handle: StateHandle) -> (r: &mut S)
        requires
            handle.slot < old(self).states@.len(),
        ensures
            *r == old(self).states@[handle.slot as int],
            final(self).states@ == old(self).states@.update(handle.slot as int, *final(r)),
            final(self).params@ == old(self).params@,
            final(self).sources@ == old(self).sources@,
            final(self).root == old(self).root,
            old(self).wf() ==> final(self).wf(),
    {
        &mut self.states[handle.slot]
    }

    /// Resolves a modulator handle to a write reference on its slot.
    pub fn get_source_mut(&mut self, handle: ModulatorHandle) -> (r: &mut Modulator)
        requires
            handle.slot < old(self).sources@.len(),
        ensures
            *r == old(self).sources@[handle.slot as int],
            final(self).sources@ == old(self).sources@.update(handle.slot as int, *final(r)),
            final(self).states@ == old(self).states@,
            final(self).params@ == old(self).params@,
            final(self).root == old(self).root,
            old(self).wf() ==> final(self).wf(),
    {
        &mut self.sources[handle.slot]
    }

    /// Recomputes the full resolved block of one parameter set from the
    /// modulators' current state and returns a read accessor over it.
    /// Every call recomputes; a caller that needs one stable snapshot
    /// within a block keeps the accessor instead of re-fetching it.
    pub fn get_parameters(&self, handle: ParameterHandle) -> (acc: ParameterAccessor)
        requires
            self.wf(),
            handle.slot < self.params@.len(),
        ensures
            acc.wf(),
            acc.fields == self.params@[handle.slot as int].nfields(),
            forall|f: int, i: int|
                0 <= f < acc.fields && 0 <= i < BUFFER_SIZE ==> acc.entry(f, i) == self.params@[
                    handle.slot as int
                ].spec_resolved(self.sources@, f, i),
    {
        self.params[handle.slot].resolve(&self.sources)
    }

    /// Installs or replaces the routing of one field of the target
    /// parameter set: the named modulator slot feeds the field, scaled by
    /// `amount`.  A target slot with no registered parameter set and an
    /// unknown field index are silently ignored.
    pub fn route(&mut self, source: ModulatorHandle, target: ParameterHandle, field: usize, amount: i64)
        requires
            old(self).wf(),
            source.slot < old(self).sources@.len(),
        ensures
            final(self).wf(),
            final(self).states@ == old(self).states@,
            final(self).sources@ == old(self).sources@,
            final(self).root == old(self).root,
            final(self).params@.len() == old(self).params@.len(),
            forall|j: int|
                0 <= j < old(self).params@.len() && j != target.slot ==> final(self).params@[j]
                    == old(self).params@[j],
            target.slot >= old(self).params@.len() ==> final(self).params@ == old(self).params@,
            target.slot < old(self).params@.len() ==> final(self).params@[target.slot as int].base@
                == old(self).params@[target.slot as int].base@,
            target.slot < old(self).params@.len() && field < old(self).params@[
                target.slot as int
            ].routing@.len() ==> final(self).params@[target.slot as int].routing@ == old(
                self,
            ).params@[target.slot as int].routing@.update(
                field as int,
                Some(ModulationRouting { source: source.slot, amount }),
            ),
            target.slot < old(self).params@.len() && field >= old(self).params@[
                target.slot as int
            ].routing@.len() ==> final(self).params@[target.slot as int].routing@ == old(
                self,
            ).params@[target.slot as int].routing@,
    {
        if target.slot < self.params.len() {
            let t = target.slot;
            {
                let p = &mut self.params[t];
                p.route_parameter(field, source.slot, amount);
            }
            proof {
                lemma_comp_wf_same_shape(self.root, old(self).params@, self.params@);
            }
        }
    }

    /// Runs one component over the block: reads `input`, writes `output`
    /// in place.  Slots are only read; the runtime is unchanged.
    #[verifier::loop_isolation(false)]
    fn run_component(&self, c: &Component, input: &Vec<i64>, output: &mut Vec<i64>)
        requires
            self.wf(),
            comp_wf(*c, self.params@),
            sem_ok(*c, self.sources@, self.params@, ints(input@)),
            old(output)@.len() == input@.len(),
        ensures
            final(output)@.len() == input@.len(),
            ints(final(output)@) == comp_sem(*c, self.sources@, self.params@, ints(input@)),
        decreases *c,
    {
        let n = input.len();
        match c {
            Component::Identity => {
                copy_samples(input, output);
                proof {
                    assert(ints(output@) =~= ints(input@));
                }
            },
            Component::Gain { weight } => {
                let w = *weight;
                let mut i: usize = 0;
                while i < n
                    invariant
                        n == input@.len(),
                        output@.len() == n,
                        i <= n,
                        forall|j: int| 0 <= j < n ==> in_i64(#[trigger] ints(input@)[j] * w),
                        forall|j: int| 0 <= j < i ==> output@[j] as int == ints(input@)[j] * w,
                    decreases n - i,
                {
                    proof {
                        lemma_i64_product_in_i128(input@[i as int] as int, w as int);
                        assert(in_i64(ints(input@)[i as int] * w));
                    }
                    let v: i128 = (input[i] as i128) * (w as i128);
                    output[i] = v as i64;
                    i = i + 1;
                }
                proof {
                    assert(ints(output@) =~= comp_sem(
                        *c,
                        self.sources@,
                        self.params@,
                        ints(input@),
                    ));
                }
            },
            Component::Modulate { param, field } => {
                let p = *param;
                let fld = *field;
                let acc = self.get_parameters(p);
                let mut i: usize = 0;
                while i < n
                    invariant
                        n == input@.len(),
                        output@.len() == n,
                        i <= n,
                        acc.wf(),
                        p.slot < self.params@.len(),
                        fld < acc.fields,
                        acc.fields == self.params@[p.slot as int].nfields(),
                        forall|f2: int, j: int|
                            0 <= f2 < acc.fields && 0 <= j < BUFFER_SIZE ==> acc.entry(f2, j)
                                == self.params@[p.slot as int].spec_resolved(
                                self.sources@,
                                f2,
                                j,
                            ),
                        forall|j: int|
                            0 <= j < i ==> output@[j] as int == self.params@[
                                p.slot as int
                            ].spec_resolved(
                                self.sources@,
                                fld as int,
                                j % (BUFFER_SIZE as int),
                            ),
                    decreases n - i,
                {
                    output[i] = acc.value(fld, i);
                    i = i + 1;
                }
                proof {
                    assert(ints(output@) =~= comp_sem(
                        *c,
                        self.sources@,
                        self.params@,
                        ints(input@),
                    ));
                }
            },
            Component::Serial { stages } => {
                let m = stages.len();
                if m == 0 {
                    copy_samples(input, output);
                    proof {
                        assert(ints(output@) =~= ints(input@));
                    }
                    return ;
                }
                let mut cur: Vec<i64> = vec![0i64; n];
                copy_samples(input, &mut cur);
                proof {
                    assert(ints(cur@) =~= ints(input@));
                }
                let mut k: usize = 0;
                while k < m
                    invariant
                        self.wf(),
                        n == input@.len(),
                        output@.len() == n,
                        m == stages@.len(),
                        k <= m,
                        cur@.len() == n,
                        forall|k2: int|
                            0 <= k2 < m ==> comp_wf(#[trigger] stages@[k2], self.params@),
                        forall|k2: int|
                            0 <= k2 < m ==> sem_ok(
                                #[trigger] stages@[k2],
                                self.sources@,
                                self.params@,
                                serial_sem(
                                    stages@,
                                    self.sources@,
                                    self.params@,
                                    ints(input@),
                                    k2 as nat,
                                ),
                            ),
                        ints(cur@) == serial_sem(
                            stages@,
                            self.sources@,
                            self.params@,
                            ints(input@),
                            k as nat,
                        ),
                    decreases m - k,
                {
                    let mut next: Vec<i64> = vec![0i64; n];
                    proof {
                        let cc = *c;
                        assert(cc is Serial);
                        assert(cc->Serial_stages == *stages);
                        assert(decreases_to!(cc => cc->Serial_stages));
                        assert(decreases_to!(cc->Serial_stages => cc->Serial_stages@));
                        assert(decreases_to!(cc->Serial_stages@ => cc->Serial_stages@[k as int]));
                        assert(decreases_to!(*c => stages@[k as int]));
                    }
                    self.run_component(&stages[k], &cur, &mut next);
                    cur = next;
                    k = k + 1;
                }
                copy_samples(&cur, output);
                proof {
                    assert(ints(output@) =~= ints(cur@));
                }
            },
            Component::Mix { branches } => {
                let m = branches.len();
                let mut z: usize = 0;
                while z < n
                    invariant
                        n == input@.len(),
                        output@.len() == n,
                        z <= n,
                        forall|j: int| 0 <= j < z ==> output@[j] == 0i64,
                    decreases n - z,
                {
                    output[z] = 0;
                    z = z + 1;
                }
                proof {
                    assert(ints(output@) =~= mix_sem(
                        branches@,
                        self.sources@,
                        self.params@,
                        ints(input@),
                        0,
                    ));
                }
                let mut k: usize = 0;
                while k < m
                    invariant
                        self.wf(),
                        n == input@.len(),
                        output@.len() == n,
                        m == branches@.len(),
                        k <= m,
                        forall|k2: int|
                            0 <= k2 < m ==> comp_wf(#[trigger] branches@[k2].comp, self.params@),
                        forall|k2: int|
                            0 <= k2 < m ==> sem_ok(
                                #[trigger] branches@[k2].comp,
                                self.sources@,
                                self.params@,
                                ints(input@),
                            ),
                        forall|k2: int, j: int|
                            1 <= k2 <= m && 0 <= j < n ==> in_i64(
                                #[trigger] mix_sem(
                                    branches@,
                                    self.sources@,
                                    self.params@,
                                    ints(input@),
                                    k2 as nat,
                                )[j],
                            ),
                        ints(output@) == mix_sem(
                            branches@,
                            self.sources@,
                            self.params@,
                            ints(input@),
                            k as nat,
                        ),
                    decreases m - k,
                {
                    let mut scratch: Vec<i64> = vec![0i64; n];
                    proof {
                        let cc = *c;
                        assert(cc is Mix);
                        assert(cc->Mix_branches == *branches);
                        assert(decreases_to!(cc => cc->Mix_branches));
                        assert(decreases_to!(cc->Mix_branches => cc->Mix_branches@));
                        assert(decreases_to!(cc->Mix_branches@ => cc->Mix_branches@[k as int]));
                        assert(decreases_to!(
                            cc->Mix_branches@[k as int] => cc->Mix_branches@[k as int].comp
                        ));
                        assert(decreases_to!(*c => branches@[k as int].comp));
                    }
                    self.run_component(&branches[k].comp, input, &mut scratch);
                    let w = branches[k].weight;
                    let ghost prev = mix_sem(
                        branches@,
                        self.sources@,
                        self.params@,
                        ints(input@),
                        k as nat,
                    );
                    let ghost grown = mix_sem(
                        branches@,
                        self.sources@,
                        self.params@,
                        ints(input@),
                        (k + 1) as nat,
                    );
                    proof {
                        assert(grown.len() == n);
                        assert(forall|j: int|
                            0 <= j < n ==> #[trigger] grown[j] == prev[j] + w * ints(scratch@)[j]);
                    }
                    let mut i: usize = 0;
                    while i < n
                        invariant
                            n == input@.len(),
                            output@.len() == n,
                            scratch@.len() == n,
                            i <= n,
                            prev.len() == n,
                            grown.len() == n,
                            forall|j: int|
                                0 <= j < n ==> #[trigger] grown[j] == prev[j] + w * ints(
                                    scratch@,
                                )[j],
                            forall|j: int| 0 <= j < n ==> in_i64(#[trigger] grown[j]),
                            forall|j: int| i <= j < n ==> output@[j] as int == prev[j],
                            forall|j: int| 0 <= j < i ==> output@[j] as int == grown[j],
                        decreases n - i,
                    {
                        proof {
                            lemma_i64_product_in_i128(w as int, scratch@[i as int] as int);
                            assert(in_i64(grown[i as int]));
                        }
                        let sum: i128 = (output[i] as i128) + (w as i128) * (scratch[i] as i128);
                        output[i] = sum as i64;
                        i = i + 1;
                    }
                    proof {
                        assert(ints(output@) =~= grown);
                    }
                    k = k + 1;
                }
            },
        }
    }

    /// One audio block: feeds the drained events and the sample rate to
    /// every modulator, then runs the root component over `input` and
    /// `output`.  Everything a modulator does this block sees exactly the
    /// events passed here; events arriving later wait for the next tick.
    pub fn tick<E>(&mut self, sample_rate: u32, events: &[E], input: &Vec<i64>, output: &mut Vec<
        i64,
    >)
        requires
            old(self).wf(),
            input@.len() == old(output)@.len(),
            sem_ok(
                old(self).root,
                sources_updated(old(self).sources@, events@.len()),
                old(self).params@,
                ints(input@),
            ),
        ensures
            final(self).wf(),
            final(self).sources@ == sources_updated(old(self).sources@, events@.len()),
            final(self).states@ == old(self).states@,
            final(self).params@ == old(self).params@,
            final(self).root == old(self).root,
            final(output)@.len() == input@.len(),
            ints(final(output)@) == comp_sem(
                old(self).root,
                sources_updated(old(self).sources@, events@.len()),
                old(self).params@,
                ints(input@),
            ),
    {
        let m = self.sources.len();
        let mut s: usize = 0;
        while s < m
            invariant
                m == self.sources@.len(),
                self.sources@.len() == old(self).sources@.len(),
                s <= m,
                forall|j: int|
                    0 <= j < s ==> self.sources@[j] == old(self).sources@[j].spec_updated(
                        events@.len(),
                    ),
                forall|j: int| s <= j < m ==> self.sources@[j] == old(self).sources@[j],
                self.states@ == old(self).states@,
                self.params@ == old(self).params@,
                self.root == old(self).root,
            decreases m - s,
        {
            let mut modl = self.sources[s];
            modl.update(sample_rate, events);
            self.sources[s] = modl;
            s = s + 1;
        }
        proof {
            assert(self.sources@ =~= sources_updated(old(self).sources@, events@.len()));
        }
        let this = &*self;
        this.run_component(&this.root, input, output);
    }
}

} // verus!
