//! Construction-time registry: slot assignment for states, parameter sets
//! and modulators.
//!
//! State and parameter-set registration is keyed by a caller-chosen tag and
//! deduplicated: registering the same key twice yields the same slot and
//! leaves the registry unchanged.  Modulator registration is deliberately
//! not deduplicated: every call takes a fresh slot, because several
//! independent instances of one modulator kind are a legitimate use.

use vstd::prelude::*;

use crate::component::comp_wf;
use crate::component::Component;
use crate::handles::ModulatorHandle;
use crate::handles::ParameterHandle;
use crate::handles::StateHandle;
use crate::modulator::Modulator;
use crate::params::ParameterRuntime;
use crate::runtime::Runtime;

verus! {

/// The slot a key resolves to in a deduplicating registry: the index of
/// its first occurrence, or the number of keys when it is absent (the slot
/// it would be appended at).
pub open spec fn register_slot(keys: Seq<u64>, key: u64) -> int
    decreases keys.len(),
{
    if keys.len() == 0 {
        0
    } else if keys[0] == key {
        0
    } else {
        1 + register_slot(keys.skip(1), key)
    }
}

/// The keys after registering: unchanged when the key is already present,
/// appended otherwise.
pub open spec fn register_keys(keys: Seq<u64>, key: u64) -> Seq<u64> {
    if register_slot(keys, key) < keys.len() {
        keys
    } else {
        keys.push(key)
    }
}

/// What `register_slot` returns: a position no greater than the key count;
/// strictly below it exactly when the key occurs, and then the first
/// position holding the key.
pub proof fn lemma_register_slot_character(keys: Seq<u64>, key: u64)
    ensures
        0 <= register_slot(keys, key) <= keys.len(),
        register_slot(keys, key) < keys.len() ==> keys[register_slot(keys, key)] == key,
        forall|j: int| 0 <= j < register_slot(keys, key) ==> keys[j] != key,
    decreases keys.len(),
{
    if keys.len() == 0 {
    } else if keys[0] == key {
    } else {
        lemma_register_slot_character(keys.skip(1), key);
        assert forall|j: int| 0 <= j < register_slot(keys, key) implies keys[j] != key by {
            if j > 0 {
                assert(keys.skip(1)[j - 1] == keys[j]);
            }
        }
    }
}

/// Registering a key a second time finds the slot the first registration
/// assigned and leaves the registry unchanged: state and parameter-set
/// registration is idempotent, so equal keys always compare to equal
/// handles backed by the identical slot.
pub proof fn lemma_registration_idempotent(keys: Seq<u64>, key: u64)
    ensures
        register_slot(register_keys(keys, key), key) == register_slot(keys, key),
        register_keys(register_keys(keys, key), key) == register_keys(keys, key),
{
    lemma_register_slot_character(keys, key);
    let s = register_slot(keys, key);
    if s < keys.len() {
    } else {
        let grown = keys.push(key);
        lemma_register_slot_character(grown, key);
        let s2 = register_slot(grown, key);
        assert(grown[keys.len() as int] == key);
        assert(s2 < grown.len());
        if s2 < keys.len() {
            assert(grown[s2] == keys[s2]);
            assert(false);
        }
        assert(s2 == s);
        assert(register_keys(grown, key) == grown);
    }
}

/// The registry model of modulator registration: the new slot list and the
/// slot handed out — always the one past the current end.
pub open spec fn register_modulator(sources: Seq<Modulator>, m: Modulator) -> (Seq<Modulator>, int) {
    (sources.push(m), sources.len() as int)
}

/// Modulator registration never deduplicates: two registrations in a row
/// take distinct slots, even for identical modulators.
pub proof fn lemma_modulator_slots_fresh(sources: Seq<Modulator>, m1: Modulator, m2: Modulator)
    ensures
        register_modulator(sources, m1).1 != register_modulator(
            register_modulator(sources, m1).0,
            m2,
        ).1,
{
}

/// The construction-time registry.  Registration assigns slots; `build`
/// materializes the slots into a [`Runtime`] around a root component.
pub struct Builder<S> {
    /// Registration key of each state slot, in slot order.
    pub state_keys: Vec<u64>,
    /// Initial value of each state slot, in slot order.
    pub states: Vec<S>,
    /// Registration key of each parameter-set slot, in slot order.
    pub param_keys: Vec<u64>,
    /// Parameter runtime of each parameter-set slot, in slot order.
    pub params: Vec<ParameterRuntime>,
    /// Modulator instance of each modulator slot, in slot order.
    pub sources: Vec<Modulator>,
}

impl<S> Builder<S> {
    /// Key and value lists of one registry kind stay in step, parameter
    /// runtimes are well formed, and no routing is installed yet.
    pub open spec fn wf(self) -> bool {
        &&& self.states@.len() == self.state_keys@.len()
        &&& self.params@.len() == self.param_keys@.len()
        &&& forall|p: int| 0 <= p < self.params@.len() ==> (#[trigger] self.params@[p]).wf()
        &&& forall|p: int, f: int|
            0 <= p < self.params@.len() && 0 <= f < self.params@[p].routing@.len() ==> (
            #[trigger] self.params@[p].routing@[f]) is None
    }

    /// An empty registry: no slot of any kind assigned.
    pub fn new() -> (b: Builder<S>)
        ensures
            b.wf(),
            b.state_keys@.len() == 0,
            b.states@.len() == 0,
            b.param_keys@.len() == 0,
            b.params@.len() == 0,
            b.sources@.len() == 0,
    {
        Builder {
            state_keys: Vec::new(),
            states: Vec::new(),
            param_keys: Vec::new(),
            params: Vec::new(),
            sources: Vec::new(),
        }
    }

    /// Position of `key` in `keys`, or the key count when absent; the
    /// executable face of [`register_slot`].
    fn scan_key(keys: &Vec<u64>, key: u64) -> (slot: usize)
        ensures
            slot == register_slot(keys@, key),
            slot <= keys@.len(),
            slot < keys@.len() ==> keys@[slot as int] == key,
    {
        let n = keys.len();
        let mut i: usize = 0;
        while i < n
            invariant
                n == keys@.len(),
                i <= n,
                forall|j: int| 0 <= j < i ==> keys@[j] != key,
            decreases n - i,
        {
            if keys[i] == key {
                proof {
                    lemma_register_slot_character(keys@, key);
                    let s = register_slot(keys@, key);
                    if s < i {
                        assert(keys@[s] != key);
                    }
                    if s > i {
                        assert(keys@[i as int] != key);
                    }
                }
                return i;
            }
            i = i + 1;
        }
        proof {
            lemma_register_slot_character(keys@, key);
        }
        n
    }

    /// Registers a persistent state slot under `key` with initial value
    /// `init`.  A key already registered resolves to its existing slot and
    /// the registry is unchanged (the new initial value is dropped);
    /// otherwise a fresh slot is appended.
    pub fn use_state(&mut self, key: u64, init: S) -> (h: StateHandle)
        requires
            old(self).wf(),
        ensures
            final(self).wf(),
            h.slot == register_slot(old(self).state_keys@, key),
            final(self).state_keys@ == register_keys(old(self).state_keys@, key),
            h.slot < final(self).state_keys@.len(),
            final(self).state_keys@[h.slot as int] == key,
            h.slot < old(self).state_keys@.len() ==> final(self).states@ == old(self).states@,
            h.slot == old(self).state_keys@.len() ==> final(self).states@ == old(
                self,
            ).states@.push(init),
            final(self).param_keys@ == old(self).param_keys@,
            final(self).params@ == old(self).params@,
            final(self).sources@ == old(self).sources@,
    {
        proof {
            lemma_register_slot_character(self.state_keys@, key);
        }
        let slot = Self::scan_key(&self.state_keys, key);
        if slot == self.state_keys.len() {
            self.state_keys.push(key);
            self.states.push(init);
        }
        StateHandle { slot }
    }

    /// Registers a parameter set under `key` with the given per-field base
    /// values.  Deduplicated exactly as [`Builder::use_state`]: an existing
    /// key resolves to its slot and the new base values are dropped.
    pub fn use_parameters(&mut self, key: u64, base: Vec<i64>) -> (h: ParameterHandle)
        requires
            old(self).wf(),
        ensures
            final(self).wf(),
            h.slot == register_slot(old(self).param_keys@, key),
            final(self).param_keys@ == register_keys(old(self).param_keys@, key),
            h.slot < final(self).param_keys@.len(),
            final(self).param_keys@[h.slot as int] == key,
            h.slot < final(self).params@.len(),
            h.slot < old(self).param_keys@.len() ==> final(self).params@ == old(self).params@,
            h.slot == old(self).param_keys@.len() ==> {
                &&& final(self).params@.len() == old(self).params@.len() + 1
                &&& forall|j: int|
                    0 <= j < old(self).params@.len() ==> final(self).params@[j] == old(
                        self,
                    ).params@[j]
                &&& final(self).params@[h.slot as int].base@ == base@
                &&& final(self).params@[h.slot as int].nfields() == base@.len()
            },
            final(self).state_keys@ == old(self).state_keys@,
            final(self).states@ == old(self).states@,
            final(self).sources@ == old(self).sources@,
    {
        proof {
            lemma_register_slot_character(self.param_keys@, key);
        }
        let slot = Self::scan_key(&self.param_keys, key);
        if slot == self.param_keys.len() {
            self.param_keys.push(key);
            self.params.push(ParameterRuntime::new(base));
        }
        ParameterHandle { slot }
    }

    /// Registers one more modulator instance.  Never deduplicated: every
    /// call appends a fresh slot, even for identical modulators.
    pub fn use_modulator(&mut self, m: Modulator) -> (h: ModulatorHandle)
        requires
            old(self).wf(),
        ensures
            final(self).wf(),
            (final(self).sources@, h.slot as int) == register_modulator(old(self).sources@, m),
            h.slot == old(self).sources@.len(),
            final(self).sources@ == old(self).sources@.push(m),
            final(self).state_keys@ == old(self).state_keys@,
            final(self).states@ == old(self).states@,
            final(self).param_keys@ == old(self).param_keys@,
            final(self).params@ == old(self).params@,
    {
        let slot = self.sources.len();
        self.sources.push(m);
        ModulatorHandle { slot }
    }

    /// Consumes the registry and materializes the runtime: every slot list
    /// moves into place around the given root component.
    pub fn build(self, root: Component) -> (rt: Runtime<S>)
        requires
            self.wf(),
            comp_wf(root, self.params@),
        ensures
            rt.wf(),
            rt.states@ == self.states@,
            rt.params@ == self.params@,
            rt.sources@ == self.sources@,
            rt.root == root,
    {
        Runtime { states: self.states, params: self.params, sources: self.sources, root }
    }
}

} // verus!
