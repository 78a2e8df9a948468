//! Parameter sets and modulation routing.
//!
//! A parameter set is a fixed list of fields, each with a base value and at
//! most one installed routing (a modulator slot plus a scalar amount).
//! Once per access the router resolves a full block: for every sample index
//! and every field, `base + value * amount` clamped into
//! `[0, PARAM_UNIT]`.  The resolved block is read through a
//! [`ParameterAccessor`], whose sample index wraps modulo
//! [`BUFFER_SIZE`].

use vstd::prelude::*;

use crate::modulator::Modulator;
use crate::BUFFER_SIZE;
use crate::PARAM_UNIT;

verus! {

/// Clamps a mathematical value into the fixed-point unit range
/// `[0, PARAM_UNIT]`.
pub open spec fn clamp_unit(x: int) -> int {
    if x < 0 {
        0
    } else if x > PARAM_UNIT as int {
        PARAM_UNIT as int
    } else {
        x
    }
}

/// The one routing a parameter field can carry: which modulator slot feeds
/// it, scaled by which amount.
#[derive(Clone, Copy, PartialEq, Eq, Structural, Debug)]
pub struct ModulationRouting {
    /// Slot index of the modulator that feeds the field.
    pub source: usize,
    /// Scalar the modulator's value is multiplied by.
    pub amount: i64,
}

/// Per-parameter-set modulation state: a base value per field and at most
/// one routing per field.  Fields are addressed by index; an index at or
/// past the field count names no field.
pub struct ParameterRuntime {
    /// Base value of each field, before modulation.
    pub base: Vec<i64>,
    /// Installed routing of each field; `None` means the field's modulation
    /// contribution is zero.
    pub routing: Vec<Option<ModulationRouting>>,
}

impl ParameterRuntime {
    /// Number of fields this parameter set declares.
    pub open spec fn nfields(self) -> int {
        self.base@.len() as int
    }

    /// One routing cell per field.
    pub open spec fn wf(self) -> bool {
        self.routing@.len() == self.base@.len()
    }

    /// Every installed routing names a modulator slot below `n_sources`.
    pub open spec fn routing_valid(self, n_sources: int) -> bool {
        forall|f: int|
            0 <= f < self.routing@.len() ==> (#[trigger] self.routing@[f] matches Some(r)
                ==> r.source < n_sources)
    }

    /// The resolved value of field `f` at sample index `i`: the base value
    /// plus the routed modulator's value times the routing amount, clamped
    /// into the unit range.  An absent routing contributes zero.
    pub open spec fn spec_resolved(self, sources: Seq<Modulator>, f: int, i: int) -> int {
        clamp_unit(
            self.base@[f] + match self.routing@[f] {
                Some(r) => sources[r.source as int].spec_value(i) * r.amount,
                None => 0,
            },
        )
    }

    /// A fresh parameter set: the given base values, no routing installed.
    pub fn new(base: Vec<i64>) -> (p: ParameterRuntime)
        ensures
            p.wf(),
            p.base@ == base@,
            p.routing@.len() == base@.len(),
            forall|f: int| 0 <= f < p.routing@.len() ==> p.routing@[f] is None,
    {
        let n = base.len();
        let routing: Vec<Option<ModulationRouting>> = vec![None; n];
        ParameterRuntime { base, routing }
    }

    /// Installs or replaces the routing of the named field; the previous
    /// routing, if any, is forgotten.  An unknown field index is silently
    /// ignored.
    pub fn route_parameter(&mut self, field: usize, source: usize, amount: i64)
        ensures
            final(self).base@ == old(self).base@,
            field < old(self).routing@.len() ==> final(self).routing@ == old(
                self,
            ).routing@.update(
                field as int,
                Some(ModulationRouting { source, amount }),
            ),
            field >= old(self).routing@.len() ==> final(self).routing@ == old(self).routing@,
    {
        if field < self.routing.len() {
            self.routing[field] = Some(ModulationRouting { source, amount });
        }
    }

    /// The resolved value of one field at one in-block sample index,
    /// computed from the modulators' current state.
    fn resolve_entry(&self, sources: &Vec<Modulator>, f: usize, i: usize) -> (r: i64)
        requires
            self.wf(),
            self.routing_valid(sources@.len() as int),
            f < self.nfields(),
        ensures
            r as int == self.spec_resolved(sources@, f as int, i as int),
    {
        let base_v = self.base[f];
        let routed: i128 = match self.routing[f] {
            Some(r) => {
                let v = sources[r.source].get_value(i);
                proof {
                    lemma_i64_product_in_i128(v as int, r.amount as int);
                }
                (v as i128) * (r.amount as i128)
            },
            None => 0,
        };
        let total: i128 = (base_v as i128) + routed;
        if total < 0 {
            0
        } else if total > PARAM_UNIT as i128 {
            PARAM_UNIT
        } else {
            total as i64
        }
    }

    /// Resolves the full block from the modulators' current state: for
    /// every sample index and every field, base plus routed contribution,
    /// clamped into the unit range.
    pub fn resolve(&self, sources: &Vec<Modulator>) -> (acc: ParameterAccessor)
        requires
            self.wf(),
            self.routing_valid(sources@.len() as int),
        ensures
            acc.wf(),
            acc.fields == self.nfields(),
            forall|f: int, i: int|
                0 <= f < self.nfields() && 0 <= i < BUFFER_SIZE ==> acc.entry(f, i)
                    == self.spec_resolved(sources@, f, i),
    {
        let nf = self.base.len();
        let mut values: Vec<Vec<i64>> = Vec::new();
        let mut i: usize = 0;
        while i < BUFFER_SIZE
            invariant
                self.wf(),
                self.routing_valid(sources@.len() as int),
                nf == self.nfields(),
                i <= BUFFER_SIZE,
                values@.len() == i,
                forall|j: int| 0 <= j < i ==> (#[trigger] values@[j])@.len() == nf,
                forall|f: int, j: int|
                    0 <= f < nf && 0 <= j < i ==> #[trigger] (values@[j])@[f]
                        == self.spec_resolved(sources@, f, j),
            decreases BUFFER_SIZE - i,
        {
            let mut row: Vec<i64> = Vec::new();
            let mut f: usize = 0;
            while f < nf
                invariant
                    self.wf(),
                    self.routing_valid(sources@.len() as int),
                    nf == self.nfields(),
                    i < BUFFER_SIZE,
                    f <= nf,
                    row@.len() == f,
                    forall|g: int|
                        0 <= g < f ==> row@[g] == self.spec_resolved(sources@, g, i as int),
                decreases nf - f,
            {
                let entry = self.resolve_entry(sources, f, i);
                row.push(entry);
                f = f + 1;
            }
            values.push(row);
            i = i + 1;
        }
        ParameterAccessor { values, fields: nf }
    }
}

/// Bounds the product of two values in `i64` range well inside `i128`
/// range, leaving room to add one more `i64`.
pub(crate) proof fn lemma_i64_product_in_i128(a: int, b: int)
    requires
        i64::MIN <= a <= i64::MAX,
        i64::MIN <= b <= i64::MAX,
    ensures
        i128::MIN - i64::MIN <= a * b <= i128::MAX - i64::MAX,
{
    assert(i128::MIN - i64::MIN <= a * b <= i128::MAX - i64::MAX) by (nonlinear_arith)
        requires
            i64::MIN <= a <= i64::MAX,
            i64::MIN <= b <= i64::MAX,
    ;
}

/// A read-only view of one resolved block: one row of `fields` values per
/// sample index, [`BUFFER_SIZE`] rows.  Sample indexing wraps modulo the
/// block length.
pub struct ParameterAccessor {
    /// The resolved rows, one per in-block sample index.
    pub values: Vec<Vec<i64>>,
    /// Number of fields in every row.
    pub fields: usize,
}

impl ParameterAccessor {
    /// The accessor holds one full block of resolved rows.
    pub open spec fn wf(self) -> bool {
        &&& self.values@.len() == BUFFER_SIZE
        &&& forall|i: int| 0 <= i < BUFFER_SIZE ==> (#[trigger] self.values@[i])@.len()
            == self.fields
    }

    /// The stored value of field `f` at in-block sample index `i`
    /// (`0 <= i < BUFFER_SIZE`).
    pub open spec fn entry(self, f: int, i: int) -> int {
        self.values@[i]@[f] as int
    }

    /// The value read for field `f` at arbitrary sample index `idx`: the
    /// stored entry at `idx` reduced modulo the block length.
    pub open spec fn spec_value(self, f: int, idx: int) -> int {
        self.entry(f, idx % (BUFFER_SIZE as int))
    }

    /// Reads field `field` at sample index `index`; the index wraps modulo
    /// the block length.
    pub fn value(&self, field: usize, index: usize) -> (r: i64)
        requires
            self.wf(),
            field < self.fields,
        ensures
            r as int == self.spec_value(field as int, index as int),
    {
        let i = index % BUFFER_SIZE;
        self.values[i][field]
    }
}

/// Parameter resolution: a field with base value `b`, routed with amount
/// `a` to a source that supplies the constant `v` at every index, resolves
/// to `clamp_unit(b + a * v)` at every sample index.
pub proof fn lemma_constant_resolution(
    p: ParameterRuntime,
    sources: Seq<Modulator>,
    f: int,
    s: usize,
    a: i64,
    v: i64,
)
    requires
        p.wf(),
        0 <= f < p.nfields(),
        p.routing@[f] == Some(ModulationRouting { source: s, amount: a }),
        s < sources.len(),
        sources[s as int] == (Modulator::Constant { value: v }),
    ensures
        forall|i: int| p.spec_resolved(sources, f, i) == clamp_unit(p.base@[f] + a * v),
{
    assert forall|i: int| p.spec_resolved(sources, f, i) == clamp_unit(p.base@[f] + a * v) by {
        assert(sources[s as int].spec_value(i) == v);
        assert(v * a == a * v) by (nonlinear_arith);
    }
}

/// Routing replacement: resolution reads only the routing a field carries
/// now, so two parameter sets that agree on a field's base value and its
/// current routing resolve that field identically — after a re-route, only
/// the latest routing matters.
pub proof fn lemma_routing_last_wins(
    p1: ParameterRuntime,
    p2: ParameterRuntime,
    sources: Seq<Modulator>,
    f: int,
)
    requires
        p1.wf(),
        p2.wf(),
        0 <= f < p1.nfields(),
        0 <= f < p2.nfields(),
        p1.base@[f] == p2.base@[f],
        p1.routing@[f] == p2.routing@[f],
    ensures
        forall|i: int| p1.spec_resolved(sources, f, i) == p2.spec_resolved(sources, f, i),
{
}

/// Reading one block past any index lands on the same resolved value: the
/// accessor's sample indexing wraps modulo the block length.
pub proof fn lemma_accessor_wraps(acc: ParameterAccessor, f: int, idx: int)
    requires
        idx >= 0,
    ensures
        acc.spec_value(f, idx + BUFFER_SIZE) == acc.spec_value(f, idx),
{
    let m = BUFFER_SIZE as int;
    assert((idx + m) % m == idx % m) by (nonlinear_arith)
        requires
            m > 0 && idx >= 0,
    ;
}

} // verus!
