//! Model-specific registers as the host reports them: index lists (deduplicated, first
//! occurrence first), feature values classified by whether the host may change them, the
//! model candidate made of the stable values, and the comparison of two candidates.
use std::collections::HashSet;
use vstd::prelude::*;

pub mod value_set;

verus! {

/// The index of a model-specific register.
#[derive(Debug, Clone, Copy, PartialEq, Eq, Hash, Structural)]
pub struct MsrIndex(pub u32);

impl MsrIndex {
    pub fn new(value: u32) -> (r: Self)
        ensures r.0 == value,
    {
        MsrIndex(value)
    }

    pub fn get(self) -> (r: u32)
        ensures r == self.0,
    {
        self.0
    }
}

/// The index of `IA32_UCODE_REV`, the microcode revision register: the one feature register a
/// host may change under a running model.
pub const MSR_IA32_UCODE_REV: u32 = 0x0000_008b;

/// The raw values of a sequence of indices.
pub open spec fn index_values(s: Seq<MsrIndex>) -> Seq<u32> {
    s.map_values(|index: MsrIndex| index.0)
}

/// `s` with every value after its first occurrence removed, in first-occurrence order.
pub open spec fn first_occurrences(s: Seq<u32>) -> Seq<u32>
    decreases s.len(),
{
    if s.len() == 0 {
        Seq::empty()
    } else {
        let kept = first_occurrences(s.drop_last());
        if kept.contains(s.last()) { kept } else { kept.push(s.last()) }
    }
}


/// Whether `x` occurs in `s` before position `i`.
pub open spec fn occurs_before(s: Seq<u32>, x: u32, i: int) -> bool {
    exists|j: int| 0 <= j < i && s[j] == x
}

/// Deduplication keeps first-occurrence order: wherever a later kept value occurs in the input,
/// every earlier kept value occurred before it.
pub proof fn lemma_first_occurrences_keep_order(s: Seq<u32>)
    ensures
        forall|k1: int, k2: int, i2: int|
            #![trigger first_occurrences(s)[k1], first_occurrences(s)[k2], s[i2]]
            0 <= k1 < k2 < first_occurrences(s).len() && 0 <= i2 < s.len() && s[i2] == first_occurrences(s)[k2]
            ==> occurs_before(s, first_occurrences(s)[k1], i2),
    decreases s.len(),
{
    if s.len() > 0 {
        let d = s.drop_last();
        let l = s.last();
        let kept = first_occurrences(d);
        let r = first_occurrences(s);
        let last = s.len() - 1;
        lemma_first_occurrences_keep_order(d);
        assert forall|k1: int, k2: int, i2: int|
            0 <= k1 < k2 < r.len() && 0 <= i2 < s.len() && s[i2] == r[k2]
            implies occurs_before(s, r[k1], i2) by {
            assert(r[k1] == kept[k1]);
            lemma_first_occurrences_contains(d, kept[k1]);
            assert(kept.contains(kept[k1]));
            let w = choose|j: int| 0 <= j < d.len() && d[j] == kept[k1];
            assert(s[w] == d[w]);
            if i2 < last {
                assert(s[i2] == d[i2]);
                if k2 < kept.len() {
                    assert(r[k2] == kept[k2]);
                    assert(occurs_before(d, kept[k1], i2));
                    let j = choose|j: int| 0 <= j < i2 && d[j] == kept[k1];
                    assert(s[j] == d[j]);
                } else {
                    assert(r[k2] == l);
                    assert(d.contains(l));
                    lemma_first_occurrences_contains(d, l);
                }
            } else {
                if k2 < kept.len() && !kept.contains(l) {
                    assert(r[k2] == kept[k2]);
                    assert(kept.contains(kept[k2]));
                }
            }
        }
    }
}

/// An input without repeated values comes back unchanged.
pub proof fn lemma_first_occurrences_of_distinct(s: Seq<u32>)
    requires
        s.no_duplicates(),
    ensures
        first_occurrences(s) == s,
    decreases s.len(),
{
    if s.len() > 0 {
        let d = s.drop_last();
        assert(d.no_duplicates());
        lemma_first_occurrences_of_distinct(d);
        lemma_first_occurrences_contains(d, s.last());
        if d.contains(s.last()) {
            let j = choose|j: int| 0 <= j < d.len() && d[j] == s.last();
            assert(s[j] == s[s.len() - 1]);
        }
        assert(d.push(s.last()) =~= s);
    }
}

proof fn lemma_push_contains(s: Seq<u32>, v: u32, x: u32)
    ensures s.push(v).contains(x) <==> (s.contains(x) || x == v),
{
    if s.contains(x) {
        let j = choose|j: int| 0 <= j < s.len() && s[j] == x;
        assert(s.push(v)[j] == x);
    }
    if x == v {
        assert(s.push(v)[s.len() as int] == v);
    }
    if s.push(v).contains(x) {
        let j = choose|j: int| 0 <= j < s.push(v).len() && s.push(v)[j] == x;
        if j < s.len() {
            assert(s[j] == x);
        }
    }
}

/// Deduplication keeps exactly the values of the input.
pub proof fn lemma_first_occurrences_contains(s: Seq<u32>, x: u32)
    ensures first_occurrences(s).contains(x) <==> s.contains(x),
    decreases s.len(),
{
    if s.len() > 0 {
        let d = s.drop_last();
        let l = s.last();
        let kept = first_occurrences(d);
        lemma_first_occurrences_contains(d, x);
        assert(s =~= d.push(l));
        lemma_push_contains(d, l, x);
        lemma_push_contains(kept, l, x);
    }
}

/// Deduplication leaves no value twice.
pub proof fn lemma_first_occurrences_unique(s: Seq<u32>)
    ensures first_occurrences(s).no_duplicates(),
    decreases s.len(),
{
    if s.len() > 0 {
        lemma_first_occurrences_unique(s.drop_last());
        let kept = first_occurrences(s.drop_last());
        if !kept.contains(s.last()) {
            assert forall|i: int, j: int| 0 <= i < j < kept.push(s.last()).len()
                implies kept.push(s.last())[i] != kept.push(s.last())[j] by {
                if j == kept.len() {
                    assert(kept[i] == kept.push(s.last())[i]);
                }
            }
        }
    }
}

/// `out` is `input` deduplicated in first-occurrence order: no value twice, the same values, an
/// earlier kept value occurring before any occurrence of a later one, and a duplicate-free input
/// kept as it is.
pub open spec fn deduplicated_in_order(input: Seq<u32>, out: Seq<u32>) -> bool {
    &&& out.no_duplicates()
    &&& forall|x: u32| out.contains(x) <==> input.contains(x)
    &&& forall|k1: int, k2: int, i2: int|
        #![trigger out[k1], out[k2], input[i2]]
        0 <= k1 < k2 < out.len() && 0 <= i2 < input.len() && input[i2] == out[k2]
        ==> occurs_before(input, out[k1], i2)
    &&& input.no_duplicates() ==> out == input
}

/// First-occurrence deduplication has every property `deduplicated_in_order` names.
pub proof fn lemma_first_occurrences_deduplicate(s: Seq<u32>)
    ensures deduplicated_in_order(s, first_occurrences(s)),
{
    lemma_first_occurrences_unique(s);
    lemma_first_occurrences_keep_order(s);
    assert forall|x: u32| first_occurrences(s).contains(x) <==> s.contains(x) by {
        lemma_first_occurrences_contains(s, x);
    }
    if s.no_duplicates() {
        lemma_first_occurrences_of_distinct(s);
    }
}

/// The host-mutable values, in reported order.
pub open spec fn host_mutable_filter(values: Seq<MsrFeatureValue>) -> Seq<MsrFeatureValue> {
    values.filter(|v: MsrFeatureValue| is_host_mutable(v))
}

/// The model-immutable values, in reported order.
pub open spec fn model_immutable_filter(values: Seq<MsrFeatureValue>) -> Seq<MsrFeatureValue> {
    values.filter(|v: MsrFeatureValue| is_model_immutable(v))
}

/// The values of the microcode-revision register, in reported order.
pub open spec fn ucode_revision_filter(values: Seq<MsrFeatureValue>) -> Seq<MsrFeatureValue> {
    values.filter(|v: MsrFeatureValue| v.index.0 == MSR_IA32_UCODE_REV)
}

/// The values of every other register, in reported order.
pub open spec fn other_register_filter(values: Seq<MsrFeatureValue>) -> Seq<MsrFeatureValue> {
    values.filter(|v: MsrFeatureValue| v.index.0 != MSR_IA32_UCODE_REV)
}

/// Host feature values built by `MsrFeatureValue::new` split exactly by index: the host-mutable
/// ones are those of the microcode revision, the model-immutable ones all others, each in
/// reported order, and together they are all of the values.
pub proof fn lemma_feature_values_partition(values: Seq<MsrFeatureValue>)
    requires
        forall|j: int| 0 <= j < values.len() ==> (#[trigger] values[j]).stability == spec_stability(values[j].index),
    ensures
        host_mutable_filter(values) == ucode_revision_filter(values),
        model_immutable_filter(values) == other_register_filter(values),
        host_mutable_filter(values).len() + model_immutable_filter(values).len() == values.len(),
    decreases values.len(),
{
    if values.len() > 0 {
        let d = values.drop_last();
        assert forall|j: int| 0 <= j < d.len() implies (#[trigger] d[j]).stability == spec_stability(d[j].index) by {
            assert(d[j] == values[j]);
        }
        lemma_feature_values_partition(d);
        assert(values.last() == values[values.len() - 1]);
        reveal_with_fuel(Seq::filter, 1);
    }
}

/// The indices in first-occurrence order, each once.
fn normalize_indices(indices: &[u32]) -> (r: Vec<MsrIndex>)
    ensures
        index_values(r@) == first_occurrences(indices@),
        deduplicated_in_order(indices@, index_values(r@)),
{
    broadcast use vstd::std_specs::hash::group_hash_axioms;
    proof { lemma_first_occurrences_deduplicate(indices@); }
    let mut seen: HashSet<u32> = HashSet::with_capacity(indices.len());
    let mut out: Vec<MsrIndex> = Vec::new();
    let mut i: usize = 0;
    while i < indices.len()
        invariant
            0 <= i <= indices@.len(),
            index_values(out@) == first_occurrences(indices@.take(i as int)),
            forall|v: u32| seen@.contains(v) <==> index_values(out@).contains(v),
        decreases indices@.len() - i,
    {
        let x = indices[i];
        assert(indices@.take(i as int + 1).drop_last() =~= indices@.take(i as int));
        assert(indices@.take(i as int + 1).last() == x);
        let ghost prev = out@;
        if seen.insert(x) {
            out.push(MsrIndex(x));
            assert(index_values(out@) =~= index_values(prev).push(x));
            assert forall|v: u32| seen@.contains(v) <==> index_values(out@).contains(v) by {
                if v == x {
                    assert(index_values(out@)[index_values(prev).len() as int] == x);
                }
                if index_values(out@).contains(v) && v != x {
                    let k = choose|k: int| 0 <= k < index_values(out@).len() && index_values(out@)[k] == v;
                    assert(k < index_values(prev).len());
                    assert(index_values(prev)[k] == v);
                }
                if index_values(prev).contains(v) {
                    let k = choose|k: int| 0 <= k < index_values(prev).len() && index_values(prev)[k] == v;
                    assert(index_values(out@)[k] == v);
                }
            }
        }
        i = i + 1;
    }
    assert(indices@.take(indices@.len() as int) =~= indices@);
    out
}

/// The MSR indices the host reports, each once, in first-reported order.
#[derive(Debug, Clone, PartialEq, Eq)]
pub struct HostMsrIndexList {
    pub indices: Vec<MsrIndex>,
}

impl HostMsrIndexList {
    /// The list of a validated host report.
    pub fn from_validated_raw(indices: &[u32]) -> (r: Self)
        ensures
            index_values(r.indices@) == first_occurrences(indices@),
            deduplicated_in_order(indices@, index_values(r.indices@)),
    {
        HostMsrIndexList { indices: normalize_indices(indices) }
    }

    pub fn indices(&self) -> (r: &[MsrIndex])
        ensures r@ == self.indices@,
    {
        self.indices.as_slice()
    }
}

/// The feature MSR indices the host reports, each once, in first-reported order.
#[derive(Debug, Clone, PartialEq, Eq)]
pub struct HostMsrFeatureIndexList {
    pub indices: Vec<MsrIndex>,
}

impl HostMsrFeatureIndexList {
    pub fn from_validated_raw(indices: &[u32]) -> (r: Self)
        ensures
            index_values(r.indices@) == first_occurrences(indices@),
            deduplicated_in_order(indices@, index_values(r.indices@)),
    {
        HostMsrFeatureIndexList { indices: normalize_indices(indices) }
    }

    pub fn indices(&self) -> (r: &[MsrIndex])
        ensures r@ == self.indices@,
    {
        self.indices.as_slice()
    }
}

/// Whether a feature value belongs to the CPU model or may change under it.
#[derive(Debug, Clone, Copy, PartialEq, Eq, Structural)]
pub enum MsrFeatureStability {
    ModelImmutable,
    HostMutable,
}

/// Only the microcode revision is host-mutable.
pub open spec fn spec_stability(index: MsrIndex) -> MsrFeatureStability {
    if index.0 == MSR_IA32_UCODE_REV { MsrFeatureStability::HostMutable } else { MsrFeatureStability::ModelImmutable }
}

/// One feature register and the value the host reported for it.
#[derive(Debug, Clone, Copy, PartialEq, Eq, Structural)]
pub struct MsrFeatureValue {
    pub index: MsrIndex,
    pub value: u64,
    pub stability: MsrFeatureStability,
}

impl MsrFeatureValue {
    pub fn new(index: MsrIndex, value: u64) -> (r: Self)
        ensures r.index == index, r.value == value, r.stability == spec_stability(index),
    {
        let stability = if index.0 == MSR_IA32_UCODE_REV {
            MsrFeatureStability::HostMutable
        } else {
            MsrFeatureStability::ModelImmutable
        };
        MsrFeatureValue { index, value, stability }
    }

    pub fn index(self) -> (r: MsrIndex)
        ensures r == self.index,
    {
        self.index
    }

    pub fn value(self) -> (r: u64)
        ensures r == self.value,
    {
        self.value
    }

    pub fn stability(self) -> (r: MsrFeatureStability)
        ensures r == self.stability,
    {
        self.stability
    }
}

pub open spec fn is_model_immutable(v: MsrFeatureValue) -> bool {
    v.stability == MsrFeatureStability::ModelImmutable
}

pub open spec fn is_host_mutable(v: MsrFeatureValue) -> bool {
    v.stability == MsrFeatureStability::HostMutable
}

fn copy_values(values: &Vec<MsrFeatureValue>) -> (r: Vec<MsrFeatureValue>)
    ensures r@ == values@,
{
    let mut out: Vec<MsrFeatureValue> = Vec::new();
    let mut i: usize = 0;
    while i < values.len()
        invariant
            0 <= i <= values@.len(),
            out@ == values@.take(i as int),
        decreases values@.len() - i,
    {
        out.push(values[i]);
        assert(out@ =~= values@.take(i as int + 1));
        i = i + 1;
    }
    assert(values@.take(values@.len() as int) =~= values@);
    out
}

/// The values of the given stability, in the order they came.
fn values_with_stability(values: &Vec<MsrFeatureValue>, stability: MsrFeatureStability) -> (r: Vec<MsrFeatureValue>)
    ensures r@ == values@.filter(|v: MsrFeatureValue| v.stability == stability),
{
    let ghost pred = |v: MsrFeatureValue| v.stability == stability;
    let mut out: Vec<MsrFeatureValue> = Vec::new();
    let mut i: usize = 0;
    while i < values.len()
        invariant
            0 <= i <= values@.len(),
            pred == (|v: MsrFeatureValue| v.stability == stability),
            out@ == values@.take(i as int).filter(pred),
        decreases values@.len() - i,
    {
        proof { reveal(Seq::filter); }
        assert(values@.take(i as int + 1).drop_last() =~= values@.take(i as int));
        if values[i].stability == stability {
            out.push(values[i]);
        }
        i = i + 1;
    }
    assert(values@.take(values@.len() as int) =~= values@);
    out
}

/// The feature values the host reported, in its order.
#[derive(Debug, Clone, PartialEq, Eq)]
pub struct HostMsrFeatureValues {
    pub values: Vec<MsrFeatureValue>,
}

impl HostMsrFeatureValues {
    pub fn from_values(values: Vec<MsrFeatureValue>) -> (r: Self)
        ensures r.values@ == values@,
    {
        HostMsrFeatureValues { values }
    }

    pub fn values(&self) -> (r: &[MsrFeatureValue])
        ensures r@ == self.values@,
    {
        self.values.as_slice()
    }

    /// The values that belong to the CPU model, in reported order.
    pub fn model_immutable_values(&self) -> (r: Vec<MsrFeatureValue>)
        ensures r@ == model_immutable_filter(self.values@),
    {
        let r = values_with_stability(&self.values, MsrFeatureStability::ModelImmutable);
        assert((|v: MsrFeatureValue| v.stability == MsrFeatureStability::ModelImmutable)
            =~= (|v: MsrFeatureValue| is_model_immutable(v)));
        r
    }

    /// The values the host may change, in reported order.
    pub fn host_mutable_values(&self) -> (r: Vec<MsrFeatureValue>)
        ensures r@ == host_mutable_filter(self.values@),
    {
        let r = values_with_stability(&self.values, MsrFeatureStability::HostMutable);
        assert((|v: MsrFeatureValue| v.stability == MsrFeatureStability::HostMutable)
            =~= (|v: MsrFeatureValue| is_host_mutable(v)));
        r
    }

    /// The CPU-model candidate of this observation: its model-immutable values, with the whole
    /// observation kept as provenance.
    pub fn model_candidate(&self) -> (r: HostMsrModelCandidate)
        ensures
            r.source_observation.values@ == self.values@,
            r.values@ == model_immutable_filter(self.values@),
    {
        HostMsrModelCandidate {
            source_observation: HostMsrFeatureValues { values: copy_values(&self.values) },
            values: self.model_immutable_values(),
        }
    }
}

/// A CPU-model candidate: the stable feature values, and the observation they came from.
#[derive(Debug, Clone, PartialEq, Eq)]
pub struct HostMsrModelCandidate {
    pub source_observation: HostMsrFeatureValues,
    pub values: Vec<MsrFeatureValue>,
}

/// One register present in both candidates with different values.
#[derive(Debug, Clone, Copy, PartialEq, Eq, Structural)]
pub struct MsrModelValueMismatch {
    pub index: MsrIndex,
    pub reference_value: u64,
    pub observed_value: u64,
}

impl MsrModelValueMismatch {
    pub fn new(index: MsrIndex, reference_value: u64, observed_value: u64) -> (r: Self)
        ensures r.index == index, r.reference_value == reference_value, r.observed_value == observed_value,
    {
        MsrModelValueMismatch { index, reference_value, observed_value }
    }

    pub fn index(self) -> (r: MsrIndex)
        ensures r == self.index,
    {
        self.index
    }

    pub fn reference_value(self) -> (r: u64)
        ensures r == self.reference_value,
    {
        self.reference_value
    }

    pub fn observed_value(self) -> (r: u64)
        ensures r == self.observed_value,
    {
        self.observed_value
    }
}

/// Value `i` is the first in `s` for register `index`.
pub open spec fn is_first_for_index(s: Seq<MsrFeatureValue>, index: MsrIndex, i: int) -> bool {
    &&& 0 <= i < s.len()
    &&& s[i].index == index
    &&& forall|j: int| 0 <= j < i ==> s[j].index != index
}

/// The first value in `s` for register `index`, if any.
pub open spec fn spec_lookup(s: Seq<MsrFeatureValue>, index: MsrIndex) -> Option<MsrFeatureValue> {
    if exists|i: int| is_first_for_index(s, index, i) {
        Some(s[choose|i: int| is_first_for_index(s, index, i)])
    } else {
        None
    }
}

proof fn lemma_first_for_index_unique(s: Seq<MsrFeatureValue>, index: MsrIndex, i: int)
    requires is_first_for_index(s, index, i),
    ensures spec_lookup(s, index) == Some(s[i]),
{
    let k = choose|k: int| is_first_for_index(s, index, k);
    assert(is_first_for_index(s, index, k));
    if k < i {
        assert(s[k].index != index);
    }
    if k > i {
        assert(s[i].index != index);
    }
}

fn lookup(values: &Vec<MsrFeatureValue>, index: MsrIndex) -> (r: Option<MsrFeatureValue>)
    ensures r == spec_lookup(values@, index),
{
    let mut i: usize = 0;
    while i < values.len()
        invariant
            0 <= i <= values@.len(),
            forall|j: int| 0 <= j < i ==> values@[j].index != index,
        decreases values@.len() - i,
    {
        if values[i].index.0 == index.0 {
            proof { lemma_first_for_index_unique(values@, index, i as int); }
            return Some(values[i]);
        }
        i = i + 1;
    }
    assert(!exists|k: int| is_first_for_index(values@, index, k));
    None
}

/// Reference values whose register the observation lacks, in reference order.
pub open spec fn spec_missing(reference: Seq<MsrFeatureValue>, observed: Seq<MsrFeatureValue>) -> Seq<MsrFeatureValue> {
    reference.filter(|v: MsrFeatureValue| spec_lookup(observed, v.index) is None)
}

/// Reference values whose register the observation reports with another value.
pub open spec fn is_mismatched(observed: Seq<MsrFeatureValue>, v: MsrFeatureValue) -> bool {
    spec_lookup(observed, v.index) matches Some(o) && o.value != v.value
}

/// The mismatch record of a reference value against the observation.
pub open spec fn mismatch_of(observed: Seq<MsrFeatureValue>, v: MsrFeatureValue) -> MsrModelValueMismatch {
    MsrModelValueMismatch {
        index: v.index,
        reference_value: v.value,
        observed_value: spec_lookup(observed, v.index)->Some_0.value,
    }
}

/// Every register both report with different values, in reference order.
pub open spec fn spec_mismatches(reference: Seq<MsrFeatureValue>, observed: Seq<MsrFeatureValue>)
    -> Seq<MsrModelValueMismatch>
{
    reference.filter(|v: MsrFeatureValue| is_mismatched(observed, v))
        .map_values(|v: MsrFeatureValue| mismatch_of(observed, v))
}

fn missing_from(reference: &Vec<MsrFeatureValue>, observed: &Vec<MsrFeatureValue>) -> (r: Vec<MsrFeatureValue>)
    ensures r@ == spec_missing(reference@, observed@),
{
    let ghost pred = |v: MsrFeatureValue| spec_lookup(observed@, v.index) is None;
    let mut out: Vec<MsrFeatureValue> = Vec::new();
    let mut i: usize = 0;
    while i < reference.len()
        invariant
            0 <= i <= reference@.len(),
            pred == (|v: MsrFeatureValue| spec_lookup(observed@, v.index) is None),
            out@ == reference@.take(i as int).filter(pred),
        decreases reference@.len() - i,
    {
        proof { reveal(Seq::filter); }
        assert(reference@.take(i as int + 1).drop_last() =~= reference@.take(i as int));
        let v = reference[i];
        if lookup(observed, v.index).is_none() {
            out.push(v);
        }
        i = i + 1;
    }
    assert(reference@.take(reference@.len() as int) =~= reference@);
    out
}

fn mismatches(reference: &Vec<MsrFeatureValue>, observed: &Vec<MsrFeatureValue>) -> (r: Vec<MsrModelValueMismatch>)
    ensures r@ == spec_mismatches(reference@, observed@),
{
    let ghost pred = |v: MsrFeatureValue| is_mismatched(observed@, v);
    let ghost f = |v: MsrFeatureValue| mismatch_of(observed@, v);
    let mut out: Vec<MsrModelValueMismatch> = Vec::new();
    let mut i: usize = 0;
    while i < reference.len()
        invariant
            0 <= i <= reference@.len(),
            pred == (|v: MsrFeatureValue| is_mismatched(observed@, v)),
            f == (|v: MsrFeatureValue| mismatch_of(observed@, v)),
            out@ == reference@.take(i as int).filter(pred).map_values(f),
        decreases reference@.len() - i,
    {
        proof { reveal(Seq::filter); }
        assert(reference@.take(i as int + 1).drop_last() =~= reference@.take(i as int));
        let v = reference[i];
        let ghost before = reference@.take(i as int).filter(pred);
        match lookup(observed, v.index) {
            Some(o) => {
                if o.value != v.value {
                    out.push(MsrModelValueMismatch { index: v.index, reference_value: v.value, observed_value: o.value });
                    assert(before.push(v).map_values(f) =~= before.map_values(f).push(f(v)));
                }
            },
            None => {},
        }
        i = i + 1;
    }
    assert(reference@.take(reference@.len() as int) =~= reference@);
    out
}

fn copy_candidate(candidate: &HostMsrModelCandidate) -> (r: HostMsrModelCandidate)
    ensures
        r.source_observation.values@ == candidate.source_observation.values@,
        r.values@ == candidate.values@,
{
    HostMsrModelCandidate {
        source_observation: HostMsrFeatureValues { values: copy_values(&candidate.source_observation.values) },
        values: copy_values(&candidate.values),
    }
}

/// How an observed candidate differs from a reference candidate, register by register; the
/// order in which either candidate lists its values does not matter.
#[derive(Debug, Clone, PartialEq, Eq)]
pub struct MsrModelComparison {
    pub reference: HostMsrModelCandidate,
    pub observed: HostMsrModelCandidate,
    pub missing_from_observed: Vec<MsrFeatureValue>,
    pub extra_in_observed: Vec<MsrFeatureValue>,
    pub value_mismatches: Vec<MsrModelValueMismatch>,
}

impl HostMsrModelCandidate {
    pub fn source_observation(&self) -> (r: &HostMsrFeatureValues)
        ensures r == &self.source_observation,
    {
        &self.source_observation
    }

    pub fn values(&self) -> (r: &[MsrFeatureValue])
        ensures r@ == self.values@,
    {
        self.values.as_slice()
    }

    /// A copy of this candidate, provenance included.
    pub fn duplicate(&self) -> (r: Self)
        ensures
            r.source_observation.values@ == self.source_observation.values@,
            r.values@ == self.values@,
    {
        copy_candidate(self)
    }

    /// Compares this reference candidate with an observed one.
    pub fn compare(&self, observed: &HostMsrModelCandidate) -> (r: MsrModelComparison)
        ensures
            r.reference.values@ == self.values@,
            r.reference.source_observation.values@ == self.source_observation.values@,
            r.observed.values@ == observed.values@,
            r.observed.source_observation.values@ == observed.source_observation.values@,
            r.missing_from_observed@ == spec_missing(self.values@, observed.values@),
            r.extra_in_observed@ == spec_missing(observed.values@, self.values@),
            r.value_mismatches@ == spec_mismatches(self.values@, observed.values@),
    {
        MsrModelComparison {
            reference: copy_candidate(self),
            observed: copy_candidate(observed),
            missing_from_observed: missing_from(&self.values, &observed.values),
            extra_in_observed: missing_from(&observed.values, &self.values),
            value_mismatches: mismatches(&self.values, &observed.values),
        }
    }
}

impl MsrModelComparison {
    pub fn reference(&self) -> (r: &HostMsrModelCandidate)
        ensures r == &self.reference,
    {
        &self.reference
    }

    pub fn observed(&self) -> (r: &HostMsrModelCandidate)
        ensures r == &self.observed,
    {
        &self.observed
    }

    pub fn missing_from_observed(&self) -> (r: &[MsrFeatureValue])
        ensures r@ == self.missing_from_observed@,
    {
        self.missing_from_observed.as_slice()
    }

    pub fn extra_in_observed(&self) -> (r: &[MsrFeatureValue])
        ensures r@ == self.extra_in_observed@,
    {
        self.extra_in_observed.as_slice()
    }

    pub fn value_mismatches(&self) -> (r: &[MsrModelValueMismatch])
        ensures r@ == self.value_mismatches@,
    {
        self.value_mismatches.as_slice()
    }

    /// The two candidates agree on every register.
    pub fn is_exact_match(&self) -> (r: bool)
        ensures
            r == (self.missing_from_observed@.len() == 0 && self.extra_in_observed@.len() == 0
                && self.value_mismatches@.len() == 0),
    {
        self.missing_from_observed.len() == 0 && self.extra_in_observed.len() == 0
            && self.value_mismatches.len() == 0
    }
}

/// A candidate whose registers are distinct, compared with itself, differs in nothing.
pub proof fn lemma_compare_with_itself_is_exact(values: Seq<MsrFeatureValue>)
    requires
        forall|i: int, j: int| 0 <= i < values.len() && 0 <= j < values.len() && values[i].index == values[j].index
            ==> i == j,
    ensures
        spec_missing(values, values).len() == 0,
        spec_mismatches(values, values).len() == 0,
{
    let missing = |v: MsrFeatureValue| spec_lookup(values, v.index) is None;
    let mismatched = |v: MsrFeatureValue| is_mismatched(values, v);
    assert forall|i: int| 0 <= i < values.len() implies !missing(values[i]) && !mismatched(values[i]) by {
        assert(is_first_for_index(values, values[i].index, i));
        lemma_first_for_index_unique(values, values[i].index, i);
    }
    values.lemma_all_neg_filter_empty(missing);
    values.lemma_all_neg_filter_empty(mismatched);
}

} // verus!
