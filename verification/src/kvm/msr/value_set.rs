//! The MSR values a guest is started with: each register at most once, and only registers the
//! guest's access policy lets it write.
use crate::kvm::msr::MsrIndex;
use std::collections::HashMap;
use crate::text::{decimal_text, hex_text, push_decimal, push_hex};
use vstd::string::StringExecFns;
use vstd::prelude::*;

verus! {

/// What a guest may do with a register.
#[derive(Debug, Clone, Copy, PartialEq, Eq, Structural)]
pub enum MsrAccessAuthority {
    ReadOnly,
    ReadWrite,
}

/// One register of the guest's access policy.
#[derive(Debug, Clone, Copy, PartialEq, Eq, Structural)]
pub struct GuestMsrAccessPolicyEntry {
    pub index: MsrIndex,
    pub authority: MsrAccessAuthority,
}

impl GuestMsrAccessPolicyEntry {
    pub fn new(index: MsrIndex, authority: MsrAccessAuthority) -> (r: Self)
        ensures r.index == index, r.authority == authority,
    {
        GuestMsrAccessPolicyEntry { index, authority }
    }

    pub fn index(self) -> (r: MsrIndex)
        ensures r == self.index,
    {
        self.index
    }

    pub fn authority(self) -> (r: MsrAccessAuthority)
        ensures r == self.authority,
    {
        self.authority
    }
}

/// The registers a guest may access, and how.
#[derive(Debug, Clone, PartialEq, Eq)]
pub struct GuestMsrAccessPolicy {
    pub entries: Vec<GuestMsrAccessPolicyEntry>,
}

impl GuestMsrAccessPolicy {
    pub fn new(entries: Vec<GuestMsrAccessPolicyEntry>) -> (r: Self)
        ensures r.entries@ == entries@,
    {
        GuestMsrAccessPolicy { entries }
    }

    pub fn entries(&self) -> (r: &[GuestMsrAccessPolicyEntry])
        ensures r@ == self.entries@,
    {
        self.entries.as_slice()
    }
}

/// One register and the value the guest starts with.
#[derive(Debug, Clone, Copy, PartialEq, Eq, Structural)]
pub struct GuestMsrValue {
    pub index: MsrIndex,
    pub value: u64,
}

impl GuestMsrValue {
    pub fn index(self) -> (r: MsrIndex)
        ensures r == self.index,
    {
        self.index
    }

    pub fn value(self) -> (r: u64)
        ensures r == self.value,
    {
        self.value
    }
}

/// Why a requested value set was refused, with the position in the request.
#[derive(Debug, Clone, Copy, PartialEq, Eq)]
pub enum GuestMsrValueSetError {
    UnauthorizedIndex { index: MsrIndex, position: usize },
    DuplicateIndex { index: MsrIndex, first_position: usize, duplicate_position: usize },
}

/// The values a guest starts with, in requested order.
#[derive(Debug, Clone, PartialEq, Eq)]
pub struct GuestMsrValueSet {
    pub values: Vec<GuestMsrValue>,
}

/// The policy lets the guest write register `index`.
pub open spec fn spec_authorized(entries: Seq<GuestMsrAccessPolicyEntry>, index: MsrIndex) -> bool {
    exists|k: int| 0 <= k < entries.len() && entries[k].index == index
        && entries[k].authority == MsrAccessAuthority::ReadWrite
}

/// Request `i` is the first one for register `index`.
pub open spec fn is_first_request(requested: Seq<(MsrIndex, u64)>, index: MsrIndex, i: int) -> bool {
    &&& 0 <= i < requested.len()
    &&& requested[i].0 == index
    &&& forall|j: int| 0 <= j < i ==> requested[j].0 != index
}

/// The first position of register `index` in `requested`.
pub open spec fn spec_first_position(requested: Seq<(MsrIndex, u64)>, index: MsrIndex) -> int {
    choose|i: int| is_first_request(requested, index, i)
}

/// The value set a request produces, or the first refused position: a register requested a
/// second time, or one the policy does not let the guest write, checked position by position.
pub open spec fn spec_value_set(entries: Seq<GuestMsrAccessPolicyEntry>, requested: Seq<(MsrIndex, u64)>)
    -> Result<Seq<GuestMsrValue>, GuestMsrValueSetError>
    decreases requested.len(),
{
    if requested.len() == 0 {
        Ok(Seq::empty())
    } else {
        let earlier = requested.drop_last();
        match spec_value_set(entries, earlier) {
            Err(e) => Err(e),
            Ok(values) => {
                let (index, value) = requested.last();
                let position = (requested.len() - 1) as usize;
                if exists|j: int| 0 <= j < earlier.len() && earlier[j].0 == index {
                    Err(GuestMsrValueSetError::DuplicateIndex {
                        index,
                        first_position: spec_first_position(earlier, index) as usize,
                        duplicate_position: position,
                    })
                } else if !spec_authorized(entries, index) {
                    Err(GuestMsrValueSetError::UnauthorizedIndex { index, position })
                } else {
                    Ok(values.push(GuestMsrValue { index, value }))
                }
            },
        }
    }
}

proof fn lemma_first_request_exists(requested: Seq<(MsrIndex, u64)>, index: MsrIndex, i: int)
    requires 0 <= i < requested.len(), requested[i].0 == index,
    ensures exists|k: int| is_first_request(requested, index, k),
    decreases i,
{
    if exists|j: int| 0 <= j < i && requested[j].0 == index {
        let j = choose|j: int| 0 <= j < i && requested[j].0 == index;
        lemma_first_request_exists(requested, index, j);
    } else {
        assert(is_first_request(requested, index, i));
    }
}

proof fn lemma_first_request_unique(requested: Seq<(MsrIndex, u64)>, index: MsrIndex, i: int)
    requires is_first_request(requested, index, i),
    ensures spec_first_position(requested, index) == i,
{
    let k = spec_first_position(requested, index);
    assert(is_first_request(requested, index, k));
    if k < i {
        assert(requested[k].0 != index);
    }
    if k > i {
        assert(requested[i].0 != index);
    }
}

/// Once a prefix of the request is refused, the whole request is refused the same way.
proof fn lemma_refusal_persists(entries: Seq<GuestMsrAccessPolicyEntry>, requested: Seq<(MsrIndex, u64)>, n: int)
    requires
        0 <= n <= requested.len(),
        spec_value_set(entries, requested.take(n)) is Err,
    ensures
        spec_value_set(entries, requested) == spec_value_set(entries, requested.take(n)),
    decreases requested.len() - n,
{
    if n < requested.len() {
        assert(requested.take(n + 1).drop_last() =~= requested.take(n));
        assert(spec_value_set(entries, requested.take(n + 1)) == spec_value_set(entries, requested.take(n)));
        lemma_refusal_persists(entries, requested, n + 1);
    } else {
        assert(requested.take(n) =~= requested);
    }
}

fn authorized(entries: &[GuestMsrAccessPolicyEntry], index: MsrIndex) -> (r: bool)
    ensures r == spec_authorized(entries@, index),
{
    let mut k: usize = 0;
    while k < entries.len()
        invariant
            0 <= k <= entries@.len(),
            forall|j: int| 0 <= j < k ==> !(entries@[j].index == index
                && entries@[j].authority == MsrAccessAuthority::ReadWrite),
        decreases entries@.len() - k,
    {
        if entries[k].index.0 == index.0 && entries[k].authority == MsrAccessAuthority::ReadWrite {
            return true;
        }
        k = k + 1;
    }
    false
}

impl GuestMsrValueSet {
    /// The guest's starting values for `requested`, refused at the first register that was
    /// already requested or that the policy does not let the guest write.
    pub fn from_policy(policy: &GuestMsrAccessPolicy, requested: &[(MsrIndex, u64)])
        -> (r: Result<Self, GuestMsrValueSetError>)
        ensures
            match spec_value_set(policy.entries@, requested@) {
                Ok(values) => r matches Ok(set) && set.values@ == values,
                Err(e) => r == Err::<Self, GuestMsrValueSetError>(e),
            },
            r is Ok <==> (requested_indices_distinct(requested@)
                && requested_indices_authorized(policy.entries@, requested@)),
            r matches Ok(set) ==> set.values@ == spec_requested_values(requested@),
    {
        let _requested_count = requested.len();
        proof {
            lemma_value_set_accepts_exactly_distinct_authorized(policy.entries@, requested@);
        }
        broadcast use vstd::std_specs::hash::group_hash_axioms;
        let entries = policy.entries();
        let mut seen: HashMap<u32, usize> = HashMap::with_capacity(requested.len());
        let mut values: Vec<GuestMsrValue> = Vec::new();
        let mut position: usize = 0;
        while position < requested.len()
            invariant
                0 <= position <= requested@.len(),
                entries@ == policy.entries@,
                spec_value_set(policy.entries@, requested@.take(position as int)) == Ok::<Seq<GuestMsrValue>,
                    GuestMsrValueSetError>(values@),
                forall|v: u32| #[trigger] seen@.contains_key(v)
                    ==> seen@[v] < position && requested@[seen@[v] as int].0.0 == v,
                forall|j: int| 0 <= j < position ==> #[trigger] seen@.contains_key(requested@[j].0.0),
                forall|j: int, k: int| 0 <= j < k < position ==> requested@[j].0 != requested@[k].0,
            decreases requested@.len() - position,
        {
            let (index, value) = requested[position];
            let ghost prefix = requested@.take(position as int + 1);
            assert(prefix.drop_last() =~= requested@.take(position as int));
            assert(prefix.last() == requested@[position as int]);
            match seen.get(&index.0) {
                Some(first) => {
                    let first_position = *first;
                    proof {
                        let earlier = requested@.take(position as int);
                        assert(requested@[first_position as int].0 == index);
                        assert(earlier[first_position as int].0 == index);
                        assert(is_first_request(earlier, index, first_position as int));
                        lemma_first_request_unique(earlier, index, first_position as int);
                        lemma_refusal_persists(policy.entries@, requested@, position as int + 1);
                    }
                    return Err(GuestMsrValueSetError::DuplicateIndex {
                        index,
                        first_position,
                        duplicate_position: position,
                    });
                },
                None => {},
            }
            assert forall|j: int| 0 <= j < position implies requested@[j].0 != index by {
                if requested@[j].0 == index {
                    assert(seen@.contains_key(requested@[j].0.0));
                }
            }
            if !authorized(entries, index) {
                proof { lemma_refusal_persists(policy.entries@, requested@, position as int + 1); }
                return Err(GuestMsrValueSetError::UnauthorizedIndex { index, position });
            }
            seen.insert(index.0, position);
            values.push(GuestMsrValue { index, value });
            position = position + 1;
        }
        assert(requested@.take(requested@.len() as int) =~= requested@);
        Ok(GuestMsrValueSet { values })
    }

    pub fn values(&self) -> (r: &[GuestMsrValue])
        ensures r@ == self.values@,
    {
        self.values.as_slice()
    }
}

/// An accepted value set holds every requested register exactly once, in requested order,
/// each one writable under the policy.
pub proof fn lemma_accepted_values_are_distinct_and_authorized(entries: Seq<GuestMsrAccessPolicyEntry>,
    requested: Seq<(MsrIndex, u64)>)
    requires spec_value_set(entries, requested) is Ok,
    ensures
        ({
            let values = spec_value_set(entries, requested)->Ok_0;
            &&& values.len() == requested.len()
            &&& forall|i: int| 0 <= i < values.len() ==> values[i].index == requested[i].0
                && values[i].value == requested[i].1 && spec_authorized(entries, values[i].index)
            &&& forall|i: int, j: int| 0 <= i < j < values.len() ==> values[i].index != values[j].index
        }),
    decreases requested.len(),
{
    if requested.len() > 0 {
        let earlier = requested.drop_last();
        lemma_accepted_values_are_distinct_and_authorized(entries, earlier);
        let values = spec_value_set(entries, requested)->Ok_0;
        let prev = spec_value_set(entries, earlier)->Ok_0;
        assert(values == prev.push(GuestMsrValue { index: requested.last().0, value: requested.last().1 }));
        assert forall|i: int, j: int| 0 <= i < j < values.len() implies values[i].index != values[j].index by {
            if j == values.len() - 1 {
                assert(earlier[i].0 == values[i].index);
            }
        }
    }
}


/// Whether request `p` is refused on its own terms: its register was requested before it, or
/// the policy does not let the guest write it.
pub open spec fn request_refused_at(entries: Seq<GuestMsrAccessPolicyEntry>, requested: Seq<(MsrIndex, u64)>,
    p: int) -> bool
{
    (exists|j: int| 0 <= j < p && requested[j].0 == requested[p].0) || !spec_authorized(entries, requested[p].0)
}

/// The refusal request `p` is reported with.
pub open spec fn spec_refusal_at(entries: Seq<GuestMsrAccessPolicyEntry>, requested: Seq<(MsrIndex, u64)>, p: int)
    -> GuestMsrValueSetError
{
    if exists|j: int| 0 <= j < p && requested[j].0 == requested[p].0 {
        GuestMsrValueSetError::DuplicateIndex {
            index: requested[p].0,
            first_position: spec_first_position(requested.take(p), requested[p].0) as usize,
            duplicate_position: p as usize,
        }
    } else {
        GuestMsrValueSetError::UnauthorizedIndex { index: requested[p].0, position: p as usize }
    }
}

/// The values of requests that were all accepted, in requested order.
pub open spec fn spec_requested_values(requested: Seq<(MsrIndex, u64)>) -> Seq<GuestMsrValue> {
    Seq::new(requested.len(), |i: int| GuestMsrValue { index: requested[i].0, value: requested[i].1 })
}

proof fn lemma_refused_at_prefix(entries: Seq<GuestMsrAccessPolicyEntry>, requested: Seq<(MsrIndex, u64)>, q: int)
    requires
        0 <= q < requested.len() - 1,
    ensures
        request_refused_at(entries, requested.drop_last(), q) == request_refused_at(entries, requested, q),
        spec_refusal_at(entries, requested.drop_last(), q) == spec_refusal_at(entries, requested, q),
{
    let d = requested.drop_last();
    assert(d[q] == requested[q]);
    if exists|j: int| 0 <= j < q && requested[j].0 == requested[q].0 {
        let j = choose|j: int| 0 <= j < q && requested[j].0 == requested[q].0;
        assert(d[j] == requested[j]);
    }
    if exists|j: int| 0 <= j < q && d[j].0 == d[q].0 {
        let j = choose|j: int| 0 <= j < q && d[j].0 == d[q].0;
        assert(d[j] == requested[j]);
    }
    assert(d.take(q) =~= requested.take(q));
}

/// A value set is built exactly when no request is refused, and then holds every requested
/// value in requested order; otherwise the first refused request decides the error: a repeated
/// register names its first position, an unwritable one its own.
pub proof fn lemma_value_set_accepts_exactly_distinct_writable_requests(entries: Seq<GuestMsrAccessPolicyEntry>,
    requested: Seq<(MsrIndex, u64)>)
    requires
        requested.len() <= usize::MAX,
    ensures
        (forall|p: int| 0 <= p < requested.len() ==> !#[trigger] request_refused_at(entries, requested, p))
            ==> spec_value_set(entries, requested) == Ok::<Seq<GuestMsrValue>, GuestMsrValueSetError>(
                spec_requested_values(requested)),
        forall|p: int| 0 <= p < requested.len() && #[trigger] request_refused_at(entries, requested, p)
            && (forall|q: int| 0 <= q < p ==> !request_refused_at(entries, requested, q))
            ==> spec_value_set(entries, requested) == Err::<Seq<GuestMsrValue>, GuestMsrValueSetError>(
                spec_refusal_at(entries, requested, p)),
    decreases requested.len(),
{
    if requested.len() > 0 {
        let d = requested.drop_last();
        let last = (requested.len() - 1) as int;
        lemma_value_set_accepts_exactly_distinct_writable_requests(entries, d);
        assert forall|q: int| 0 <= q < last implies request_refused_at(entries, d, q) == request_refused_at(
            entries, requested, q) && spec_refusal_at(entries, d, q) == spec_refusal_at(entries, requested, q) by {
            lemma_refused_at_prefix(entries, requested, q);
        }
        assert(d =~= requested.take(last));
        assert(requested.last() == requested[last]);
        let dup = exists|j: int| 0 <= j < d.len() && d[j].0 == requested.last().0;
        assert(dup == exists|j: int| 0 <= j < last && requested[j].0 == requested[last].0) by {
            if dup {
                let j = choose|j: int| 0 <= j < d.len() && d[j].0 == requested.last().0;
                assert(requested[j] == d[j]);
            }
            if exists|j: int| 0 <= j < last && requested[j].0 == requested[last].0 {
                let j = choose|j: int| 0 <= j < last && requested[j].0 == requested[last].0;
                assert(requested[j] == d[j]);
            }
        }
        if forall|p: int| 0 <= p < requested.len() ==> !#[trigger] request_refused_at(entries, requested, p) {
            assert forall|p: int| 0 <= p < d.len() implies !#[trigger] request_refused_at(entries, d, p) by {
                assert(!request_refused_at(entries, requested, p));
            }
            assert(!request_refused_at(entries, requested, last));
            assert(spec_requested_values(d).push(GuestMsrValue { index: requested.last().0, value: requested.last().1 })
                =~= spec_requested_values(requested));
            assert(spec_value_set(entries, d) == Ok::<Seq<GuestMsrValue>, GuestMsrValueSetError>(spec_requested_values(d)));
            assert(!dup);
            assert(spec_authorized(entries, requested.last().0));
        }
        assert forall|p: int| 0 <= p < requested.len() && #[trigger] request_refused_at(entries, requested, p)
            && (forall|q: int| 0 <= q < p ==> !request_refused_at(entries, requested, q))
            implies spec_value_set(entries, requested) == Err::<Seq<GuestMsrValue>, GuestMsrValueSetError>(
                spec_refusal_at(entries, requested, p)) by {
            if p < last {
                assert(request_refused_at(entries, d, p));
                assert forall|q: int| 0 <= q < p implies !request_refused_at(entries, d, q) by {
                    assert(!request_refused_at(entries, requested, q));
                }
                assert(spec_value_set(entries, d) == Err::<Seq<GuestMsrValue>, GuestMsrValueSetError>(
                    spec_refusal_at(entries, d, p)));
            } else {
                assert forall|q: int| 0 <= q < d.len() implies !#[trigger] request_refused_at(entries, d, q) by {
                    assert(!request_refused_at(entries, requested, q));
                }
            }
        }
    } else {
        assert(spec_requested_values(requested) =~= Seq::<GuestMsrValue>::empty());
    }
}



/// Whether no register is requested twice.
pub open spec fn requested_indices_distinct(requested: Seq<(MsrIndex, u64)>) -> bool {
    forall|i: int, j: int| 0 <= i < j < requested.len() ==> (#[trigger] requested[i]).0 != (#[trigger] requested[j]).0
}

/// Whether the policy lets the guest write every requested register.
pub open spec fn requested_indices_authorized(entries: Seq<GuestMsrAccessPolicyEntry>, requested: Seq<(MsrIndex, u64)>) -> bool {
    forall|i: int| 0 <= i < requested.len() ==> spec_authorized(entries, (#[trigger] requested[i]).0)
}

/// A value set is built exactly when the requested registers are pairwise distinct and each is
/// writable under the policy; it then holds every requested value in requested order.
pub proof fn lemma_value_set_accepts_exactly_distinct_authorized(entries: Seq<GuestMsrAccessPolicyEntry>,
    requested: Seq<(MsrIndex, u64)>)
    requires
        requested.len() <= usize::MAX,
    ensures
        spec_value_set(entries, requested) is Ok <==> (requested_indices_distinct(requested)
            && requested_indices_authorized(entries, requested)),
        spec_value_set(entries, requested) is Ok ==> spec_value_set(entries, requested)->Ok_0
            == spec_requested_values(requested),
{
    lemma_value_set_accepts_exactly_distinct_writable_requests(entries, requested);
    let none_refused = forall|p: int| 0 <= p < requested.len() ==> !#[trigger] request_refused_at(entries, requested, p);
    if requested_indices_distinct(requested) && requested_indices_authorized(entries, requested) {
        assert forall|p: int| 0 <= p < requested.len() implies !#[trigger] request_refused_at(entries, requested, p) by {
            if exists|j: int| 0 <= j < p && requested[j].0 == requested[p].0 {
                let j = choose|j: int| 0 <= j < p && requested[j].0 == requested[p].0;
                assert(requested[j].0 != requested[p].0);
            }
            assert(spec_authorized(entries, requested[p].0));
        }
    }
    if !none_refused {
        let p = choose|p: int| 0 <= p < requested.len() && #[trigger] request_refused_at(entries, requested, p);
        lemma_first_refusal_exists(entries, requested, p);
    } else {
        assert forall|i: int, j: int| 0 <= i < j < requested.len() implies
            (#[trigger] requested[i]).0 != (#[trigger] requested[j]).0 by {
            assert(!request_refused_at(entries, requested, j));
        }
        assert forall|i: int| 0 <= i < requested.len() implies spec_authorized(entries, (#[trigger] requested[i]).0) by {
            assert(!request_refused_at(entries, requested, i));
        }
    }
}

proof fn lemma_first_refusal_exists(entries: Seq<GuestMsrAccessPolicyEntry>, requested: Seq<(MsrIndex, u64)>, p: int)
    requires
        requested.len() <= usize::MAX,
        0 <= p < requested.len(),
        request_refused_at(entries, requested, p),
    ensures
        spec_value_set(entries, requested) is Err,
    decreases p,
{
    lemma_value_set_accepts_exactly_distinct_writable_requests(entries, requested);
    if exists|q: int| 0 <= q < p && request_refused_at(entries, requested, q) {
        let q = choose|q: int| 0 <= q < p && request_refused_at(entries, requested, q);
        lemma_first_refusal_exists(entries, requested, q);
    } else {
        assert(forall|q: int| 0 <= q < p ==> !request_refused_at(entries, requested, q));
    }
}

impl GuestMsrValueSetError {
    /// The text that describes the refusal.
    pub open spec fn spec_message(self) -> Seq<char> {
        match self {
            GuestMsrValueSetError::UnauthorizedIndex { index, position } => Seq::<char>::empty() + "guest MSR value index "@ + hex_text(index.0 as nat) + " at position "@ + decimal_text(position as nat) + " is not authorized by the guest MSR access policy"@,
            GuestMsrValueSetError::DuplicateIndex { index, first_position, duplicate_position } => Seq::<char>::empty() + "guest MSR value index "@ + hex_text(index.0 as nat) + " is duplicated at positions "@ + decimal_text(first_position as nat) + " and "@ + decimal_text(duplicate_position as nat),
        }
    }

    pub fn message(&self) -> (r: String)
        ensures r@ == self.spec_message(),
    {
        match self {
            GuestMsrValueSetError::UnauthorizedIndex { index, position } => {
                let mut s = String::new();
                s.append("guest MSR value index ");
                push_hex(&mut s, index.0 as u64);
                s.append(" at position ");
                push_decimal(&mut s, *position as u64);
                s.append(" is not authorized by the guest MSR access policy");
                s
            },
            GuestMsrValueSetError::DuplicateIndex { index, first_position, duplicate_position } => {
                let mut s = String::new();
                s.append("guest MSR value index ");
                push_hex(&mut s, index.0 as u64);
                s.append(" is duplicated at positions ");
                push_decimal(&mut s, *first_position as u64);
                s.append(" and ");
                push_decimal(&mut s, *duplicate_position as u64);
                s
            },
        }
    }
}

} // verus!
