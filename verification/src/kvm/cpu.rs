//! CPUID as the host supports it, and the guest policy derived from it: every leaf is passed
//! through except the features that need an in-kernel local APIC timer or paravirtual unhalt.
use vstd::prelude::*;

verus! {

pub const CPUID_FEATURES: u32 = 0x0000_0001;
pub const CPUID_FEATURE_X2APIC: u32 = 0x0020_0000;
pub const CPUID_FEATURE_TSC_DEADLINE: u32 = 0x0100_0000;
pub const KVM_CPUID_FEATURES: u32 = 0x4000_0001;
pub const KVM_FEATURE_PV_UNHALT: u32 = 0x0000_0080;

/// One CPUID leaf (function and index) with its flags and register values.
#[derive(Debug, Clone, Copy, Default, PartialEq, Eq)]
pub struct CpuidEntry {
    pub function: u32,
    pub index: u32,
    pub flags: u32,
    pub eax: u32,
    pub ebx: u32,
    pub ecx: u32,
    pub edx: u32,
}

/// The CPUID leaves the host supports, in reported order.
#[derive(Debug, Clone, PartialEq, Eq)]
pub struct HostCpuid {
    pub entries: Vec<CpuidEntry>,
}

impl HostCpuid {
    pub fn from_entries(entries: Vec<CpuidEntry>) -> (r: Self)
        ensures r.entries@ == entries@,
    {
        HostCpuid { entries }
    }

    pub fn entries(&self) -> (r: &[CpuidEntry])
        ensures r@ == self.entries@,
    {
        self.entries.as_slice()
    }
}

/// A host leaf as the guest sees it: leaf 1 loses x2APIC and TSC-deadline, the KVM feature
/// leaf loses paravirtual unhalt, and everything else is unchanged.
pub open spec fn spec_guest_entry(entry: CpuidEntry) -> CpuidEntry {
    if entry.function == CPUID_FEATURES {
        CpuidEntry { ecx: entry.ecx & !(CPUID_FEATURE_X2APIC | CPUID_FEATURE_TSC_DEADLINE), ..entry }
    } else if entry.function == KVM_CPUID_FEATURES {
        CpuidEntry { eax: entry.eax & !KVM_FEATURE_PV_UNHALT, ..entry }
    } else {
        entry
    }
}

fn guest_entry(entry: CpuidEntry) -> (r: CpuidEntry)
    ensures r == spec_guest_entry(entry),
{
    let mut masked = entry;
    if entry.function == CPUID_FEATURES {
        masked.ecx = entry.ecx & !(CPUID_FEATURE_X2APIC | CPUID_FEATURE_TSC_DEADLINE);
    } else if entry.function == KVM_CPUID_FEATURES {
        masked.eax = entry.eax & !KVM_FEATURE_PV_UNHALT;
    }
    masked
}

/// The CPUID leaves a guest is given.
#[derive(Debug, Clone, PartialEq, Eq)]
pub struct GuestCpuPolicy {
    pub entries: Vec<CpuidEntry>,
}

impl GuestCpuPolicy {
    /// The guest policy for a host: each host leaf in order, masked by `spec_guest_entry`.
    pub fn from_host(host: &HostCpuid) -> (r: Self)
        ensures r.entries@ == host.entries@.map_values(|e: CpuidEntry| spec_guest_entry(e)),
    {
        let mut entries: Vec<CpuidEntry> = Vec::new();
        let mut i: usize = 0;
        while i < host.entries.len()
            invariant
                0 <= i <= host.entries@.len(),
                entries@ == host.entries@.take(i as int).map_values(|e: CpuidEntry| spec_guest_entry(e)),
            decreases host.entries@.len() - i,
        {
            entries.push(guest_entry(host.entries[i]));
            assert(host.entries@.take(i as int + 1).map_values(|e: CpuidEntry| spec_guest_entry(e))
                =~= host.entries@.take(i as int).map_values(|e: CpuidEntry| spec_guest_entry(e))
                    .push(spec_guest_entry(host.entries@[i as int])));
            i = i + 1;
        }
        assert(host.entries@.take(host.entries@.len() as int) =~= host.entries@);
        GuestCpuPolicy { entries }
    }

    pub fn entries(&self) -> (r: &[CpuidEntry])
        ensures r@ == self.entries@,
    {
        self.entries.as_slice()
    }

    /// A copy of this policy.
    pub fn duplicate(&self) -> (r: Self)
        ensures r.entries@ == self.entries@,
    {
        let mut entries: Vec<CpuidEntry> = Vec::new();
        let mut i: usize = 0;
        while i < self.entries.len()
            invariant
                0 <= i <= self.entries@.len(),
                entries@ == self.entries@.take(i as int),
            decreases self.entries@.len() - i,
        {
            entries.push(self.entries[i]);
            assert(entries@ =~= self.entries@.take(i as int + 1));
            i = i + 1;
        }
        assert(self.entries@.take(self.entries@.len() as int) =~= self.entries@);
        GuestCpuPolicy { entries }
    }
}

/// Masking is idempotent: a guest policy derived from a guest policy is the same policy.
pub proof fn lemma_guest_entry_idempotent(entry: CpuidEntry)
    ensures spec_guest_entry(spec_guest_entry(entry)) == spec_guest_entry(entry),
{
    let x = entry.ecx;
    let y = entry.eax;
    assert((x & !(0x0020_0000u32 | 0x0100_0000u32)) & !(0x0020_0000u32 | 0x0100_0000u32)
        == x & !(0x0020_0000u32 | 0x0100_0000u32)) by (bit_vector);
    assert((y & !0x80u32) & !0x80u32 == y & !0x80u32) by (bit_vector);
}

/// The guest never sees x2APIC, TSC-deadline or paravirtual unhalt, and every other bit of
/// every leaf is the host's.
pub proof fn lemma_guest_entry_masks_exactly(entry: CpuidEntry)
    ensures
        spec_guest_entry(entry).function == entry.function,
        spec_guest_entry(entry).index == entry.index,
        spec_guest_entry(entry).flags == entry.flags,
        spec_guest_entry(entry).ebx == entry.ebx,
        spec_guest_entry(entry).edx == entry.edx,
        entry.function == CPUID_FEATURES ==> spec_guest_entry(entry).ecx & (CPUID_FEATURE_X2APIC
            | CPUID_FEATURE_TSC_DEADLINE) == 0,
        entry.function == KVM_CPUID_FEATURES ==> spec_guest_entry(entry).eax & KVM_FEATURE_PV_UNHALT == 0,
{
    let x = entry.ecx;
    let y = entry.eax;
    assert((x & !(0x0020_0000u32 | 0x0100_0000u32)) & (0x0020_0000u32 | 0x0100_0000u32) == 0) by (bit_vector);
    assert((y & !0x80u32) & 0x80u32 == 0) by (bit_vector);
}

} // verus!
