//! Host capability checks, CPUID plumbing and guest-RAM registration rules of the KVM backend.
use crate::error::{Error, GuestMemoryError, HostEnvironmentError, HostIoCause, KvmCapabilityError};
use crate::kvm::cpu::{CpuidEntry, GuestCpuPolicy, HostCpuid};
use crate::kvm::sys::KvmCpuidEntry2;
use crate::memory::{GuestMemoryRegion, GuestPhysAddr, KVM_MEMORY_ALIGNMENT};
use vstd::prelude::*;

pub mod cpu;
pub mod sys;
pub mod msr;
pub mod irqchip_snapshot;
pub mod dirty_log;
pub mod irqchip;
pub mod host_registration;
pub mod host_registration_pair;
pub mod host_registration_schema_v1;
pub mod host_registration_pair_schema_v1;
pub mod ioeventfd_doorbell;

verus! {

pub const EXPECTED_KVM_API_VERSION: i32 = 12;
pub const KVM_CAP_USER_MEMORY: i32 = 3;
pub const KVM_CAP_SET_TSS_ADDR: i32 = 4;
pub const KVM_CAP_EXT_CPUID: i32 = 7;
pub const KVM_CAP_MP_STATE: i32 = 14;
pub const KVM_CAP_SET_IDENTITY_MAP_ADDR: i32 = 37;
pub const KVM_IDENTITY_MAP_ADDR: u64 = 0xfeff_c000;
pub const KVM_TSS_ADDR: u64 = KVM_IDENTITY_MAP_ADDR + KVM_MEMORY_ALIGNMENT;
pub const KVM_RESERVED_X86_SIZE: u64 = 4 * KVM_MEMORY_ALIGNMENT;
pub const KVM_MAX_SUPPORTED_CPUID_ENTRIES: usize = 256;

/// The extensions a host must offer, by name and capability number, in checking order.
pub fn required_extensions() -> (r: [(&'static str, i32); 4])
    ensures
        r@ == seq![("KVM_CAP_USER_MEMORY", KVM_CAP_USER_MEMORY), ("KVM_CAP_SET_TSS_ADDR", KVM_CAP_SET_TSS_ADDR),
            ("KVM_CAP_EXT_CPUID", KVM_CAP_EXT_CPUID), ("KVM_CAP_SET_IDENTITY_MAP_ADDR", KVM_CAP_SET_IDENTITY_MAP_ADDR)],
{
    let r = [
        ("KVM_CAP_USER_MEMORY", KVM_CAP_USER_MEMORY),
        ("KVM_CAP_SET_TSS_ADDR", KVM_CAP_SET_TSS_ADDR),
        ("KVM_CAP_EXT_CPUID", KVM_CAP_EXT_CPUID),
        ("KVM_CAP_SET_IDENTITY_MAP_ADDR", KVM_CAP_SET_IDENTITY_MAP_ADDR),
    ];
    assert(r@ =~= seq![("KVM_CAP_USER_MEMORY", KVM_CAP_USER_MEMORY), ("KVM_CAP_SET_TSS_ADDR", KVM_CAP_SET_TSS_ADDR),
        ("KVM_CAP_EXT_CPUID", KVM_CAP_EXT_CPUID), ("KVM_CAP_SET_IDENTITY_MAP_ADDR", KVM_CAP_SET_IDENTITY_MAP_ADDR)]);
    r
}

/// One extension as the host answered a capability query.
#[derive(Debug, Clone, Copy, PartialEq, Eq)]
pub struct Capability {
    pub name: &'static str,
    pub id: i32,
    pub value: i32,
}

/// What the host reported about its KVM: API version, vCPU run-area size, extensions.
#[derive(Debug, Clone, PartialEq, Eq)]
pub struct HostCapabilities {
    pub api_version: i32,
    pub vcpu_mmap_size: i32,
    pub extensions: Vec<Capability>,
}

/// Some reported extension has number `id` and is enabled.
pub open spec fn spec_has_extension(extensions: Seq<Capability>, id: i32) -> bool {
    exists|k: int| 0 <= k < extensions.len() && extensions[k].id == id && extensions[k].value > 0
}

pub open spec fn missing_extension(name: &'static str, id: i32) -> Result<(), Error> {
    Err(Error::KvmCapability(KvmCapabilityError::MissingExtension { name, id }))
}

impl HostCapabilities {
    /// The first requirement the host misses, in order: API version 12, a positive run-area
    /// size, then each required extension.
    pub open spec fn spec_validate(&self) -> Result<(), Error> {
        if self.api_version != EXPECTED_KVM_API_VERSION {
            Err(Error::KvmCapability(KvmCapabilityError::UnsupportedApiVersion {
                expected: EXPECTED_KVM_API_VERSION,
                actual: self.api_version,
            }))
        } else if self.vcpu_mmap_size <= 0 {
            Err(Error::KvmCapability(KvmCapabilityError::InvalidVcpuMmapSize { size: self.vcpu_mmap_size }))
        } else if !spec_has_extension(self.extensions@, KVM_CAP_USER_MEMORY) {
            missing_extension("KVM_CAP_USER_MEMORY", KVM_CAP_USER_MEMORY)
        } else if !spec_has_extension(self.extensions@, KVM_CAP_SET_TSS_ADDR) {
            missing_extension("KVM_CAP_SET_TSS_ADDR", KVM_CAP_SET_TSS_ADDR)
        } else if !spec_has_extension(self.extensions@, KVM_CAP_EXT_CPUID) {
            missing_extension("KVM_CAP_EXT_CPUID", KVM_CAP_EXT_CPUID)
        } else if !spec_has_extension(self.extensions@, KVM_CAP_SET_IDENTITY_MAP_ADDR) {
            missing_extension("KVM_CAP_SET_IDENTITY_MAP_ADDR", KVM_CAP_SET_IDENTITY_MAP_ADDR)
        } else {
            Ok(())
        }
    }

    /// Checks the host against `spec_validate`.
    pub fn validate(&self) -> (r: Result<(), Error>)
        ensures r == self.spec_validate(),
    {
        if self.api_version != EXPECTED_KVM_API_VERSION {
            return Err(Error::KvmCapability(KvmCapabilityError::UnsupportedApiVersion {
                expected: EXPECTED_KVM_API_VERSION,
                actual: self.api_version,
            }));
        }
        if self.vcpu_mmap_size <= 0 {
            return Err(Error::KvmCapability(KvmCapabilityError::InvalidVcpuMmapSize { size: self.vcpu_mmap_size }));
        }
        require_extension(&self.extensions, "KVM_CAP_USER_MEMORY", KVM_CAP_USER_MEMORY)?;
        require_extension(&self.extensions, "KVM_CAP_SET_TSS_ADDR", KVM_CAP_SET_TSS_ADDR)?;
        require_extension(&self.extensions, "KVM_CAP_EXT_CPUID", KVM_CAP_EXT_CPUID)?;
        require_extension(&self.extensions, "KVM_CAP_SET_IDENTITY_MAP_ADDR", KVM_CAP_SET_IDENTITY_MAP_ADDR)?;
        Ok(())
    }
}

fn require_extension(extensions: &Vec<Capability>, name: &'static str, id: i32) -> (r: Result<(), Error>)
    ensures
        spec_has_extension(extensions@, id) ==> r is Ok,
        !spec_has_extension(extensions@, id) ==> r == missing_extension(name, id),
{
    if extension_available(extensions, id) {
        Ok(())
    } else {
        Err(Error::KvmCapability(KvmCapabilityError::MissingExtension { name, id }))
    }
}

fn extension_available(extensions: &Vec<Capability>, id: i32) -> (r: bool)
    ensures r == spec_has_extension(extensions@, id),
{
    let mut k: usize = 0;
    while k < extensions.len()
        invariant
            0 <= k <= extensions@.len(),
            forall|j: int| 0 <= j < k ==> !(extensions@[j].id == id && extensions@[j].value > 0),
        decreases extensions@.len() - k,
    {
        if extensions[k].id == id && extensions[k].value > 0 {
            return true;
        }
        k = k + 1;
    }
    false
}

/// The refusal of a supported-CPUID answer with an impossible entry count.
pub open spec fn malformed_supported_cpuid() -> Error {
    Error::HostEnvironment(HostEnvironmentError::Io {
        operation: "validate KVM_GET_SUPPORTED_CPUID response",
        source: HostIoCause::InvalidData,
    })
}

/// The number of entries the host filled in, which must be between 1 and the buffer capacity.
pub fn validate_supported_cpuid_count(reported: u32, capacity: usize) -> (r: Result<usize, Error>)
    ensures
        1 <= reported <= capacity ==> r == Ok::<usize, Error>(reported as usize),
        !(1 <= reported <= capacity) ==> r == Err::<usize, Error>(malformed_supported_cpuid()),
{
    let count = reported as usize;
    if count == 0 || count > capacity {
        return Err(Error::HostEnvironment(HostEnvironmentError::Io {
            operation: "validate KVM_GET_SUPPORTED_CPUID response",
            source: HostIoCause::InvalidData,
        }));
    }
    Ok(count)
}

/// A kernel CPUID entry as a typed entry; the reserved padding is dropped.
pub fn cpuid_entry_from_kvm(entry: KvmCpuidEntry2) -> (r: CpuidEntry)
    ensures
        r == (CpuidEntry { function: entry.function, index: entry.index, flags: entry.flags, eax: entry.eax,
            ebx: entry.ebx, ecx: entry.ecx, edx: entry.edx }),
{
    CpuidEntry {
        function: entry.function,
        index: entry.index,
        flags: entry.flags,
        eax: entry.eax,
        ebx: entry.ebx,
        ecx: entry.ecx,
        edx: entry.edx,
    }
}

/// A typed entry in the kernel's layout, with zeroed padding.
pub fn cpuid_entry_to_kvm(entry: CpuidEntry) -> (r: KvmCpuidEntry2)
    ensures
        r.function == entry.function,
        r.index == entry.index,
        r.flags == entry.flags,
        r.eax == entry.eax,
        r.ebx == entry.ebx,
        r.ecx == entry.ecx,
        r.edx == entry.edx,
        r.padding@ == seq![0u32, 0u32, 0u32],
{
    let r = KvmCpuidEntry2 {
        function: entry.function,
        index: entry.index,
        flags: entry.flags,
        eax: entry.eax,
        ebx: entry.ebx,
        ecx: entry.ecx,
        edx: entry.edx,
        padding: [0, 0, 0],
    };
    assert(r.padding@ =~= seq![0u32, 0u32, 0u32]);
    r
}

/// Converting a typed entry to the kernel layout and back gives the same entry.
pub proof fn lemma_cpuid_entry_round_trip(entry: CpuidEntry, raw: KvmCpuidEntry2)
    requires
        raw.function == entry.function,
        raw.index == entry.index,
        raw.flags == entry.flags,
        raw.eax == entry.eax,
        raw.ebx == entry.ebx,
        raw.ecx == entry.ecx,
        raw.edx == entry.edx,
    ensures
        (CpuidEntry { function: raw.function, index: raw.index, flags: raw.flags, eax: raw.eax, ebx: raw.ebx,
            ecx: raw.ecx, edx: raw.edx }) == entry,
{
}

/// The pages KVM keeps for itself on x86: the identity-map page and the three TSS pages.
pub open spec fn spec_reserved_kvm_x86_region() -> GuestMemoryRegion {
    GuestMemoryRegion { base: GuestPhysAddr(KVM_IDENTITY_MAP_ADDR), size: KVM_RESERVED_X86_SIZE }
}

pub fn reserved_kvm_x86_region() -> (r: GuestMemoryRegion)
    ensures r == spec_reserved_kvm_x86_region(), r.wf(),
{
    GuestMemoryRegion { base: GuestPhysAddr(KVM_IDENTITY_MAP_ADDR), size: KVM_RESERVED_X86_SIZE }
}

/// Guest RAM may not overlap the pages KVM reserves.
pub fn validate_guest_memory_registration(region: GuestMemoryRegion) -> (r: Result<(), Error>)
    requires region.wf(),
    ensures
        region.spec_overlaps(spec_reserved_kvm_x86_region()) ==> r == Err::<(), Error>(Error::GuestMemory(
            GuestMemoryError::ReservedRangeOverlap {
                region_base: region.base.0,
                region_size: region.size,
                reserved_base: KVM_IDENTITY_MAP_ADDR,
                reserved_size: KVM_RESERVED_X86_SIZE,
            })),
        !region.spec_overlaps(spec_reserved_kvm_x86_region()) ==> r is Ok,
{
    let reserved = reserved_kvm_x86_region();
    if region.overlaps(reserved) {
        return Err(Error::GuestMemory(GuestMemoryError::ReservedRangeOverlap {
            region_base: region.base().get(),
            region_size: region.size(),
            reserved_base: reserved.base().get(),
            reserved_size: reserved.size(),
        }));
    }
    Ok(())
}

/// The multiprocessor-state capability must be enabled (the host's answer is `value`).
pub fn require_mp_state_capability(value: i32) -> (r: Result<(), Error>)
    ensures
        value > 0 ==> r is Ok,
        value <= 0 ==> r == missing_extension("KVM_CAP_MP_STATE", KVM_CAP_MP_STATE),
{
    if value <= 0 {
        return Err(Error::KvmCapability(KvmCapabilityError::MissingExtension {
            name: "KVM_CAP_MP_STATE",
            id: KVM_CAP_MP_STATE,
        }));
    }
    Ok(())
}


/// `ENOENT`, `EPERM` and `EACCES` as the host reports them.
pub const ENOENT: i32 = 2;
pub const EPERM: i32 = 1;
pub const EACCES: i32 = 13;

/// Why opening the KVM device failed, from the host's error number: a missing device means
/// KVM is unavailable, a refused one means the caller lacks permission, anything else is a
/// plain I/O failure of the open.
pub open spec fn spec_classify_open_error(errno: i32) -> Error {
    if errno == ENOENT {
        Error::HostEnvironment(HostEnvironmentError::KvmUnavailable { source: HostIoCause::Os { errno } })
    } else if errno == EPERM || errno == EACCES {
        Error::HostEnvironment(HostEnvironmentError::PermissionDenied { source: HostIoCause::Os { errno } })
    } else {
        Error::HostEnvironment(HostEnvironmentError::Io { operation: "open /dev/kvm", source: HostIoCause::Os { errno } })
    }
}

pub fn classify_open_error(errno: i32) -> (r: Error)
    ensures r == spec_classify_open_error(errno),
{
    if errno == ENOENT {
        Error::HostEnvironment(HostEnvironmentError::KvmUnavailable { source: HostIoCause::Os { errno } })
    } else if errno == EPERM || errno == EACCES {
        Error::HostEnvironment(HostEnvironmentError::PermissionDenied { source: HostIoCause::Os { errno } })
    } else {
        Error::HostEnvironment(HostEnvironmentError::Io { operation: "open /dev/kvm", source: HostIoCause::Os { errno } })
    }
}


/// The typed form of a kernel CPUID entry.
pub open spec fn spec_entry_from_kvm(entry: KvmCpuidEntry2) -> CpuidEntry {
    CpuidEntry { function: entry.function, index: entry.index, flags: entry.flags, eax: entry.eax,
        ebx: entry.ebx, ecx: entry.ecx, edx: entry.edx }
}

/// The host's supported-CPUID answer: the first `reported` entries of the buffer, typed, when
/// `reported` is between 1 and the buffer's length.
pub fn host_cpuid_from_kvm(buffer: &[KvmCpuidEntry2], reported: u32) -> (r: Result<HostCpuid, Error>)
    ensures
        1 <= reported <= buffer@.len() ==> r is Ok && r->Ok_0.entries@.len() == reported
            && forall|i: int| 0 <= i < reported ==> #[trigger] r->Ok_0.entries@[i] == spec_entry_from_kvm(buffer@[i]),
        !(1 <= reported <= buffer@.len()) ==> r == Err::<HostCpuid, Error>(malformed_supported_cpuid()),
{
    let count = validate_supported_cpuid_count(reported, buffer.len())?;
    let mut entries: Vec<CpuidEntry> = Vec::new();
    let mut i: usize = 0;
    while i < count
        invariant
            0 <= i <= count,
            count <= buffer@.len(),
            entries@.len() == i,
            forall|j: int| 0 <= j < i ==> #[trigger] entries@[j] == spec_entry_from_kvm(buffer@[j]),
        decreases count - i,
    {
        entries.push(cpuid_entry_from_kvm(buffer[i]));
        i = i + 1;
    }
    Ok(HostCpuid::from_entries(entries))
}

/// The policy's entries in the kernel's layout, in order, for `KVM_SET_CPUID2`.
pub fn policy_to_kvm(policy: &GuestCpuPolicy) -> (r: Vec<KvmCpuidEntry2>)
    ensures
        r@.len() == policy.entries@.len(),
        forall|i: int| 0 <= i < r@.len() ==> #[trigger] spec_entry_from_kvm(r@[i]) == policy.entries@[i],
{
    let entries = policy.entries();
    let mut out: Vec<KvmCpuidEntry2> = Vec::new();
    let mut i: usize = 0;
    while i < entries.len()
        invariant
            0 <= i <= entries@.len(),
            entries@ == policy.entries@,
            out@.len() == i,
            forall|j: int| 0 <= j < i ==> #[trigger] spec_entry_from_kvm(out@[j]) == entries@[j],
        decreases entries@.len() - i,
    {
        out.push(cpuid_entry_to_kvm(entries[i]));
        i = i + 1;
    }
    out
}

/// A VM takes one guest RAM region: a second registration is refused, and so is a region that
/// overlaps the pages KVM reserves.
pub fn check_guest_memory_registration(already_registered: bool, region: GuestMemoryRegion) -> (r: Result<(), Error>)
    requires region.wf(),
    ensures
        already_registered ==> r == Err::<(), Error>(Error::GuestMemory(GuestMemoryError::AlreadyRegistered)),
        !already_registered && region.spec_overlaps(spec_reserved_kvm_x86_region()) ==> r == Err::<(), Error>(
            Error::GuestMemory(GuestMemoryError::ReservedRangeOverlap {
                region_base: region.base.0,
                region_size: region.size,
                reserved_base: KVM_IDENTITY_MAP_ADDR,
                reserved_size: KVM_RESERVED_X86_SIZE,
            })),
        !already_registered && !region.spec_overlaps(spec_reserved_kvm_x86_region()) ==> r is Ok,
{
    if already_registered {
        return Err(Error::GuestMemory(GuestMemoryError::AlreadyRegistered));
    }
    validate_guest_memory_registration(region)
}

} // verus!
