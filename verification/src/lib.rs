//! A minimal KVM-based x86 hypervisor: guest memory, boot layouts and images, port-I/O and MMIO
//! buses, virtio-blk, interrupt-controller checkpoints, MSR and CPUID models, and the fixed guest
//! programs and results of its scenarios.
pub mod error;
pub mod memory;
pub mod vcpu;
pub mod codec;
pub mod long_mode;
pub mod elf;
pub mod kvm;
pub mod pci;
pub mod mmio;
pub mod model;
pub mod portio;
pub mod execution;
pub mod copyout;
pub mod text;

use crate::error::{Error, VmExitError};
use crate::vcpu::{PortIoExit, VmExitReport};
use vstd::prelude::*;

verus! {

pub const LIFECYCLE_RAM_BASE: u64 = 0;
pub const LIFECYCLE_RAM_SIZE: u64 = 0x20_0000;
pub const HLT_GUEST_ENTRY: u64 = 0x1000;
pub const HLT_GUEST_BYTES: [u8; 1] = [0xf4];
pub const HLT_EXIT_BUDGET: u32 = 1;
pub const DEBUG_PORT_GUEST_ENTRY: u64 = 0x1000;
pub const DEBUG_PORT_GUEST_BYTES: [u8; 5] = [0xb0, 0x4b, 0xe6, 0xe9, 0xf4];
pub const DEBUG_PORT_EXIT_BUDGET: u32 = 2;
pub const DEBUG_PORT_INPUT_GUEST_ENTRY: u64 = 0x1000;
pub const DEBUG_PORT_INPUT_RESULT: u64 = 0x2000;
pub const DEBUG_PORT_INPUT_VALUE: u8 = 0x52;
pub const DEBUG_PORT_INPUT_GUEST_BYTES: [u8; 6] = [0xe4, 0xe9, 0xa2, 0x00, 0x20, 0xf4];
pub const CPUID_GUEST_ENTRY: u64 = 0x1000;
pub const CPUID_GUEST_RESULT: u64 = 0x2000;
pub const CPUID_GUEST_BYTES: [u8; 28] = [
    0x66, 0xb8, 0x01, 0x00, 0x00, 0x00, 0x0f, 0xa2, 0x66, 0x89, 0xc8, 0x66, 0xa3, 0x00, 0x20, 0x66, 0xb8, 0x01,
    0x00, 0x00, 0x40, 0x0f, 0xa2, 0x66, 0xa3, 0x04, 0x20, 0xf4,
];
pub const CPUID_EXIT_BUDGET: u32 = 1;
pub const CPUID1_X2APIC: u32 = 0x0020_0000;
pub const CPUID1_TSC_DEADLINE: u32 = 0x0100_0000;
pub const KVM_FEATURE_PV_UNHALT: u32 = 0x0000_0080;
pub const STATE_REFERENCE_ENTRY: u64 = 0x1000;
pub const STATE_CHANGED_ENTRY: u64 = 0x1200;
pub const LONG_MODE_GUEST_ENTRY: u64 = 0x1_0000;
pub const LONG_MODE_GUEST_STACK_POINTER: u64 = 0x1f_f000;
pub const LONG_MODE_GUEST_PROOF: [u8; 4] = [0x4c, 0x4d, 0x36, 0x34];
pub const LONG_MODE_GUEST_BYTES: [u8; 36] = [
    0x48, 0xb8, 0x00, 0x00, 0x00, 0x00, 0x4c, 0x4d, 0x36, 0x34, 0x48, 0xc1, 0xe8, 0x20, 0xba, 0xe9, 0x00, 0x00,
    0x00, 0xee, 0x48, 0xc1, 0xe8, 0x08, 0xee, 0x48, 0xc1, 0xe8, 0x08, 0xee, 0x48, 0xc1, 0xe8, 0x08, 0xee, 0xf4,
];
pub const LONG_MODE_EXIT_BUDGET: u32 = 5;

/// The guest sees none of x2APIC, TSC-deadline and paravirtual unhalt.
pub open spec fn spec_masked_lapic_features_clear(cpuid1_ecx: u32, kvm_features_eax: u32) -> bool {
    cpuid1_ecx & (CPUID1_X2APIC | CPUID1_TSC_DEADLINE) == 0 && kvm_features_eax & KVM_FEATURE_PV_UNHALT == 0
}

pub fn masked_lapic_features_clear(cpuid1_ecx: u32, kvm_features_eax: u32) -> (r: bool)
    ensures r == spec_masked_lapic_features_clear(cpuid1_ecx, kvm_features_eax),
{
    cpuid1_ecx & (CPUID1_X2APIC | CPUID1_TSC_DEADLINE) == 0 && kvm_features_eax & KVM_FEATURE_PV_UNHALT == 0
}

#[derive(Debug, Clone, PartialEq, Eq)]
pub struct DebugPortGuestResult {
    pub io: PortIoExit,
    pub output: Vec<u8>,
    pub report: VmExitReport,
}

impl DebugPortGuestResult {
    pub fn io(&self) -> (r: &PortIoExit)
        ensures r == &self.io,
    {
        &self.io
    }

    pub fn output(&self) -> (r: &[u8])
        ensures r@ == self.output@,
    {
        self.output.as_slice()
    }

    pub fn report(&self) -> (r: VmExitReport)
        ensures r == self.report,
    {
        self.report
    }
}

#[derive(Debug, Clone, PartialEq, Eq)]
pub struct DebugPortInputGuestResult {
    pub io: PortIoExit,
    pub value: u8,
    pub report: VmExitReport,
}

impl DebugPortInputGuestResult {
    pub fn io(&self) -> (r: &PortIoExit)
        ensures r == &self.io,
    {
        &self.io
    }

    pub fn value(&self) -> (r: u8)
        ensures r == self.value,
    {
        self.value
    }

    pub fn report(&self) -> (r: VmExitReport)
        ensures r == self.report,
    {
        self.report
    }
}

#[derive(Debug, Clone, Copy, PartialEq, Eq)]
pub struct CpuidGuestResult {
    pub cpuid1_ecx: u32,
    pub kvm_features_eax: u32,
    pub report: VmExitReport,
}

impl CpuidGuestResult {
    pub fn cpuid1_ecx(&self) -> (r: u32)
        ensures r == self.cpuid1_ecx,
    {
        self.cpuid1_ecx
    }

    pub fn kvm_features_eax(&self) -> (r: u32)
        ensures r == self.kvm_features_eax,
    {
        self.kvm_features_eax
    }

    /// The guest saw none of the features that need an in-kernel local APIC.
    pub fn masked_lapic_features_clear(&self) -> (r: bool)
        ensures r == spec_masked_lapic_features_clear(self.cpuid1_ecx, self.kvm_features_eax),
    {
        masked_lapic_features_clear(self.cpuid1_ecx, self.kvm_features_eax)
    }

    pub fn report(&self) -> (r: VmExitReport)
        ensures r == self.report,
    {
        self.report
    }
}

#[derive(Debug, Clone, PartialEq, Eq)]
pub struct LongModeGuestResult {
    pub io_exits: Vec<PortIoExit>,
    pub proof: Vec<u8>,
    pub report: VmExitReport,
}

impl LongModeGuestResult {
    pub fn io_exits(&self) -> (r: &[PortIoExit])
        ensures r@ == self.io_exits@,
    {
        self.io_exits.as_slice()
    }

    pub fn proof_bytes(&self) -> (r: &[u8])
        ensures r@ == self.proof@,
    {
        self.proof.as_slice()
    }

    pub fn report(&self) -> (r: VmExitReport)
        ensures r == self.report,
    {
        self.report
    }
}


/// The command-line acceptance of a long-mode run: exactly "LM64" on the debug port, a halt,
/// at the instruction after the final `hlt`, with RFLAGS bit 1 set.
pub const LONG_MODE_EXPECTED_PROOF: [u8; 4] = [0x4c, 0x4d, 0x36, 0x34];
pub const LONG_MODE_EXPECTED_TERMINAL_RIP: u64 = 0x1_0024;
pub const X86_RFLAGS_RESERVED_BIT: u64 = 2;

pub open spec fn spec_long_mode_proof_is_valid(proof: Seq<u8>, exit: crate::vcpu::VcpuExit, rip: u64, rflags: u64) -> bool {
    &&& proof == LONG_MODE_EXPECTED_PROOF@
    &&& exit == crate::vcpu::VcpuExit::Hlt
    &&& rip == LONG_MODE_EXPECTED_TERMINAL_RIP
    &&& rflags & X86_RFLAGS_RESERVED_BIT == X86_RFLAGS_RESERVED_BIT
}

pub fn long_mode_proof_is_valid(proof: &[u8], exit: crate::vcpu::VcpuExit, rip: u64, rflags: u64) -> (r: bool)
    ensures r == spec_long_mode_proof_is_valid(proof@, exit, rip, rflags),
{
    let expected = LONG_MODE_EXPECTED_PROOF;
    let same = proof.len() == 4 && proof[0] == expected[0] && proof[1] == expected[1] && proof[2] == expected[2]
        && proof[3] == expected[3];
    proof {
        if proof@.len() == 4 && proof@[0] == expected@[0] && proof@[1] == expected@[1] && proof@[2] == expected@[2]
            && proof@[3] == expected@[3] {
            assert(proof@ =~= LONG_MODE_EXPECTED_PROOF@);
        }
    }
    same && exit == crate::vcpu::VcpuExit::Hlt && rip == LONG_MODE_EXPECTED_TERMINAL_RIP
        && rflags & X86_RFLAGS_RESERVED_BIT == X86_RFLAGS_RESERVED_BIT
}


/// The long-mode guest must have printed exactly its proof; otherwise the run is refused as an
/// unexpected sequence that should have ended in HLT, naming the reason of the exit it ended in.
pub fn check_long_mode_guest_proof(proof: &[u8], actual_reason: u32) -> (r: Result<(), Error>)
    ensures
        proof@ == LONG_MODE_GUEST_PROOF@ ==> r is Ok,
        proof@ != LONG_MODE_GUEST_PROOF@ ==> r == Err::<(), Error>(Error::VmExit(VmExitError::UnexpectedSequence {
            stage: "long-mode guest proof",
            expected_reason: crate::vcpu::KVM_EXIT_HLT,
            actual_reason,
        })),
{
    let expected = LONG_MODE_GUEST_PROOF;
    let same = proof.len() == 4 && proof[0] == expected[0] && proof[1] == expected[1] && proof[2] == expected[2]
        && proof[3] == expected[3];
    proof {
        assert(expected@ == LONG_MODE_GUEST_PROOF@);
        if same {
            assert(proof@ =~= LONG_MODE_GUEST_PROOF@);
        }
    }
    if !same {
        return Err(Error::VmExit(VmExitError::UnexpectedSequence {
            stage: "long-mode guest proof",
            expected_reason: crate::vcpu::KVM_EXIT_HLT,
            actual_reason,
        }));
    }
    Ok(())
}

} // verus!
