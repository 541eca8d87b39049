//! INIT/SIPI bring-up of a second vCPU: the real-mode trampoline, its long-mode variant, and the long-mode
//! variant that also takes an IPI; the guest programs and the architectural state the run must show.
use crate::vcpu::{PortIoExit};
use crate::portio::scenario::{
    byte_at, byte_of, carries_io, idt_at, idt_of, io_of, long_mode_at, long_mode_of, mp_state_at, mp_state_of, rflags_at,
    rflags_of, run_consistent, spec_accepts, startup_at, startup_of, take_io,
    scenario_start, spec_expected_output, spec_next_action, spec_scenario_start, HostOperation, ScenarioAction, ScenarioRun, Stage, StageCheck,
};
use crate::portio::vcpu_checks::spec_long_mode_state;
use vstd::prelude::*;

verus! {

pub const AP_LONG_MODE_IPI_IDTR_BYTES: [u8; 10] = [0x2f, 0x05, 0x00, 0x60, 0x00, 0x00, 0x00, 0x00, 0x00, 0x00];

pub const RAM_BASE: u64 = 0;
pub const FIRST_ENTRY: u64 = 0x1_0000;
pub const FIRST_STACK: u64 = 0x1f_f000;
pub const AP_TRAMPOLINE: u64 = 0x8000;
pub const SHARED_MARKER: u64 = 0x9000;
pub const SHARED_MARKER_VALUE: u8 = 0x4b;
pub const X86_RFLAGS_RESERVED_BIT: u64 = 1 << 1;
pub const X86_RFLAGS_INTERRUPT_ENABLE: u64 = 1 << 9;
pub const X86_CR0_PROTECTED_MODE_ENABLE: u64 = 1;
pub const KVM_MP_STATE_RUNNABLE: u32 = 0;
pub const KVM_MP_STATE_UNINITIALIZED: u32 = 1;
pub const SIPI_CS_SELECTOR: u16 = 0x0800;
pub const SIPI_CS_BASE: u64 = 0x8000;
pub const LAPIC_VIRTUAL_PAGE: u64 = 0x50_0000;
pub const LAPIC_GPA: u64 = 0xfee0_0000;
pub const TARGET_APIC_ID: u8 = 1;
pub const SIPI_VECTOR: u8 = 0x08;
/// The ICR high dword names the destination APIC ID in its top byte.
pub const ICR_HIGH_VALUE: u32 = 0x0100_0000;
/// A start-up IPI to the vector's page.
pub const SIPI_VALUE: u32 = 0x0000_0608;
pub const FIRST_VCPU_INDEX: u16 = 0;
pub const SECOND_VCPU_INDEX: u16 = 1;
pub const INIT_ASSERT_VALUE: u32 = 0x0000_c500;
pub const INIT_DEASSERT_VALUE: u32 = 0x0000_8500;
pub const FIRST_PROOF: [u8; 6] = [0x30, 0x49, 0x44, 0x53, 0x4d, 0x44];
pub const SECOND_PROOF: [u8; 3] = [0x41, 0x50, 0x44];
pub const AP_LONG_MODE_PROOF: [u8; 4] = [0x41, 0x4c, 0x50, 0x44];
pub const AP_LONG_MODE_IPI_BSP_PROOF: [u8; 7] = [0x30, 0x49, 0x44, 0x53, 0x58, 0x4d, 0x44];
pub const AP_LONG_MODE_IPI_PROOF: [u8; 6] = [0x41, 0x4c, 0x52, 0x49, 0x4d, 0x44];
pub const AP_LONG_MODE_STACK: u64 = 0x1e_f000;
pub const AP_LONG_MODE_GDT: u64 = 0x7000;
pub const AP_LONG_MODE_GDTR: u64 = 0x7020;
pub const AP_LONG_MODE_IPI_IDTR: u64 = 0x7040;
pub const AP_LONG_MODE_CODE_SELECTOR: u16 = 0x0008;
pub const AP_LONG_MODE_DATA_SELECTOR: u16 = 0x0010;
pub const AP_LONG_MODE_GDT_LIMIT: u16 = 23;
pub const AP_LONG_MODE_IPI_VECTOR: u8 = 0x52;
pub const AP_LONG_MODE_IPI_HANDLER: u64 = 0x1_2000;
pub const AP_LONG_MODE_IPI_IDT_LIMIT: u16 = 0x052f;
pub const LONG_MODE_INTERRUPT_IDT_ADDR: u64 = 0x6000;
pub const AP_LONG_MODE_GDT_BYTES: [u8; 24] = [ 0x00, 0x00, 0x00, 0x00, 0x00, 0x00, 0x00, 0x00, 0xff, 0xff, 0x00, 0x00, 0x00, 0x9a, 0xaf, 0x00, 0xff, 0xff, 0x00, 0x00, 0x00, 0x92, 0xcf, 0x00, ];
pub const AP_LONG_MODE_GDTR_BYTES: [u8; 6] = [0x17, 0x00, 0x00, 0x70, 0x00, 0x00];
pub const FIRST_GUEST_BYTES: [u8; 97] = [ 0xfa, 0x48, 0xbb, 0x00, 0x00, 0x50, 0x00, 0x00, 0x00, 0x00, 0x00, 0xb0, 0x30, 0xe6, 0xe9, 0xc7, 0x83, 0x10, 0x03, 0x00, 0x00, 0x00, 0x00, 0x00, 0x01, 0xc7, 0x83, 0x00, 0x03, 0x00, 0x00, 0x00, 0xc5, 0x00, 0x00, 0xb0, 0x49, 0xe6, 0xe9, 0xc7, 0x83, 0x00, 0x03, 0x00, 0x00, 0x00, 0x85, 0x00, 0x00, 0xb0, 0x44, 0xe6, 0xe9, 0xc7, 0x83, 0x00, 0x03, 0x00, 0x00, SIPI_VECTOR, 0x06, 0x00, 0x00, 0xb0, 0x53, 0xe6, 0xe9, 0x48, 0xb9, 0x00, 0x90, 0x00, 0x00, 0x00, 0x00, 0x00, 0x00, 0x8a, 0x01, 0x3c, SHARED_MARKER_VALUE, 0x75, 0x09, 0xb0, 0x4d, 0xe6, 0xe9, 0xb0, 0x44, 0xe6, 0xe9, 0xf4, 0xb0, 0x46, 0xe6, 0xe9, 0xf4, ];
pub const FIRST_GUEST_IPI_BYTES: [u8; 121] = [ 0xfa, 0x48, 0xbb, 0x00, 0x00, 0x50, 0x00, 0x00, 0x00, 0x00, 0x00, 0xb0, 0x30, 0xe6, 0xe9, 0xc7, 0x83, 0x10, 0x03, 0x00, 0x00, 0x00, 0x00, 0x00, 0x01, 0xc7, 0x83, 0x00, 0x03, 0x00, 0x00, 0x00, 0xc5, 0x00, 0x00, 0xb0, 0x49, 0xe6, 0xe9, 0xc7, 0x83, 0x00, 0x03, 0x00, 0x00, 0x00, 0x85, 0x00, 0x00, 0xb0, 0x44, 0xe6, 0xe9, 0xc7, 0x83, 0x00, 0x03, 0x00, 0x00, SIPI_VECTOR, 0x06, 0x00, 0x00, 0xb0, 0x53, 0xe6, 0xe9, 0xc7, 0x83, 0x10, 0x03, 0x00, 0x00, 0x00, 0x00, 0x00, 0x01, 0xc7, 0x83, 0x00, 0x03, 0x00, 0x00, AP_LONG_MODE_IPI_VECTOR, 0x00, 0x00, 0x00, 0xb0, 0x58, 0xe6, 0xe9, 0x48, 0xb9, 0x00, 0x90, 0x00, 0x00, 0x00, 0x00, 0x00, 0x00, 0x8a, 0x01, 0x3c, SHARED_MARKER_VALUE, 0x75, 0x09, 0xb0, 0x4d, 0xe6, 0xe9, 0xb0, 0x44, 0xe6, 0xe9, 0xf4, 0xb0, 0x46, 0xe6, 0xe9, 0xf4, ];
pub const AP_TRAMPOLINE_BYTES: [u8; 27] = [ 0xfa, 0x31, 0xc0, 0x8e, 0xd8, 0x8e, 0xc0, 0x8e, 0xd0, 0xb0, 0x41, 0xe6, 0xe9, 0xb0, SHARED_MARKER_VALUE, 0xa2, 0x00, 0x90, 0xb0, 0x50, 0xe6, 0xe9, 0xb0, 0x44, 0xe6, 0xe9, 0xf4, ];
pub const AP_LONG_MODE_TRAMPOLINE_BYTES: [u8; 121] = [ 0xfa, 0x31, 0xc0, 0x8e, 0xd8, 0x8e, 0xc0, 0x8e, 0xd0, 0xb0, 0x41, 0xe6, 0xe9, 0x66, 0x0f, 0x01, 0x16, 0x20, 0x70, 0x0f, 0x20, 0xe0, 0x66, 0x83, 0xc8, 0x20, 0x0f, 0x22, 0xe0, 0x66, 0xb8, 0x00, 0x10, 0x00, 0x00, 0x0f, 0x22, 0xd8, 0x66, 0xb9, 0x80, 0x00, 0x00, 0xc0, 0x0f, 0x32, 0x66, 0x0d, 0x00, 0x01, 0x00, 0x00, 0x0f, 0x30, 0x0f, 0x20, 0xc0, 0x66, 0x0d, 0x01, 0x00, 0x00, 0x80, 0x0f, 0x22, 0xc0, 0x66, 0xea, 0x4a, 0x80, 0x00, 0x00, 0x08, 0x00, 0x66, 0xb8, 0x10, 0x00, 0x8e, 0xd0, 0x8e, 0xd8, 0x8e, 0xc0, 0x48, 0xbc, 0x00, 0xf0, 0x1e, 0x00, 0x00, 0x00, 0x00, 0x00, 0xb0, 0x4c, 0xe6, 0xe9, 0x48, 0xbb, 0x00, 0x90, 0x00, 0x00, 0x00, 0x00, 0x00, 0x00, 0xb0, 0x4b, 0x88, 0x03, 0xb0, 0x50, 0xe6, 0xe9, 0xb0, 0x44, 0xe6, 0xe9, 0xf4, ];
pub const AP_LONG_MODE_IPI_TRAMPOLINE_BYTES: [u8; 154] = [ 0xfa, 0x31, 0xc0, 0x8e, 0xd8, 0x8e, 0xc0, 0x8e, 0xd0, 0xb0, 0x41, 0xe6, 0xe9, 0x0f, 0x01, 0x16, 0x20, 0x70, 0x0f, 0x20, 0xe0, 0x66, 0x83, 0xc8, 0x20, 0x0f, 0x22, 0xe0, 0x66, 0xb8, 0x00, 0x10, 0x00, 0x00, 0x0f, 0x22, 0xd8, 0x66, 0xb9, 0x80, 0x00, 0x00, 0xc0, 0x0f, 0x32, 0x66, 0x0d, 0x00, 0x01, 0x00, 0x00, 0x0f, 0x30, 0x0f, 0x20, 0xc0, 0x66, 0x0d, 0x01, 0x00, 0x00, 0x80, 0x0f, 0x22, 0xc0, 0x66, 0xea, 0x49, 0x80, 0x00, 0x00, 0x08, 0x00, 0x66, 0xb8, 0x10, 0x00, 0x8e, 0xd0, 0x8e, 0xd8, 0x8e, 0xc0, 0x48, 0xbc, 0x00, 0xf0, 0x1e, 0x00, 0x00, 0x00, 0x00, 0x00, 0xb0, 0x4c, 0xe6, 0xe9, 0x48, 0xbb, 0x00, 0x00, 0x50, 0x00, 0x00, 0x00, 0x00, 0x00, 0xc7, 0x83, 0xf0, 0x00, 0x00, 0x00, 0xff, 0x01, 0x00, 0x00, 0x0f, 0x01, 0x1c, 0x25, 0x40, 0x70, 0x00, 0x00, 0xb0, 0x52, 0xe6, 0xe9, 0xfb, 0xf4, 0xb0, 0x4d, 0xe6, 0xe9, 0x48, 0xb9, 0x00, 0x90, 0x00, 0x00, 0x00, 0x00, 0x00, 0x00, 0xb0, 0x4b, 0x88, 0x01, 0xb0, 0x44, 0xe6, 0xe9, 0xf4, ];
pub const AP_LONG_MODE_IPI_HANDLER_BYTES: [u8; 16] = [ 0xb0, 0x49, 0xe6, 0xe9, 0xc7, 0x83, 0xb0, 0x00, 0x00, 0x00, 0x00, 0x00, 0x00, 0x00, 0x48, 0xcf, ];

#[derive(Debug, Clone, Copy, PartialEq, Eq)]
pub struct ApLongModeState {
    pub rsp: u64,
    pub cs_selector: u16,
    pub cs_long: u8,
    pub ss_selector: u16,
    pub gdt_base: u64,
    pub gdt_limit: u16,
    pub cr0: u64,
    pub cr3: u64,
    pub cr4: u64,
    pub efer: u64,
}

impl ApLongModeState {
    pub fn rsp(self) -> (r: u64)
        ensures r == self.rsp,
    {
        self.rsp
    }

    pub fn cs_selector(self) -> (r: u16)
        ensures r == self.cs_selector,
    {
        self.cs_selector
    }

    pub fn cs_long(self) -> (r: u8)
        ensures r == self.cs_long,
    {
        self.cs_long
    }

    pub fn ss_selector(self) -> (r: u16)
        ensures r == self.ss_selector,
    {
        self.ss_selector
    }

    pub fn gdt_base(self) -> (r: u64)
        ensures r == self.gdt_base,
    {
        self.gdt_base
    }

    pub fn gdt_limit(self) -> (r: u16)
        ensures r == self.gdt_limit,
    {
        self.gdt_limit
    }

    pub fn cr0(self) -> (r: u64)
        ensures r == self.cr0,
    {
        self.cr0
    }

    pub fn cr3(self) -> (r: u64)
        ensures r == self.cr3,
    {
        self.cr3
    }

    pub fn cr4(self) -> (r: u64)
        ensures r == self.cr4,
    {
        self.cr4
    }

    pub fn efer(self) -> (r: u64)
        ensures r == self.efer,
    {
        self.efer
    }
}

#[derive(Debug, Clone, Copy, PartialEq, Eq)]
pub struct ApIpiState {
    pub ready_rflags: u64,
    pub idt_base: u64,
    pub idt_limit: u16,
}

impl ApIpiState {
    pub fn ready_rflags(self) -> (r: u64)
        ensures r == self.ready_rflags,
    {
        self.ready_rflags
    }

    pub fn idt_base(self) -> (r: u64)
        ensures r == self.idt_base,
    {
        self.idt_base
    }

    pub fn idt_limit(self) -> (r: u16)
        ensures r == self.idt_limit,
    {
        self.idt_limit
    }
}

#[derive(Debug, Clone, PartialEq, Eq)]
pub struct TwoVcpuInitSipiResult {
    pub first_io_exits: Vec<PortIoExit>,
    pub second_io_exits: Vec<PortIoExit>,
    pub first_proof: Vec<u8>,
    pub second_proof: Vec<u8>,
    pub initial_mp_state: u32,
    pub startup_mp_state: u32,
    pub startup_rip: u64,
    pub startup_cs_selector: u16,
    pub startup_cs_base: u64,
    pub startup_cr0: u64,
    pub final_mp_state: u32,
    pub ap_completion_rflags: u64,
    pub shared_marker: u8,
}

impl TwoVcpuInitSipiResult {
    pub fn first_io_exits(&self) -> (r: &[PortIoExit])
        ensures r@ == self.first_io_exits@,
    {
        self.first_io_exits.as_slice()
    }

    pub fn second_io_exits(&self) -> (r: &[PortIoExit])
        ensures r@ == self.second_io_exits@,
    {
        self.second_io_exits.as_slice()
    }

    pub fn first_proof(&self) -> (r: &[u8])
        ensures r@ == self.first_proof@,
    {
        self.first_proof.as_slice()
    }

    pub fn second_proof(&self) -> (r: &[u8])
        ensures r@ == self.second_proof@,
    {
        self.second_proof.as_slice()
    }

    pub fn initial_mp_state(&self) -> (r: u32)
        ensures r == self.initial_mp_state,
    {
        self.initial_mp_state
    }

    pub fn startup_mp_state(&self) -> (r: u32)
        ensures r == self.startup_mp_state,
    {
        self.startup_mp_state
    }

    pub fn startup_rip(&self) -> (r: u64)
        ensures r == self.startup_rip,
    {
        self.startup_rip
    }

    pub fn startup_cs_selector(&self) -> (r: u16)
        ensures r == self.startup_cs_selector,
    {
        self.startup_cs_selector
    }

    pub fn startup_cs_base(&self) -> (r: u64)
        ensures r == self.startup_cs_base,
    {
        self.startup_cs_base
    }

    pub fn startup_cr0(&self) -> (r: u64)
        ensures r == self.startup_cr0,
    {
        self.startup_cr0
    }

    pub fn final_mp_state(&self) -> (r: u32)
        ensures r == self.final_mp_state,
    {
        self.final_mp_state
    }

    pub fn ap_completion_rflags(&self) -> (r: u64)
        ensures r == self.ap_completion_rflags,
    {
        self.ap_completion_rflags
    }

    pub fn shared_marker(&self) -> (r: u8)
        ensures r == self.shared_marker,
    {
        self.shared_marker
    }
}

#[derive(Debug, Clone, PartialEq, Eq)]
pub struct TwoVcpuApLongModeResult {
    pub first_io_exits: Vec<PortIoExit>,
    pub second_io_exits: Vec<PortIoExit>,
    pub first_proof: Vec<u8>,
    pub second_proof: Vec<u8>,
    pub initial_mp_state: u32,
    pub startup_mp_state: u32,
    pub startup_rip: u64,
    pub startup_cs_selector: u16,
    pub startup_cs_base: u64,
    pub startup_cr0: u64,
    pub final_mp_state: u32,
    pub ap_completion_rflags: u64,
    pub shared_marker: u8,
    pub long_mode: ApLongModeState,
}

impl TwoVcpuApLongModeResult {
    pub fn first_io_exits(&self) -> (r: &[PortIoExit])
        ensures r@ == self.first_io_exits@,
    {
        self.first_io_exits.as_slice()
    }

    pub fn second_io_exits(&self) -> (r: &[PortIoExit])
        ensures r@ == self.second_io_exits@,
    {
        self.second_io_exits.as_slice()
    }

    pub fn first_proof(&self) -> (r: &[u8])
        ensures r@ == self.first_proof@,
    {
        self.first_proof.as_slice()
    }

    pub fn second_proof(&self) -> (r: &[u8])
        ensures r@ == self.second_proof@,
    {
        self.second_proof.as_slice()
    }

    pub fn initial_mp_state(&self) -> (r: u32)
        ensures r == self.initial_mp_state,
    {
        self.initial_mp_state
    }

    pub fn startup_mp_state(&self) -> (r: u32)
        ensures r == self.startup_mp_state,
    {
        self.startup_mp_state
    }

    pub fn startup_rip(&self) -> (r: u64)
        ensures r == self.startup_rip,
    {
        self.startup_rip
    }

    pub fn startup_cs_selector(&self) -> (r: u16)
        ensures r == self.startup_cs_selector,
    {
        self.startup_cs_selector
    }

    pub fn startup_cs_base(&self) -> (r: u64)
        ensures r == self.startup_cs_base,
    {
        self.startup_cs_base
    }

    pub fn startup_cr0(&self) -> (r: u64)
        ensures r == self.startup_cr0,
    {
        self.startup_cr0
    }

    pub fn final_mp_state(&self) -> (r: u32)
        ensures r == self.final_mp_state,
    {
        self.final_mp_state
    }

    pub fn ap_completion_rflags(&self) -> (r: u64)
        ensures r == self.ap_completion_rflags,
    {
        self.ap_completion_rflags
    }

    pub fn shared_marker(&self) -> (r: u8)
        ensures r == self.shared_marker,
    {
        self.shared_marker
    }

    pub fn long_mode_state(&self) -> (r: ApLongModeState)
        ensures r == self.long_mode,
    {
        self.long_mode
    }
}

#[derive(Debug, Clone, PartialEq, Eq)]
pub struct TwoVcpuApIpiResult {
    pub first_io_exits: Vec<PortIoExit>,
    pub second_io_exits: Vec<PortIoExit>,
    pub first_proof: Vec<u8>,
    pub second_proof: Vec<u8>,
    pub initial_mp_state: u32,
    pub startup_mp_state: u32,
    pub startup_rip: u64,
    pub startup_cs_selector: u16,
    pub startup_cs_base: u64,
    pub startup_cr0: u64,
    pub final_mp_state: u32,
    pub ap_completion_rflags: u64,
    pub shared_marker: u8,
    pub long_mode: ApLongModeState,
    pub interrupt: ApIpiState,
}

impl TwoVcpuApIpiResult {
    pub fn first_io_exits(&self) -> (r: &[PortIoExit])
        ensures r@ == self.first_io_exits@,
    {
        self.first_io_exits.as_slice()
    }

    pub fn second_io_exits(&self) -> (r: &[PortIoExit])
        ensures r@ == self.second_io_exits@,
    {
        self.second_io_exits.as_slice()
    }

    pub fn first_proof(&self) -> (r: &[u8])
        ensures r@ == self.first_proof@,
    {
        self.first_proof.as_slice()
    }

    pub fn second_proof(&self) -> (r: &[u8])
        ensures r@ == self.second_proof@,
    {
        self.second_proof.as_slice()
    }

    pub fn initial_mp_state(&self) -> (r: u32)
        ensures r == self.initial_mp_state,
    {
        self.initial_mp_state
    }

    pub fn startup_mp_state(&self) -> (r: u32)
        ensures r == self.startup_mp_state,
    {
        self.startup_mp_state
    }

    pub fn startup_rip(&self) -> (r: u64)
        ensures r == self.startup_rip,
    {
        self.startup_rip
    }

    pub fn startup_cs_selector(&self) -> (r: u16)
        ensures r == self.startup_cs_selector,
    {
        self.startup_cs_selector
    }

    pub fn startup_cs_base(&self) -> (r: u64)
        ensures r == self.startup_cs_base,
    {
        self.startup_cs_base
    }

    pub fn startup_cr0(&self) -> (r: u64)
        ensures r == self.startup_cr0,
    {
        self.startup_cr0
    }

    pub fn final_mp_state(&self) -> (r: u32)
        ensures r == self.final_mp_state,
    {
        self.final_mp_state
    }

    pub fn ap_completion_rflags(&self) -> (r: u64)
        ensures r == self.ap_completion_rflags,
    {
        self.ap_completion_rflags
    }

    pub fn shared_marker(&self) -> (r: u8)
        ensures r == self.shared_marker,
    {
        self.shared_marker
    }

    pub fn long_mode_state(&self) -> (r: ApLongModeState)
        ensures r == self.long_mode,
    {
        self.long_mode
    }

    pub fn interrupt_state(&self) -> (r: ApIpiState)
        ensures r == self.interrupt,
    {
        self.interrupt
    }
}


/// The stages of an INIT/SIPI start whose application processor stays in real mode and publishes the shared marker.
pub open spec fn spec_real_mode_startup_script() -> Seq<Stage> {
    seq![
        Stage { vcpu: 1, check: StageCheck::MpState(KVM_MP_STATE_UNINITIALIZED), name: "INIT/SIPI initial AP MP state", vm_error: false },
        Stage { vcpu: 0, check: StageCheck::DebugOutput(0x30), name: "INIT/SIPI BSP pre-INIT barrier", vm_error: false },
        Stage { vcpu: 0, check: StageCheck::InterruptsDisabled, name: "INIT/SIPI BSP pre-INIT state", vm_error: false },
        Stage { vcpu: 0, check: StageCheck::DebugOutput(0x49), name: "INIT/SIPI BSP INIT-assert barrier", vm_error: false },
        Stage { vcpu: 0, check: StageCheck::DebugOutput(0x44), name: "INIT/SIPI BSP INIT-deassert barrier", vm_error: false },
        Stage { vcpu: 0, check: StageCheck::DebugOutput(0x53), name: "INIT/SIPI BSP SIPI barrier", vm_error: false },
        Stage { vcpu: 1, check: StageCheck::SipiStartup, name: "INIT/SIPI AP startup architectural state after KVM_RUN EAGAIN", vm_error: false },
        Stage { vcpu: 1, check: StageCheck::DebugOutput(0x41), name: "INIT/SIPI AP trampoline startup", vm_error: false },
        Stage { vcpu: 1, check: StageCheck::DebugOutput(0x50), name: "INIT/SIPI AP shared-marker completion", vm_error: false },
        Stage { vcpu: 1, check: StageCheck::DebugOutput(0x44), name: "INIT/SIPI AP completion barrier", vm_error: false },
        Stage { vcpu: 1, check: StageCheck::MpState(KVM_MP_STATE_RUNNABLE), name: "INIT/SIPI final AP MP state", vm_error: false },
        Stage { vcpu: 1, check: StageCheck::InterruptsDisabled, name: "INIT/SIPI AP completion state", vm_error: false },
        Stage { vcpu: 0, check: StageCheck::GuestByte { address: SHARED_MARKER, expected: SHARED_MARKER_VALUE }, name: "INIT/SIPI shared-memory handoff", vm_error: false },
        Stage { vcpu: 0, check: StageCheck::DebugOutput(0x4d), name: "INIT/SIPI BSP shared-marker observation", vm_error: false },
        Stage { vcpu: 0, check: StageCheck::DebugOutput(0x44), name: "INIT/SIPI BSP completion barrier", vm_error: false },
        Stage { vcpu: 0, check: StageCheck::InterruptsDisabled, name: "INIT/SIPI BSP completion state", vm_error: false },
    ]
}

pub fn real_mode_startup_script() -> (r: Vec<Stage>)
    ensures r@ == spec_real_mode_startup_script(),
{
    let mut v: Vec<Stage> = Vec::new();
    v.push(Stage { vcpu: 1, check: StageCheck::MpState(KVM_MP_STATE_UNINITIALIZED), name: "INIT/SIPI initial AP MP state", vm_error: false });
    v.push(Stage { vcpu: 0, check: StageCheck::DebugOutput(0x30), name: "INIT/SIPI BSP pre-INIT barrier", vm_error: false });
    v.push(Stage { vcpu: 0, check: StageCheck::InterruptsDisabled, name: "INIT/SIPI BSP pre-INIT state", vm_error: false });
    v.push(Stage { vcpu: 0, check: StageCheck::DebugOutput(0x49), name: "INIT/SIPI BSP INIT-assert barrier", vm_error: false });
    v.push(Stage { vcpu: 0, check: StageCheck::DebugOutput(0x44), name: "INIT/SIPI BSP INIT-deassert barrier", vm_error: false });
    v.push(Stage { vcpu: 0, check: StageCheck::DebugOutput(0x53), name: "INIT/SIPI BSP SIPI barrier", vm_error: false });
    v.push(Stage { vcpu: 1, check: StageCheck::SipiStartup, name: "INIT/SIPI AP startup architectural state after KVM_RUN EAGAIN", vm_error: false });
    v.push(Stage { vcpu: 1, check: StageCheck::DebugOutput(0x41), name: "INIT/SIPI AP trampoline startup", vm_error: false });
    v.push(Stage { vcpu: 1, check: StageCheck::DebugOutput(0x50), name: "INIT/SIPI AP shared-marker completion", vm_error: false });
    v.push(Stage { vcpu: 1, check: StageCheck::DebugOutput(0x44), name: "INIT/SIPI AP completion barrier", vm_error: false });
    v.push(Stage { vcpu: 1, check: StageCheck::MpState(KVM_MP_STATE_RUNNABLE), name: "INIT/SIPI final AP MP state", vm_error: false });
    v.push(Stage { vcpu: 1, check: StageCheck::InterruptsDisabled, name: "INIT/SIPI AP completion state", vm_error: false });
    v.push(Stage { vcpu: 0, check: StageCheck::GuestByte { address: SHARED_MARKER, expected: SHARED_MARKER_VALUE }, name: "INIT/SIPI shared-memory handoff", vm_error: false });
    v.push(Stage { vcpu: 0, check: StageCheck::DebugOutput(0x4d), name: "INIT/SIPI BSP shared-marker observation", vm_error: false });
    v.push(Stage { vcpu: 0, check: StageCheck::DebugOutput(0x44), name: "INIT/SIPI BSP completion barrier", vm_error: false });
    v.push(Stage { vcpu: 0, check: StageCheck::InterruptsDisabled, name: "INIT/SIPI BSP completion state", vm_error: false });
    proof {
        assert(v@ =~= spec_real_mode_startup_script());
    }
    v
}

/// The stages of an INIT/SIPI start whose application processor switches itself to long mode.
pub open spec fn spec_ap_long_mode_startup_script() -> Seq<Stage> {
    seq![
        Stage { vcpu: 1, check: StageCheck::MpState(KVM_MP_STATE_UNINITIALIZED), name: "INIT/SIPI initial AP MP state", vm_error: false },
        Stage { vcpu: 0, check: StageCheck::DebugOutput(0x30), name: "INIT/SIPI BSP pre-INIT barrier", vm_error: false },
        Stage { vcpu: 0, check: StageCheck::InterruptsDisabled, name: "INIT/SIPI BSP pre-INIT state", vm_error: false },
        Stage { vcpu: 0, check: StageCheck::DebugOutput(0x49), name: "INIT/SIPI BSP INIT-assert barrier", vm_error: false },
        Stage { vcpu: 0, check: StageCheck::DebugOutput(0x44), name: "INIT/SIPI BSP INIT-deassert barrier", vm_error: false },
        Stage { vcpu: 0, check: StageCheck::DebugOutput(0x53), name: "INIT/SIPI BSP SIPI barrier", vm_error: false },
        Stage { vcpu: 1, check: StageCheck::SipiStartup, name: "INIT/SIPI AP startup architectural state after KVM_RUN EAGAIN", vm_error: false },
        Stage { vcpu: 1, check: StageCheck::DebugOutput(0x41), name: "AP real-mode startup", vm_error: false },
        Stage { vcpu: 1, check: StageCheck::DebugOutput(0x4c), name: "AP 64-bit entry", vm_error: false },
        Stage { vcpu: 1, check: StageCheck::DebugOutput(0x50), name: "AP long-mode marker completion", vm_error: false },
        Stage { vcpu: 1, check: StageCheck::DebugOutput(0x44), name: "AP long-mode completion barrier", vm_error: false },
        Stage { vcpu: 1, check: StageCheck::MpState(KVM_MP_STATE_RUNNABLE), name: "INIT/SIPI final AP MP state", vm_error: false },
        Stage { vcpu: 1, check: StageCheck::InterruptsDisabled, name: "INIT/SIPI AP completion state", vm_error: false },
        Stage { vcpu: 1, check: StageCheck::LongMode, name: "AP guest-driven long-mode state", vm_error: false },
        Stage { vcpu: 0, check: StageCheck::GuestByte { address: SHARED_MARKER, expected: SHARED_MARKER_VALUE }, name: "INIT/SIPI shared-memory handoff", vm_error: false },
        Stage { vcpu: 0, check: StageCheck::DebugOutput(0x4d), name: "INIT/SIPI BSP shared-marker observation", vm_error: false },
        Stage { vcpu: 0, check: StageCheck::DebugOutput(0x44), name: "INIT/SIPI BSP completion barrier", vm_error: false },
        Stage { vcpu: 0, check: StageCheck::InterruptsDisabled, name: "INIT/SIPI BSP completion state", vm_error: false },
    ]
}

pub fn ap_long_mode_startup_script() -> (r: Vec<Stage>)
    ensures r@ == spec_ap_long_mode_startup_script(),
{
    let mut v: Vec<Stage> = Vec::new();
    v.push(Stage { vcpu: 1, check: StageCheck::MpState(KVM_MP_STATE_UNINITIALIZED), name: "INIT/SIPI initial AP MP state", vm_error: false });
    v.push(Stage { vcpu: 0, check: StageCheck::DebugOutput(0x30), name: "INIT/SIPI BSP pre-INIT barrier", vm_error: false });
    v.push(Stage { vcpu: 0, check: StageCheck::InterruptsDisabled, name: "INIT/SIPI BSP pre-INIT state", vm_error: false });
    v.push(Stage { vcpu: 0, check: StageCheck::DebugOutput(0x49), name: "INIT/SIPI BSP INIT-assert barrier", vm_error: false });
    v.push(Stage { vcpu: 0, check: StageCheck::DebugOutput(0x44), name: "INIT/SIPI BSP INIT-deassert barrier", vm_error: false });
    v.push(Stage { vcpu: 0, check: StageCheck::DebugOutput(0x53), name: "INIT/SIPI BSP SIPI barrier", vm_error: false });
    v.push(Stage { vcpu: 1, check: StageCheck::SipiStartup, name: "INIT/SIPI AP startup architectural state after KVM_RUN EAGAIN", vm_error: false });
    v.push(Stage { vcpu: 1, check: StageCheck::DebugOutput(0x41), name: "AP real-mode startup", vm_error: false });
    v.push(Stage { vcpu: 1, check: StageCheck::DebugOutput(0x4c), name: "AP 64-bit entry", vm_error: false });
    v.push(Stage { vcpu: 1, check: StageCheck::DebugOutput(0x50), name: "AP long-mode marker completion", vm_error: false });
    v.push(Stage { vcpu: 1, check: StageCheck::DebugOutput(0x44), name: "AP long-mode completion barrier", vm_error: false });
    v.push(Stage { vcpu: 1, check: StageCheck::MpState(KVM_MP_STATE_RUNNABLE), name: "INIT/SIPI final AP MP state", vm_error: false });
    v.push(Stage { vcpu: 1, check: StageCheck::InterruptsDisabled, name: "INIT/SIPI AP completion state", vm_error: false });
    v.push(Stage { vcpu: 1, check: StageCheck::LongMode, name: "AP guest-driven long-mode state", vm_error: false });
    v.push(Stage { vcpu: 0, check: StageCheck::GuestByte { address: SHARED_MARKER, expected: SHARED_MARKER_VALUE }, name: "INIT/SIPI shared-memory handoff", vm_error: false });
    v.push(Stage { vcpu: 0, check: StageCheck::DebugOutput(0x4d), name: "INIT/SIPI BSP shared-marker observation", vm_error: false });
    v.push(Stage { vcpu: 0, check: StageCheck::DebugOutput(0x44), name: "INIT/SIPI BSP completion barrier", vm_error: false });
    v.push(Stage { vcpu: 0, check: StageCheck::InterruptsDisabled, name: "INIT/SIPI BSP completion state", vm_error: false });
    proof {
        assert(v@ =~= spec_ap_long_mode_startup_script());
    }
    v
}

/// The stages of an INIT/SIPI start whose long-mode application processor then takes a fixed IPI from the bootstrap processor.
pub open spec fn spec_ap_long_mode_ipi_startup_script() -> Seq<Stage> {
    seq![
        Stage { vcpu: 1, check: StageCheck::MpState(KVM_MP_STATE_UNINITIALIZED), name: "INIT/SIPI initial AP MP state", vm_error: false },
        Stage { vcpu: 0, check: StageCheck::DebugOutput(0x30), name: "INIT/SIPI BSP pre-INIT barrier", vm_error: false },
        Stage { vcpu: 0, check: StageCheck::InterruptsDisabled, name: "INIT/SIPI BSP pre-INIT state", vm_error: false },
        Stage { vcpu: 0, check: StageCheck::DebugOutput(0x49), name: "INIT/SIPI BSP INIT-assert barrier", vm_error: false },
        Stage { vcpu: 0, check: StageCheck::DebugOutput(0x44), name: "INIT/SIPI BSP INIT-deassert barrier", vm_error: false },
        Stage { vcpu: 0, check: StageCheck::DebugOutput(0x53), name: "INIT/SIPI BSP SIPI barrier", vm_error: false },
        Stage { vcpu: 1, check: StageCheck::SipiStartup, name: "INIT/SIPI AP startup architectural state after KVM_RUN EAGAIN", vm_error: false },
        Stage { vcpu: 1, check: StageCheck::DebugOutput(0x41), name: "AP real-mode startup", vm_error: false },
        Stage { vcpu: 1, check: StageCheck::DebugOutput(0x4c), name: "AP 64-bit entry", vm_error: false },
        Stage { vcpu: 1, check: StageCheck::DebugOutput(0x52), name: "AP long-mode IPI readiness", vm_error: false },
        Stage { vcpu: 1, check: StageCheck::InterruptsDisabled, name: "AP long-mode IPI readiness state", vm_error: false },
        Stage { vcpu: 1, check: StageCheck::Idt { base: LONG_MODE_INTERRUPT_IDT_ADDR, limit: AP_LONG_MODE_IPI_IDT_LIMIT }, name: "AP long-mode IPI IDTR state", vm_error: false },
        Stage { vcpu: 0, check: StageCheck::DebugOutput(0x58), name: "INIT/SIPI BSP post-fixed-IPI barrier", vm_error: false },
        Stage { vcpu: 0, check: StageCheck::InterruptsDisabled, name: "INIT/SIPI BSP post-fixed-IPI state", vm_error: false },
        Stage { vcpu: 1, check: StageCheck::DebugOutput(0x49), name: "AP long-mode IPI handler", vm_error: false },
        Stage { vcpu: 1, check: StageCheck::DebugOutput(0x4d), name: "AP long-mode IPI resumed mainline", vm_error: false },
        Stage { vcpu: 1, check: StageCheck::DebugOutput(0x44), name: "AP long-mode IPI completion barrier", vm_error: false },
        Stage { vcpu: 1, check: StageCheck::MpState(KVM_MP_STATE_RUNNABLE), name: "INIT/SIPI final AP MP state", vm_error: false },
        Stage { vcpu: 1, check: StageCheck::InterruptsEnabled, name: "AP long-mode IPI completion state", vm_error: false },
        Stage { vcpu: 1, check: StageCheck::LongMode, name: "AP guest-driven long-mode state", vm_error: false },
        Stage { vcpu: 0, check: StageCheck::GuestByte { address: SHARED_MARKER, expected: SHARED_MARKER_VALUE }, name: "INIT/SIPI shared-memory handoff", vm_error: false },
        Stage { vcpu: 0, check: StageCheck::DebugOutput(0x4d), name: "INIT/SIPI BSP shared-marker observation", vm_error: false },
        Stage { vcpu: 0, check: StageCheck::DebugOutput(0x44), name: "INIT/SIPI BSP completion barrier", vm_error: false },
        Stage { vcpu: 0, check: StageCheck::InterruptsDisabled, name: "INIT/SIPI BSP completion state", vm_error: false },
    ]
}

pub fn ap_long_mode_ipi_startup_script() -> (r: Vec<Stage>)
    ensures r@ == spec_ap_long_mode_ipi_startup_script(),
{
    let mut v: Vec<Stage> = Vec::new();
    v.push(Stage { vcpu: 1, check: StageCheck::MpState(KVM_MP_STATE_UNINITIALIZED), name: "INIT/SIPI initial AP MP state", vm_error: false });
    v.push(Stage { vcpu: 0, check: StageCheck::DebugOutput(0x30), name: "INIT/SIPI BSP pre-INIT barrier", vm_error: false });
    v.push(Stage { vcpu: 0, check: StageCheck::InterruptsDisabled, name: "INIT/SIPI BSP pre-INIT state", vm_error: false });
    v.push(Stage { vcpu: 0, check: StageCheck::DebugOutput(0x49), name: "INIT/SIPI BSP INIT-assert barrier", vm_error: false });
    v.push(Stage { vcpu: 0, check: StageCheck::DebugOutput(0x44), name: "INIT/SIPI BSP INIT-deassert barrier", vm_error: false });
    v.push(Stage { vcpu: 0, check: StageCheck::DebugOutput(0x53), name: "INIT/SIPI BSP SIPI barrier", vm_error: false });
    v.push(Stage { vcpu: 1, check: StageCheck::SipiStartup, name: "INIT/SIPI AP startup architectural state after KVM_RUN EAGAIN", vm_error: false });
    v.push(Stage { vcpu: 1, check: StageCheck::DebugOutput(0x41), name: "AP real-mode startup", vm_error: false });
    v.push(Stage { vcpu: 1, check: StageCheck::DebugOutput(0x4c), name: "AP 64-bit entry", vm_error: false });
    v.push(Stage { vcpu: 1, check: StageCheck::DebugOutput(0x52), name: "AP long-mode IPI readiness", vm_error: false });
    v.push(Stage { vcpu: 1, check: StageCheck::InterruptsDisabled, name: "AP long-mode IPI readiness state", vm_error: false });
    v.push(Stage { vcpu: 1, check: StageCheck::Idt { base: LONG_MODE_INTERRUPT_IDT_ADDR, limit: AP_LONG_MODE_IPI_IDT_LIMIT }, name: "AP long-mode IPI IDTR state", vm_error: false });
    v.push(Stage { vcpu: 0, check: StageCheck::DebugOutput(0x58), name: "INIT/SIPI BSP post-fixed-IPI barrier", vm_error: false });
    v.push(Stage { vcpu: 0, check: StageCheck::InterruptsDisabled, name: "INIT/SIPI BSP post-fixed-IPI state", vm_error: false });
    v.push(Stage { vcpu: 1, check: StageCheck::DebugOutput(0x49), name: "AP long-mode IPI handler", vm_error: false });
    v.push(Stage { vcpu: 1, check: StageCheck::DebugOutput(0x4d), name: "AP long-mode IPI resumed mainline", vm_error: false });
    v.push(Stage { vcpu: 1, check: StageCheck::DebugOutput(0x44), name: "AP long-mode IPI completion barrier", vm_error: false });
    v.push(Stage { vcpu: 1, check: StageCheck::MpState(KVM_MP_STATE_RUNNABLE), name: "INIT/SIPI final AP MP state", vm_error: false });
    v.push(Stage { vcpu: 1, check: StageCheck::InterruptsEnabled, name: "AP long-mode IPI completion state", vm_error: false });
    v.push(Stage { vcpu: 1, check: StageCheck::LongMode, name: "AP guest-driven long-mode state", vm_error: false });
    v.push(Stage { vcpu: 0, check: StageCheck::GuestByte { address: SHARED_MARKER, expected: SHARED_MARKER_VALUE }, name: "INIT/SIPI shared-memory handoff", vm_error: false });
    v.push(Stage { vcpu: 0, check: StageCheck::DebugOutput(0x4d), name: "INIT/SIPI BSP shared-marker observation", vm_error: false });
    v.push(Stage { vcpu: 0, check: StageCheck::DebugOutput(0x44), name: "INIT/SIPI BSP completion barrier", vm_error: false });
    v.push(Stage { vcpu: 0, check: StageCheck::InterruptsDisabled, name: "INIT/SIPI BSP completion state", vm_error: false });
    proof {
        assert(v@ =~= spec_ap_long_mode_ipi_startup_script());
    }
    v
}

/// How the application processor runs after its INIT/SIPI start.
#[derive(Debug, Clone, Copy, PartialEq, Eq)]
pub enum ApExecutionMode {
    /// It stays in real mode and publishes the shared marker.
    RealModeMarker,
    /// It switches itself to long mode before publishing the marker.
    GuestLongMode,
    /// It switches to long mode and then waits for the bootstrap processor's fixed IPI.
    GuestLongModeIpi,
}

/// The stages of the INIT/SIPI scenario in the given mode.
pub open spec fn spec_two_vcpu_startup_script(mode: ApExecutionMode) -> Seq<Stage> {
    match mode {
        ApExecutionMode::RealModeMarker => spec_real_mode_startup_script(),
        ApExecutionMode::GuestLongMode => spec_ap_long_mode_startup_script(),
        ApExecutionMode::GuestLongModeIpi => spec_ap_long_mode_ipi_startup_script(),
    }
}

pub fn two_vcpu_startup_script(mode: ApExecutionMode) -> (r: Vec<Stage>)
    ensures r@ == spec_two_vcpu_startup_script(mode),
{
    match mode {
        ApExecutionMode::RealModeMarker => real_mode_startup_script(),
        ApExecutionMode::GuestLongMode => ap_long_mode_startup_script(),
        ApExecutionMode::GuestLongModeIpi => ap_long_mode_ipi_startup_script(),
    }
}

/// Starts a run of the INIT/SIPI scenario in the given mode; the action asks for the first stage.
pub fn two_vcpu_startup_start(mode: ApExecutionMode) -> (r: (ScenarioRun, ScenarioAction))
    ensures
        r.0@ == spec_scenario_start(spec_two_vcpu_startup_script(mode)),
        r.1 == spec_next_action(r.0@),
{
    scenario_start(two_vcpu_startup_script(mode))
}


/// A real-mode INIT/SIPI run that observed every stage made the bootstrap processor print "0IDSMD" and the application processor "APD".
pub proof fn lemma_real_mode_startup_outputs()
    ensures
        spec_expected_output(spec_real_mode_startup_script(), 0) == FIRST_PROOF@,
        spec_expected_output(spec_real_mode_startup_script(), 1) == SECOND_PROOF@,
{
    reveal_with_fuel(spec_expected_output, 17);
    assert(FIRST_PROOF@ =~= seq![0x30u8, 0x49, 0x44, 0x53, 0x4d, 0x44]);
    assert(spec_expected_output(spec_real_mode_startup_script(), 0) =~= seq![0x30u8, 0x49, 0x44, 0x53, 0x4d, 0x44]);
    assert(SECOND_PROOF@ =~= seq![0x41u8, 0x50, 0x44]);
    assert(spec_expected_output(spec_real_mode_startup_script(), 1) =~= seq![0x41u8, 0x50, 0x44]);
}

/// A long-mode INIT/SIPI run that observed every stage made the bootstrap processor print "0IDSMD" and the application processor "ALPD".
pub proof fn lemma_ap_long_mode_startup_outputs()
    ensures
        spec_expected_output(spec_ap_long_mode_startup_script(), 0) == FIRST_PROOF@,
        spec_expected_output(spec_ap_long_mode_startup_script(), 1) == AP_LONG_MODE_PROOF@,
{
    reveal_with_fuel(spec_expected_output, 19);
    assert(FIRST_PROOF@ =~= seq![0x30u8, 0x49, 0x44, 0x53, 0x4d, 0x44]);
    assert(spec_expected_output(spec_ap_long_mode_startup_script(), 0) =~= seq![0x30u8, 0x49, 0x44, 0x53, 0x4d, 0x44]);
    assert(AP_LONG_MODE_PROOF@ =~= seq![0x41u8, 0x4c, 0x50, 0x44]);
    assert(spec_expected_output(spec_ap_long_mode_startup_script(), 1) =~= seq![0x41u8, 0x4c, 0x50, 0x44]);
}

/// A long-mode INIT/SIPI run with the fixed IPI that observed every stage made the bootstrap processor print "0IDSXMD" and the application processor "ALRIMD".
pub proof fn lemma_ap_long_mode_ipi_startup_outputs()
    ensures
        spec_expected_output(spec_ap_long_mode_ipi_startup_script(), 0) == AP_LONG_MODE_IPI_BSP_PROOF@,
        spec_expected_output(spec_ap_long_mode_ipi_startup_script(), 1) == AP_LONG_MODE_IPI_PROOF@,
{
    reveal_with_fuel(spec_expected_output, 25);
    assert(AP_LONG_MODE_IPI_BSP_PROOF@ =~= seq![0x30u8, 0x49, 0x44, 0x53, 0x58, 0x4d, 0x44]);
    assert(spec_expected_output(spec_ap_long_mode_ipi_startup_script(), 0) =~= seq![0x30u8, 0x49, 0x44, 0x53, 0x58, 0x4d, 0x44]);
    assert(AP_LONG_MODE_IPI_PROOF@ =~= seq![0x41u8, 0x4c, 0x52, 0x49, 0x4d, 0x44]);
    assert(spec_expected_output(spec_ap_long_mode_ipi_startup_script(), 1) =~= seq![0x41u8, 0x4c, 0x52, 0x49, 0x4d, 0x44]);
}


/// The result of a real-mode INIT/SIPI run that observed every stage: each processor's debug-port exits and proof, the application processor's multiprocessing states, its start-up state and completion RFLAGS, and the shared marker.
pub fn real_mode_startup_result(run: ScenarioRun) -> (r: TwoVcpuInitSipiResult)
    requires
        run@.script == spec_real_mode_startup_script(),
        run_consistent(run@),
        run@.position == run@.script.len(),
    ensures
        ({
            let o = run@.observations;
            &&& r.first_io_exits@ == seq![io_of(o[1]), io_of(o[3]), io_of(o[4]), io_of(o[5]), io_of(o[13]), io_of(o[14])]
            &&& r.first_proof@ == FIRST_PROOF@
            &&& r.second_io_exits@ == seq![io_of(o[7]), io_of(o[8]), io_of(o[9])]
            &&& r.second_proof@ == SECOND_PROOF@
            &&& r.initial_mp_state == mp_state_of(o[0])
            &&& r.startup_mp_state == startup_of(o[6]).mp_state
            &&& r.startup_rip == startup_of(o[6]).rip
            &&& r.startup_cs_selector == startup_of(o[6]).cs_selector
            &&& r.startup_cs_base == startup_of(o[6]).cs_base
            &&& r.startup_cr0 == startup_of(o[6]).cr0
            &&& r.final_mp_state == mp_state_of(o[10])
            &&& r.ap_completion_rflags == rflags_of(o[11])
            &&& r.shared_marker == byte_of(o[12])
        }),
{
    let ghost script = spec_real_mode_startup_script();
    proof {
        assert(script.take(script.len() as int) =~= script);
        lemma_real_mode_startup_outputs();
        assert forall|k: int| 0 <= k < script.len() && (script[k].check is DebugOutput)
            implies carries_io(#[trigger] run@.observations[k]) by {
            assert(spec_accepts(script[k].check, run@.observations[k]));
        }
    }
    let first_proof = run.debug_output(0);
    let second_proof = run.debug_output(1);
    let mut events = run.into_observations();
    let ghost o = events@;
    assert(script[1].check is DebugOutput);
    assert(script[3].check is DebugOutput);
    assert(script[4].check is DebugOutput);
    assert(script[5].check is DebugOutput);
    assert(script[7].check is DebugOutput);
    assert(script[8].check is DebugOutput);
    assert(script[9].check is DebugOutput);
    assert(script[13].check is DebugOutput);
    assert(script[14].check is DebugOutput);
    let initial_mp_state = mp_state_at(&events, 0);
    let startup = startup_at(&events, 6);
    let final_mp_state = mp_state_at(&events, 10);
    let ap_completion_rflags = rflags_at(&events, 11);
    let shared_marker = byte_at(&events, 12);
    let mut first_io_exits: Vec<PortIoExit> = Vec::new();
    first_io_exits.push(take_io(&mut events, 1));
    first_io_exits.push(take_io(&mut events, 3));
    first_io_exits.push(take_io(&mut events, 4));
    first_io_exits.push(take_io(&mut events, 5));
    first_io_exits.push(take_io(&mut events, 13));
    first_io_exits.push(take_io(&mut events, 14));
    let mut second_io_exits: Vec<PortIoExit> = Vec::new();
    second_io_exits.push(take_io(&mut events, 7));
    second_io_exits.push(take_io(&mut events, 8));
    second_io_exits.push(take_io(&mut events, 9));
    proof {
        assert(first_io_exits@ =~= seq![io_of(o[1]), io_of(o[3]), io_of(o[4]), io_of(o[5]), io_of(o[13]), io_of(o[14])]);
        assert(second_io_exits@ =~= seq![io_of(o[7]), io_of(o[8]), io_of(o[9])]);
    }
    TwoVcpuInitSipiResult {
        first_io_exits,
        second_io_exits,
        first_proof,
        second_proof,
        initial_mp_state,
        startup_mp_state: startup.mp_state,
        startup_rip: startup.rip,
        startup_cs_selector: startup.cs_selector,
        startup_cs_base: startup.cs_base,
        startup_cr0: startup.cr0,
        final_mp_state,
        ap_completion_rflags,
        shared_marker,
    }
}

/// The result of a long-mode INIT/SIPI run that observed every stage: as for the real-mode run, and the long-mode state the application processor reached.
pub fn ap_long_mode_startup_result(run: ScenarioRun) -> (r: TwoVcpuApLongModeResult)
    requires
        run@.script == spec_ap_long_mode_startup_script(),
        run_consistent(run@),
        run@.position == run@.script.len(),
    ensures
        ({
            let o = run@.observations;
            &&& r.first_io_exits@ == seq![io_of(o[1]), io_of(o[3]), io_of(o[4]), io_of(o[5]), io_of(o[15]), io_of(o[16])]
            &&& r.first_proof@ == FIRST_PROOF@
            &&& r.second_io_exits@ == seq![io_of(o[7]), io_of(o[8]), io_of(o[9]), io_of(o[10])]
            &&& r.second_proof@ == AP_LONG_MODE_PROOF@
            &&& r.initial_mp_state == mp_state_of(o[0])
            &&& r.startup_mp_state == startup_of(o[6]).mp_state
            &&& r.startup_rip == startup_of(o[6]).rip
            &&& r.startup_cs_selector == startup_of(o[6]).cs_selector
            &&& r.startup_cs_base == startup_of(o[6]).cs_base
            &&& r.startup_cr0 == startup_of(o[6]).cr0
            &&& r.final_mp_state == mp_state_of(o[11])
            &&& r.ap_completion_rflags == rflags_of(o[12])
            &&& r.shared_marker == byte_of(o[14])
            &&& r.long_mode == spec_long_mode_state(long_mode_of(o[13]))
        }),
{
    let ghost script = spec_ap_long_mode_startup_script();
    proof {
        assert(script.take(script.len() as int) =~= script);
        lemma_ap_long_mode_startup_outputs();
        assert forall|k: int| 0 <= k < script.len() && (script[k].check is DebugOutput)
            implies carries_io(#[trigger] run@.observations[k]) by {
            assert(spec_accepts(script[k].check, run@.observations[k]));
        }
    }
    let first_proof = run.debug_output(0);
    let second_proof = run.debug_output(1);
    let mut events = run.into_observations();
    let ghost o = events@;
    assert(script[1].check is DebugOutput);
    assert(script[3].check is DebugOutput);
    assert(script[4].check is DebugOutput);
    assert(script[5].check is DebugOutput);
    assert(script[7].check is DebugOutput);
    assert(script[8].check is DebugOutput);
    assert(script[9].check is DebugOutput);
    assert(script[10].check is DebugOutput);
    assert(script[15].check is DebugOutput);
    assert(script[16].check is DebugOutput);
    let initial_mp_state = mp_state_at(&events, 0);
    let startup = startup_at(&events, 6);
    let final_mp_state = mp_state_at(&events, 11);
    let ap_completion_rflags = rflags_at(&events, 12);
    let shared_marker = byte_at(&events, 14);
    let regs = long_mode_at(&events, 13);
    let mut first_io_exits: Vec<PortIoExit> = Vec::new();
    first_io_exits.push(take_io(&mut events, 1));
    first_io_exits.push(take_io(&mut events, 3));
    first_io_exits.push(take_io(&mut events, 4));
    first_io_exits.push(take_io(&mut events, 5));
    first_io_exits.push(take_io(&mut events, 15));
    first_io_exits.push(take_io(&mut events, 16));
    let mut second_io_exits: Vec<PortIoExit> = Vec::new();
    second_io_exits.push(take_io(&mut events, 7));
    second_io_exits.push(take_io(&mut events, 8));
    second_io_exits.push(take_io(&mut events, 9));
    second_io_exits.push(take_io(&mut events, 10));
    proof {
        assert(first_io_exits@ =~= seq![io_of(o[1]), io_of(o[3]), io_of(o[4]), io_of(o[5]), io_of(o[15]), io_of(o[16])]);
        assert(second_io_exits@ =~= seq![io_of(o[7]), io_of(o[8]), io_of(o[9]), io_of(o[10])]);
    }
    TwoVcpuApLongModeResult {
        first_io_exits,
        second_io_exits,
        first_proof,
        second_proof,
        initial_mp_state,
        startup_mp_state: startup.mp_state,
        startup_rip: startup.rip,
        startup_cs_selector: startup.cs_selector,
        startup_cs_base: startup.cs_base,
        startup_cr0: startup.cr0,
        final_mp_state,
        ap_completion_rflags,
        shared_marker,
        long_mode: ApLongModeState {
            rsp: regs.rsp,
            cs_selector: regs.cs_selector,
            cs_long: regs.cs_long,
            ss_selector: regs.ss_selector,
            gdt_base: regs.gdt_base,
            gdt_limit: regs.gdt_limit,
            cr0: regs.cr0,
            cr3: regs.cr3,
            cr4: regs.cr4,
            efer: regs.efer,
        },
    }
}

/// The result of a long-mode INIT/SIPI run with the fixed IPI that observed every stage: as for the long-mode run, and the readiness RFLAGS and IDTR the application processor waited with.
pub fn ap_long_mode_ipi_startup_result(run: ScenarioRun) -> (r: TwoVcpuApIpiResult)
    requires
        run@.script == spec_ap_long_mode_ipi_startup_script(),
        run_consistent(run@),
        run@.position == run@.script.len(),
    ensures
        ({
            let o = run@.observations;
            &&& r.first_io_exits@ == seq![io_of(o[1]), io_of(o[3]), io_of(o[4]), io_of(o[5]), io_of(o[12]), io_of(o[21]), io_of(o[22])]
            &&& r.first_proof@ == AP_LONG_MODE_IPI_BSP_PROOF@
            &&& r.second_io_exits@ == seq![io_of(o[7]), io_of(o[8]), io_of(o[9]), io_of(o[14]), io_of(o[15]), io_of(o[16])]
            &&& r.second_proof@ == AP_LONG_MODE_IPI_PROOF@
            &&& r.initial_mp_state == mp_state_of(o[0])
            &&& r.startup_mp_state == startup_of(o[6]).mp_state
            &&& r.startup_rip == startup_of(o[6]).rip
            &&& r.startup_cs_selector == startup_of(o[6]).cs_selector
            &&& r.startup_cs_base == startup_of(o[6]).cs_base
            &&& r.startup_cr0 == startup_of(o[6]).cr0
            &&& r.final_mp_state == mp_state_of(o[17])
            &&& r.ap_completion_rflags == rflags_of(o[18])
            &&& r.shared_marker == byte_of(o[20])
            &&& r.long_mode == spec_long_mode_state(long_mode_of(o[19]))
            &&& r.interrupt.ready_rflags == rflags_of(o[10])
            &&& r.interrupt.idt_base == idt_of(o[11]).0
            &&& r.interrupt.idt_limit == idt_of(o[11]).1
        }),
{
    let ghost script = spec_ap_long_mode_ipi_startup_script();
    proof {
        assert(script.take(script.len() as int) =~= script);
        lemma_ap_long_mode_ipi_startup_outputs();
        assert forall|k: int| 0 <= k < script.len() && (script[k].check is DebugOutput)
            implies carries_io(#[trigger] run@.observations[k]) by {
            assert(spec_accepts(script[k].check, run@.observations[k]));
        }
    }
    let first_proof = run.debug_output(0);
    let second_proof = run.debug_output(1);
    let mut events = run.into_observations();
    let ghost o = events@;
    assert(script[1].check is DebugOutput);
    assert(script[3].check is DebugOutput);
    assert(script[4].check is DebugOutput);
    assert(script[5].check is DebugOutput);
    assert(script[7].check is DebugOutput);
    assert(script[8].check is DebugOutput);
    assert(script[9].check is DebugOutput);
    assert(script[12].check is DebugOutput);
    assert(script[14].check is DebugOutput);
    assert(script[15].check is DebugOutput);
    assert(script[16].check is DebugOutput);
    assert(script[21].check is DebugOutput);
    assert(script[22].check is DebugOutput);
    let initial_mp_state = mp_state_at(&events, 0);
    let startup = startup_at(&events, 6);
    let final_mp_state = mp_state_at(&events, 17);
    let ap_completion_rflags = rflags_at(&events, 18);
    let shared_marker = byte_at(&events, 20);
    let regs = long_mode_at(&events, 19);
    let ready_rflags = rflags_at(&events, 10);
    let idt = idt_at(&events, 11);
    let mut first_io_exits: Vec<PortIoExit> = Vec::new();
    first_io_exits.push(take_io(&mut events, 1));
    first_io_exits.push(take_io(&mut events, 3));
    first_io_exits.push(take_io(&mut events, 4));
    first_io_exits.push(take_io(&mut events, 5));
    first_io_exits.push(take_io(&mut events, 12));
    first_io_exits.push(take_io(&mut events, 21));
    first_io_exits.push(take_io(&mut events, 22));
    let mut second_io_exits: Vec<PortIoExit> = Vec::new();
    second_io_exits.push(take_io(&mut events, 7));
    second_io_exits.push(take_io(&mut events, 8));
    second_io_exits.push(take_io(&mut events, 9));
    second_io_exits.push(take_io(&mut events, 14));
    second_io_exits.push(take_io(&mut events, 15));
    second_io_exits.push(take_io(&mut events, 16));
    proof {
        assert(first_io_exits@ =~= seq![io_of(o[1]), io_of(o[3]), io_of(o[4]), io_of(o[5]), io_of(o[12]), io_of(o[21]), io_of(o[22])]);
        assert(second_io_exits@ =~= seq![io_of(o[7]), io_of(o[8]), io_of(o[9]), io_of(o[14]), io_of(o[15]), io_of(o[16])]);
    }
    TwoVcpuApIpiResult {
        first_io_exits,
        second_io_exits,
        first_proof,
        second_proof,
        initial_mp_state,
        startup_mp_state: startup.mp_state,
        startup_rip: startup.rip,
        startup_cs_selector: startup.cs_selector,
        startup_cs_base: startup.cs_base,
        startup_cr0: startup.cr0,
        final_mp_state,
        ap_completion_rflags,
        shared_marker,
        long_mode: ApLongModeState {
            rsp: regs.rsp,
            cs_selector: regs.cs_selector,
            cs_long: regs.cs_long,
            ss_selector: regs.ss_selector,
            gdt_base: regs.gdt_base,
            gdt_limit: regs.gdt_limit,
            cr0: regs.cr0,
            cr3: regs.cr3,
            cr4: regs.cr4,
            efer: regs.efer,
        },
        interrupt: ApIpiState { ready_rflags, idt_base: idt.0, idt_limit: idt.1 },
    }
}

} // verus!
