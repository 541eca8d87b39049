//! A TLB shootdown: the first vCPU remaps a page, interrupts the second, and the second must observe the new
//! mapping after invalidating.
use crate::vcpu::{PortIoExit};
use crate::portio::scenario::{
    byte_at, byte_of, carries_io, idt_at, idt_of, io_of, long_mode_at, long_mode_of, mp_state_at, mp_state_of, qword_at,
    qword_of, rflags_at, rflags_of, run_consistent, spec_accepts, startup_at, startup_of, take_io,
    scenario_start, spec_expected_output, spec_next_action, spec_scenario_start, HostOperation, ScenarioAction, ScenarioRun, Stage, StageCheck,
};
use crate::portio::two_vcpu_init_sipi_fixture::LONG_MODE_INTERRUPT_IDT_ADDR;
use vstd::prelude::*;

verus! {

pub const RAM_BASE: u64 = 0;
pub const BSP_ENTRY: u64 = 0x1_0000;
pub const BSP_STACK: u64 = 0x1f_f000;
pub const AP_TRAMPOLINE: u64 = 0x8000;
pub const AP_LONG_MODE_GDTR: u64 = 0x7020;
pub const AP_TLB_IDTR: u64 = 0x7040;
pub const SHOOTDOWN_ACK: u64 = 0x9000;
pub const KVM_MP_STATE_RUNNABLE: u32 = 0;
pub const KVM_MP_STATE_UNINITIALIZED: u32 = 1;
pub const SIPI_CS_SELECTOR: u16 = 0x0800;
pub const SIPI_CS_BASE: u64 = 0x8000;
pub const X86_CR0_PROTECTED_MODE_ENABLE: u64 = 1;
pub const X86_RFLAGS_RESERVED_BIT: u64 = 1 << 1;
pub const X86_RFLAGS_INTERRUPT_ENABLE: u64 = 1 << 9;
pub const PAGE_TABLE_ENTRY_FLAGS: u64 = 0x3;
pub const PAGE_TABLE_ENTRY_ACCESSED: u64 = 1 << 5;
pub const PAGE_TABLE_ENTRY_DIRTY: u64 = 1 << 6;
pub const TLB_TARGET_VIRTUAL_PAGE: u64 = 0x50_1000;
pub const TLB_TARGET_PTE: u64 = 0x4808;
pub const TLB_PAGE_A: u64 = 0x1_8000;
pub const TLB_PAGE_B: u64 = 0x1_9000;
pub const TLB_PAGE_A_VALUE: u8 = 0x41;
pub const TLB_PAGE_B_VALUE: u8 = 0x42;
pub const TLB_SHOOTDOWN_VECTOR: u8 = 0x54;
pub const TLB_SHOOTDOWN_HANDLER: u64 = 0x1_4000;
pub const TLB_SHOOTDOWN_IDT_LIMIT: u16 = 0x054f;
pub const TLB_FINAL_PTE: u64 = 0x1_9000 | PAGE_TABLE_ENTRY_FLAGS | PAGE_TABLE_ENTRY_ACCESSED;
pub const BSP_TLB_PROOF: [u8; 8] = [0x30, 0x49, 0x44, 0x53, 0x50, 0x58, 0x41, 0x44];
pub const AP_TLB_PROOF: [u8; 6] = [0x41, 0x4c, 0x52, 0x49, 0x42, 0x44];
pub const AP_LONG_MODE_GDT_BYTES: [u8; 24] = [ 0x00, 0x00, 0x00, 0x00, 0x00, 0x00, 0x00, 0x00, 0xff, 0xff, 0x00, 0x00, 0x00, 0x9a, 0xaf, 0x00, 0xff, 0xff, 0x00, 0x00, 0x00, 0x92, 0xcf, 0x00, ];
pub const AP_LONG_MODE_GDTR_BYTES: [u8; 6] = [0x17, 0x00, 0x00, 0x70, 0x00, 0x00];
pub const AP_TLB_IDTR_BYTES: [u8; 10] = [0x4f, 0x05, 0x00, 0x60, 0x00, 0x00, 0x00, 0x00, 0x00, 0x00];
pub const BSP_GUEST_BYTES: [u8; 171] = [ 0xfa, 0x48, 0xbb, 0x00, 0x00, 0x50, 0x00, 0x00, 0x00, 0x00, 0x00, 0xb0, 0x30, 0xe6, 0xe9, 0xc7, 0x83, 0x10, 0x03, 0x00, 0x00, 0x00, 0x00, 0x00, 0x01, 0xc7, 0x83, 0x00, 0x03, 0x00, 0x00, 0x00, 0xc5, 0x00, 0x00, 0xb0, 0x49, 0xe6, 0xe9, 0xc7, 0x83, 0x00, 0x03, 0x00, 0x00, 0x00, 0x85, 0x00, 0x00, 0xb0, 0x44, 0xe6, 0xe9, 0xc7, 0x83, 0x00, 0x03, 0x00, 0x00, 0x08, 0x06, 0x00, 0x00, 0xb0, 0x53, 0xe6, 0xe9, 0x48, 0xb9, 0x08, 0x48, 0x00, 0x00, 0x00, 0x00, 0x00, 0x00, 0x48, 0xb8, 0x03, 0x90, 0x01, 0x00, 0x00, 0x00, 0x00, 0x00, 0x48, 0x89, 0x01, 0x0f, 0xae, 0xf0, 0xb0, 0x50, 0xe6, 0xe9, 0xc7, 0x83, 0x10, 0x03, 0x00, 0x00, 0x00, 0x00, 0x00, 0x01, 0xc7, 0x83, 0x00, 0x03, 0x00, 0x00, 0x54, 0x00, 0x00, 0x00, 0xb0, 0x58, 0xe6, 0xe9, 0x48, 0xbe, 0x00, 0x90, 0x00, 0x00, 0x00, 0x00, 0x00, 0x00, 0xba, 0x00, 0x00, 0x00, 0x08, 0x80, 0x3e, 0x01, 0x74, 0x08, 0xf3, 0x90, 0xff, 0xca, 0x75, 0xf5, 0xeb, 0x11, 0x31, 0xc0, 0x86, 0x06, 0x3c, 0x01, 0x75, 0x09, 0xb0, 0x41, 0xe6, 0xe9, 0xb0, 0x44, 0xe6, 0xe9, 0xf4, 0xb0, 0x46, 0xe6, 0xe9, 0xf4, ];
pub const AP_GUEST_BYTES: [u8; 161] = [ 0xfa, 0x31, 0xc0, 0x8e, 0xd8, 0x8e, 0xc0, 0x8e, 0xd0, 0xb0, 0x41, 0xe6, 0xe9, 0x0f, 0x01, 0x16, 0x20, 0x70, 0x0f, 0x20, 0xe0, 0x66, 0x83, 0xc8, 0x20, 0x0f, 0x22, 0xe0, 0x66, 0xb8, 0x00, 0x10, 0x00, 0x00, 0x0f, 0x22, 0xd8, 0x66, 0xb9, 0x80, 0x00, 0x00, 0xc0, 0x0f, 0x32, 0x66, 0x0d, 0x00, 0x01, 0x00, 0x00, 0x0f, 0x30, 0x0f, 0x20, 0xc0, 0x66, 0x0d, 0x01, 0x00, 0x00, 0x80, 0x0f, 0x22, 0xc0, 0x66, 0xea, 0x49, 0x80, 0x00, 0x00, 0x08, 0x00, 0x66, 0xb8, 0x10, 0x00, 0x8e, 0xd0, 0x8e, 0xd8, 0x8e, 0xc0, 0x48, 0xc7, 0xc4, 0x00, 0xf0, 0x1e, 0x00, 0xb0, 0x4c, 0xe6, 0xe9, 0x48, 0xc7, 0xc3, 0x00, 0x00, 0x50, 0x00, 0xc7, 0x83, 0xf0, 0x00, 0x00, 0x00, 0xff, 0x01, 0x00, 0x00, 0x0f, 0x01, 0x1c, 0x25, 0x40, 0x70, 0x00, 0x00, 0x48, 0xbe, 0x00, 0x10, 0x50, 0x00, 0x00, 0x00, 0x00, 0x00, 0x8a, 0x06, 0x3c, 0x41, 0x75, 0x15, 0xb0, 0x52, 0xe6, 0xe9, 0xfb, 0xf4, 0x8a, 0x06, 0x3c, 0x42, 0x75, 0x09, 0xb0, 0x42, 0xe6, 0xe9, 0xb0, 0x44, 0xe6, 0xe9, 0xf4, 0xb0, 0x46, 0xe6, 0xe9, 0xf4, ];
pub const AP_HANDLER_BYTES: [u8; 32] = [ 0x0f, 0x01, 0x3e, 0x48, 0xb9, 0x00, 0x90, 0x00, 0x00, 0x00, 0x00, 0x00, 0x00, 0xc6, 0x01, 0x01, 0xb0, 0x49, 0xe6, 0xe9, 0xc7, 0x83, 0xb0, 0x00, 0x00, 0x00, 0x00, 0x00, 0x00, 0x00, 0x48, 0xcf, ];

#[derive(Debug, Clone, Copy, PartialEq, Eq)]
pub struct TlbShootdownState {
    pub initial_ap_mp_state: u32,
    pub startup_rip: u64,
    pub startup_cs_selector: u16,
    pub startup_cs_base: u64,
    pub ready_rflags: u64,
    pub completion_rflags: u64,
    pub rsp: u64,
    pub cs_selector: u16,
    pub cs_long: u8,
    pub ss_selector: u16,
    pub gdt_base: u64,
    pub gdt_limit: u16,
    pub idt_base: u64,
    pub idt_limit: u16,
    pub cr0: u64,
    pub cr3: u64,
    pub cr4: u64,
    pub efer: u64,
}

impl TlbShootdownState {
    pub fn initial_ap_mp_state(self) -> (r: u32)
        ensures r == self.initial_ap_mp_state,
    {
        self.initial_ap_mp_state
    }

    pub fn startup_rip(self) -> (r: u64)
        ensures r == self.startup_rip,
    {
        self.startup_rip
    }

    pub fn startup_cs_selector(self) -> (r: u16)
        ensures r == self.startup_cs_selector,
    {
        self.startup_cs_selector
    }

    pub fn startup_cs_base(self) -> (r: u64)
        ensures r == self.startup_cs_base,
    {
        self.startup_cs_base
    }

    pub fn ready_rflags(self) -> (r: u64)
        ensures r == self.ready_rflags,
    {
        self.ready_rflags
    }

    pub fn completion_rflags(self) -> (r: u64)
        ensures r == self.completion_rflags,
    {
        self.completion_rflags
    }

    pub fn rsp(self) -> (r: u64)
        ensures r == self.rsp,
    {
        self.rsp
    }

    pub fn cs_selector(self) -> (r: u16)
        ensures r == self.cs_selector,
    {
        self.cs_selector
    }

    pub fn cs_long(self) -> (r: u8)
        ensures r == self.cs_long,
    {
        self.cs_long
    }

    pub fn ss_selector(self) -> (r: u16)
        ensures r == self.ss_selector,
    {
        self.ss_selector
    }

    pub fn gdt_base(self) -> (r: u64)
        ensures r == self.gdt_base,
    {
        self.gdt_base
    }

    pub fn gdt_limit(self) -> (r: u16)
        ensures r == self.gdt_limit,
    {
        self.gdt_limit
    }

    pub fn idt_base(self) -> (r: u64)
        ensures r == self.idt_base,
    {
        self.idt_base
    }

    pub fn idt_limit(self) -> (r: u16)
        ensures r == self.idt_limit,
    {
        self.idt_limit
    }

    pub fn cr0(self) -> (r: u64)
        ensures r == self.cr0,
    {
        self.cr0
    }

    pub fn cr3(self) -> (r: u64)
        ensures r == self.cr3,
    {
        self.cr3
    }

    pub fn cr4(self) -> (r: u64)
        ensures r == self.cr4,
    {
        self.cr4
    }

    pub fn efer(self) -> (r: u64)
        ensures r == self.efer,
    {
        self.efer
    }
}

#[derive(Debug, Clone, PartialEq, Eq)]
pub struct TwoVcpuTlbShootdownResult {
    pub bsp_io_exits: Vec<PortIoExit>,
    pub ap_io_exits: Vec<PortIoExit>,
    pub bsp_proof: Vec<u8>,
    pub ap_proof: Vec<u8>,
    pub state: TlbShootdownState,
    pub final_pte: u64,
    pub final_ack: u8,
    pub page_a: u8,
    pub page_b: u8,
}

impl TwoVcpuTlbShootdownResult {
    pub fn bsp_io_exits(&self) -> (r: &[PortIoExit])
        ensures r@ == self.bsp_io_exits@,
    {
        self.bsp_io_exits.as_slice()
    }

    pub fn ap_io_exits(&self) -> (r: &[PortIoExit])
        ensures r@ == self.ap_io_exits@,
    {
        self.ap_io_exits.as_slice()
    }

    pub fn bsp_proof(&self) -> (r: &[u8])
        ensures r@ == self.bsp_proof@,
    {
        self.bsp_proof.as_slice()
    }

    pub fn ap_proof(&self) -> (r: &[u8])
        ensures r@ == self.ap_proof@,
    {
        self.ap_proof.as_slice()
    }

    pub fn state(&self) -> (r: TlbShootdownState)
        ensures r == self.state,
    {
        self.state
    }

    pub fn final_pte(&self) -> (r: u64)
        ensures r == self.final_pte,
    {
        self.final_pte
    }

    pub fn final_ack(&self) -> (r: u8)
        ensures r == self.final_ack,
    {
        self.final_ack
    }

    pub fn page_a(&self) -> (r: u8)
        ensures r == self.page_a,
    {
        self.page_a
    }

    pub fn page_b(&self) -> (r: u8)
        ensures r == self.page_b,
    {
        self.page_b
    }
}


/// The stages of the TLB-shootdown scenario: INIT/SIPI start, alias priming, the PTE change and shootdown IPI, and the final memory.
pub open spec fn spec_tlb_shootdown_script() -> Seq<Stage> {
    seq![
        Stage { vcpu: 1, check: StageCheck::MpState(KVM_MP_STATE_UNINITIALIZED), name: "initial AP MP state", vm_error: false },
        Stage { vcpu: 0, check: StageCheck::DebugOutput(0x30), name: "pre-INIT", vm_error: false },
        Stage { vcpu: 0, check: StageCheck::DebugOutput(0x49), name: "INIT assert", vm_error: false },
        Stage { vcpu: 0, check: StageCheck::DebugOutput(0x44), name: "INIT deassert", vm_error: false },
        Stage { vcpu: 0, check: StageCheck::DebugOutput(0x53), name: "SIPI", vm_error: false },
        Stage { vcpu: 1, check: StageCheck::SipiStartup, name: "AP SIPI startup", vm_error: false },
        Stage { vcpu: 1, check: StageCheck::DebugOutput(0x41), name: "AP startup", vm_error: false },
        Stage { vcpu: 1, check: StageCheck::DebugOutput(0x4c), name: "AP long-mode entry", vm_error: false },
        Stage { vcpu: 1, check: StageCheck::DebugOutput(0x52), name: "AP alias prime", vm_error: false },
        Stage { vcpu: 1, check: StageCheck::InterruptsDisabled, name: "AP TLB ready state", vm_error: false },
        Stage { vcpu: 1, check: StageCheck::Idt { base: LONG_MODE_INTERRUPT_IDT_ADDR, limit: TLB_SHOOTDOWN_IDT_LIMIT }, name: "AP TLB ready IDT", vm_error: false },
        Stage { vcpu: 0, check: StageCheck::DebugOutput(0x50), name: "shared PTE mutation", vm_error: false },
        Stage { vcpu: 0, check: StageCheck::DebugOutput(0x58), name: "shootdown IPI", vm_error: false },
        Stage { vcpu: 1, check: StageCheck::DebugOutput(0x49), name: "AP shootdown handler", vm_error: false },
        Stage { vcpu: 1, check: StageCheck::DebugOutput(0x42), name: "AP post-shootdown alias read", vm_error: false },
        Stage { vcpu: 1, check: StageCheck::DebugOutput(0x44), name: "AP completion", vm_error: false },
        Stage { vcpu: 1, check: StageCheck::InterruptsEnabled, name: "AP TLB completion state", vm_error: false },
        Stage { vcpu: 0, check: StageCheck::DebugOutput(0x41), name: "shootdown acknowledgement", vm_error: false },
        Stage { vcpu: 0, check: StageCheck::DebugOutput(0x44), name: "BSP completion", vm_error: false },
        Stage { vcpu: 1, check: StageCheck::LongMode, name: "AP post-shootdown long-mode state", vm_error: false },
        Stage { vcpu: 0, check: StageCheck::GuestQword { address: TLB_TARGET_PTE, expected: TLB_FINAL_PTE }, name: "TLB-shootdown final memory", vm_error: false },
        Stage { vcpu: 0, check: StageCheck::GuestByte { address: SHOOTDOWN_ACK, expected: 0 }, name: "TLB-shootdown final memory", vm_error: false },
        Stage { vcpu: 0, check: StageCheck::GuestByte { address: TLB_PAGE_A, expected: TLB_PAGE_A_VALUE }, name: "TLB-shootdown final memory", vm_error: false },
        Stage { vcpu: 0, check: StageCheck::GuestByte { address: TLB_PAGE_B, expected: TLB_PAGE_B_VALUE }, name: "TLB-shootdown final memory", vm_error: false },
    ]
}

pub fn tlb_shootdown_script() -> (r: Vec<Stage>)
    ensures r@ == spec_tlb_shootdown_script(),
{
    let mut v: Vec<Stage> = Vec::new();
    v.push(Stage { vcpu: 1, check: StageCheck::MpState(KVM_MP_STATE_UNINITIALIZED), name: "initial AP MP state", vm_error: false });
    v.push(Stage { vcpu: 0, check: StageCheck::DebugOutput(0x30), name: "pre-INIT", vm_error: false });
    v.push(Stage { vcpu: 0, check: StageCheck::DebugOutput(0x49), name: "INIT assert", vm_error: false });
    v.push(Stage { vcpu: 0, check: StageCheck::DebugOutput(0x44), name: "INIT deassert", vm_error: false });
    v.push(Stage { vcpu: 0, check: StageCheck::DebugOutput(0x53), name: "SIPI", vm_error: false });
    v.push(Stage { vcpu: 1, check: StageCheck::SipiStartup, name: "AP SIPI startup", vm_error: false });
    v.push(Stage { vcpu: 1, check: StageCheck::DebugOutput(0x41), name: "AP startup", vm_error: false });
    v.push(Stage { vcpu: 1, check: StageCheck::DebugOutput(0x4c), name: "AP long-mode entry", vm_error: false });
    v.push(Stage { vcpu: 1, check: StageCheck::DebugOutput(0x52), name: "AP alias prime", vm_error: false });
    v.push(Stage { vcpu: 1, check: StageCheck::InterruptsDisabled, name: "AP TLB ready state", vm_error: false });
    v.push(Stage { vcpu: 1, check: StageCheck::Idt { base: LONG_MODE_INTERRUPT_IDT_ADDR, limit: TLB_SHOOTDOWN_IDT_LIMIT }, name: "AP TLB ready IDT", vm_error: false });
    v.push(Stage { vcpu: 0, check: StageCheck::DebugOutput(0x50), name: "shared PTE mutation", vm_error: false });
    v.push(Stage { vcpu: 0, check: StageCheck::DebugOutput(0x58), name: "shootdown IPI", vm_error: false });
    v.push(Stage { vcpu: 1, check: StageCheck::DebugOutput(0x49), name: "AP shootdown handler", vm_error: false });
    v.push(Stage { vcpu: 1, check: StageCheck::DebugOutput(0x42), name: "AP post-shootdown alias read", vm_error: false });
    v.push(Stage { vcpu: 1, check: StageCheck::DebugOutput(0x44), name: "AP completion", vm_error: false });
    v.push(Stage { vcpu: 1, check: StageCheck::InterruptsEnabled, name: "AP TLB completion state", vm_error: false });
    v.push(Stage { vcpu: 0, check: StageCheck::DebugOutput(0x41), name: "shootdown acknowledgement", vm_error: false });
    v.push(Stage { vcpu: 0, check: StageCheck::DebugOutput(0x44), name: "BSP completion", vm_error: false });
    v.push(Stage { vcpu: 1, check: StageCheck::LongMode, name: "AP post-shootdown long-mode state", vm_error: false });
    v.push(Stage { vcpu: 0, check: StageCheck::GuestQword { address: TLB_TARGET_PTE, expected: TLB_FINAL_PTE }, name: "TLB-shootdown final memory", vm_error: false });
    v.push(Stage { vcpu: 0, check: StageCheck::GuestByte { address: SHOOTDOWN_ACK, expected: 0 }, name: "TLB-shootdown final memory", vm_error: false });
    v.push(Stage { vcpu: 0, check: StageCheck::GuestByte { address: TLB_PAGE_A, expected: TLB_PAGE_A_VALUE }, name: "TLB-shootdown final memory", vm_error: false });
    v.push(Stage { vcpu: 0, check: StageCheck::GuestByte { address: TLB_PAGE_B, expected: TLB_PAGE_B_VALUE }, name: "TLB-shootdown final memory", vm_error: false });
    proof {
        assert(v@ =~= spec_tlb_shootdown_script());
    }
    v
}

/// Starts a run of the TLB-shootdown scenario; the action asks for the first stage.
pub fn tlb_shootdown_start() -> (r: (ScenarioRun, ScenarioAction))
    ensures
        r.0@ == spec_scenario_start(spec_tlb_shootdown_script()),
        r.1 == spec_next_action(r.0@),
{
    scenario_start(tlb_shootdown_script())
}


/// A TLB-shootdown run that observed every stage made the bootstrap processor print "0IDSPXAD" and the application processor "ALRIBD".
pub proof fn lemma_tlb_shootdown_outputs()
    ensures
        spec_expected_output(spec_tlb_shootdown_script(), 0) == BSP_TLB_PROOF@,
        spec_expected_output(spec_tlb_shootdown_script(), 1) == AP_TLB_PROOF@,
{
    reveal_with_fuel(spec_expected_output, 25);
    assert(BSP_TLB_PROOF@ =~= seq![0x30u8, 0x49, 0x44, 0x53, 0x50, 0x58, 0x41, 0x44]);
    assert(spec_expected_output(spec_tlb_shootdown_script(), 0) =~= seq![0x30u8, 0x49, 0x44, 0x53, 0x50, 0x58, 0x41, 0x44]);
    assert(AP_TLB_PROOF@ =~= seq![0x41u8, 0x4c, 0x52, 0x49, 0x42, 0x44]);
    assert(spec_expected_output(spec_tlb_shootdown_script(), 1) =~= seq![0x41u8, 0x4c, 0x52, 0x49, 0x42, 0x44]);
}


/// The result of a TLB-shootdown run that observed every stage: each vCPU's debug-port exits and proof, the application processor's start-up, ready, completion and long-mode state, and the final page-table entry, acknowledgement and page bytes.
pub fn tlb_shootdown_result(run: ScenarioRun) -> (r: TwoVcpuTlbShootdownResult)
    requires
        run@.script == spec_tlb_shootdown_script(),
        run_consistent(run@),
        run@.position == run@.script.len(),
    ensures
        ({
            let o = run@.observations;
            &&& r.bsp_io_exits@ == seq![io_of(o[1]), io_of(o[2]), io_of(o[3]), io_of(o[4]), io_of(o[11]), io_of(o[12]), io_of(o[17]), io_of(o[18])]
            &&& r.bsp_proof@ == BSP_TLB_PROOF@
            &&& r.ap_io_exits@ == seq![io_of(o[6]), io_of(o[7]), io_of(o[8]), io_of(o[13]), io_of(o[14]), io_of(o[15])]
            &&& r.ap_proof@ == AP_TLB_PROOF@
            &&& r.state.initial_ap_mp_state == mp_state_of(o[0])
            &&& r.state.startup_rip == startup_of(o[5]).rip
            &&& r.state.startup_cs_selector == startup_of(o[5]).cs_selector
            &&& r.state.startup_cs_base == startup_of(o[5]).cs_base
            &&& r.state.ready_rflags == rflags_of(o[9])
            &&& r.state.completion_rflags == rflags_of(o[16])
            &&& r.state.rsp == long_mode_of(o[19]).rsp
            &&& r.state.cs_selector == long_mode_of(o[19]).cs_selector
            &&& r.state.cs_long == long_mode_of(o[19]).cs_long
            &&& r.state.ss_selector == long_mode_of(o[19]).ss_selector
            &&& r.state.gdt_base == long_mode_of(o[19]).gdt_base
            &&& r.state.gdt_limit == long_mode_of(o[19]).gdt_limit
            &&& r.state.idt_base == idt_of(o[10]).0
            &&& r.state.idt_limit == idt_of(o[10]).1
            &&& r.state.cr0 == long_mode_of(o[19]).cr0
            &&& r.state.cr3 == long_mode_of(o[19]).cr3
            &&& r.state.cr4 == long_mode_of(o[19]).cr4
            &&& r.state.efer == long_mode_of(o[19]).efer
            &&& r.final_pte == qword_of(o[20])
            &&& r.final_ack == byte_of(o[21])
            &&& r.page_a == byte_of(o[22])
            &&& r.page_b == byte_of(o[23])
        }),
{
    let ghost script = spec_tlb_shootdown_script();
    proof {
        assert(script.take(script.len() as int) =~= script);
        lemma_tlb_shootdown_outputs();
        assert forall|k: int| 0 <= k < script.len() && (script[k].check is DebugOutput)
            implies carries_io(#[trigger] run@.observations[k]) by {
            assert(spec_accepts(script[k].check, run@.observations[k]));
        }
    }
    let bsp_proof = run.debug_output(0);
    let ap_proof = run.debug_output(1);
    let mut events = run.into_observations();
    let ghost o = events@;
    assert(script[1].check is DebugOutput);
    assert(script[2].check is DebugOutput);
    assert(script[3].check is DebugOutput);
    assert(script[4].check is DebugOutput);
    assert(script[6].check is DebugOutput);
    assert(script[7].check is DebugOutput);
    assert(script[8].check is DebugOutput);
    assert(script[11].check is DebugOutput);
    assert(script[12].check is DebugOutput);
    assert(script[13].check is DebugOutput);
    assert(script[14].check is DebugOutput);
    assert(script[15].check is DebugOutput);
    assert(script[17].check is DebugOutput);
    assert(script[18].check is DebugOutput);
    let initial_ap_mp_state = mp_state_at(&events, 0);
    let startup = startup_at(&events, 5);
    let ready_rflags = rflags_at(&events, 9);
    let completion_rflags = rflags_at(&events, 16);
    let regs = long_mode_at(&events, 19);
    let idt = idt_at(&events, 10);
    let final_pte = qword_at(&events, 20);
    let final_ack = byte_at(&events, 21);
    let page_a = byte_at(&events, 22);
    let page_b = byte_at(&events, 23);
    let mut bsp_io_exits: Vec<PortIoExit> = Vec::new();
    bsp_io_exits.push(take_io(&mut events, 1));
    bsp_io_exits.push(take_io(&mut events, 2));
    bsp_io_exits.push(take_io(&mut events, 3));
    bsp_io_exits.push(take_io(&mut events, 4));
    bsp_io_exits.push(take_io(&mut events, 11));
    bsp_io_exits.push(take_io(&mut events, 12));
    bsp_io_exits.push(take_io(&mut events, 17));
    bsp_io_exits.push(take_io(&mut events, 18));
    let mut ap_io_exits: Vec<PortIoExit> = Vec::new();
    ap_io_exits.push(take_io(&mut events, 6));
    ap_io_exits.push(take_io(&mut events, 7));
    ap_io_exits.push(take_io(&mut events, 8));
    ap_io_exits.push(take_io(&mut events, 13));
    ap_io_exits.push(take_io(&mut events, 14));
    ap_io_exits.push(take_io(&mut events, 15));
    proof {
        assert(bsp_io_exits@ =~= seq![io_of(o[1]), io_of(o[2]), io_of(o[3]), io_of(o[4]), io_of(o[11]), io_of(o[12]), io_of(o[17]), io_of(o[18])]);
        assert(ap_io_exits@ =~= seq![io_of(o[6]), io_of(o[7]), io_of(o[8]), io_of(o[13]), io_of(o[14]), io_of(o[15])]);
    }
    TwoVcpuTlbShootdownResult {
        bsp_io_exits,
        ap_io_exits,
        bsp_proof,
        ap_proof,
        state: TlbShootdownState {
            initial_ap_mp_state,
            startup_rip: startup.rip,
            startup_cs_selector: startup.cs_selector,
            startup_cs_base: startup.cs_base,
            ready_rflags,
            completion_rflags,
            rsp: regs.rsp,
            cs_selector: regs.cs_selector,
            cs_long: regs.cs_long,
            ss_selector: regs.ss_selector,
            gdt_base: regs.gdt_base,
            gdt_limit: regs.gdt_limit,
            idt_base: idt.0,
            idt_limit: idt.1,
            cr0: regs.cr0,
            cr3: regs.cr3,
            cr4: regs.cr4,
            efer: regs.efer,
        },
        final_pte,
        final_ack,
        page_a,
        page_b,
    }
}

} // verus!
