//! An application processor started by INIT/SIPI takes a work item through a shared mailbox and an IPI, and
//! reports completion.
use crate::vcpu::{PortIoExit, VmExitReport};
use crate::portio::scenario::{
    byte_at, byte_of, carries_io, idt_at, idt_of, io_of, long_mode_at, long_mode_of, mp_state_at, mp_state_of, rflags_at,
    rflags_of, run_consistent, spec_accepts, startup_at, startup_of, take_io,
    scenario_start, spec_expected_output, spec_next_action, spec_scenario_start, HostOperation, ScenarioAction, ScenarioRun, Stage, StageCheck,
};
use crate::portio::two_vcpu_init_sipi_fixture::{AP_LONG_MODE_IPI_IDT_LIMIT, LONG_MODE_INTERRUPT_IDT_ADDR};
use crate::portio::two_vcpu_work_dispatch_fixture::{WORK_MAILBOX, WORK_PAYLOAD, WORK_RESULT};
use vstd::prelude::*;

verus! {

pub const AP_LONG_MODE_IPI_IDTR_BYTES: [u8; 10] = [0x2f, 0x05, 0x00, 0x60, 0x00, 0x00, 0x00, 0x00, 0x00, 0x00];

pub const RAM_BASE: u64 = 0;
pub const BSP_ENTRY: u64 = 0x1_0000;
pub const BSP_STACK: u64 = 0x1f_f000;
pub const AP_TRAMPOLINE: u64 = 0x8000;
pub const MAILBOX_EXTENT: usize = 0x19;
pub const KVM_MP_STATE_RUNNABLE: u32 = 0;
pub const KVM_MP_STATE_UNINITIALIZED: u32 = 1;
pub const SIPI_CS_SELECTOR: u16 = 0x0800;
pub const SIPI_CS_BASE: u64 = 0x8000;
pub const X86_CR0_PROTECTED_MODE_ENABLE: u64 = 1;
pub const X86_RFLAGS_RESERVED_BIT: u64 = 1 << 1;
pub const X86_RFLAGS_INTERRUPT_ENABLE: u64 = 1 << 9;
pub const BSP_COMPOSED_PROOF: [u8; 8] = [0x30, 0x49, 0x44, 0x53, 0x43, 0x58, 0x56, 0x44];
pub const AP_COMPOSED_PROOF: [u8; 6] = [0x41, 0x4c, 0x52, 0x49, 0x50, 0x44];
pub const BSP_TERMINAL_RIP: u64 = 0x1_009b;
pub const AP_TERMINAL_RIP: u64 = 0x80a6;
pub const AP_LONG_MODE_GDT_BYTES: [u8; 24] = [ 0x00, 0x00, 0x00, 0x00, 0x00, 0x00, 0x00, 0x00, 0xff, 0xff, 0x00, 0x00, 0x00, 0x9a, 0xaf, 0x00, 0xff, 0xff, 0x00, 0x00, 0x00, 0x92, 0xcf, 0x00, ];
pub const AP_LONG_MODE_GDTR_BYTES: [u8; 6] = [0x17, 0x00, 0x00, 0x70, 0x00, 0x00];
pub const BSP_GUEST_BYTES: [u8; 160] = [ 0xfa, 0x48, 0xc7, 0xc3, 0x00, 0x00, 0x50, 0x00, 0xb0, 0x30, 0xe6, 0xe9, 0xc7, 0x83, 0x10, 0x03, 0x00, 0x00, 0x00, 0x00, 0x00, 0x01, 0xc7, 0x83, 0x00, 0x03, 0x00, 0x00, 0x00, 0xc5, 0x00, 0x00, 0xb0, 0x49, 0xe6, 0xe9, 0xc7, 0x83, 0x00, 0x03, 0x00, 0x00, 0x00, 0x85, 0x00, 0x00, 0xb0, 0x44, 0xe6, 0xe9, 0xc7, 0x83, 0x00, 0x03, 0x00, 0x00, 0x08, 0x06, 0x00, 0x00, 0xb0, 0x53, 0xe6, 0xe9, 0x48, 0xc7, 0xc1, 0x00, 0x90, 0x00, 0x00, 0xc6, 0x01, 0x21, 0xb0, 0x01, 0x86, 0x41, 0x08, 0x84, 0xc0, 0x75, 0x48, 0xb0, 0x43, 0xe6, 0xe9, 0xc7, 0x83, 0x10, 0x03, 0x00, 0x00, 0x00, 0x00, 0x00, 0x01, 0xc7, 0x83, 0x00, 0x03, 0x00, 0x00, 0x52, 0x00, 0x00, 0x00, 0xb0, 0x58, 0xe6, 0xe9, 0xba, 0x00, 0x00, 0x00, 0x08, 0x80, 0x79, 0x18, 0x01, 0x74, 0x08, 0xf3, 0x90, 0xff, 0xca, 0x75, 0xf4, 0xeb, 0x19, 0x31, 0xc0, 0x86, 0x41, 0x18, 0x3c, 0x01, 0x75, 0x10, 0x8a, 0x41, 0x10, 0x3c, 0x42, 0x75, 0x09, 0xb0, 0x56, 0xe6, 0xe9, 0xb0, 0x44, 0xe6, 0xe9, 0xf4, 0xb0, 0x46, 0xe6, 0xe9, 0xf4, ];
pub const AP_GUEST_BYTES: [u8; 171] = [ 0xfa, 0x31, 0xc0, 0x8e, 0xd8, 0x8e, 0xc0, 0x8e, 0xd0, 0xb0, 0x41, 0xe6, 0xe9, 0x0f, 0x01, 0x16, 0x20, 0x70, 0x0f, 0x20, 0xe0, 0x66, 0x83, 0xc8, 0x20, 0x0f, 0x22, 0xe0, 0x66, 0xb8, 0x00, 0x10, 0x00, 0x00, 0x0f, 0x22, 0xd8, 0x66, 0xb9, 0x80, 0x00, 0x00, 0xc0, 0x0f, 0x32, 0x66, 0x0d, 0x00, 0x01, 0x00, 0x00, 0x0f, 0x30, 0x0f, 0x20, 0xc0, 0x66, 0x0d, 0x01, 0x00, 0x00, 0x80, 0x0f, 0x22, 0xc0, 0x66, 0xea, 0x49, 0x80, 0x00, 0x00, 0x08, 0x00, 0x66, 0xb8, 0x10, 0x00, 0x8e, 0xd0, 0x8e, 0xd8, 0x8e, 0xc0, 0x48, 0xc7, 0xc4, 0x00, 0xf0, 0x1e, 0x00, 0xb0, 0x4c, 0xe6, 0xe9, 0x48, 0xc7, 0xc3, 0x00, 0x00, 0x50, 0x00, 0xc7, 0x83, 0xf0, 0x00, 0x00, 0x00, 0xff, 0x01, 0x00, 0x00, 0x0f, 0x01, 0x1c, 0x25, 0x40, 0x70, 0x00, 0x00, 0x48, 0xc7, 0xc1, 0x00, 0x90, 0x00, 0x00, 0xb0, 0x52, 0xe6, 0xe9, 0xfb, 0xf4, 0x31, 0xc0, 0x86, 0x41, 0x08, 0x3c, 0x01, 0x75, 0x19, 0x8a, 0x01, 0x00, 0xc0, 0x88, 0x41, 0x10, 0xb0, 0x01, 0x86, 0x41, 0x18, 0x84, 0xc0, 0x75, 0x09, 0xb0, 0x50, 0xe6, 0xe9, 0xb0, 0x44, 0xe6, 0xe9, 0xf4, 0xb0, 0x46, 0xe6, 0xe9, 0xf4, ];
pub const AP_HANDLER_BYTES: [u8; 16] = [ 0xb0, 0x49, 0xe6, 0xe9, 0xc7, 0x83, 0xb0, 0x00, 0x00, 0x00, 0x00, 0x00, 0x00, 0x00, 0x48, 0xcf, ];

#[derive(Debug, Clone, Copy, PartialEq, Eq)]
pub struct ComposedMailboxSnapshot {
    pub payload: u8,
    pub command: u8,
    pub result: u8,
    pub ack: u8,
}

impl ComposedMailboxSnapshot {
    pub fn payload(self) -> (r: u8)
        ensures r == self.payload,
    {
        self.payload
    }

    pub fn command(self) -> (r: u8)
        ensures r == self.command,
    {
        self.command
    }

    pub fn result(self) -> (r: u8)
        ensures r == self.result,
    {
        self.result
    }

    pub fn ack(self) -> (r: u8)
        ensures r == self.ack,
    {
        self.ack
    }
}

#[derive(Debug, Clone, Copy, PartialEq, Eq)]
pub struct ComposedApState {
    pub ready_rflags: u64,
    pub completion_rflags: u64,
    pub startup_mp_state: u32,
    pub startup_rip: u64,
    pub startup_cs_selector: u16,
    pub startup_cs_base: u64,
    pub rsp: u64,
    pub cs_selector: u16,
    pub cs_long: u8,
    pub ss_selector: u16,
    pub gdt_base: u64,
    pub gdt_limit: u16,
    pub idt_base: u64,
    pub idt_limit: u16,
    pub cr0: u64,
    pub cr3: u64,
    pub cr4: u64,
    pub efer: u64,
}

impl ComposedApState {
    pub fn ready_rflags(self) -> (r: u64)
        ensures r == self.ready_rflags,
    {
        self.ready_rflags
    }

    pub fn completion_rflags(self) -> (r: u64)
        ensures r == self.completion_rflags,
    {
        self.completion_rflags
    }

    pub fn startup_mp_state(self) -> (r: u32)
        ensures r == self.startup_mp_state,
    {
        self.startup_mp_state
    }

    pub fn startup_rip(self) -> (r: u64)
        ensures r == self.startup_rip,
    {
        self.startup_rip
    }

    pub fn startup_cs_selector(self) -> (r: u16)
        ensures r == self.startup_cs_selector,
    {
        self.startup_cs_selector
    }

    pub fn startup_cs_base(self) -> (r: u64)
        ensures r == self.startup_cs_base,
    {
        self.startup_cs_base
    }

    pub fn rsp(self) -> (r: u64)
        ensures r == self.rsp,
    {
        self.rsp
    }

    pub fn cs_selector(self) -> (r: u16)
        ensures r == self.cs_selector,
    {
        self.cs_selector
    }

    pub fn cs_long(self) -> (r: u8)
        ensures r == self.cs_long,
    {
        self.cs_long
    }

    pub fn ss_selector(self) -> (r: u16)
        ensures r == self.ss_selector,
    {
        self.ss_selector
    }

    pub fn gdt_base(self) -> (r: u64)
        ensures r == self.gdt_base,
    {
        self.gdt_base
    }

    pub fn gdt_limit(self) -> (r: u16)
        ensures r == self.gdt_limit,
    {
        self.gdt_limit
    }

    pub fn idt_base(self) -> (r: u64)
        ensures r == self.idt_base,
    {
        self.idt_base
    }

    pub fn idt_limit(self) -> (r: u16)
        ensures r == self.idt_limit,
    {
        self.idt_limit
    }

    pub fn cr0(self) -> (r: u64)
        ensures r == self.cr0,
    {
        self.cr0
    }

    pub fn cr3(self) -> (r: u64)
        ensures r == self.cr3,
    {
        self.cr3
    }

    pub fn cr4(self) -> (r: u64)
        ensures r == self.cr4,
    {
        self.cr4
    }

    pub fn efer(self) -> (r: u64)
        ensures r == self.efer,
    {
        self.efer
    }
}

#[derive(Debug, Clone, PartialEq, Eq)]
pub struct SipiIpiWorkDispatchResult {
    pub bsp_io_exits: Vec<PortIoExit>,
    pub ap_io_exits: Vec<PortIoExit>,
    pub bsp_proof: Vec<u8>,
    pub ap_proof: Vec<u8>,
    pub mailbox: ComposedMailboxSnapshot,
    pub initial_ap_mp_state: u32,
    pub ap_state: ComposedApState,
    pub bsp_report: VmExitReport,
    pub ap_report: VmExitReport,
}

impl SipiIpiWorkDispatchResult {
    pub fn bsp_io_exits(&self) -> (r: &[PortIoExit])
        ensures r@ == self.bsp_io_exits@,
    {
        self.bsp_io_exits.as_slice()
    }

    pub fn ap_io_exits(&self) -> (r: &[PortIoExit])
        ensures r@ == self.ap_io_exits@,
    {
        self.ap_io_exits.as_slice()
    }

    pub fn bsp_proof(&self) -> (r: &[u8])
        ensures r@ == self.bsp_proof@,
    {
        self.bsp_proof.as_slice()
    }

    pub fn ap_proof(&self) -> (r: &[u8])
        ensures r@ == self.ap_proof@,
    {
        self.ap_proof.as_slice()
    }

    pub fn mailbox(&self) -> (r: ComposedMailboxSnapshot)
        ensures r == self.mailbox,
    {
        self.mailbox
    }

    pub fn initial_ap_mp_state(&self) -> (r: u32)
        ensures r == self.initial_ap_mp_state,
    {
        self.initial_ap_mp_state
    }

    pub fn ap_state(&self) -> (r: ComposedApState)
        ensures r == self.ap_state,
    {
        self.ap_state
    }

    pub fn bsp_report(&self) -> (r: VmExitReport)
        ensures r == self.bsp_report,
    {
        self.bsp_report
    }

    pub fn ap_report(&self) -> (r: VmExitReport)
        ensures r == self.ap_report,
    {
        self.ap_report
    }
}


/// The stages of the composed scenario: INIT/SIPI start, long-mode entry, a work-notification IPI, and the mailbox handshake.
pub open spec fn spec_sipi_ipi_work_dispatch_script() -> Seq<Stage> {
    seq![
        Stage { vcpu: 1, check: StageCheck::MpState(KVM_MP_STATE_UNINITIALIZED), name: "composed initial AP MP state", vm_error: false },
        Stage { vcpu: 0, check: StageCheck::DebugOutput(0x30), name: "composed BSP pre-INIT barrier", vm_error: false },
        Stage { vcpu: 0, check: StageCheck::DebugOutput(0x49), name: "composed BSP INIT-assert barrier", vm_error: false },
        Stage { vcpu: 0, check: StageCheck::DebugOutput(0x44), name: "composed BSP INIT-deassert barrier", vm_error: false },
        Stage { vcpu: 0, check: StageCheck::DebugOutput(0x53), name: "composed BSP SIPI barrier", vm_error: false },
        Stage { vcpu: 0, check: StageCheck::InterruptsDisabled, name: "composed BSP post-SIPI state", vm_error: false },
        Stage { vcpu: 1, check: StageCheck::SipiStartup, name: "composed AP SIPI startup state", vm_error: false },
        Stage { vcpu: 1, check: StageCheck::DebugOutput(0x41), name: "composed AP real-mode startup", vm_error: false },
        Stage { vcpu: 1, check: StageCheck::DebugOutput(0x4c), name: "composed AP 64-bit entry", vm_error: false },
        Stage { vcpu: 1, check: StageCheck::DebugOutput(0x52), name: "composed AP work-IPI readiness", vm_error: false },
        Stage { vcpu: 1, check: StageCheck::InterruptsDisabled, name: "composed AP readiness state", vm_error: false },
        Stage { vcpu: 1, check: StageCheck::Idt { base: LONG_MODE_INTERRUPT_IDT_ADDR, limit: AP_LONG_MODE_IPI_IDT_LIMIT }, name: "composed AP readiness IDT", vm_error: false },
        Stage { vcpu: 0, check: StageCheck::DebugOutput(0x43), name: "composed BSP command publication", vm_error: false },
        Stage { vcpu: 0, check: StageCheck::DebugOutput(0x58), name: "composed BSP work-notification IPI", vm_error: false },
        Stage { vcpu: 1, check: StageCheck::DebugOutput(0x49), name: "composed AP work-notification IPI handler", vm_error: false },
        Stage { vcpu: 1, check: StageCheck::DebugOutput(0x50), name: "composed AP result/ack publication", vm_error: false },
        Stage { vcpu: 1, check: StageCheck::DebugOutput(0x44), name: "composed AP completion barrier", vm_error: false },
        Stage { vcpu: 1, check: StageCheck::InterruptsEnabled, name: "composed AP completion state", vm_error: false },
        Stage { vcpu: 1, check: StageCheck::Halt, name: "composed AP terminal halt", vm_error: false },
        Stage { vcpu: 1, check: StageCheck::LongMode, name: "composed AP guest-owned long-mode state", vm_error: false },
        Stage { vcpu: 0, check: StageCheck::DebugOutput(0x56), name: "composed BSP result validation", vm_error: false },
        Stage { vcpu: 0, check: StageCheck::DebugOutput(0x44), name: "composed BSP completion barrier", vm_error: false },
        Stage { vcpu: 0, check: StageCheck::Halt, name: "composed BSP terminal halt", vm_error: false },
        Stage { vcpu: 0, check: StageCheck::GuestByte { address: WORK_MAILBOX, expected: WORK_PAYLOAD }, name: "composed mailbox completion", vm_error: false },
        Stage { vcpu: 0, check: StageCheck::GuestByte { address: 0x9008, expected: 0 }, name: "composed mailbox completion", vm_error: false },
        Stage { vcpu: 0, check: StageCheck::GuestByte { address: 0x9010, expected: WORK_RESULT }, name: "composed mailbox completion", vm_error: false },
        Stage { vcpu: 0, check: StageCheck::GuestByte { address: 0x9018, expected: 0 }, name: "composed mailbox completion", vm_error: false },
    ]
}

pub fn sipi_ipi_work_dispatch_script() -> (r: Vec<Stage>)
    ensures r@ == spec_sipi_ipi_work_dispatch_script(),
{
    let mut v: Vec<Stage> = Vec::new();
    v.push(Stage { vcpu: 1, check: StageCheck::MpState(KVM_MP_STATE_UNINITIALIZED), name: "composed initial AP MP state", vm_error: false });
    v.push(Stage { vcpu: 0, check: StageCheck::DebugOutput(0x30), name: "composed BSP pre-INIT barrier", vm_error: false });
    v.push(Stage { vcpu: 0, check: StageCheck::DebugOutput(0x49), name: "composed BSP INIT-assert barrier", vm_error: false });
    v.push(Stage { vcpu: 0, check: StageCheck::DebugOutput(0x44), name: "composed BSP INIT-deassert barrier", vm_error: false });
    v.push(Stage { vcpu: 0, check: StageCheck::DebugOutput(0x53), name: "composed BSP SIPI barrier", vm_error: false });
    v.push(Stage { vcpu: 0, check: StageCheck::InterruptsDisabled, name: "composed BSP post-SIPI state", vm_error: false });
    v.push(Stage { vcpu: 1, check: StageCheck::SipiStartup, name: "composed AP SIPI startup state", vm_error: false });
    v.push(Stage { vcpu: 1, check: StageCheck::DebugOutput(0x41), name: "composed AP real-mode startup", vm_error: false });
    v.push(Stage { vcpu: 1, check: StageCheck::DebugOutput(0x4c), name: "composed AP 64-bit entry", vm_error: false });
    v.push(Stage { vcpu: 1, check: StageCheck::DebugOutput(0x52), name: "composed AP work-IPI readiness", vm_error: false });
    v.push(Stage { vcpu: 1, check: StageCheck::InterruptsDisabled, name: "composed AP readiness state", vm_error: false });
    v.push(Stage { vcpu: 1, check: StageCheck::Idt { base: LONG_MODE_INTERRUPT_IDT_ADDR, limit: AP_LONG_MODE_IPI_IDT_LIMIT }, name: "composed AP readiness IDT", vm_error: false });
    v.push(Stage { vcpu: 0, check: StageCheck::DebugOutput(0x43), name: "composed BSP command publication", vm_error: false });
    v.push(Stage { vcpu: 0, check: StageCheck::DebugOutput(0x58), name: "composed BSP work-notification IPI", vm_error: false });
    v.push(Stage { vcpu: 1, check: StageCheck::DebugOutput(0x49), name: "composed AP work-notification IPI handler", vm_error: false });
    v.push(Stage { vcpu: 1, check: StageCheck::DebugOutput(0x50), name: "composed AP result/ack publication", vm_error: false });
    v.push(Stage { vcpu: 1, check: StageCheck::DebugOutput(0x44), name: "composed AP completion barrier", vm_error: false });
    v.push(Stage { vcpu: 1, check: StageCheck::InterruptsEnabled, name: "composed AP completion state", vm_error: false });
    v.push(Stage { vcpu: 1, check: StageCheck::Halt, name: "composed AP terminal halt", vm_error: false });
    v.push(Stage { vcpu: 1, check: StageCheck::LongMode, name: "composed AP guest-owned long-mode state", vm_error: false });
    v.push(Stage { vcpu: 0, check: StageCheck::DebugOutput(0x56), name: "composed BSP result validation", vm_error: false });
    v.push(Stage { vcpu: 0, check: StageCheck::DebugOutput(0x44), name: "composed BSP completion barrier", vm_error: false });
    v.push(Stage { vcpu: 0, check: StageCheck::Halt, name: "composed BSP terminal halt", vm_error: false });
    v.push(Stage { vcpu: 0, check: StageCheck::GuestByte { address: WORK_MAILBOX, expected: WORK_PAYLOAD }, name: "composed mailbox completion", vm_error: false });
    v.push(Stage { vcpu: 0, check: StageCheck::GuestByte { address: 0x9008, expected: 0 }, name: "composed mailbox completion", vm_error: false });
    v.push(Stage { vcpu: 0, check: StageCheck::GuestByte { address: 0x9010, expected: WORK_RESULT }, name: "composed mailbox completion", vm_error: false });
    v.push(Stage { vcpu: 0, check: StageCheck::GuestByte { address: 0x9018, expected: 0 }, name: "composed mailbox completion", vm_error: false });
    proof {
        assert(v@ =~= spec_sipi_ipi_work_dispatch_script());
    }
    v
}

/// Starts a run of the composed SIPI, IPI and work-dispatch scenario; the action asks for the first stage.
pub fn sipi_ipi_work_dispatch_start() -> (r: (ScenarioRun, ScenarioAction))
    ensures
        r.0@ == spec_scenario_start(spec_sipi_ipi_work_dispatch_script()),
        r.1 == spec_next_action(r.0@),
{
    scenario_start(sipi_ipi_work_dispatch_script())
}


/// A composed run that observed every stage made the bootstrap processor print "0IDSCXVD" and the application processor "ALRIPD".
pub proof fn lemma_sipi_ipi_work_dispatch_outputs()
    ensures
        spec_expected_output(spec_sipi_ipi_work_dispatch_script(), 0) == BSP_COMPOSED_PROOF@,
        spec_expected_output(spec_sipi_ipi_work_dispatch_script(), 1) == AP_COMPOSED_PROOF@,
{
    reveal_with_fuel(spec_expected_output, 28);
    assert(BSP_COMPOSED_PROOF@ =~= seq![0x30u8, 0x49, 0x44, 0x53, 0x43, 0x58, 0x56, 0x44]);
    assert(spec_expected_output(spec_sipi_ipi_work_dispatch_script(), 0) =~= seq![0x30u8, 0x49, 0x44, 0x53, 0x43, 0x58, 0x56, 0x44]);
    assert(AP_COMPOSED_PROOF@ =~= seq![0x41u8, 0x4c, 0x52, 0x49, 0x50, 0x44]);
    assert(spec_expected_output(spec_sipi_ipi_work_dispatch_script(), 1) =~= seq![0x41u8, 0x4c, 0x52, 0x49, 0x50, 0x44]);
}


/// The result of a composed run that observed every stage, with the reports the host read at each processor's terminal halt: each vCPU's debug-port exits and proof, the mailbox, and the application processor's start-up, ready, completion and long-mode state.
pub fn sipi_ipi_work_dispatch_result(run: ScenarioRun, bsp_report: VmExitReport, ap_report: VmExitReport) -> (r: SipiIpiWorkDispatchResult)
    requires
        run@.script == spec_sipi_ipi_work_dispatch_script(),
        run_consistent(run@),
        run@.position == run@.script.len(),
    ensures
        ({
            let o = run@.observations;
            &&& r.bsp_io_exits@ == seq![io_of(o[1]), io_of(o[2]), io_of(o[3]), io_of(o[4]), io_of(o[12]), io_of(o[13]), io_of(o[20]), io_of(o[21])]
            &&& r.bsp_proof@ == BSP_COMPOSED_PROOF@
            &&& r.ap_io_exits@ == seq![io_of(o[7]), io_of(o[8]), io_of(o[9]), io_of(o[14]), io_of(o[15]), io_of(o[16])]
            &&& r.ap_proof@ == AP_COMPOSED_PROOF@
            &&& r.mailbox.payload == byte_of(o[23])
            &&& r.mailbox.command == byte_of(o[24])
            &&& r.mailbox.result == byte_of(o[25])
            &&& r.mailbox.ack == byte_of(o[26])
            &&& r.initial_ap_mp_state == mp_state_of(o[0])
            &&& r.ap_state.ready_rflags == rflags_of(o[10])
            &&& r.ap_state.completion_rflags == rflags_of(o[17])
            &&& r.ap_state.startup_mp_state == startup_of(o[6]).mp_state
            &&& r.ap_state.startup_rip == startup_of(o[6]).rip
            &&& r.ap_state.startup_cs_selector == startup_of(o[6]).cs_selector
            &&& r.ap_state.startup_cs_base == startup_of(o[6]).cs_base
            &&& r.ap_state.rsp == long_mode_of(o[19]).rsp
            &&& r.ap_state.cs_selector == long_mode_of(o[19]).cs_selector
            &&& r.ap_state.cs_long == long_mode_of(o[19]).cs_long
            &&& r.ap_state.ss_selector == long_mode_of(o[19]).ss_selector
            &&& r.ap_state.gdt_base == long_mode_of(o[19]).gdt_base
            &&& r.ap_state.gdt_limit == long_mode_of(o[19]).gdt_limit
            &&& r.ap_state.idt_base == idt_of(o[11]).0
            &&& r.ap_state.idt_limit == idt_of(o[11]).1
            &&& r.ap_state.cr0 == long_mode_of(o[19]).cr0
            &&& r.ap_state.cr3 == long_mode_of(o[19]).cr3
            &&& r.ap_state.cr4 == long_mode_of(o[19]).cr4
            &&& r.ap_state.efer == long_mode_of(o[19]).efer
            &&& r.bsp_report == bsp_report
            &&& r.ap_report == ap_report
        }),
{
    let ghost script = spec_sipi_ipi_work_dispatch_script();
    proof {
        assert(script.take(script.len() as int) =~= script);
        lemma_sipi_ipi_work_dispatch_outputs();
        assert forall|k: int| 0 <= k < script.len() && (script[k].check is DebugOutput)
            implies carries_io(#[trigger] run@.observations[k]) by {
            assert(spec_accepts(script[k].check, run@.observations[k]));
        }
    }
    let bsp_proof = run.debug_output(0);
    let ap_proof = run.debug_output(1);
    let mut events = run.into_observations();
    let ghost o = events@;
    assert(script[1].check is DebugOutput);
    assert(script[2].check is DebugOutput);
    assert(script[3].check is DebugOutput);
    assert(script[4].check is DebugOutput);
    assert(script[7].check is DebugOutput);
    assert(script[8].check is DebugOutput);
    assert(script[9].check is DebugOutput);
    assert(script[12].check is DebugOutput);
    assert(script[13].check is DebugOutput);
    assert(script[14].check is DebugOutput);
    assert(script[15].check is DebugOutput);
    assert(script[16].check is DebugOutput);
    assert(script[20].check is DebugOutput);
    assert(script[21].check is DebugOutput);
    let payload = byte_at(&events, 23);
    let command = byte_at(&events, 24);
    let result = byte_at(&events, 25);
    let ack = byte_at(&events, 26);
    let initial_ap_mp_state = mp_state_at(&events, 0);
    let startup = startup_at(&events, 6);
    let ready_rflags = rflags_at(&events, 10);
    let completion_rflags = rflags_at(&events, 17);
    let regs = long_mode_at(&events, 19);
    let idt = idt_at(&events, 11);
    let mut bsp_io_exits: Vec<PortIoExit> = Vec::new();
    bsp_io_exits.push(take_io(&mut events, 1));
    bsp_io_exits.push(take_io(&mut events, 2));
    bsp_io_exits.push(take_io(&mut events, 3));
    bsp_io_exits.push(take_io(&mut events, 4));
    bsp_io_exits.push(take_io(&mut events, 12));
    bsp_io_exits.push(take_io(&mut events, 13));
    bsp_io_exits.push(take_io(&mut events, 20));
    bsp_io_exits.push(take_io(&mut events, 21));
    let mut ap_io_exits: Vec<PortIoExit> = Vec::new();
    ap_io_exits.push(take_io(&mut events, 7));
    ap_io_exits.push(take_io(&mut events, 8));
    ap_io_exits.push(take_io(&mut events, 9));
    ap_io_exits.push(take_io(&mut events, 14));
    ap_io_exits.push(take_io(&mut events, 15));
    ap_io_exits.push(take_io(&mut events, 16));
    proof {
        assert(bsp_io_exits@ =~= seq![io_of(o[1]), io_of(o[2]), io_of(o[3]), io_of(o[4]), io_of(o[12]), io_of(o[13]), io_of(o[20]), io_of(o[21])]);
        assert(ap_io_exits@ =~= seq![io_of(o[7]), io_of(o[8]), io_of(o[9]), io_of(o[14]), io_of(o[15]), io_of(o[16])]);
    }
    SipiIpiWorkDispatchResult {
        bsp_io_exits,
        ap_io_exits,
        bsp_proof,
        ap_proof,
        mailbox: ComposedMailboxSnapshot { payload, command, result, ack },
        initial_ap_mp_state,
        ap_state: ComposedApState {
            ready_rflags,
            completion_rflags,
            startup_mp_state: startup.mp_state,
            startup_rip: startup.rip,
            startup_cs_selector: startup.cs_selector,
            startup_cs_base: startup.cs_base,
            rsp: regs.rsp,
            cs_selector: regs.cs_selector,
            cs_long: regs.cs_long,
            ss_selector: regs.ss_selector,
            gdt_base: regs.gdt_base,
            gdt_limit: regs.gdt_limit,
            idt_base: idt.0,
            idt_limit: idt.1,
            cr0: regs.cr0,
            cr3: regs.cr3,
            cr4: regs.cr4,
            efer: regs.efer,
        },
        bsp_report,
        ap_report,
    }
}

} // verus!
