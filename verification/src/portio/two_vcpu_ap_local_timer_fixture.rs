//! An application processor arms its local APIC timer and must take the timer interrupt after INIT/SIPI
//! start-up.
use crate::vcpu::{PortIoExit};
use crate::error::Error;
use crate::portio::two_vcpu_init_sipi_fixture::SIPI_VECTOR;
use crate::portio::vcpu_checks::{ap_long_mode_valid, vcpu_check_error, ApLongModeRegisters, ApStartupState};
use crate::portio::scenario::{
    byte_at, byte_of, carries_io, idt_at, idt_of, io_of, long_mode_at, long_mode_of, mp_state_at, mp_state_of, rflags_at,
    rflags_of, run_consistent, spec_accepts, startup_at, startup_of, take_io,
    scenario_start, spec_expected_output, spec_next_action, spec_scenario_start, HostOperation, ScenarioAction, ScenarioRun, Stage, StageCheck,
};
use crate::portio::two_vcpu_init_sipi_fixture::LONG_MODE_INTERRUPT_IDT_ADDR;
use vstd::prelude::*;

verus! {

pub const AP_LOCAL_TIMER_IDTR_BYTES: [u8; 10] = [0x3f, 0x05, 0x00, 0x60, 0x00, 0x00, 0x00, 0x00, 0x00, 0x00];

pub const RAM_BASE: u64 = 0;
pub const BSP_ENTRY: u64 = 0x1_0000;
pub const BSP_STACK: u64 = 0x1f_f000;
pub const AP_TRAMPOLINE: u64 = 0x8000;
pub const SHARED_MARKER: u64 = 0x9000;
pub const SHARED_MARKER_VALUE: u8 = 0x4b;
pub const AP_LONG_MODE_GDTR: u64 = 0x7020;
pub const AP_LOCAL_TIMER_IDTR: u64 = 0x7040;
pub const KVM_MP_STATE_RUNNABLE: u32 = 0;
pub const KVM_MP_STATE_UNINITIALIZED: u32 = 1;
pub const SIPI_CS_SELECTOR: u16 = 0x0800;
pub const SIPI_CS_BASE: u64 = 0x8000;
pub const X86_CR0_PROTECTED_MODE_ENABLE: u64 = 1;
pub const X86_RFLAGS_RESERVED_BIT: u64 = 1 << 1;
pub const X86_RFLAGS_INTERRUPT_ENABLE: u64 = 1 << 9;
pub const APIC_SPIV_SOFTWARE_ENABLE: u32 = 1 << 8;
pub const APIC_LVT_MASKED: u32 = 1 << 16;
pub const APIC_LVT_TIMER_MODE_MASK: u32 = 0x3 << 17;
pub const APIC_MSI_ADDRESS_BASE: u64 = 0xfee0_0000;
pub const APIC_MSI_DESTINATION_SHIFT: u32 = 12;
pub const WATCHDOG_SECONDS: u64 = 5;
pub const AP_LOCAL_TIMER_VECTOR: u8 = 0x53;
pub const AP_LOCAL_TIMER_HANDLER: u64 = 0x1_3000;
pub const AP_LOCAL_TIMER_IDT_LIMIT: u16 = 0x053f;
pub const AP_LOCAL_TIMER_DIVIDE_CONFIGURATION: u32 = 0x0b;
pub const AP_LOCAL_TIMER_INITIAL_COUNT: u32 = 0x0010_0000;
pub const BSP_TIMER_PROOF: [u8; 6] = [0x30, 0x49, 0x44, 0x53, 0x4d, 0x44];
pub const AP_TIMER_PROOF: [u8; 7] = [0x41, 0x4c, 0x52, 0x41, 0x54, 0x57, 0x44];
pub const AP_LONG_MODE_GDT_BYTES: [u8; 24] = [ 0x00, 0x00, 0x00, 0x00, 0x00, 0x00, 0x00, 0x00, 0xff, 0xff, 0x00, 0x00, 0x00, 0x9a, 0xaf, 0x00, 0xff, 0xff, 0x00, 0x00, 0x00, 0x92, 0xcf, 0x00, ];
pub const AP_LONG_MODE_GDTR_BYTES: [u8; 6] = [0x17, 0x00, 0x00, 0x70, 0x00, 0x00];
pub const BSP_GUEST_BYTES: [u8; 97] = [ 0xfa, 0x48, 0xbb, 0x00, 0x00, 0x50, 0x00, 0x00, 0x00, 0x00, 0x00, 0xb0, 0x30, 0xe6, 0xe9, 0xc7, 0x83, 0x10, 0x03, 0x00, 0x00, 0x00, 0x00, 0x00, 0x01, 0xc7, 0x83, 0x00, 0x03, 0x00, 0x00, 0x00, 0xc5, 0x00, 0x00, 0xb0, 0x49, 0xe6, 0xe9, 0xc7, 0x83, 0x00, 0x03, 0x00, 0x00, 0x00, 0x85, 0x00, 0x00, 0xb0, 0x44, 0xe6, 0xe9, 0xc7, 0x83, 0x00, 0x03, 0x00, 0x00, SIPI_VECTOR, 0x06, 0x00, 0x00, 0xb0, 0x53, 0xe6, 0xe9, 0x48, 0xb9, 0x00, 0x90, 0x00, 0x00, 0x00, 0x00, 0x00, 0x00, 0x8a, 0x01, 0x3c, SHARED_MARKER_VALUE, 0x75, 0x09, 0xb0, 0x4d, 0xe6, 0xe9, 0xb0, 0x44, 0xe6, 0xe9, 0xf4, 0xb0, 0x46, 0xe6, 0xe9, 0xf4, ];
pub const AP_TIMER_GUEST_BYTES: [u8; 178] = [ 0xfa, 0x31, 0xc0, 0x8e, 0xd8, 0x8e, 0xc0, 0x8e, 0xd0, 0xb0, 0x41, 0xe6, 0xe9, 0x0f, 0x01, 0x16, 0x20, 0x70, 0x0f, 0x20, 0xe0, 0x66, 0x83, 0xc8, 0x20, 0x0f, 0x22, 0xe0, 0x66, 0xb8, 0x00, 0x10, 0x00, 0x00, 0x0f, 0x22, 0xd8, 0x66, 0xb9, 0x80, 0x00, 0x00, 0xc0, 0x0f, 0x32, 0x66, 0x0d, 0x00, 0x01, 0x00, 0x00, 0x0f, 0x30, 0x0f, 0x20, 0xc0, 0x66, 0x0d, 0x01, 0x00, 0x00, 0x80, 0x0f, 0x22, 0xc0, 0x66, 0xea, 0x49, 0x80, 0x00, 0x00, 0x08, 0x00, 0x66, 0xb8, 0x10, 0x00, 0x8e, 0xd0, 0x8e, 0xd8, 0x8e, 0xc0, 0x48, 0xc7, 0xc4, 0x00, 0xf0, 0x1e, 0x00, 0xb0, 0x4c, 0xe6, 0xe9, 0x48, 0xc7, 0xc3, 0x00, 0x00, 0x50, 0x00, 0xc7, 0x83, 0xf0, 0x00, 0x00, 0x00, 0xff, 0x01, 0x00, 0x00, 0x0f, 0x01, 0x1c, 0x25, 0x40, 0x70, 0x00, 0x00, 0xb0, 0x52, 0xe6, 0xe9, 0xc7, 0x83, 0xe0, 0x03, 0x00, 0x00, 0x0b, 0x00, 0x00, 0x00, 0xc7, 0x83, 0x20, 0x03, 0x00, 0x00, 0x53, 0x00, 0x00, 0x00, 0xc7, 0x83, 0x80, 0x03, 0x00, 0x00, 0x00, 0x00, 0x10, 0x00, 0xb0, 0x41, 0xe6, 0xe9, 0xfb, 0xf4, 0x48, 0xc7, 0xc1, 0x00, 0x90, 0x00, 0x00, 0xc6, 0x01, 0x4b, 0xb0, 0x57, 0xe6, 0xe9, 0xb0, 0x44, 0xe6, 0xe9, 0xf4, ];
pub const AP_TIMER_HANDLER_BYTES: [u8; 16] = [ 0xb0, 0x54, 0xe6, 0xe9, 0xc7, 0x83, 0xb0, 0x00, 0x00, 0x00, 0x00, 0x00, 0x00, 0x00, 0x48, 0xcf, ];

#[derive(Debug, Clone, Copy, PartialEq, Eq)]
pub struct ApLocalTimerState {
    pub startup_mp_state: u32,
    pub startup_rip: u64,
    pub startup_cs_selector: u16,
    pub startup_cs_base: u64,
    pub ready_rflags: u64,
    pub armed_rflags: u64,
    pub completion_rflags: u64,
    pub rsp: u64,
    pub cs_selector: u16,
    pub cs_long: u8,
    pub ss_selector: u16,
    pub gdt_base: u64,
    pub gdt_limit: u16,
    pub idt_base: u64,
    pub idt_limit: u16,
    pub cr0: u64,
    pub cr3: u64,
    pub cr4: u64,
    pub efer: u64,
}

impl ApLocalTimerState {
    pub fn startup_mp_state(self) -> (r: u32)
        ensures r == self.startup_mp_state,
    {
        self.startup_mp_state
    }

    pub fn startup_rip(self) -> (r: u64)
        ensures r == self.startup_rip,
    {
        self.startup_rip
    }

    pub fn startup_cs_selector(self) -> (r: u16)
        ensures r == self.startup_cs_selector,
    {
        self.startup_cs_selector
    }

    pub fn startup_cs_base(self) -> (r: u64)
        ensures r == self.startup_cs_base,
    {
        self.startup_cs_base
    }

    pub fn ready_rflags(self) -> (r: u64)
        ensures r == self.ready_rflags,
    {
        self.ready_rflags
    }

    pub fn armed_rflags(self) -> (r: u64)
        ensures r == self.armed_rflags,
    {
        self.armed_rflags
    }

    pub fn completion_rflags(self) -> (r: u64)
        ensures r == self.completion_rflags,
    {
        self.completion_rflags
    }

    pub fn rsp(self) -> (r: u64)
        ensures r == self.rsp,
    {
        self.rsp
    }

    pub fn cs_selector(self) -> (r: u16)
        ensures r == self.cs_selector,
    {
        self.cs_selector
    }

    pub fn cs_long(self) -> (r: u8)
        ensures r == self.cs_long,
    {
        self.cs_long
    }

    pub fn ss_selector(self) -> (r: u16)
        ensures r == self.ss_selector,
    {
        self.ss_selector
    }

    pub fn gdt_base(self) -> (r: u64)
        ensures r == self.gdt_base,
    {
        self.gdt_base
    }

    pub fn gdt_limit(self) -> (r: u16)
        ensures r == self.gdt_limit,
    {
        self.gdt_limit
    }

    pub fn idt_base(self) -> (r: u64)
        ensures r == self.idt_base,
    {
        self.idt_base
    }

    pub fn idt_limit(self) -> (r: u16)
        ensures r == self.idt_limit,
    {
        self.idt_limit
    }

    pub fn cr0(self) -> (r: u64)
        ensures r == self.cr0,
    {
        self.cr0
    }

    pub fn cr3(self) -> (r: u64)
        ensures r == self.cr3,
    {
        self.cr3
    }

    pub fn cr4(self) -> (r: u64)
        ensures r == self.cr4,
    {
        self.cr4
    }

    pub fn efer(self) -> (r: u64)
        ensures r == self.efer,
    {
        self.efer
    }
}

#[derive(Debug, Clone, PartialEq, Eq)]
pub struct TwoVcpuApLocalTimerResult {
    pub bsp_io_exits: Vec<PortIoExit>,
    pub ap_io_exits: Vec<PortIoExit>,
    pub bsp_proof: Vec<u8>,
    pub ap_proof: Vec<u8>,
    pub initial_ap_mp_state: u32,
    pub ap_state: ApLocalTimerState,
    pub shared_marker: u8,
    pub watchdog_fired: bool,
}

impl TwoVcpuApLocalTimerResult {
    pub fn bsp_io_exits(&self) -> (r: &[PortIoExit])
        ensures r@ == self.bsp_io_exits@,
    {
        self.bsp_io_exits.as_slice()
    }

    pub fn ap_io_exits(&self) -> (r: &[PortIoExit])
        ensures r@ == self.ap_io_exits@,
    {
        self.ap_io_exits.as_slice()
    }

    pub fn bsp_proof(&self) -> (r: &[u8])
        ensures r@ == self.bsp_proof@,
    {
        self.bsp_proof.as_slice()
    }

    pub fn ap_proof(&self) -> (r: &[u8])
        ensures r@ == self.ap_proof@,
    {
        self.ap_proof.as_slice()
    }

    pub fn initial_ap_mp_state(&self) -> (r: u32)
        ensures r == self.initial_ap_mp_state,
    {
        self.initial_ap_mp_state
    }

    pub fn ap_state(&self) -> (r: ApLocalTimerState)
        ensures r == self.ap_state,
    {
        self.ap_state
    }

    pub fn shared_marker(&self) -> (r: u8)
        ensures r == self.shared_marker,
    {
        self.shared_marker
    }

    pub fn watchdog_fired(&self) -> (r: bool)
        ensures r == self.watchdog_fired,
    {
        self.watchdog_fired
    }
}



/// The AP's state at the end of the local-timer run, once its registers show it still in the
/// long mode it switched itself into (see `ap_long_mode_valid`): the startup observation, the
/// three RFLAGS samples, the long-mode registers and the IDT it loaded.
pub fn require_ap_local_timer_state(
    id: u16,
    startup: ApStartupState,
    ready_rflags: u64,
    armed_rflags: u64,
    completion_rflags: u64,
    idt_base: u64,
    idt_limit: u16,
    regs: ApLongModeRegisters,
) -> (r: Result<ApLocalTimerState, Error>)
    ensures
        !ap_long_mode_valid(regs) ==> r == Err::<ApLocalTimerState, Error>(
            vcpu_check_error(id, "AP-local-timer guest-owned long-mode state")),
        ap_long_mode_valid(regs) ==> r == Ok::<ApLocalTimerState, Error>(ApLocalTimerState {
            startup_mp_state: startup.mp_state,
            startup_rip: startup.rip,
            startup_cs_selector: startup.cs_selector,
            startup_cs_base: startup.cs_base,
            ready_rflags,
            armed_rflags,
            completion_rflags,
            rsp: regs.rsp,
            cs_selector: regs.cs_selector,
            cs_long: regs.cs_long,
            ss_selector: regs.ss_selector,
            gdt_base: regs.gdt_base,
            gdt_limit: regs.gdt_limit,
            idt_base,
            idt_limit,
            cr0: regs.cr0,
            cr3: regs.cr3,
            cr4: regs.cr4,
            efer: regs.efer,
        }),
{
    let checked = crate::portio::vcpu_checks::require_ap_long_mode_state(
        id, "AP-local-timer guest-owned long-mode state", regs)?;
    Ok(ApLocalTimerState {
        startup_mp_state: startup.mp_state,
        startup_rip: startup.rip,
        startup_cs_selector: startup.cs_selector,
        startup_cs_base: startup.cs_base,
        ready_rflags,
        armed_rflags,
        completion_rflags,
        rsp: checked.rsp,
        cs_selector: checked.cs_selector,
        cs_long: checked.cs_long,
        ss_selector: checked.ss_selector,
        gdt_base: checked.gdt_base,
        gdt_limit: checked.gdt_limit,
        idt_base,
        idt_limit,
        cr0: checked.cr0,
        cr3: checked.cr3,
        cr4: checked.cr4,
        efer: checked.efer,
    })
}

/// The stages of the AP-local-timer scenario: INIT/SIPI start, long-mode entry, arming the local timer, and its interrupt.
pub open spec fn spec_ap_local_timer_script() -> Seq<Stage> {
    seq![
        Stage { vcpu: 1, check: StageCheck::MpState(KVM_MP_STATE_UNINITIALIZED), name: "AP-local-timer initial AP MP state", vm_error: false },
        Stage { vcpu: 0, check: StageCheck::DebugOutput(0x30), name: "AP-local-timer BSP pre-INIT barrier", vm_error: false },
        Stage { vcpu: 0, check: StageCheck::DebugOutput(0x49), name: "AP-local-timer BSP INIT-assert barrier", vm_error: false },
        Stage { vcpu: 0, check: StageCheck::DebugOutput(0x44), name: "AP-local-timer BSP INIT-deassert barrier", vm_error: false },
        Stage { vcpu: 0, check: StageCheck::DebugOutput(0x53), name: "AP-local-timer BSP SIPI barrier", vm_error: false },
        Stage { vcpu: 0, check: StageCheck::InterruptsDisabled, name: "AP-local-timer BSP post-SIPI state", vm_error: false },
        Stage { vcpu: 1, check: StageCheck::SipiStartup, name: "AP-local-timer AP startup state", vm_error: false },
        Stage { vcpu: 1, check: StageCheck::DebugOutput(0x41), name: "AP-local-timer real-mode startup", vm_error: false },
        Stage { vcpu: 1, check: StageCheck::DebugOutput(0x4c), name: "AP-local-timer 64-bit entry", vm_error: false },
        Stage { vcpu: 1, check: StageCheck::DebugOutput(0x52), name: "AP-local-timer readiness barrier", vm_error: false },
        Stage { vcpu: 1, check: StageCheck::InterruptsDisabled, name: "AP-local-timer readiness state", vm_error: false },
        Stage { vcpu: 1, check: StageCheck::Idt { base: LONG_MODE_INTERRUPT_IDT_ADDR, limit: AP_LOCAL_TIMER_IDT_LIMIT }, name: "AP-local-timer readiness IDT", vm_error: false },
        Stage { vcpu: 1, check: StageCheck::DebugOutput(0x41), name: "AP-local-timer armed barrier", vm_error: false },
        Stage { vcpu: 1, check: StageCheck::InterruptsDisabled, name: "AP-local-timer armed state", vm_error: false },
        Stage { vcpu: 1, check: StageCheck::DebugOutput(0x54), name: "AP-local-timer vector-0x53 handler", vm_error: false },
        Stage { vcpu: 1, check: StageCheck::DebugOutput(0x57), name: "AP-local-timer resumed mainline", vm_error: false },
        Stage { vcpu: 1, check: StageCheck::DebugOutput(0x44), name: "AP-local-timer completion barrier", vm_error: false },
        Stage { vcpu: 1, check: StageCheck::InterruptsEnabled, name: "AP-local-timer completion state", vm_error: false },
        Stage { vcpu: 1, check: StageCheck::LongMode, name: "AP-local-timer guest-owned long-mode state", vm_error: false },
        Stage { vcpu: 0, check: StageCheck::HostCount { operation: HostOperation::StopWatchdog, expected: 0 }, name: "AP-local-timer watchdog", vm_error: false },
        Stage { vcpu: 0, check: StageCheck::GuestByte { address: SHARED_MARKER, expected: SHARED_MARKER_VALUE }, name: "AP-local-timer shared marker", vm_error: false },
        Stage { vcpu: 0, check: StageCheck::DebugOutput(0x4d), name: "AP-local-timer BSP marker observation", vm_error: false },
        Stage { vcpu: 0, check: StageCheck::DebugOutput(0x44), name: "AP-local-timer BSP completion barrier", vm_error: false },
        Stage { vcpu: 0, check: StageCheck::InterruptsDisabled, name: "AP-local-timer BSP completion state", vm_error: false },
    ]
}

pub fn ap_local_timer_script() -> (r: Vec<Stage>)
    ensures r@ == spec_ap_local_timer_script(),
{
    let mut v: Vec<Stage> = Vec::new();
    v.push(Stage { vcpu: 1, check: StageCheck::MpState(KVM_MP_STATE_UNINITIALIZED), name: "AP-local-timer initial AP MP state", vm_error: false });
    v.push(Stage { vcpu: 0, check: StageCheck::DebugOutput(0x30), name: "AP-local-timer BSP pre-INIT barrier", vm_error: false });
    v.push(Stage { vcpu: 0, check: StageCheck::DebugOutput(0x49), name: "AP-local-timer BSP INIT-assert barrier", vm_error: false });
    v.push(Stage { vcpu: 0, check: StageCheck::DebugOutput(0x44), name: "AP-local-timer BSP INIT-deassert barrier", vm_error: false });
    v.push(Stage { vcpu: 0, check: StageCheck::DebugOutput(0x53), name: "AP-local-timer BSP SIPI barrier", vm_error: false });
    v.push(Stage { vcpu: 0, check: StageCheck::InterruptsDisabled, name: "AP-local-timer BSP post-SIPI state", vm_error: false });
    v.push(Stage { vcpu: 1, check: StageCheck::SipiStartup, name: "AP-local-timer AP startup state", vm_error: false });
    v.push(Stage { vcpu: 1, check: StageCheck::DebugOutput(0x41), name: "AP-local-timer real-mode startup", vm_error: false });
    v.push(Stage { vcpu: 1, check: StageCheck::DebugOutput(0x4c), name: "AP-local-timer 64-bit entry", vm_error: false });
    v.push(Stage { vcpu: 1, check: StageCheck::DebugOutput(0x52), name: "AP-local-timer readiness barrier", vm_error: false });
    v.push(Stage { vcpu: 1, check: StageCheck::InterruptsDisabled, name: "AP-local-timer readiness state", vm_error: false });
    v.push(Stage { vcpu: 1, check: StageCheck::Idt { base: LONG_MODE_INTERRUPT_IDT_ADDR, limit: AP_LOCAL_TIMER_IDT_LIMIT }, name: "AP-local-timer readiness IDT", vm_error: false });
    v.push(Stage { vcpu: 1, check: StageCheck::DebugOutput(0x41), name: "AP-local-timer armed barrier", vm_error: false });
    v.push(Stage { vcpu: 1, check: StageCheck::InterruptsDisabled, name: "AP-local-timer armed state", vm_error: false });
    v.push(Stage { vcpu: 1, check: StageCheck::DebugOutput(0x54), name: "AP-local-timer vector-0x53 handler", vm_error: false });
    v.push(Stage { vcpu: 1, check: StageCheck::DebugOutput(0x57), name: "AP-local-timer resumed mainline", vm_error: false });
    v.push(Stage { vcpu: 1, check: StageCheck::DebugOutput(0x44), name: "AP-local-timer completion barrier", vm_error: false });
    v.push(Stage { vcpu: 1, check: StageCheck::InterruptsEnabled, name: "AP-local-timer completion state", vm_error: false });
    v.push(Stage { vcpu: 1, check: StageCheck::LongMode, name: "AP-local-timer guest-owned long-mode state", vm_error: false });
    v.push(Stage { vcpu: 0, check: StageCheck::HostCount { operation: HostOperation::StopWatchdog, expected: 0 }, name: "AP-local-timer watchdog", vm_error: false });
    v.push(Stage { vcpu: 0, check: StageCheck::GuestByte { address: SHARED_MARKER, expected: SHARED_MARKER_VALUE }, name: "AP-local-timer shared marker", vm_error: false });
    v.push(Stage { vcpu: 0, check: StageCheck::DebugOutput(0x4d), name: "AP-local-timer BSP marker observation", vm_error: false });
    v.push(Stage { vcpu: 0, check: StageCheck::DebugOutput(0x44), name: "AP-local-timer BSP completion barrier", vm_error: false });
    v.push(Stage { vcpu: 0, check: StageCheck::InterruptsDisabled, name: "AP-local-timer BSP completion state", vm_error: false });
    proof {
        assert(v@ =~= spec_ap_local_timer_script());
    }
    v
}

/// Starts a run of the AP-local-timer scenario; the action asks for the first stage.
pub fn ap_local_timer_start() -> (r: (ScenarioRun, ScenarioAction))
    ensures
        r.0@ == spec_scenario_start(spec_ap_local_timer_script()),
        r.1 == spec_next_action(r.0@),
{
    scenario_start(ap_local_timer_script())
}


/// An AP-local-timer run that observed every stage made the bootstrap processor print "0IDSMD" and the application processor "ALRATWD".
pub proof fn lemma_ap_local_timer_outputs()
    ensures
        spec_expected_output(spec_ap_local_timer_script(), 0) == BSP_TIMER_PROOF@,
        spec_expected_output(spec_ap_local_timer_script(), 1) == AP_TIMER_PROOF@,
{
    reveal_with_fuel(spec_expected_output, 25);
    assert(BSP_TIMER_PROOF@ =~= seq![0x30u8, 0x49, 0x44, 0x53, 0x4d, 0x44]);
    assert(spec_expected_output(spec_ap_local_timer_script(), 0) =~= seq![0x30u8, 0x49, 0x44, 0x53, 0x4d, 0x44]);
    assert(AP_TIMER_PROOF@ =~= seq![0x41u8, 0x4c, 0x52, 0x41, 0x54, 0x57, 0x44]);
    assert(spec_expected_output(spec_ap_local_timer_script(), 1) =~= seq![0x41u8, 0x4c, 0x52, 0x41, 0x54, 0x57, 0x44]);
}


/// The result of an AP-local-timer run that observed every stage: each vCPU's debug-port exits and proof, the application processor's start-up, ready, armed, completion and long-mode state, the shared marker, and a watchdog that never fired.
pub fn ap_local_timer_result(run: ScenarioRun) -> (r: TwoVcpuApLocalTimerResult)
    requires
        run@.script == spec_ap_local_timer_script(),
        run_consistent(run@),
        run@.position == run@.script.len(),
    ensures
        ({
            let o = run@.observations;
            &&& r.bsp_io_exits@ == seq![io_of(o[1]), io_of(o[2]), io_of(o[3]), io_of(o[4]), io_of(o[21]), io_of(o[22])]
            &&& r.bsp_proof@ == BSP_TIMER_PROOF@
            &&& r.ap_io_exits@ == seq![io_of(o[7]), io_of(o[8]), io_of(o[9]), io_of(o[12]), io_of(o[14]), io_of(o[15]), io_of(o[16])]
            &&& r.ap_proof@ == AP_TIMER_PROOF@
            &&& r.initial_ap_mp_state == mp_state_of(o[0])
            &&& r.ap_state.startup_mp_state == startup_of(o[6]).mp_state
            &&& r.ap_state.startup_rip == startup_of(o[6]).rip
            &&& r.ap_state.startup_cs_selector == startup_of(o[6]).cs_selector
            &&& r.ap_state.startup_cs_base == startup_of(o[6]).cs_base
            &&& r.ap_state.ready_rflags == rflags_of(o[10])
            &&& r.ap_state.armed_rflags == rflags_of(o[13])
            &&& r.ap_state.completion_rflags == rflags_of(o[17])
            &&& r.ap_state.rsp == long_mode_of(o[18]).rsp
            &&& r.ap_state.cs_selector == long_mode_of(o[18]).cs_selector
            &&& r.ap_state.cs_long == long_mode_of(o[18]).cs_long
            &&& r.ap_state.ss_selector == long_mode_of(o[18]).ss_selector
            &&& r.ap_state.gdt_base == long_mode_of(o[18]).gdt_base
            &&& r.ap_state.gdt_limit == long_mode_of(o[18]).gdt_limit
            &&& r.ap_state.idt_base == idt_of(o[11]).0
            &&& r.ap_state.idt_limit == idt_of(o[11]).1
            &&& r.ap_state.cr0 == long_mode_of(o[18]).cr0
            &&& r.ap_state.cr3 == long_mode_of(o[18]).cr3
            &&& r.ap_state.cr4 == long_mode_of(o[18]).cr4
            &&& r.ap_state.efer == long_mode_of(o[18]).efer
            &&& r.shared_marker == byte_of(o[20])
            &&& r.watchdog_fired == false
        }),
{
    let ghost script = spec_ap_local_timer_script();
    proof {
        assert(script.take(script.len() as int) =~= script);
        lemma_ap_local_timer_outputs();
        assert forall|k: int| 0 <= k < script.len() && (script[k].check is DebugOutput)
            implies carries_io(#[trigger] run@.observations[k]) by {
            assert(spec_accepts(script[k].check, run@.observations[k]));
        }
    }
    let bsp_proof = run.debug_output(0);
    let ap_proof = run.debug_output(1);
    let mut events = run.into_observations();
    let ghost o = events@;
    assert(script[1].check is DebugOutput);
    assert(script[2].check is DebugOutput);
    assert(script[3].check is DebugOutput);
    assert(script[4].check is DebugOutput);
    assert(script[7].check is DebugOutput);
    assert(script[8].check is DebugOutput);
    assert(script[9].check is DebugOutput);
    assert(script[12].check is DebugOutput);
    assert(script[14].check is DebugOutput);
    assert(script[15].check is DebugOutput);
    assert(script[16].check is DebugOutput);
    assert(script[21].check is DebugOutput);
    assert(script[22].check is DebugOutput);
    let initial_ap_mp_state = mp_state_at(&events, 0);
    let startup = startup_at(&events, 6);
    let ready_rflags = rflags_at(&events, 10);
    let armed_rflags = rflags_at(&events, 13);
    let completion_rflags = rflags_at(&events, 17);
    let regs = long_mode_at(&events, 18);
    let idt = idt_at(&events, 11);
    let shared_marker = byte_at(&events, 20);
    let mut bsp_io_exits: Vec<PortIoExit> = Vec::new();
    bsp_io_exits.push(take_io(&mut events, 1));
    bsp_io_exits.push(take_io(&mut events, 2));
    bsp_io_exits.push(take_io(&mut events, 3));
    bsp_io_exits.push(take_io(&mut events, 4));
    bsp_io_exits.push(take_io(&mut events, 21));
    bsp_io_exits.push(take_io(&mut events, 22));
    let mut ap_io_exits: Vec<PortIoExit> = Vec::new();
    ap_io_exits.push(take_io(&mut events, 7));
    ap_io_exits.push(take_io(&mut events, 8));
    ap_io_exits.push(take_io(&mut events, 9));
    ap_io_exits.push(take_io(&mut events, 12));
    ap_io_exits.push(take_io(&mut events, 14));
    ap_io_exits.push(take_io(&mut events, 15));
    ap_io_exits.push(take_io(&mut events, 16));
    proof {
        assert(bsp_io_exits@ =~= seq![io_of(o[1]), io_of(o[2]), io_of(o[3]), io_of(o[4]), io_of(o[21]), io_of(o[22])]);
        assert(ap_io_exits@ =~= seq![io_of(o[7]), io_of(o[8]), io_of(o[9]), io_of(o[12]), io_of(o[14]), io_of(o[15]), io_of(o[16])]);
    }
    TwoVcpuApLocalTimerResult {
        bsp_io_exits,
        ap_io_exits,
        bsp_proof,
        ap_proof,
        initial_ap_mp_state,
        ap_state: ApLocalTimerState {
            startup_mp_state: startup.mp_state,
            startup_rip: startup.rip,
            startup_cs_selector: startup.cs_selector,
            startup_cs_base: startup.cs_base,
            ready_rflags,
            armed_rflags,
            completion_rflags,
            rsp: regs.rsp,
            cs_selector: regs.cs_selector,
            cs_long: regs.cs_long,
            ss_selector: regs.ss_selector,
            gdt_base: regs.gdt_base,
            gdt_limit: regs.gdt_limit,
            idt_base: idt.0,
            idt_limit: idt.1,
            cr0: regs.cr0,
            cr3: regs.cr3,
            cr4: regs.cr4,
            efer: regs.efer,
        },
        shared_marker,
        watchdog_fired: false,
    }
}

} // verus!
