//! Two vCPUs with in-kernel local APICs: the first sends a fixed-vector IPI through its ICR and the second
//! must take it.
use crate::vcpu::{PortIoExit};
use crate::portio::scenario::{
    carries_io, io_of, rflags_at, rflags_of, run_consistent, spec_accepts, take_io,
    scenario_start, spec_expected_output, spec_next_action, spec_scenario_start, HostOperation, ScenarioAction, ScenarioRun, Stage, StageCheck,
};
use vstd::prelude::*;

verus! {

pub const RAM_BASE: u64 = 0;
pub const FIRST_ENTRY: u64 = 0x1_0000;
pub const SECOND_ENTRY: u64 = 0x1_1000;
pub const HANDLER_ENTRY: u64 = 0x1_2000;
pub const FIRST_STACK: u64 = 0x1f_f000;
pub const SECOND_STACK: u64 = 0x1f_e000;
pub const X86_RFLAGS_RESERVED_BIT: u64 = 1 << 1;
pub const LAPIC_VIRTUAL_PAGE: u64 = 0x50_0000;
pub const LAPIC_GPA: u64 = 0xfee0_0000;
pub const LAPIC_ICR_LOW_OFFSET: u32 = 0x300;
pub const LAPIC_ICR_HIGH_OFFSET: u32 = 0x310;
pub const LAPIC_EOI_OFFSET: u32 = 0x0b0;
pub const TARGET_APIC_ID: u8 = 1;
pub const TARGET_VECTOR: u8 = 0x52;
/// The ICR high dword names the destination APIC ID in its top byte.
pub const ICR_HIGH_VALUE: u32 = 0x0100_0000;
/// The ICR low dword sends a fixed interrupt with the target vector.
pub const ICR_LOW_VALUE: u32 = 0x52;
pub const FIRST_VCPU_INDEX: u16 = 0;
pub const SECOND_VCPU_INDEX: u16 = 1;
pub const FIRST_PROOF: [u8; 4] = [0x30, 0x53, 0x4d, 0x44];
pub const SECOND_PROOF: [u8; 4] = [0x52, 0x49, 0x31, 0x44];
pub const FIRST_GUEST_BYTES: [u8; 49] = [ 0xfb, 0x90, 0x48, 0xbb, 0x00, 0x00, 0x50, 0x00, 0x00, 0x00, 0x00, 0x00, 0xb0, 0x30, 0xe6, 0xe9, 0xc7, 0x83, 0x10, 0x03, 0x00, 0x00, 0x00, 0x00, 0x00, 0x01, 0xc7, 0x83, 0x00, 0x03, 0x00, 0x00, TARGET_VECTOR, 0x00, 0x00, 0x00, 0xb0, 0x53, 0xe6, 0xe9, 0xb0, 0x4d, 0xe6, 0xe9, 0xb0, 0x44, 0xe6, 0xe9, 0xf4, ];
pub const SECOND_GUEST_BYTES: [u8; 26] = [ 0xfa, 0x48, 0xbb, 0x00, 0x00, 0x50, 0x00, 0x00, 0x00, 0x00, 0x00, 0xb0, 0x52, 0xe6, 0xe9, 0xfb, 0x90, 0xb0, 0x31, 0xe6, 0xe9, 0xb0, 0x44, 0xe6, 0xe9, 0xf4, ];
pub const HANDLER_BYTES: [u8; 16] = [ 0xb0, 0x49, 0xe6, 0xe9, 0xc7, 0x83, 0xb0, 0x00, 0x00, 0x00, 0x00, 0x00, 0x00, 0x00, 0x48, 0xcf, ];

#[derive(Debug, Clone, PartialEq, Eq)]
pub struct TwoVcpuGuestIpiResult {
    pub first_io_exits: Vec<PortIoExit>,
    pub second_io_exits: Vec<PortIoExit>,
    pub first_proof: Vec<u8>,
    pub second_proof: Vec<u8>,
    pub first_barrier_rflags: u64,
    pub first_send_rflags: u64,
    pub first_completion_rflags: u64,
    pub second_ready_rflags: u64,
    pub second_completion_rflags: u64,
    pub second_mp_state: u32,
}

impl TwoVcpuGuestIpiResult {
    pub fn first_io_exits(&self) -> (r: &[PortIoExit])
        ensures r@ == self.first_io_exits@,
    {
        self.first_io_exits.as_slice()
    }

    pub fn second_io_exits(&self) -> (r: &[PortIoExit])
        ensures r@ == self.second_io_exits@,
    {
        self.second_io_exits.as_slice()
    }

    pub fn first_proof(&self) -> (r: &[u8])
        ensures r@ == self.first_proof@,
    {
        self.first_proof.as_slice()
    }

    pub fn second_proof(&self) -> (r: &[u8])
        ensures r@ == self.second_proof@,
    {
        self.second_proof.as_slice()
    }

    pub fn first_barrier_rflags(&self) -> (r: u64)
        ensures r == self.first_barrier_rflags,
    {
        self.first_barrier_rflags
    }

    pub fn first_send_rflags(&self) -> (r: u64)
        ensures r == self.first_send_rflags,
    {
        self.first_send_rflags
    }

    pub fn first_completion_rflags(&self) -> (r: u64)
        ensures r == self.first_completion_rflags,
    {
        self.first_completion_rflags
    }

    pub fn second_ready_rflags(&self) -> (r: u64)
        ensures r == self.second_ready_rflags,
    {
        self.second_ready_rflags
    }

    pub fn second_completion_rflags(&self) -> (r: u64)
        ensures r == self.second_completion_rflags,
    {
        self.second_completion_rflags
    }

    pub fn second_mp_state(&self) -> (r: u32)
        ensures r == self.second_mp_state,
    {
        self.second_mp_state
    }
}


/// The stages of the guest-IPI scenario: the first vCPU writes the ICR and only the second takes the interrupt.
pub open spec fn spec_guest_ipi_script() -> Seq<Stage> {
    seq![
        Stage { vcpu: 1, check: StageCheck::DebugOutput(0x52), name: "guest IPI second-vCPU readiness", vm_error: false },
        Stage { vcpu: 1, check: StageCheck::InterruptsDisabled, name: "guest IPI second-vCPU readiness state", vm_error: false },
        Stage { vcpu: 0, check: StageCheck::DebugOutput(0x30), name: "guest IPI first-vCPU pre-ICR barrier", vm_error: false },
        Stage { vcpu: 0, check: StageCheck::InterruptsEnabled, name: "guest IPI first-vCPU pre-ICR state", vm_error: false },
        Stage { vcpu: 0, check: StageCheck::DebugOutput(0x53), name: "guest IPI first-vCPU post-ICR barrier", vm_error: false },
        Stage { vcpu: 0, check: StageCheck::InterruptsEnabled, name: "guest IPI first-vCPU post-ICR state", vm_error: false },
        Stage { vcpu: 1, check: StageCheck::DebugOutput(0x49), name: "guest IPI second-vCPU handler", vm_error: false },
        Stage { vcpu: 1, check: StageCheck::DebugOutput(0x31), name: "guest IPI second-vCPU mainline", vm_error: false },
        Stage { vcpu: 1, check: StageCheck::DebugOutput(0x44), name: "guest IPI second-vCPU completion", vm_error: false },
        Stage { vcpu: 1, check: StageCheck::InterruptsEnabled, name: "guest IPI second-vCPU completion state", vm_error: false },
        Stage { vcpu: 0, check: StageCheck::DebugOutput(0x4d), name: "guest IPI first-vCPU target isolation", vm_error: false },
        Stage { vcpu: 0, check: StageCheck::DebugOutput(0x44), name: "guest IPI first-vCPU completion", vm_error: false },
        Stage { vcpu: 0, check: StageCheck::InterruptsEnabled, name: "guest IPI first-vCPU completion state", vm_error: false },
    ]
}

pub fn guest_ipi_script() -> (r: Vec<Stage>)
    ensures r@ == spec_guest_ipi_script(),
{
    let mut v: Vec<Stage> = Vec::new();
    v.push(Stage { vcpu: 1, check: StageCheck::DebugOutput(0x52), name: "guest IPI second-vCPU readiness", vm_error: false });
    v.push(Stage { vcpu: 1, check: StageCheck::InterruptsDisabled, name: "guest IPI second-vCPU readiness state", vm_error: false });
    v.push(Stage { vcpu: 0, check: StageCheck::DebugOutput(0x30), name: "guest IPI first-vCPU pre-ICR barrier", vm_error: false });
    v.push(Stage { vcpu: 0, check: StageCheck::InterruptsEnabled, name: "guest IPI first-vCPU pre-ICR state", vm_error: false });
    v.push(Stage { vcpu: 0, check: StageCheck::DebugOutput(0x53), name: "guest IPI first-vCPU post-ICR barrier", vm_error: false });
    v.push(Stage { vcpu: 0, check: StageCheck::InterruptsEnabled, name: "guest IPI first-vCPU post-ICR state", vm_error: false });
    v.push(Stage { vcpu: 1, check: StageCheck::DebugOutput(0x49), name: "guest IPI second-vCPU handler", vm_error: false });
    v.push(Stage { vcpu: 1, check: StageCheck::DebugOutput(0x31), name: "guest IPI second-vCPU mainline", vm_error: false });
    v.push(Stage { vcpu: 1, check: StageCheck::DebugOutput(0x44), name: "guest IPI second-vCPU completion", vm_error: false });
    v.push(Stage { vcpu: 1, check: StageCheck::InterruptsEnabled, name: "guest IPI second-vCPU completion state", vm_error: false });
    v.push(Stage { vcpu: 0, check: StageCheck::DebugOutput(0x4d), name: "guest IPI first-vCPU target isolation", vm_error: false });
    v.push(Stage { vcpu: 0, check: StageCheck::DebugOutput(0x44), name: "guest IPI first-vCPU completion", vm_error: false });
    v.push(Stage { vcpu: 0, check: StageCheck::InterruptsEnabled, name: "guest IPI first-vCPU completion state", vm_error: false });
    proof {
        assert(v@ =~= spec_guest_ipi_script());
    }
    v
}

/// Starts a run of the guest-IPI scenario; the action asks for the first stage.
pub fn guest_ipi_start() -> (r: (ScenarioRun, ScenarioAction))
    ensures
        r.0@ == spec_scenario_start(spec_guest_ipi_script()),
        r.1 == spec_next_action(r.0@),
{
    scenario_start(guest_ipi_script())
}


/// A guest-IPI run that observed every stage made the first vCPU print "0SMD" and the second "RI1D".
pub proof fn lemma_guest_ipi_outputs()
    ensures
        spec_expected_output(spec_guest_ipi_script(), 0) == FIRST_PROOF@,
        spec_expected_output(spec_guest_ipi_script(), 1) == SECOND_PROOF@,
{
    reveal_with_fuel(spec_expected_output, 14);
    assert(FIRST_PROOF@ =~= seq![0x30u8, 0x53, 0x4d, 0x44]);
    assert(spec_expected_output(spec_guest_ipi_script(), 0) =~= seq![0x30u8, 0x53, 0x4d, 0x44]);
    assert(SECOND_PROOF@ =~= seq![0x52u8, 0x49, 0x31, 0x44]);
    assert(spec_expected_output(spec_guest_ipi_script(), 1) =~= seq![0x52u8, 0x49, 0x31, 0x44]);
}


/// The result of a guest-IPI run that observed every stage: the debug-port exits of each vCPU in
/// order, the proofs they printed, the RFLAGS values the stages read, and the multiprocessing
/// state the host gave the second vCPU before the run.
pub fn guest_ipi_result(run: ScenarioRun, second_mp_state: u32) -> (r: TwoVcpuGuestIpiResult)
    requires
        run@.script == spec_guest_ipi_script(),
        run_consistent(run@),
        run@.position == run@.script.len(),
    ensures
        ({
            let o = run@.observations;
            &&& r.first_io_exits@ == seq![io_of(o[2]), io_of(o[4]), io_of(o[10]), io_of(o[11])]
            &&& r.second_io_exits@ == seq![io_of(o[0]), io_of(o[6]), io_of(o[7]), io_of(o[8])]
            &&& r.first_proof@ == FIRST_PROOF@
            &&& r.second_proof@ == SECOND_PROOF@
            &&& r.first_barrier_rflags == rflags_of(o[3])
            &&& r.first_send_rflags == rflags_of(o[5])
            &&& r.first_completion_rflags == rflags_of(o[12])
            &&& r.second_ready_rflags == rflags_of(o[1])
            &&& r.second_completion_rflags == rflags_of(o[9])
            &&& r.second_mp_state == second_mp_state
        }),
{
    let ghost script = spec_guest_ipi_script();
    proof {
        assert(script.take(script.len() as int) =~= script);
        lemma_guest_ipi_outputs();
        assert forall|k: int| 0 <= k < script.len() && (script[k].check is DebugOutput)
            implies carries_io(#[trigger] run@.observations[k]) by {
            assert(spec_accepts(script[k].check, run@.observations[k]));
        }
    }
    let first_proof = run.debug_output(0);
    let second_proof = run.debug_output(1);
    let mut events = run.into_observations();
    let ghost o = events@;
    assert(script[2].check is DebugOutput && script[4].check is DebugOutput && script[10].check is DebugOutput);
    assert(script[11].check is DebugOutput && script[0].check is DebugOutput && script[6].check is DebugOutput);
    assert(script[7].check is DebugOutput && script[8].check is DebugOutput);
    let first_barrier_rflags = rflags_at(&events, 3);
    let first_send_rflags = rflags_at(&events, 5);
    let first_completion_rflags = rflags_at(&events, 12);
    let second_ready_rflags = rflags_at(&events, 1);
    let second_completion_rflags = rflags_at(&events, 9);
    let mut first_io_exits: Vec<PortIoExit> = Vec::new();
    first_io_exits.push(take_io(&mut events, 2));
    first_io_exits.push(take_io(&mut events, 4));
    first_io_exits.push(take_io(&mut events, 10));
    first_io_exits.push(take_io(&mut events, 11));
    let mut second_io_exits: Vec<PortIoExit> = Vec::new();
    second_io_exits.push(take_io(&mut events, 0));
    second_io_exits.push(take_io(&mut events, 6));
    second_io_exits.push(take_io(&mut events, 7));
    second_io_exits.push(take_io(&mut events, 8));
    proof {
        assert(first_io_exits@ =~= seq![io_of(o[2]), io_of(o[4]), io_of(o[10]), io_of(o[11])]);
        assert(second_io_exits@ =~= seq![io_of(o[0]), io_of(o[6]), io_of(o[7]), io_of(o[8])]);
    }
    TwoVcpuGuestIpiResult {
        first_io_exits,
        second_io_exits,
        first_proof,
        second_proof,
        first_barrier_rflags,
        first_send_rflags,
        first_completion_rflags,
        second_ready_rflags,
        second_completion_rflags,
        second_mp_state,
    }
}

} // verus!
