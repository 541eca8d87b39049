//! A message-signalled interrupt routed to the second vCPU's APIC ID reaches exactly that vCPU.
use crate::vcpu::{PortIoExit};
use crate::portio::scenario::{
    carries_io, io_of, rflags_at, rflags_of, run_consistent, spec_accepts, take_io,
    scenario_start, spec_expected_output, spec_next_action, spec_scenario_start, HostOperation, ScenarioAction, ScenarioRun, Stage, StageCheck,
};
use vstd::prelude::*;

verus! {

pub const RAM_BASE: u64 = 0;
pub const FIRST_ENTRY: u64 = 0x1_0000;
pub const SECOND_ENTRY: u64 = 0x1_1000;
pub const HANDLER_ENTRY: u64 = 0x1_2000;
pub const FIRST_STACK: u64 = 0x1f_f000;
pub const SECOND_STACK: u64 = 0x1f_e000;
pub const MSI_ADDRESS_BASE: u64 = 0xfee0_0000;
pub const MSI_DESTINATION_SHIFT: u32 = 12;
pub const X86_RFLAGS_RESERVED_BIT: u64 = 1 << 1;
pub const TARGET_VECTOR: u8 = 0x51;
/// The MSI data dword carries the vector in its low byte, fixed delivery, edge.
pub const TARGET_MSI_DATA: u32 = 0x51;
/// The MSI address that targets APIC ID 1: the base with the destination field set.
pub const TARGET_MSI_ADDRESS: u64 = 0xfee0_1000;
pub const FIRST_VCPU_INDEX: u16 = 0;
pub const SECOND_VCPU_INDEX: u16 = 1;
pub const FIRST_PROOF: [u8; 3] = [0x30, 0x4d, 0x44];
pub const SECOND_PROOF: [u8; 4] = [0x52, 0x49, 0x31, 0x44];
pub const FIRST_GUEST_BYTES: [u8; 15] = [ 0xfb, 0x90, 0xb0, 0x30, 0xe6, 0xe9, 0xb0, 0x4d, 0xe6, 0xe9, 0xb0, 0x44, 0xe6, 0xe9, 0xf4, ];
pub const SECOND_GUEST_BYTES: [u8; 16] = [ 0xfa, 0xb0, 0x52, 0xe6, 0xe9, 0xfb, 0x90, 0xb0, 0x31, 0xe6, 0xe9, 0xb0, 0x44, 0xe6, 0xe9, 0xf4, ];
pub const HANDLER_BYTES: [u8; 6] = [ 0xb0, 0x49, 0xe6, 0xe9, 0x48, 0xcf, ];

#[derive(Debug, Clone, PartialEq, Eq)]
pub struct TwoVcpuTargetedMsiResult {
    pub first_io_exits: Vec<PortIoExit>,
    pub second_io_exits: Vec<PortIoExit>,
    pub first_proof: Vec<u8>,
    pub second_proof: Vec<u8>,
    pub first_barrier_rflags: u64,
    pub second_ready_rflags: u64,
    pub second_completion_rflags: u64,
    pub msi_address: u64,
    pub msi_data: u32,
    pub msi_delivery_count: u32,
}

impl TwoVcpuTargetedMsiResult {
    pub fn first_io_exits(&self) -> (r: &[PortIoExit])
        ensures r@ == self.first_io_exits@,
    {
        self.first_io_exits.as_slice()
    }

    pub fn second_io_exits(&self) -> (r: &[PortIoExit])
        ensures r@ == self.second_io_exits@,
    {
        self.second_io_exits.as_slice()
    }

    pub fn first_proof(&self) -> (r: &[u8])
        ensures r@ == self.first_proof@,
    {
        self.first_proof.as_slice()
    }

    pub fn second_proof(&self) -> (r: &[u8])
        ensures r@ == self.second_proof@,
    {
        self.second_proof.as_slice()
    }

    pub fn first_barrier_rflags(&self) -> (r: u64)
        ensures r == self.first_barrier_rflags,
    {
        self.first_barrier_rflags
    }

    pub fn second_ready_rflags(&self) -> (r: u64)
        ensures r == self.second_ready_rflags,
    {
        self.second_ready_rflags
    }

    pub fn second_completion_rflags(&self) -> (r: u64)
        ensures r == self.second_completion_rflags,
    {
        self.second_completion_rflags
    }

    pub fn msi_address(&self) -> (r: u64)
        ensures r == self.msi_address,
    {
        self.msi_address
    }

    pub fn msi_data(&self) -> (r: u32)
        ensures r == self.msi_data,
    {
        self.msi_data
    }

    pub fn msi_delivery_count(&self) -> (r: u32)
        ensures r == self.msi_delivery_count,
    {
        self.msi_delivery_count
    }
}


/// The stages of the targeted-MSI scenario: one host MSI reaches only the second vCPU.
pub open spec fn spec_targeted_msi_script() -> Seq<Stage> {
    seq![
        Stage { vcpu: 1, check: StageCheck::DebugOutput(0x52), name: "targeted MSI second-vCPU readiness", vm_error: false },
        Stage { vcpu: 1, check: StageCheck::InterruptsDisabled, name: "targeted MSI second-vCPU readiness state", vm_error: false },
        Stage { vcpu: 0, check: StageCheck::DebugOutput(0x30), name: "targeted MSI first-vCPU isolation barrier", vm_error: false },
        Stage { vcpu: 0, check: StageCheck::InterruptsEnabled, name: "targeted MSI first-vCPU barrier state", vm_error: false },
        Stage { vcpu: 0, check: StageCheck::HostCount { operation: HostOperation::SignalMsi, expected: 1 }, name: "targeted MSI delivery count", vm_error: false },
        Stage { vcpu: 1, check: StageCheck::DebugOutput(0x49), name: "targeted MSI second-vCPU handler", vm_error: false },
        Stage { vcpu: 1, check: StageCheck::DebugOutput(0x31), name: "targeted MSI second-vCPU mainline", vm_error: false },
        Stage { vcpu: 1, check: StageCheck::DebugOutput(0x44), name: "targeted MSI second-vCPU completion", vm_error: false },
        Stage { vcpu: 1, check: StageCheck::InterruptsEnabled, name: "targeted MSI second-vCPU completion state", vm_error: false },
        Stage { vcpu: 0, check: StageCheck::DebugOutput(0x4d), name: "targeted MSI first-vCPU post-delivery isolation", vm_error: false },
        Stage { vcpu: 0, check: StageCheck::DebugOutput(0x44), name: "targeted MSI first-vCPU completion", vm_error: false },
        Stage { vcpu: 0, check: StageCheck::InterruptsEnabled, name: "targeted MSI first-vCPU completion state", vm_error: false },
    ]
}

pub fn targeted_msi_script() -> (r: Vec<Stage>)
    ensures r@ == spec_targeted_msi_script(),
{
    let mut v: Vec<Stage> = Vec::new();
    v.push(Stage { vcpu: 1, check: StageCheck::DebugOutput(0x52), name: "targeted MSI second-vCPU readiness", vm_error: false });
    v.push(Stage { vcpu: 1, check: StageCheck::InterruptsDisabled, name: "targeted MSI second-vCPU readiness state", vm_error: false });
    v.push(Stage { vcpu: 0, check: StageCheck::DebugOutput(0x30), name: "targeted MSI first-vCPU isolation barrier", vm_error: false });
    v.push(Stage { vcpu: 0, check: StageCheck::InterruptsEnabled, name: "targeted MSI first-vCPU barrier state", vm_error: false });
    v.push(Stage { vcpu: 0, check: StageCheck::HostCount { operation: HostOperation::SignalMsi, expected: 1 }, name: "targeted MSI delivery count", vm_error: false });
    v.push(Stage { vcpu: 1, check: StageCheck::DebugOutput(0x49), name: "targeted MSI second-vCPU handler", vm_error: false });
    v.push(Stage { vcpu: 1, check: StageCheck::DebugOutput(0x31), name: "targeted MSI second-vCPU mainline", vm_error: false });
    v.push(Stage { vcpu: 1, check: StageCheck::DebugOutput(0x44), name: "targeted MSI second-vCPU completion", vm_error: false });
    v.push(Stage { vcpu: 1, check: StageCheck::InterruptsEnabled, name: "targeted MSI second-vCPU completion state", vm_error: false });
    v.push(Stage { vcpu: 0, check: StageCheck::DebugOutput(0x4d), name: "targeted MSI first-vCPU post-delivery isolation", vm_error: false });
    v.push(Stage { vcpu: 0, check: StageCheck::DebugOutput(0x44), name: "targeted MSI first-vCPU completion", vm_error: false });
    v.push(Stage { vcpu: 0, check: StageCheck::InterruptsEnabled, name: "targeted MSI first-vCPU completion state", vm_error: false });
    proof {
        assert(v@ =~= spec_targeted_msi_script());
    }
    v
}

/// Starts a run of the targeted-MSI scenario; the action asks for the first stage.
pub fn targeted_msi_start() -> (r: (ScenarioRun, ScenarioAction))
    ensures
        r.0@ == spec_scenario_start(spec_targeted_msi_script()),
        r.1 == spec_next_action(r.0@),
{
    scenario_start(targeted_msi_script())
}


/// A run of the targeted-MSI script that observed every stage made the first vCPU print "0MD"
/// and the second "RI1D": the proofs the scenario reports.
pub proof fn lemma_targeted_msi_outputs()
    ensures
        spec_expected_output(spec_targeted_msi_script(), 0) == FIRST_PROOF@,
        spec_expected_output(spec_targeted_msi_script(), 1) == SECOND_PROOF@,
{
    reveal_with_fuel(spec_expected_output, 13);
    assert(FIRST_PROOF@ =~= seq![0x30u8, 0x4d, 0x44]);
    assert(SECOND_PROOF@ =~= seq![0x52u8, 0x49, 0x31, 0x44]);
    assert(spec_expected_output(spec_targeted_msi_script(), 0) =~= seq![0x30u8, 0x4d, 0x44]);
    assert(spec_expected_output(spec_targeted_msi_script(), 1) =~= seq![0x52u8, 0x49, 0x31, 0x44]);
}


/// The result of a targeted-MSI run that observed every stage: the debug-port exits of each
/// vCPU in order, the proofs they printed, the RFLAGS values the stages read, and the MSI the
/// host delivered exactly once.
pub fn targeted_msi_result(run: ScenarioRun) -> (r: TwoVcpuTargetedMsiResult)
    requires
        run@.script == spec_targeted_msi_script(),
        run_consistent(run@),
        run@.position == run@.script.len(),
    ensures
        ({
            let o = run@.observations;
            &&& r.first_io_exits@ == seq![io_of(o[2]), io_of(o[9]), io_of(o[10])]
            &&& r.second_io_exits@ == seq![io_of(o[0]), io_of(o[5]), io_of(o[6]), io_of(o[7])]
            &&& r.first_proof@ == FIRST_PROOF@
            &&& r.second_proof@ == SECOND_PROOF@
            &&& r.first_barrier_rflags == rflags_of(o[3])
            &&& r.second_ready_rflags == rflags_of(o[1])
            &&& r.second_completion_rflags == rflags_of(o[8])
            &&& r.msi_address == TARGET_MSI_ADDRESS
            &&& r.msi_data == TARGET_MSI_DATA
            &&& r.msi_delivery_count == 1
        }),
{
    let ghost script = spec_targeted_msi_script();
    proof {
        assert(script.take(script.len() as int) =~= script);
        lemma_targeted_msi_outputs();
        assert forall|k: int| 0 <= k < script.len() && (script[k].check is DebugOutput)
            implies carries_io(#[trigger] run@.observations[k]) by {
            assert(spec_accepts(script[k].check, run@.observations[k]));
        }
    }
    let first_proof = run.debug_output(0);
    let second_proof = run.debug_output(1);
    let mut events = run.into_observations();
    let ghost o = events@;
    assert(script[2].check is DebugOutput && script[9].check is DebugOutput && script[10].check is DebugOutput);
    assert(script[0].check is DebugOutput && script[5].check is DebugOutput && script[6].check is DebugOutput);
    assert(script[7].check is DebugOutput);
    let first_barrier_rflags = rflags_at(&events, 3);
    let second_ready_rflags = rflags_at(&events, 1);
    let second_completion_rflags = rflags_at(&events, 8);
    let mut first_io_exits: Vec<PortIoExit> = Vec::new();
    first_io_exits.push(take_io(&mut events, 2));
    first_io_exits.push(take_io(&mut events, 9));
    first_io_exits.push(take_io(&mut events, 10));
    let mut second_io_exits: Vec<PortIoExit> = Vec::new();
    second_io_exits.push(take_io(&mut events, 0));
    second_io_exits.push(take_io(&mut events, 5));
    second_io_exits.push(take_io(&mut events, 6));
    second_io_exits.push(take_io(&mut events, 7));
    proof {
        assert(first_io_exits@ =~= seq![io_of(o[2]), io_of(o[9]), io_of(o[10])]);
        assert(second_io_exits@ =~= seq![io_of(o[0]), io_of(o[5]), io_of(o[6]), io_of(o[7])]);
    }
    TwoVcpuTargetedMsiResult {
        first_io_exits,
        second_io_exits,
        first_proof,
        second_proof,
        first_barrier_rflags,
        second_ready_rflags,
        second_completion_rflags,
        msi_address: TARGET_MSI_ADDRESS,
        msi_data: TARGET_MSI_DATA,
        msi_delivery_count: 1,
    }
}

} // verus!
