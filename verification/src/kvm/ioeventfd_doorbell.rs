//! The ioeventfd doorbell scenario: a guest store to a doorbell address is absorbed by the
//! kernel (no MMIO exit), signals an eventfd, and the host answers through an irqfd whose
//! interrupt the guest handles.
//!
//! This module holds the fixed guest program, the report of a run, and the checks each stage of
//! a run must pass.
use crate::error::{Error, HostEnvironmentError, HostIoCause, KvmCapabilityError};
use crate::kvm::host_registration::KVM_CAP_IOEVENTFD;
use crate::kvm::irqchip::{IRQCHIP_GSI, IRQCHIP_VECTOR};
use crate::vcpu::PortIoExit;
use crate::portio::scenario::{
    carries_io, io_of, rflags_at, rflags_of, run_consistent, spec_accepts, take_io,
    scenario_start, spec_expected_output, spec_next_action, spec_scenario_start, HostOperation, ScenarioAction, ScenarioRun, Stage, StageCheck,
};
use vstd::prelude::*;

verus! {

pub const IOEVENTFD_DOORBELL_VALUE: u8 = 0x57;
pub const IOEVENTFD_READY_BYTE: u8 = 0x52;
pub const IOEVENTFD_BARRIER_BYTE: u8 = 0x42;
pub const IOEVENTFD_HANDLER_BYTE: u8 = 0x49;
pub const IOEVENTFD_RESUMED_BYTE: u8 = 0x4d;
pub const IOEVENTFD_DONE_BYTE: u8 = 0x44;
pub const IOEVENTFD_WORKER_TIMEOUT_SECONDS: u64 = 5;
/// The guest-physical address of the doorbell the guest program stores to.
pub const IOEVENTFD_DOORBELL_GPA: u64 = 0x50_0000;
pub const IOEVENTFD_DOORBELL_GSI: u32 = IRQCHIP_GSI;
pub const IOEVENTFD_DOORBELL_VECTOR: u8 = IRQCHIP_VECTOR;
/// "RBIMD": ready, past the doorbell without an exit, handler, resumed, done.
pub const IOEVENTFD_DOORBELL_PROOF: [u8; 5] = [0x52, 0x42, 0x49, 0x4d, 0x44];

/// Programs both PICs with only IRQ0 unmasked, reports "R" with interrupts off, stores the
/// doorbell value to `IOEVENTFD_DOORBELL_GPA`, reports "B", then `sti; hlt` until the irqfd
/// interrupt arrives, and reports "M" and "D" after the handler returned.
pub const IOEVENTFD_GUEST_BYTES: [u8; 69] = [
    0xfa, 0xb0, 0x11, 0xe6, 0x20, 0xe6, 0xa0, 0xb0, 0x40, 0xe6, 0x21, 0xb0, 0x48, 0xe6,
    0xa1, 0xb0, 0x04, 0xe6, 0x21, 0xb0, 0x02, 0xe6, 0xa1, 0xb0, 0x01, 0xe6, 0x21, 0xe6,
    0xa1, 0xb0, 0xfe, 0xe6, 0x21, 0xb0, 0xff, 0xe6, 0xa1, 0xb0, IOEVENTFD_READY_BYTE, 0xe6, 0xe9, 0x48,
    0xbb, 0x00, 0x00, 0x50, 0x00, 0x00, 0x00, 0x00, 0x00, 0xc6, 0x03, IOEVENTFD_DOORBELL_VALUE, 0xb0, IOEVENTFD_BARRIER_BYTE,
    0xe6, 0xe9, 0xfb, 0xf4, 0xb0, IOEVENTFD_RESUMED_BYTE, 0xe6, 0xe9, 0xb0, IOEVENTFD_DONE_BYTE, 0xe6, 0xe9, 0xf4,
];

/// Reports "I", sends a non-specific EOI to the master PIC, and returns.
pub const IOEVENTFD_HANDLER_BYTES: [u8; 10] = [
    0xb0, IOEVENTFD_HANDLER_BYTE, 0xe6, 0xe9, 0xb0, 0x20, 0xe6, 0x20, 0x48, 0xcf,
];

/// What a doorbell run reports.
#[derive(Debug, Clone, PartialEq, Eq)]
pub struct IoeventfdDoorbellGuestResult {
    pub doorbell_gpa: u64,
    pub doorbell_value: u8,
    pub doorbell_event_count: u64,
    pub userspace_mmio_exit_count: u32,
    pub gsi: u32,
    pub vector: u8,
    pub lapic_spiv: u32,
    pub lapic_lint0: u32,
    pub doorbell_rflags: u64,
    pub completion_rflags: u64,
    pub io_exits: Vec<PortIoExit>,
    pub proof: Vec<u8>,
}

impl IoeventfdDoorbellGuestResult {
    /// The report of a run that passed every check: the doorbell address, value, GSI and vector
    /// are the fixed ones, and no doorbell store reached userspace as an MMIO exit.
    pub fn from_run(
        doorbell_event_count: u64,
        lapic_spiv: u32,
        lapic_lint0: u32,
        doorbell_rflags: u64,
        completion_rflags: u64,
        io_exits: Vec<PortIoExit>,
        proof: Vec<u8>,
    ) -> (r: Self)
        ensures
            r.doorbell_gpa == IOEVENTFD_DOORBELL_GPA,
            r.doorbell_value == IOEVENTFD_DOORBELL_VALUE,
            r.doorbell_event_count == doorbell_event_count,
            r.userspace_mmio_exit_count == 0,
            r.gsi == IOEVENTFD_DOORBELL_GSI,
            r.vector == IOEVENTFD_DOORBELL_VECTOR,
            r.lapic_spiv == lapic_spiv,
            r.lapic_lint0 == lapic_lint0,
            r.doorbell_rflags == doorbell_rflags,
            r.completion_rflags == completion_rflags,
            r.io_exits@ == io_exits@,
            r.proof@ == proof@,
    {
        IoeventfdDoorbellGuestResult {
            doorbell_gpa: IOEVENTFD_DOORBELL_GPA,
            doorbell_value: IOEVENTFD_DOORBELL_VALUE,
            doorbell_event_count,
            userspace_mmio_exit_count: 0,
            gsi: IOEVENTFD_DOORBELL_GSI,
            vector: IOEVENTFD_DOORBELL_VECTOR,
            lapic_spiv,
            lapic_lint0,
            doorbell_rflags,
            completion_rflags,
            io_exits,
            proof,
        }
    }

    pub fn doorbell_gpa(&self) -> (r: u64)
        ensures r == self.doorbell_gpa,
    {
        self.doorbell_gpa
    }

    pub fn doorbell_value(&self) -> (r: u8)
        ensures r == self.doorbell_value,
    {
        self.doorbell_value
    }

    pub fn doorbell_event_count(&self) -> (r: u64)
        ensures r == self.doorbell_event_count,
    {
        self.doorbell_event_count
    }

    pub fn userspace_mmio_exit_count(&self) -> (r: u32)
        ensures r == self.userspace_mmio_exit_count,
    {
        self.userspace_mmio_exit_count
    }

    pub fn gsi(&self) -> (r: u32)
        ensures r == self.gsi,
    {
        self.gsi
    }

    pub fn vector(&self) -> (r: u8)
        ensures r == self.vector,
    {
        self.vector
    }

    pub fn lapic_spiv(&self) -> (r: u32)
        ensures r == self.lapic_spiv,
    {
        self.lapic_spiv
    }

    pub fn lapic_lint0(&self) -> (r: u32)
        ensures r == self.lapic_lint0,
    {
        self.lapic_lint0
    }

    pub fn doorbell_rflags(&self) -> (r: u64)
        ensures r == self.doorbell_rflags,
    {
        self.doorbell_rflags
    }

    pub fn completion_rflags(&self) -> (r: u64)
        ensures r == self.completion_rflags,
    {
        self.completion_rflags
    }

    pub fn io_exits(&self) -> (r: &[PortIoExit])
        ensures r@ == self.io_exits@,
    {
        self.io_exits.as_slice()
    }

    pub fn proof_bytes(&self) -> (r: &[u8])
        ensures r@ == self.proof@,
    {
        self.proof.as_slice()
    }
}

/// A VM-level step of the run that failed at `operation`.
pub open spec fn doorbell_error(operation: &'static str) -> Error {
    Error::HostEnvironment(HostEnvironmentError::VmOperation { operation, source: HostIoCause::InvalidData })
}

fn doorbell_check_error(operation: &'static str) -> (r: Error)
    ensures r == doorbell_error(operation),
{
    Error::HostEnvironment(HostEnvironmentError::VmOperation { operation, source: HostIoCause::InvalidData })
}

/// The host's answer to the ioeventfd capability query must be positive.
pub fn require_ioeventfd_capability(value: i32) -> (r: Result<(), Error>)
    ensures
        value > 0 ==> r is Ok,
        value <= 0 ==> r == Err::<(), Error>(Error::KvmCapability(KvmCapabilityError::MissingExtension {
            name: "KVM_CAP_IOEVENTFD",
            id: KVM_CAP_IOEVENTFD,
        })),
{
    if value <= 0 {
        return Err(Error::KvmCapability(KvmCapabilityError::MissingExtension {
            name: "KVM_CAP_IOEVENTFD",
            id: KVM_CAP_IOEVENTFD,
        }));
    }
    Ok(())
}

/// The doorbell eventfd must have been signalled exactly once by the time it is read.
pub fn check_doorbell_event_count(count: u64) -> (r: Result<u64, Error>)
    ensures
        count == 1 ==> r == Ok::<u64, Error>(1),
        count != 1 ==> r == Err::<u64, Error>(doorbell_error("ioeventfd doorbell worker")),
{
    if count != 1 {
        return Err(doorbell_check_error("ioeventfd doorbell worker"));
    }
    Ok(count)
}

/// After the run: the watchdog must not have injected its fallback interrupt, and the debug
/// port must have received exactly "RBIMD", one byte per I/O exit.
pub fn validate_doorbell_roundtrip(watchdog_fired: bool, proof: &[u8], io_exit_count: usize) -> (r: Result<(), Error>)
    ensures
        watchdog_fired ==> r == Err::<(), Error>(doorbell_error("ioeventfd doorbell watchdog")),
        !watchdog_fired && (proof@ != IOEVENTFD_DOORBELL_PROOF@ || io_exit_count != 5)
            ==> r == Err::<(), Error>(doorbell_error("ioeventfd doorbell roundtrip proof")),
        !watchdog_fired && proof@ == IOEVENTFD_DOORBELL_PROOF@ && io_exit_count == 5 ==> r is Ok,
{
    if watchdog_fired {
        return Err(doorbell_check_error("ioeventfd doorbell watchdog"));
    }
    let expected = IOEVENTFD_DOORBELL_PROOF;
    let mut same = proof.len() == 5;
    let mut i: usize = 0;
    while same && i < 5
        invariant
            0 <= i <= 5,
            same ==> proof@.len() == 5,
            same ==> forall|j: int| 0 <= j < i ==> proof@[j] == expected@[j],
            !same ==> proof@ != IOEVENTFD_DOORBELL_PROOF@,
            expected@ == IOEVENTFD_DOORBELL_PROOF@,
        decreases 5 - i,
    {
        if proof[i] != expected[i] {
            same = false;
        }
        i = i + 1;
    }
    if same {
        assert(proof@ =~= IOEVENTFD_DOORBELL_PROOF@);
    }
    if !same || io_exit_count != 5 {
        return Err(doorbell_check_error("ioeventfd doorbell roundtrip proof"));
    }
    Ok(())
}

/// The stages of the doorbell roundtrip: the guest's doorbell write is counted by the eventfd, and the host answers through the irqfd.
pub open spec fn spec_ioeventfd_doorbell_script() -> Seq<Stage> {
    seq![
        Stage { vcpu: 0, check: StageCheck::DebugOutput(0x52), name: "ioeventfd doorbell readiness output", vm_error: true },
        Stage { vcpu: 0, check: StageCheck::DebugOutput(0x42), name: "ioeventfd doorbell completion barrier", vm_error: true },
        Stage { vcpu: 0, check: StageCheck::InterruptsDisabled, name: "ioeventfd doorbell barrier state", vm_error: true },
        Stage { vcpu: 0, check: StageCheck::HostCount { operation: HostOperation::WaitDoorbell(0), expected: 1 }, name: "ioeventfd doorbell worker", vm_error: true },
        Stage { vcpu: 0, check: StageCheck::Host(HostOperation::RaiseInterrupt(0)), name: "ioeventfd doorbell worker", vm_error: true },
        Stage { vcpu: 0, check: StageCheck::DebugOutput(0x49), name: "ioeventfd response interrupt handler", vm_error: true },
        Stage { vcpu: 0, check: StageCheck::DebugOutput(0x4d), name: "ioeventfd resumed main output", vm_error: true },
        Stage { vcpu: 0, check: StageCheck::DebugOutput(0x44), name: "ioeventfd completion barrier", vm_error: true },
        Stage { vcpu: 0, check: StageCheck::InterruptsEnabled, name: "ioeventfd completion state", vm_error: true },
        Stage { vcpu: 0, check: StageCheck::HostCount { operation: HostOperation::StopWatchdog, expected: 0 }, name: "ioeventfd doorbell watchdog", vm_error: true },
    ]
}

pub fn ioeventfd_doorbell_script() -> (r: Vec<Stage>)
    ensures r@ == spec_ioeventfd_doorbell_script(),
{
    let mut v: Vec<Stage> = Vec::new();
    v.push(Stage { vcpu: 0, check: StageCheck::DebugOutput(0x52), name: "ioeventfd doorbell readiness output", vm_error: true });
    v.push(Stage { vcpu: 0, check: StageCheck::DebugOutput(0x42), name: "ioeventfd doorbell completion barrier", vm_error: true });
    v.push(Stage { vcpu: 0, check: StageCheck::InterruptsDisabled, name: "ioeventfd doorbell barrier state", vm_error: true });
    v.push(Stage { vcpu: 0, check: StageCheck::HostCount { operation: HostOperation::WaitDoorbell(0), expected: 1 }, name: "ioeventfd doorbell worker", vm_error: true });
    v.push(Stage { vcpu: 0, check: StageCheck::Host(HostOperation::RaiseInterrupt(0)), name: "ioeventfd doorbell worker", vm_error: true });
    v.push(Stage { vcpu: 0, check: StageCheck::DebugOutput(0x49), name: "ioeventfd response interrupt handler", vm_error: true });
    v.push(Stage { vcpu: 0, check: StageCheck::DebugOutput(0x4d), name: "ioeventfd resumed main output", vm_error: true });
    v.push(Stage { vcpu: 0, check: StageCheck::DebugOutput(0x44), name: "ioeventfd completion barrier", vm_error: true });
    v.push(Stage { vcpu: 0, check: StageCheck::InterruptsEnabled, name: "ioeventfd completion state", vm_error: true });
    v.push(Stage { vcpu: 0, check: StageCheck::HostCount { operation: HostOperation::StopWatchdog, expected: 0 }, name: "ioeventfd doorbell watchdog", vm_error: true });
    proof {
        assert(v@ =~= spec_ioeventfd_doorbell_script());
    }
    v
}

/// Starts a run of the doorbell roundtrip; the action asks for the first stage.
pub fn ioeventfd_doorbell_start() -> (r: (ScenarioRun, ScenarioAction))
    ensures
        r.0@ == spec_scenario_start(spec_ioeventfd_doorbell_script()),
        r.1 == spec_next_action(r.0@),
{
    scenario_start(ioeventfd_doorbell_script())
}


/// A doorbell run that observed every stage made the vCPU print "RBIMD".
pub proof fn lemma_ioeventfd_doorbell_outputs()
    ensures
        spec_expected_output(spec_ioeventfd_doorbell_script(), 0) == IOEVENTFD_DOORBELL_PROOF@,
{
    reveal_with_fuel(spec_expected_output, 11);
    assert(IOEVENTFD_DOORBELL_PROOF@ =~= seq![0x52u8, 0x42, 0x49, 0x4d, 0x44]);
    assert(spec_expected_output(spec_ioeventfd_doorbell_script(), 0) =~= seq![0x52u8, 0x42, 0x49, 0x4d, 0x44]);
}


/// The result of a doorbell run that observed every stage, with the local-APIC registers the
/// host programmed: the debug-port exits in order, the RFLAGS values the stages read, the single
/// doorbell write the eventfd counted, and the proof the vCPU printed.
pub fn ioeventfd_doorbell_result(run: ScenarioRun, lapic_spiv: u32, lapic_lint0: u32) -> (r: IoeventfdDoorbellGuestResult)
    requires
        run@.script == spec_ioeventfd_doorbell_script(),
        run_consistent(run@),
        run@.position == run@.script.len(),
    ensures
        ({
            let o = run@.observations;
            &&& r.io_exits@ == seq![io_of(o[0]), io_of(o[1]), io_of(o[5]), io_of(o[6]), io_of(o[7])]
            &&& r.proof@ == IOEVENTFD_DOORBELL_PROOF@
            &&& r.doorbell_rflags == rflags_of(o[2])
            &&& r.completion_rflags == rflags_of(o[8])
            &&& r.doorbell_event_count == 1
            &&& r.doorbell_gpa == IOEVENTFD_DOORBELL_GPA
            &&& r.doorbell_value == IOEVENTFD_DOORBELL_VALUE
            &&& r.userspace_mmio_exit_count == 0
            &&& r.gsi == IOEVENTFD_DOORBELL_GSI
            &&& r.vector == IOEVENTFD_DOORBELL_VECTOR
            &&& r.lapic_spiv == lapic_spiv
            &&& r.lapic_lint0 == lapic_lint0
        }),
{
    let ghost script = spec_ioeventfd_doorbell_script();
    proof {
        assert(script.take(script.len() as int) =~= script);
        lemma_ioeventfd_doorbell_outputs();
        assert forall|k: int| 0 <= k < script.len() && (script[k].check is DebugOutput)
            implies carries_io(#[trigger] run@.observations[k]) by {
            assert(spec_accepts(script[k].check, run@.observations[k]));
        }
    }
    let proof_bytes = run.debug_output(0);
    let mut events = run.into_observations();
    let ghost o = events@;
    assert(script[0].check is DebugOutput && script[1].check is DebugOutput && script[5].check is DebugOutput);
    assert(script[6].check is DebugOutput && script[7].check is DebugOutput);
    let doorbell_rflags = rflags_at(&events, 2);
    let completion_rflags = rflags_at(&events, 8);
    let mut io_exits: Vec<PortIoExit> = Vec::new();
    io_exits.push(take_io(&mut events, 0));
    io_exits.push(take_io(&mut events, 1));
    io_exits.push(take_io(&mut events, 5));
    io_exits.push(take_io(&mut events, 6));
    io_exits.push(take_io(&mut events, 7));
    proof {
        assert(io_exits@ =~= seq![io_of(o[0]), io_of(o[1]), io_of(o[5]), io_of(o[6]), io_of(o[7])]);
    }
    IoeventfdDoorbellGuestResult::from_run(1, lapic_spiv, lapic_lint0, doorbell_rflags, completion_rflags, io_exits,
        proof_bytes)
}

} // verus!
