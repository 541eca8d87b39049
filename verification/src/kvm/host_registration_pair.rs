//! Two host registrations owned together: canonical doorbell order, disjoint doorbell ranges and
//! distinct GSIs; and the fixed two-device guest that exercises them.
use crate::error::{Error, HostEnvironmentError, HostIoCause};
use crate::kvm::host_registration::HostRegistrationSpec;
use crate::portio::scenario::{
    rflags_at, rflags_of, run_consistent,
    scenario_start, spec_expected_output, spec_next_action, spec_scenario_start, HostOperation, ScenarioAction, ScenarioRun, Stage, StageCheck,
};
use vstd::prelude::*;

verus! {

pub const TWO_HOST_REGISTRATION_FIRST_BAR: u64 = 0x1000_0000;
pub const TWO_HOST_REGISTRATION_SECOND_BAR: u64 = 0x1000_1000;
pub const TWO_HOST_REGISTRATION_FIRST_DOORBELL: u64 = 0x1000_0100;
pub const TWO_HOST_REGISTRATION_SECOND_DOORBELL: u64 = 0x1000_1100;
pub const TWO_HOST_REGISTRATION_FIRST_VIRTUAL_PAGE: u64 = 0x50_0000;
pub const TWO_HOST_REGISTRATION_SECOND_VIRTUAL_PAGE: u64 = 0x50_1000;
pub const TWO_HOST_REGISTRATION_FIRST_GSI: u32 = 0;
pub const TWO_HOST_REGISTRATION_SECOND_GSI: u32 = 1;
pub const TWO_HOST_REGISTRATION_FIRST_VECTOR: u8 = 0x40;
pub const TWO_HOST_REGISTRATION_SECOND_VECTOR: u8 = 0x41;
pub const TWO_HOST_REGISTRATION_READY: u8 = 0x52;
pub const TWO_HOST_REGISTRATION_FIRST_ARMED_GEN1: u8 = 0x41;
pub const TWO_HOST_REGISTRATION_FIRST_RESUMED_GEN1: u8 = 0x4d;
pub const TWO_HOST_REGISTRATION_SECOND_ARMED_GEN1: u8 = 0x42;
pub const TWO_HOST_REGISTRATION_SECOND_RESUMED_GEN1: u8 = 0x4e;
pub const TWO_HOST_REGISTRATION_RECONSTRUCT: u8 = 0x43;
pub const TWO_HOST_REGISTRATION_FIRST_ARMED_GEN2: u8 = 0x45;
pub const TWO_HOST_REGISTRATION_FIRST_RESUMED_GEN2: u8 = 0x50;
pub const TWO_HOST_REGISTRATION_SECOND_ARMED_GEN2: u8 = 0x46;
pub const TWO_HOST_REGISTRATION_SECOND_RESUMED_GEN2: u8 = 0x51;
pub const TWO_HOST_REGISTRATION_DONE: u8 = 0x44;
pub const TWO_HOST_REGISTRATION_FIRST_HANDLER: u8 = 0x30;
pub const TWO_HOST_REGISTRATION_SECOND_HANDLER_BYTE: u8 = 0x31;
pub const TWO_HOST_REGISTRATION_PROOF: [u8; 15] = [
    0x52, 0x41, 0x30, 0x4d, 0x42, 0x31, 0x4e, 0x43, 0x45, 0x30, 0x50, 0x46, 0x31, 0x51, 0x44,
];

/// The debug-port proof the two-registration guest emits.
pub fn two_host_registration_proof() -> (r: [u8; 15])
    ensures r@ == seq![0x52u8, 0x41, 0x30, 0x4d, 0x42, 0x31, 0x4e, 0x43, 0x45, 0x30, 0x50, 0x46, 0x31, 0x51, 0x44],
{
    let r = [0x52u8, 0x41, 0x30, 0x4d, 0x42, 0x31, 0x4e, 0x43, 0x45, 0x30, 0x50, 0x46, 0x31, 0x51, 0x44];
    assert(r@ =~= seq![0x52u8, 0x41, 0x30, 0x4d, 0x42, 0x31, 0x4e, 0x43, 0x45, 0x30, 0x50, 0x46, 0x31, 0x51, 0x44]);
    r
}

/// The error reported for a pair that overlaps or shares a GSI.
pub open spec fn pair_error() -> Error {
    Error::HostEnvironment(HostEnvironmentError::VmOperation {
        operation: "validate host registration pair",
        source: HostIoCause::InvalidInput,
    })
}

/// Two registrations in ascending doorbell order.
#[derive(Debug, Clone, Copy, PartialEq, Eq)]
pub struct HostRegistrationSpecPair {
    pub specs: [HostRegistrationSpec; 2],
}

impl HostRegistrationSpecPair {
    /// The pair is valid when, in ascending doorbell order, the first doorbell range ends at or
    /// before the second begins, and the two GSIs differ.
    pub open spec fn spec_valid(low: HostRegistrationSpec, high: HostRegistrationSpec) -> bool {
        &&& low.doorbell_address + low.doorbell_length <= high.doorbell_address
        &&& low.gsi != high.gsi
    }

    pub open spec fn wf(self) -> bool {
        &&& self.specs[0].wf()
        &&& self.specs[1].wf()
        &&& Self::spec_valid(self.specs[0], self.specs[1])
    }

    /// The pair made of two descriptors: ordered by doorbell address, then validated.
    pub open spec fn spec_new(specs: [HostRegistrationSpec; 2]) -> Result<Self, Error> {
        let (low, high) = if specs[0].doorbell_address <= specs[1].doorbell_address {
            (specs[0], specs[1])
        } else {
            (specs[1], specs[0])
        };
        if Self::spec_valid(low, high) {
            Ok(HostRegistrationSpecPair { specs: [low, high] })
        } else {
            Err(pair_error())
        }
    }

    /// Orders the two descriptors by doorbell address and validates them as a pair.
    pub fn new(specs: [HostRegistrationSpec; 2]) -> (r: Result<Self, Error>)
        requires
            specs[0].wf(),
            specs[1].wf(),
        ensures
            r == Self::spec_new(specs),
            r is Ok ==> r->Ok_0.wf(),
    {
        let (low, high) = if specs[0].doorbell_address <= specs[1].doorbell_address {
            (specs[0], specs[1])
        } else {
            (specs[1], specs[0])
        };
        let error = Error::HostEnvironment(HostEnvironmentError::VmOperation {
            operation: "validate host registration pair",
            source: HostIoCause::InvalidInput,
        });
        if low.doorbell_address + low.doorbell_length as u64 > high.doorbell_address {
            return Err(error);
        }
        if low.gsi == high.gsi {
            return Err(error);
        }
        Ok(HostRegistrationSpecPair { specs: [low, high] })
    }

    pub fn specs(self) -> (r: [HostRegistrationSpec; 2])
        ensures r == self.specs,
    {
        self.specs
    }
}

/// Revalidating a valid pair gives the same pair back: ordering and validation are idempotent.
pub proof fn lemma_pair_new_idempotent(p: HostRegistrationSpecPair)
    requires p.wf(),
    ensures HostRegistrationSpecPair::spec_new(p.specs) == Ok::<HostRegistrationSpecPair, Error>(p),
{
    let q = HostRegistrationSpecPair { specs: [p.specs[0], p.specs[1]] };
    assert(q.specs@ =~= p.specs@);
    assert(q.specs =~= p.specs);
}

/// What survives a checkpoint of a registration pair: the two descriptors and nothing else.
#[derive(Debug, Clone, Copy, PartialEq, Eq)]
pub struct HostRegistrationPairCheckpoint {
    pub pair: HostRegistrationSpecPair,
}

impl HostRegistrationPairCheckpoint {
    pub fn capture(pair: HostRegistrationSpecPair) -> (r: Self)
        ensures r.pair == pair,
    {
        HostRegistrationPairCheckpoint { pair }
    }

    pub fn pair(&self) -> (r: HostRegistrationSpecPair)
        ensures r == self.pair,
    {
        self.pair
    }
}

/// What the two-registration acceleration run observed.
#[derive(Debug, Clone, PartialEq, Eq)]
pub struct TwoHostRegistrationAccelerationResult {
    pub doorbells: [u64; 2],
    pub gsis: [u32; 2],
    pub vectors: [u8; 2],
    pub generation_doorbell_events: [[u64; 2]; 2],
    pub proof: Vec<u8>,
    pub completion_rflags: u64,
}

impl TwoHostRegistrationAccelerationResult {
    pub fn doorbells(&self) -> (r: [u64; 2])
        ensures r == self.doorbells,
    {
        self.doorbells
    }

    pub fn gsis(&self) -> (r: [u32; 2])
        ensures r == self.gsis,
    {
        self.gsis
    }

    pub fn vectors(&self) -> (r: [u8; 2])
        ensures r == self.vectors,
    {
        self.vectors
    }

    pub fn generation_doorbell_events(&self) -> (r: [[u64; 2]; 2])
        ensures r == self.generation_doorbell_events,
    {
        self.generation_doorbell_events
    }

    pub fn proof_bytes(&self) -> (r: &[u8])
        ensures r@ == self.proof@,
    {
        self.proof.as_slice()
    }

    pub fn completion_rflags(&self) -> (r: u64)
        ensures r == self.completion_rflags,
    {
        self.completion_rflags
    }
}

/// Appends `bytes` to `code`.
pub fn append_bytes(code: &mut Vec<u8>, bytes: &[u8])
    ensures final(code)@ == old(code)@ + bytes@,
{
    let n = bytes.len();
    let mut i: usize = 0;
    while i < n
        invariant
            n == bytes@.len(),
            0 <= i <= n,
            code@ == old(code)@ + bytes@.subrange(0, i as int),
        decreases n - i,
    {
        code.push(bytes[i]);
        i = i + 1;
        assert(code@ =~= old(code)@ + bytes@.subrange(0, i as int));
    }
    assert(bytes@.subrange(0, n as int) =~= bytes@);
}

/// `mov al, byte; out 0xe9, al`: one debug-port proof byte.
pub open spec fn debug_out(byte: u8) -> Seq<u8> {
    seq![0xb0u8, byte, 0xe6, 0xe9]
}

/// `mov word [reg + 0x100], 0`: a doorbell write through the register `modrm` selects.
pub open spec fn doorbell_write(modrm: u8) -> Seq<u8> {
    seq![0x66u8, 0xc7, modrm, 0x00, 0x01, 0x00, 0x00, 0x00, 0x00]
}

/// Legacy PIC initialisation with IRQ0 and IRQ1 unmasked on the master and every slave IRQ
/// masked, preceded by `cli`.
pub open spec fn pic_setup() -> Seq<u8> {
    seq![
        0xfau8, 0xb0, 0x11, 0xe6, 0x20, 0xe6, 0xa0, 0xb0, 0x40, 0xe6, 0x21, 0xb0, 0x48, 0xe6, 0xa1,
        0xb0, 0x04, 0xe6, 0x21, 0xb0, 0x02, 0xe6, 0xa1, 0xb0, 0x01, 0xe6, 0x21, 0xe6, 0xa1, 0xb0,
        0xfc, 0xe6, 0x21, 0xb0, 0xff, 0xe6, 0xa1,
    ]
}

/// One doorbell round: ring through `modrm`, report `armed`, wait with `sti; hlt` for the
/// interrupt, then report `resumed`.
pub open spec fn doorbell_round(modrm: u8, armed: u8, resumed: u8) -> Seq<u8> {
    doorbell_write(modrm) + debug_out(armed) + seq![0xfbu8, 0xf4] + debug_out(resumed)
}

/// The complete two-generation guest program.
pub open spec fn two_host_registration_guest() -> Seq<u8> {
    pic_setup() + debug_out(TWO_HOST_REGISTRATION_READY)
        + seq![0x48u8, 0xbb] + vstd::bytes::spec_u64_to_le_bytes(TWO_HOST_REGISTRATION_FIRST_VIRTUAL_PAGE)
        + seq![0x48u8, 0xb9] + vstd::bytes::spec_u64_to_le_bytes(TWO_HOST_REGISTRATION_SECOND_VIRTUAL_PAGE)
        + doorbell_round(0x83, TWO_HOST_REGISTRATION_FIRST_ARMED_GEN1, TWO_HOST_REGISTRATION_FIRST_RESUMED_GEN1)
        + seq![0xfau8]
        + doorbell_round(0x81, TWO_HOST_REGISTRATION_SECOND_ARMED_GEN1, TWO_HOST_REGISTRATION_SECOND_RESUMED_GEN1)
        + seq![0xfau8] + debug_out(TWO_HOST_REGISTRATION_RECONSTRUCT)
        + doorbell_round(0x83, TWO_HOST_REGISTRATION_FIRST_ARMED_GEN2, TWO_HOST_REGISTRATION_FIRST_RESUMED_GEN2)
        + seq![0xfau8]
        + doorbell_round(0x81, TWO_HOST_REGISTRATION_SECOND_ARMED_GEN2, TWO_HOST_REGISTRATION_SECOND_RESUMED_GEN2)
        + debug_out(TWO_HOST_REGISTRATION_DONE) + seq![0xf4u8]
}

fn emit_debug(code: &mut Vec<u8>, byte: u8)
    ensures final(code)@ == old(code)@ + debug_out(byte),
{
    let bytes = [0xb0u8, byte, 0xe6, 0xe9];
    append_bytes(code, &bytes);
    assert(bytes@ =~= debug_out(byte));
}

fn emit_doorbell(code: &mut Vec<u8>, modrm: u8)
    ensures final(code)@ == old(code)@ + doorbell_write(modrm),
{
    let bytes = [0x66u8, 0xc7, modrm, 0x00, 0x01, 0x00, 0x00, 0x00, 0x00];
    append_bytes(code, &bytes);
    assert(bytes@ =~= doorbell_write(modrm));
}

fn emit_round(code: &mut Vec<u8>, modrm: u8, armed: u8, resumed: u8)
    ensures final(code)@ == old(code)@ + doorbell_round(modrm, armed, resumed),
{
    emit_doorbell(code, modrm);
    emit_debug(code, armed);
    code.push(0xfb);
    code.push(0xf4);
    emit_debug(code, resumed);
    assert(code@ =~= old(code)@ + doorbell_round(modrm, armed, resumed));
}

/// Builds the two-generation guest: PIC setup, a readiness barrier, the two device pointers,
/// then per generation one doorbell round per device, with a reconstruction barrier between
/// generations and a completion barrier at the end.
pub fn build_two_host_registration_guest() -> (r: Vec<u8>)
    ensures r@ == two_host_registration_guest(),
{
    let setup = [
        0xfau8, 0xb0, 0x11, 0xe6, 0x20, 0xe6, 0xa0, 0xb0, 0x40, 0xe6, 0x21, 0xb0, 0x48, 0xe6, 0xa1,
        0xb0, 0x04, 0xe6, 0x21, 0xb0, 0x02, 0xe6, 0xa1, 0xb0, 0x01, 0xe6, 0x21, 0xe6, 0xa1, 0xb0,
        0xfc, 0xe6, 0x21, 0xb0, 0xff, 0xe6, 0xa1,
    ];
    let mut code: Vec<u8> = Vec::new();
    append_bytes(&mut code, &setup);
    assert(setup@ =~= pic_setup());
    emit_debug(&mut code, TWO_HOST_REGISTRATION_READY);
    code.push(0x48);
    code.push(0xbb);
    let first_page = vstd::bytes::u64_to_le_bytes(TWO_HOST_REGISTRATION_FIRST_VIRTUAL_PAGE);
    append_bytes(&mut code, first_page.as_slice());
    code.push(0x48);
    code.push(0xb9);
    let second_page = vstd::bytes::u64_to_le_bytes(TWO_HOST_REGISTRATION_SECOND_VIRTUAL_PAGE);
    append_bytes(&mut code, second_page.as_slice());
    emit_round(&mut code, 0x83, TWO_HOST_REGISTRATION_FIRST_ARMED_GEN1, TWO_HOST_REGISTRATION_FIRST_RESUMED_GEN1);
    code.push(0xfa);
    emit_round(&mut code, 0x81, TWO_HOST_REGISTRATION_SECOND_ARMED_GEN1, TWO_HOST_REGISTRATION_SECOND_RESUMED_GEN1);
    code.push(0xfa);
    emit_debug(&mut code, TWO_HOST_REGISTRATION_RECONSTRUCT);
    emit_round(&mut code, 0x83, TWO_HOST_REGISTRATION_FIRST_ARMED_GEN2, TWO_HOST_REGISTRATION_FIRST_RESUMED_GEN2);
    code.push(0xfa);
    emit_round(&mut code, 0x81, TWO_HOST_REGISTRATION_SECOND_ARMED_GEN2, TWO_HOST_REGISTRATION_SECOND_RESUMED_GEN2);
    emit_debug(&mut code, TWO_HOST_REGISTRATION_DONE);
    code.push(0xf4);
    assert(code@ =~= two_host_registration_guest());
    code
}

/// The stages of the two-registration scenario: two generations of doorbell and interrupt routes rebuilt from one checkpoint, each device answered in turn.
pub open spec fn spec_two_host_registration_script() -> Seq<Stage> {
    seq![
        Stage { vcpu: 0, check: StageCheck::DebugOutput(TWO_HOST_REGISTRATION_READY), name: "two host-registration readiness", vm_error: true },
        Stage { vcpu: 0, check: StageCheck::InterruptsDisabled, name: "two host-registration readiness state", vm_error: true },
        Stage { vcpu: 0, check: StageCheck::Host(HostOperation::RegisterGeneration), name: "two host-registration first reconstructed generation", vm_error: true },
        Stage { vcpu: 0, check: StageCheck::DebugOutput(TWO_HOST_REGISTRATION_FIRST_ARMED_GEN1), name: "two host-registration first doorbell barrier", vm_error: true },
        Stage { vcpu: 0, check: StageCheck::InterruptsDisabled, name: "two host-registration first doorbell state", vm_error: true },
        Stage { vcpu: 0, check: StageCheck::HostCount { operation: HostOperation::WaitDoorbell(0), expected: 1 }, name: "two host-registration first doorbell count", vm_error: true },
        Stage { vcpu: 0, check: StageCheck::Host(HostOperation::RaiseInterrupt(0)), name: "two host-registration first IRQ signal", vm_error: true },
        Stage { vcpu: 0, check: StageCheck::DebugOutput(TWO_HOST_REGISTRATION_FIRST_HANDLER), name: "two host-registration first IRQ handler", vm_error: true },
        Stage { vcpu: 0, check: StageCheck::DebugOutput(TWO_HOST_REGISTRATION_FIRST_RESUMED_GEN1), name: "two host-registration first resumed main", vm_error: true },
        Stage { vcpu: 0, check: StageCheck::DebugOutput(TWO_HOST_REGISTRATION_SECOND_ARMED_GEN1), name: "two host-registration second doorbell barrier", vm_error: true },
        Stage { vcpu: 0, check: StageCheck::InterruptsDisabled, name: "two host-registration second doorbell state", vm_error: true },
        Stage { vcpu: 0, check: StageCheck::HostCount { operation: HostOperation::WaitDoorbell(1), expected: 1 }, name: "two host-registration second doorbell count", vm_error: true },
        Stage { vcpu: 0, check: StageCheck::Host(HostOperation::RaiseInterrupt(1)), name: "two host-registration second IRQ signal", vm_error: true },
        Stage { vcpu: 0, check: StageCheck::DebugOutput(TWO_HOST_REGISTRATION_SECOND_HANDLER_BYTE), name: "two host-registration second IRQ handler", vm_error: true },
        Stage { vcpu: 0, check: StageCheck::DebugOutput(TWO_HOST_REGISTRATION_SECOND_RESUMED_GEN1), name: "two host-registration second resumed main", vm_error: true },
        Stage { vcpu: 0, check: StageCheck::DebugOutput(TWO_HOST_REGISTRATION_RECONSTRUCT), name: "two host-registration reconstruction barrier", vm_error: true },
        Stage { vcpu: 0, check: StageCheck::InterruptsDisabled, name: "two host-registration reconstruction state", vm_error: true },
        Stage { vcpu: 0, check: StageCheck::Host(HostOperation::ReleaseGeneration), name: "two host-registration first generation release", vm_error: true },
        Stage { vcpu: 0, check: StageCheck::Host(HostOperation::RegisterGeneration), name: "two host-registration second reconstructed generation", vm_error: true },
        Stage { vcpu: 0, check: StageCheck::DebugOutput(TWO_HOST_REGISTRATION_FIRST_ARMED_GEN2), name: "two host-registration first doorbell barrier", vm_error: true },
        Stage { vcpu: 0, check: StageCheck::InterruptsDisabled, name: "two host-registration first doorbell state", vm_error: true },
        Stage { vcpu: 0, check: StageCheck::HostCount { operation: HostOperation::WaitDoorbell(0), expected: 1 }, name: "two host-registration first doorbell count", vm_error: true },
        Stage { vcpu: 0, check: StageCheck::Host(HostOperation::RaiseInterrupt(0)), name: "two host-registration first IRQ signal", vm_error: true },
        Stage { vcpu: 0, check: StageCheck::DebugOutput(TWO_HOST_REGISTRATION_FIRST_HANDLER), name: "two host-registration first IRQ handler", vm_error: true },
        Stage { vcpu: 0, check: StageCheck::DebugOutput(TWO_HOST_REGISTRATION_FIRST_RESUMED_GEN2), name: "two host-registration first resumed main", vm_error: true },
        Stage { vcpu: 0, check: StageCheck::DebugOutput(TWO_HOST_REGISTRATION_SECOND_ARMED_GEN2), name: "two host-registration second doorbell barrier", vm_error: true },
        Stage { vcpu: 0, check: StageCheck::InterruptsDisabled, name: "two host-registration second doorbell state", vm_error: true },
        Stage { vcpu: 0, check: StageCheck::HostCount { operation: HostOperation::WaitDoorbell(1), expected: 1 }, name: "two host-registration second doorbell count", vm_error: true },
        Stage { vcpu: 0, check: StageCheck::Host(HostOperation::RaiseInterrupt(1)), name: "two host-registration second IRQ signal", vm_error: true },
        Stage { vcpu: 0, check: StageCheck::DebugOutput(TWO_HOST_REGISTRATION_SECOND_HANDLER_BYTE), name: "two host-registration second IRQ handler", vm_error: true },
        Stage { vcpu: 0, check: StageCheck::DebugOutput(TWO_HOST_REGISTRATION_SECOND_RESUMED_GEN2), name: "two host-registration second resumed main", vm_error: true },
        Stage { vcpu: 0, check: StageCheck::DebugOutput(TWO_HOST_REGISTRATION_DONE), name: "two host-registration completion barrier", vm_error: true },
        Stage { vcpu: 0, check: StageCheck::InterruptsEnabled, name: "two host-registration completion state", vm_error: true },
        Stage { vcpu: 0, check: StageCheck::Host(HostOperation::ReleaseGeneration), name: "two host-registration second generation release", vm_error: true },
    ]
}

pub fn two_host_registration_script() -> (r: Vec<Stage>)
    ensures r@ == spec_two_host_registration_script(),
{
    let mut v: Vec<Stage> = Vec::new();
    v.push(Stage { vcpu: 0, check: StageCheck::DebugOutput(TWO_HOST_REGISTRATION_READY), name: "two host-registration readiness", vm_error: true });
    v.push(Stage { vcpu: 0, check: StageCheck::InterruptsDisabled, name: "two host-registration readiness state", vm_error: true });
    v.push(Stage { vcpu: 0, check: StageCheck::Host(HostOperation::RegisterGeneration), name: "two host-registration first reconstructed generation", vm_error: true });
    v.push(Stage { vcpu: 0, check: StageCheck::DebugOutput(TWO_HOST_REGISTRATION_FIRST_ARMED_GEN1), name: "two host-registration first doorbell barrier", vm_error: true });
    v.push(Stage { vcpu: 0, check: StageCheck::InterruptsDisabled, name: "two host-registration first doorbell state", vm_error: true });
    v.push(Stage { vcpu: 0, check: StageCheck::HostCount { operation: HostOperation::WaitDoorbell(0), expected: 1 }, name: "two host-registration first doorbell count", vm_error: true });
    v.push(Stage { vcpu: 0, check: StageCheck::Host(HostOperation::RaiseInterrupt(0)), name: "two host-registration first IRQ signal", vm_error: true });
    v.push(Stage { vcpu: 0, check: StageCheck::DebugOutput(TWO_HOST_REGISTRATION_FIRST_HANDLER), name: "two host-registration first IRQ handler", vm_error: true });
    v.push(Stage { vcpu: 0, check: StageCheck::DebugOutput(TWO_HOST_REGISTRATION_FIRST_RESUMED_GEN1), name: "two host-registration first resumed main", vm_error: true });
    v.push(Stage { vcpu: 0, check: StageCheck::DebugOutput(TWO_HOST_REGISTRATION_SECOND_ARMED_GEN1), name: "two host-registration second doorbell barrier", vm_error: true });
    v.push(Stage { vcpu: 0, check: StageCheck::InterruptsDisabled, name: "two host-registration second doorbell state", vm_error: true });
    v.push(Stage { vcpu: 0, check: StageCheck::HostCount { operation: HostOperation::WaitDoorbell(1), expected: 1 }, name: "two host-registration second doorbell count", vm_error: true });
    v.push(Stage { vcpu: 0, check: StageCheck::Host(HostOperation::RaiseInterrupt(1)), name: "two host-registration second IRQ signal", vm_error: true });
    v.push(Stage { vcpu: 0, check: StageCheck::DebugOutput(TWO_HOST_REGISTRATION_SECOND_HANDLER_BYTE), name: "two host-registration second IRQ handler", vm_error: true });
    v.push(Stage { vcpu: 0, check: StageCheck::DebugOutput(TWO_HOST_REGISTRATION_SECOND_RESUMED_GEN1), name: "two host-registration second resumed main", vm_error: true });
    v.push(Stage { vcpu: 0, check: StageCheck::DebugOutput(TWO_HOST_REGISTRATION_RECONSTRUCT), name: "two host-registration reconstruction barrier", vm_error: true });
    v.push(Stage { vcpu: 0, check: StageCheck::InterruptsDisabled, name: "two host-registration reconstruction state", vm_error: true });
    v.push(Stage { vcpu: 0, check: StageCheck::Host(HostOperation::ReleaseGeneration), name: "two host-registration first generation release", vm_error: true });
    v.push(Stage { vcpu: 0, check: StageCheck::Host(HostOperation::RegisterGeneration), name: "two host-registration second reconstructed generation", vm_error: true });
    v.push(Stage { vcpu: 0, check: StageCheck::DebugOutput(TWO_HOST_REGISTRATION_FIRST_ARMED_GEN2), name: "two host-registration first doorbell barrier", vm_error: true });
    v.push(Stage { vcpu: 0, check: StageCheck::InterruptsDisabled, name: "two host-registration first doorbell state", vm_error: true });
    v.push(Stage { vcpu: 0, check: StageCheck::HostCount { operation: HostOperation::WaitDoorbell(0), expected: 1 }, name: "two host-registration first doorbell count", vm_error: true });
    v.push(Stage { vcpu: 0, check: StageCheck::Host(HostOperation::RaiseInterrupt(0)), name: "two host-registration first IRQ signal", vm_error: true });
    v.push(Stage { vcpu: 0, check: StageCheck::DebugOutput(TWO_HOST_REGISTRATION_FIRST_HANDLER), name: "two host-registration first IRQ handler", vm_error: true });
    v.push(Stage { vcpu: 0, check: StageCheck::DebugOutput(TWO_HOST_REGISTRATION_FIRST_RESUMED_GEN2), name: "two host-registration first resumed main", vm_error: true });
    v.push(Stage { vcpu: 0, check: StageCheck::DebugOutput(TWO_HOST_REGISTRATION_SECOND_ARMED_GEN2), name: "two host-registration second doorbell barrier", vm_error: true });
    v.push(Stage { vcpu: 0, check: StageCheck::InterruptsDisabled, name: "two host-registration second doorbell state", vm_error: true });
    v.push(Stage { vcpu: 0, check: StageCheck::HostCount { operation: HostOperation::WaitDoorbell(1), expected: 1 }, name: "two host-registration second doorbell count", vm_error: true });
    v.push(Stage { vcpu: 0, check: StageCheck::Host(HostOperation::RaiseInterrupt(1)), name: "two host-registration second IRQ signal", vm_error: true });
    v.push(Stage { vcpu: 0, check: StageCheck::DebugOutput(TWO_HOST_REGISTRATION_SECOND_HANDLER_BYTE), name: "two host-registration second IRQ handler", vm_error: true });
    v.push(Stage { vcpu: 0, check: StageCheck::DebugOutput(TWO_HOST_REGISTRATION_SECOND_RESUMED_GEN2), name: "two host-registration second resumed main", vm_error: true });
    v.push(Stage { vcpu: 0, check: StageCheck::DebugOutput(TWO_HOST_REGISTRATION_DONE), name: "two host-registration completion barrier", vm_error: true });
    v.push(Stage { vcpu: 0, check: StageCheck::InterruptsEnabled, name: "two host-registration completion state", vm_error: true });
    v.push(Stage { vcpu: 0, check: StageCheck::Host(HostOperation::ReleaseGeneration), name: "two host-registration second generation release", vm_error: true });
    proof {
        assert(v@ =~= spec_two_host_registration_script());
    }
    v
}

/// Starts a run of the two-registration acceleration scenario; the action asks for the first stage.
pub fn two_host_registration_start() -> (r: (ScenarioRun, ScenarioAction))
    ensures
        r.0@ == spec_scenario_start(spec_two_host_registration_script()),
        r.1 == spec_next_action(r.0@),
{
    scenario_start(two_host_registration_script())
}


/// A two-registration run that observed every stage made the vCPU print "RA0MB1NCE0PF1QD".
pub proof fn lemma_two_host_registration_outputs()
    ensures
        spec_expected_output(spec_two_host_registration_script(), 0) == TWO_HOST_REGISTRATION_PROOF@,
{
    reveal_with_fuel(spec_expected_output, 35);
    assert(TWO_HOST_REGISTRATION_PROOF@ =~= seq![0x52u8, 0x41, 0x30, 0x4d, 0x42, 0x31, 0x4e, 0x43, 0x45, 0x30, 0x50, 0x46, 0x31, 0x51, 0x44]);
    assert(spec_expected_output(spec_two_host_registration_script(), 0) =~= seq![0x52u8, 0x41, 0x30, 0x4d, 0x42, 0x31, 0x4e, 0x43, 0x45, 0x30, 0x50, 0x46, 0x31, 0x51, 0x44]);
}


/// The result of a two-registration run that observed every stage: both devices' doorbells,
/// GSIs and vectors, one counted doorbell write per device in each generation, the proof the
/// vCPU printed, and the RFLAGS value read at completion.
pub fn two_host_registration_result(run: ScenarioRun) -> (r: TwoHostRegistrationAccelerationResult)
    requires
        run@.script == spec_two_host_registration_script(),
        run_consistent(run@),
        run@.position == run@.script.len(),
    ensures
        r.doorbells == [TWO_HOST_REGISTRATION_FIRST_DOORBELL, TWO_HOST_REGISTRATION_SECOND_DOORBELL],
        r.gsis == [TWO_HOST_REGISTRATION_FIRST_GSI, TWO_HOST_REGISTRATION_SECOND_GSI],
        r.vectors == [TWO_HOST_REGISTRATION_FIRST_VECTOR, TWO_HOST_REGISTRATION_SECOND_VECTOR],
        r.generation_doorbell_events == [[1u64, 1u64], [1u64, 1u64]],
        r.proof@ == TWO_HOST_REGISTRATION_PROOF@,
        r.completion_rflags == rflags_of(run@.observations[32]),
{
    let ghost script = spec_two_host_registration_script();
    proof {
        assert(script.take(script.len() as int) =~= script);
        lemma_two_host_registration_outputs();
    }
    let proof_bytes = run.debug_output(0);
    let events = run.into_observations();
    let completion_rflags = rflags_at(&events, 32);
    TwoHostRegistrationAccelerationResult {
        doorbells: [TWO_HOST_REGISTRATION_FIRST_DOORBELL, TWO_HOST_REGISTRATION_SECOND_DOORBELL],
        gsis: [TWO_HOST_REGISTRATION_FIRST_GSI, TWO_HOST_REGISTRATION_SECOND_GSI],
        vectors: [TWO_HOST_REGISTRATION_FIRST_VECTOR, TWO_HOST_REGISTRATION_SECOND_VECTOR],
        generation_doorbell_events: [[1u64, 1u64], [1u64, 1u64]],
        proof: proof_bytes,
        completion_rflags,
    }
}

} // verus!
