//! The in-kernel interrupt controller scenario: PIC programming, an edge on GSI 0, and the
//! checks each debug-port exit of the run must pass.
use crate::error::{Error, HostEnvironmentError, HostIoCause, KvmCapabilityError, VmExitError};
use crate::portio::DEBUG_PORT;
use crate::vcpu::{PortIoDirection, PortIoExit, VcpuExit, VmExitReport};
use vstd::prelude::*;

verus! {

pub const KVM_CAP_IRQCHIP: i32 = 0;
pub const KVM_CREATE_IRQCHIP: u64 = 0xAE60;
pub const KVM_IRQ_LINE: u64 = 0x4008_AE61;
pub const IRQCHIP_POST_PULSE_EXIT_BUDGET: u32 = 3;
pub const X86_RFLAGS_RESERVED_BIT: u64 = 2;
pub const IRQCHIP_READY_BYTE: u8 = 0x52;
pub const IRQCHIP_ARMED_BYTE: u8 = 0x41;
pub const IRQCHIP_GSI: u32 = 0;
pub const IRQCHIP_VECTOR: u8 = 0x40;
pub const IRQCHIP_PROOF: [u8; 4] = [0x52, 0x41, 0x49, 0x4d];
pub const IRQCHIP_TERMINAL_RIP: u64 = 0x1_0034;

/// Programs both PICs (vectors 0x40 and 0x48, cascade on IRQ2, 8086 mode), unmasks only IRQ0,
/// enables interrupts, reports "R" and "A", then "M" once the handler returned, and halts.
pub const IRQCHIP_GUEST_BYTES: [u8; 52] = [
    0xfa, 0xb0, 0x11, 0xe6, 0x20, 0xe6, 0xa0, 0xb0, 0x40, 0xe6, 0x21, 0xb0, 0x48, 0xe6, 0xa1, 0xb0, 0x04, 0xe6,
    0x21, 0xb0, 0x02, 0xe6, 0xa1, 0xb0, 0x01, 0xe6, 0x21, 0xe6, 0xa1, 0xb0, 0xfe, 0xe6, 0x21, 0xb0, 0xff, 0xe6,
    0xa1, 0xfb, 0x90, 0xb0, IRQCHIP_READY_BYTE, 0xe6, 0xe9, 0xb0, IRQCHIP_ARMED_BYTE, 0xe6, 0xe9, 0xb0, 0x4d,
    0xe6, 0xe9, 0xf4,
];

/// Reports "I", sends a non-specific EOI to the master PIC, and returns.
pub const IRQCHIP_HANDLER_BYTES: [u8; 10] = [0xb0, 0x49, 0xe6, 0xe9, 0xb0, 0x20, 0xe6, 0x20, 0x48, 0xcf];

/// `struct kvm_irq_level`.
#[derive(Debug, Clone, Copy, Default, PartialEq, Eq)]
pub struct KvmIrqLevel {
    pub irq: u32,
    pub level: u32,
}

impl KvmIrqLevel {
    /// A request that drives line `irq` high or low.
    pub fn new(irq: u32, level: bool) -> (r: Self)
        ensures r.irq == irq, r.level == if level { 1u32 } else { 0u32 },
    {
        KvmIrqLevel { irq, level: if level { 1 } else { 0 } }
    }
}

/// What the interrupt-controller run reports.
#[derive(Debug, Clone, PartialEq, Eq)]
pub struct IrqchipGuestResult {
    pub gsi: u32,
    pub vector: u8,
    pub armed_rflags: u64,
    pub io_exits: Vec<PortIoExit>,
    pub proof: Vec<u8>,
    pub report: VmExitReport,
}

impl IrqchipGuestResult {
    pub fn gsi(&self) -> (r: u32)
        ensures r == self.gsi,
    {
        self.gsi
    }

    pub fn vector(&self) -> (r: u8)
        ensures r == self.vector,
    {
        self.vector
    }

    pub fn armed_rflags(&self) -> (r: u64)
        ensures r == self.armed_rflags,
    {
        self.armed_rflags
    }

    pub fn io_exits(&self) -> (r: &[PortIoExit])
        ensures r@ == self.io_exits@,
    {
        self.io_exits.as_slice()
    }

    pub fn proof_bytes(&self) -> (r: &[u8])
        ensures r@ == self.proof@,
    {
        self.proof.as_slice()
    }

    pub fn report(&self) -> (r: VmExitReport)
        ensures r == self.report,
    {
        self.report
    }
}

/// The host's answer to the irqchip capability query must be positive.
pub fn require_irqchip_capability(value: i32) -> (r: Result<(), Error>)
    ensures
        value > 0 ==> r is Ok,
        value <= 0 ==> r == Err::<(), Error>(Error::KvmCapability(KvmCapabilityError::MissingExtension {
            name: "KVM_CAP_IRQCHIP",
            id: KVM_CAP_IRQCHIP,
        })),
{
    if value <= 0 {
        return Err(Error::KvmCapability(KvmCapabilityError::MissingExtension {
            name: "KVM_CAP_IRQCHIP",
            id: KVM_CAP_IRQCHIP,
        }));
    }
    Ok(())
}

/// A check of the run that failed at `stage`.
pub open spec fn verification_error(stage: &'static str) -> Error {
    Error::HostEnvironment(HostEnvironmentError::VcpuOperation { id: 0, operation: stage, source: HostIoCause::InvalidData })
}

/// The exit must be a one-byte debug-port write of `expected`.
pub fn validate_debug_output(io_exit: &PortIoExit, expected: u8, stage: &'static str) -> (r: Result<(), Error>)
    ensures
        ({
            let ok = io_exit.direction == PortIoDirection::Out && io_exit.size == 1 && io_exit.port == DEBUG_PORT
                && io_exit.count == 1 && io_exit.data@ == seq![expected];
            &&& ok ==> r is Ok
            &&& !ok ==> r == Err::<(), Error>(verification_error(stage))
        }),
{
    let data = io_exit.output_data();
    let ok = io_exit.direction() == PortIoDirection::Out && io_exit.size() == 1 && io_exit.port() == DEBUG_PORT
        && io_exit.count() == 1 && data.len() == 1 && data[0] == expected;
    proof {
        if data@.len() == 1 && data@[0] == expected {
            assert(data@ =~= seq![expected]);
        }
    }
    if !ok {
        return Err(Error::HostEnvironment(HostEnvironmentError::VcpuOperation {
            id: 0,
            operation: stage,
            source: HostIoCause::InvalidData,
        }));
    }
    Ok(())
}

/// The vCPU must have stopped for port I/O at `stage`.
pub fn require_io_exit(exit: VcpuExit, stage: &'static str) -> (r: Result<(), Error>)
    ensures
        exit == VcpuExit::Io ==> r is Ok,
        exit != VcpuExit::Io ==> r == Err::<(), Error>(Error::VmExit(VmExitError::UnexpectedSequence {
            stage,
            expected_reason: VcpuExit::Io.spec_reason(),
            actual_reason: exit.spec_reason(),
        })),
{
    if exit != VcpuExit::Io {
        return Err(Error::VmExit(VmExitError::UnexpectedSequence {
            stage,
            expected_reason: VcpuExit::Io.reason(),
            actual_reason: exit.reason(),
        }));
    }
    Ok(())
}


pub const X86_RFLAGS_INTERRUPT_ENABLE: u64 = 0x200;

/// RFLAGS with the architectural bit 1 and the interrupt flag set.
pub open spec fn irqchip_flags_armed(rflags: u64) -> bool {
    rflags & X86_RFLAGS_RESERVED_BIT == X86_RFLAGS_RESERVED_BIT
        && rflags & X86_RFLAGS_INTERRUPT_ENABLE == X86_RFLAGS_INTERRUPT_ENABLE
}

/// The run proved the interrupt: the debug port received exactly "RAIM", one byte per exit, and
/// the vCPU halted at the terminal RIP with bit 1 and IF set.
pub open spec fn irqchip_run_proved(io_exit_count: int, proof: Seq<u8>, report: VmExitReport) -> bool {
    &&& proof == IRQCHIP_PROOF@
    &&& io_exit_count == 4
    &&& report.exit == VcpuExit::Hlt
    &&& report.rip == IRQCHIP_TERMINAL_RIP
    &&& irqchip_flags_armed(report.rflags)
}

/// Judges an interrupt-controller run: the RFLAGS read at the armed barrier (before the host
/// pulsed the GSI) must have bit 1 and IF set, then the run must have proved the interrupt. On
/// success the result holds the fixed GSI and vector and what the run observed.
pub fn validate_irqchip_run(armed_rflags: u64, io_exits: Vec<PortIoExit>, proof: Vec<u8>, report: VmExitReport)
    -> (r: Result<IrqchipGuestResult, Error>)
    ensures
        !irqchip_flags_armed(armed_rflags) ==> r == Err::<IrqchipGuestResult, Error>(
            verification_error("irqchip armed barrier state"),
        ),
        irqchip_flags_armed(armed_rflags) && !irqchip_run_proved(io_exits@.len() as int, proof@, report)
            ==> r == Err::<IrqchipGuestResult, Error>(verification_error("irqchip GSI execution proof")),
        r is Ok <==> (irqchip_flags_armed(armed_rflags) && irqchip_run_proved(io_exits@.len() as int, proof@, report)),
        r matches Ok(result) ==> {
            &&& result.gsi == IRQCHIP_GSI
            &&& result.vector == IRQCHIP_VECTOR
            &&& result.armed_rflags == armed_rflags
            &&& result.io_exits@ == io_exits@
            &&& result.proof@ == proof@
            &&& result.report == report
        },
{
    if armed_rflags & X86_RFLAGS_RESERVED_BIT != X86_RFLAGS_RESERVED_BIT
        || armed_rflags & X86_RFLAGS_INTERRUPT_ENABLE != X86_RFLAGS_INTERRUPT_ENABLE {
        return Err(Error::HostEnvironment(HostEnvironmentError::VcpuOperation {
            id: 0,
            operation: "irqchip armed barrier state",
            source: HostIoCause::InvalidData,
        }));
    }
    let expected = IRQCHIP_PROOF;
    let same = proof.len() == 4 && proof[0] == expected[0] && proof[1] == expected[1] && proof[2] == expected[2]
        && proof[3] == expected[3];
    proof {
        assert(expected@ == IRQCHIP_PROOF@);
        if same {
            assert(proof@ =~= IRQCHIP_PROOF@);
        }
    }
    if !same || io_exits.len() != 4 || report.exit != VcpuExit::Hlt || report.rip != IRQCHIP_TERMINAL_RIP
        || report.rflags & X86_RFLAGS_RESERVED_BIT != X86_RFLAGS_RESERVED_BIT
        || report.rflags & X86_RFLAGS_INTERRUPT_ENABLE != X86_RFLAGS_INTERRUPT_ENABLE {
        return Err(Error::HostEnvironment(HostEnvironmentError::VcpuOperation {
            id: 0,
            operation: "irqchip GSI execution proof",
            source: HostIoCause::InvalidData,
        }));
    }
    Ok(IrqchipGuestResult { gsi: IRQCHIP_GSI, vector: IRQCHIP_VECTOR, armed_rflags, io_exits, proof, report })
}

} // verus!
