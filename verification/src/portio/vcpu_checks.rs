//! The checks the multi-vCPU scenarios apply to what a vCPU reports between runs: debug-port
//! output exits, interrupt-flag state, multiprocessing state, and the architectural state of an
//! application processor after INIT/SIPI and after its own switch to long mode.
use crate::error::{Error, HostEnvironmentError, HostIoCause};
use crate::long_mode::{
    LONG_MODE_CR0_REQUIRED_BITS, LONG_MODE_CR4_REQUIRED_BITS, LONG_MODE_EFER_REQUIRED_BITS, LONG_MODE_PML4_ADDR,
};
use crate::portio::two_vcpu_init_sipi_fixture::{
    ApLongModeState, AP_LONG_MODE_CODE_SELECTOR, AP_LONG_MODE_DATA_SELECTOR, AP_LONG_MODE_GDT,
    AP_LONG_MODE_GDT_LIMIT, AP_LONG_MODE_STACK, KVM_MP_STATE_RUNNABLE, SIPI_CS_BASE, SIPI_CS_SELECTOR, X86_CR0_PROTECTED_MODE_ENABLE,
};
use crate::portio::{PortIoService, DEBUG_PORT};
use crate::vcpu::{PortIoDirection, PortIoExit, VcpuExit};
use vstd::prelude::*;

verus! {

pub const X86_RFLAGS_RESERVED_BIT: u64 = 2;
pub const X86_RFLAGS_INTERRUPT_ENABLE: u64 = 0x200;

/// A check of vCPU `id` that failed at `stage`.
pub open spec fn vcpu_check_error(id: u16, stage: &'static str) -> Error {
    Error::HostEnvironment(HostEnvironmentError::VcpuOperation { id, operation: stage, source: HostIoCause::InvalidData })
}

pub(crate) fn check_error(id: u16, stage: &'static str) -> (r: Error)
    ensures r == vcpu_check_error(id, stage),
{
    Error::HostEnvironment(HostEnvironmentError::VcpuOperation { id, operation: stage, source: HostIoCause::InvalidData })
}

/// The exit must be a port-I/O exit.
pub fn require_io_exit(id: u16, stage: &'static str, exit: VcpuExit) -> (r: Result<(), Error>)
    ensures
        exit == VcpuExit::Io ==> r is Ok,
        exit != VcpuExit::Io ==> r == Err::<(), Error>(vcpu_check_error(id, stage)),
{
    if exit != VcpuExit::Io {
        return Err(check_error(id, stage));
    }
    Ok(())
}

/// Whether an exit is a one-byte write of `expected` to the debug port.
pub open spec fn is_debug_output(io_exit: PortIoExit, expected: u8) -> bool {
    &&& io_exit.direction == PortIoDirection::Out
    &&& io_exit.port == DEBUG_PORT
    &&& io_exit.size == 1
    &&& io_exit.count == 1
    &&& io_exit.data@ == seq![expected]
}

/// The port-I/O exit must be a one-byte write of `expected` to the debug port.
pub fn require_debug_output(id: u16, stage: &'static str, io_exit: &PortIoExit, expected: u8) -> (r: Result<(), Error>)
    ensures
        is_debug_output(*io_exit, expected) ==> r is Ok,
        !is_debug_output(*io_exit, expected) ==> r == Err::<(), Error>(vcpu_check_error(id, stage)),
{
    let data = io_exit.output_data();
    let ok = io_exit.direction() == PortIoDirection::Out && io_exit.port() == DEBUG_PORT && io_exit.size() == 1
        && io_exit.count() == 1 && data.len() == 1 && data[0] == expected;
    proof {
        if data@.len() == 1 && data@[0] == expected {
            assert(data@ =~= seq![expected]);
        }
    }
    if !ok {
        return Err(check_error(id, stage));
    }
    Ok(())
}

/// The debug port must have taken the byte as output, not answered it as a read.
pub fn require_output_service(id: u16, stage: &'static str, service: &PortIoService) -> (r: Result<(), Error>)
    ensures
        service is Output ==> r is Ok,
        !(service is Output) ==> r == Err::<(), Error>(vcpu_check_error(id, stage)),
{
    match service {
        PortIoService::Output => Ok(()),
        PortIoService::Input(_) => Err(check_error(id, stage)),
    }
}

/// RFLAGS must have the architectural bit 1 set and the interrupt flag clear.
pub fn require_interrupt_disabled_flags(id: u16, stage: &'static str, rflags: u64) -> (r: Result<(), Error>)
    ensures
        (rflags & X86_RFLAGS_RESERVED_BIT == X86_RFLAGS_RESERVED_BIT && rflags & X86_RFLAGS_INTERRUPT_ENABLE == 0)
            ==> r is Ok,
        !(rflags & X86_RFLAGS_RESERVED_BIT == X86_RFLAGS_RESERVED_BIT && rflags & X86_RFLAGS_INTERRUPT_ENABLE == 0)
            ==> r == Err::<(), Error>(vcpu_check_error(id, stage)),
{
    if rflags & X86_RFLAGS_RESERVED_BIT != X86_RFLAGS_RESERVED_BIT || rflags & X86_RFLAGS_INTERRUPT_ENABLE != 0 {
        return Err(check_error(id, stage));
    }
    Ok(())
}

/// RFLAGS must have the architectural bit 1 and the interrupt flag set.
pub fn require_interrupt_enabled_flags(id: u16, stage: &'static str, rflags: u64) -> (r: Result<(), Error>)
    ensures
        (rflags & X86_RFLAGS_RESERVED_BIT == X86_RFLAGS_RESERVED_BIT
            && rflags & X86_RFLAGS_INTERRUPT_ENABLE == X86_RFLAGS_INTERRUPT_ENABLE) ==> r is Ok,
        !(rflags & X86_RFLAGS_RESERVED_BIT == X86_RFLAGS_RESERVED_BIT
            && rflags & X86_RFLAGS_INTERRUPT_ENABLE == X86_RFLAGS_INTERRUPT_ENABLE)
            ==> r == Err::<(), Error>(vcpu_check_error(id, stage)),
{
    if rflags & X86_RFLAGS_RESERVED_BIT != X86_RFLAGS_RESERVED_BIT
        || rflags & X86_RFLAGS_INTERRUPT_ENABLE != X86_RFLAGS_INTERRUPT_ENABLE {
        return Err(check_error(id, stage));
    }
    Ok(())
}

/// The multiprocessing state the host reported must be the expected one; it is returned.
pub fn require_mp_state(id: u16, stage: &'static str, observed: u32, expected: u32) -> (r: Result<u32, Error>)
    ensures
        observed == expected ==> r == Ok::<u32, Error>(observed),
        observed != expected ==> r == Err::<u32, Error>(vcpu_check_error(id, stage)),
{
    if observed != expected {
        return Err(check_error(id, stage));
    }
    Ok(observed)
}

/// What an application processor looked like when the host accepted its INIT/SIPI start.
#[derive(Debug, Clone, Copy, PartialEq, Eq)]
pub struct ApStartupState {
    pub mp_state: u32,
    pub rip: u64,
    pub cs_selector: u16,
    pub cs_base: u64,
    pub cr0: u64,
}

/// After SIPI the processor must be runnable and in real mode at the trampoline: RIP 0, CS
/// selector and base from the SIPI vector, CR0.PE clear.
pub open spec fn startup_state_valid(state: ApStartupState) -> bool {
    &&& state.mp_state == KVM_MP_STATE_RUNNABLE
    &&& state.rip == 0
    &&& state.cs_selector == SIPI_CS_SELECTOR
    &&& state.cs_base == SIPI_CS_BASE
    &&& state.cr0 & X86_CR0_PROTECTED_MODE_ENABLE == 0
}

pub fn require_init_sipi_startup_state(id: u16, stage: &'static str, state: ApStartupState)
    -> (r: Result<ApStartupState, Error>)
    ensures
        startup_state_valid(state) ==> r == Ok::<ApStartupState, Error>(state),
        !startup_state_valid(state) ==> r == Err::<ApStartupState, Error>(vcpu_check_error(id, stage)),
{
    if state.mp_state != KVM_MP_STATE_RUNNABLE || state.rip != 0 || state.cs_selector != SIPI_CS_SELECTOR || state.cs_base != SIPI_CS_BASE
        || state.cr0 & X86_CR0_PROTECTED_MODE_ENABLE != 0 {
        return Err(check_error(id, stage));
    }
    Ok(state)
}

/// The registers of an application processor that should have switched itself to long mode.
#[derive(Debug, Clone, Copy, PartialEq, Eq)]
pub struct ApLongModeRegisters {
    pub rsp: u64,
    pub cs_selector: u16,
    pub cs_long: u8,
    pub cs_db: u8,
    pub cs_present: u8,
    pub ss_selector: u16,
    pub gdt_base: u64,
    pub gdt_limit: u16,
    pub cr0: u64,
    pub cr3: u64,
    pub cr4: u64,
    pub efer: u64,
}

/// On its own stack, in the 64-bit code segment (L=1, D/B=0, present), with the flat data
/// segment, the fixture's GDT, paging through the fixture's PML4, and CR0, CR4 and EFER
/// carrying the long-mode bits. The hidden CS base is not checked: in 64-bit mode it is unused.
pub open spec fn ap_long_mode_valid(regs: ApLongModeRegisters) -> bool {
    &&& regs.rsp == AP_LONG_MODE_STACK
    &&& regs.cs_selector == AP_LONG_MODE_CODE_SELECTOR
    &&& regs.cs_long == 1
    &&& regs.cs_db == 0
    &&& regs.cs_present == 1
    &&& regs.ss_selector == AP_LONG_MODE_DATA_SELECTOR
    &&& regs.gdt_base == AP_LONG_MODE_GDT
    &&& regs.gdt_limit == AP_LONG_MODE_GDT_LIMIT
    &&& regs.cr0 & LONG_MODE_CR0_REQUIRED_BITS == LONG_MODE_CR0_REQUIRED_BITS
    &&& regs.cr4 & LONG_MODE_CR4_REQUIRED_BITS == LONG_MODE_CR4_REQUIRED_BITS
    &&& regs.efer & LONG_MODE_EFER_REQUIRED_BITS == LONG_MODE_EFER_REQUIRED_BITS
    &&& regs.cr3 == LONG_MODE_PML4_ADDR
}

/// The reported state of a processor whose registers passed the long-mode check.
pub open spec fn spec_long_mode_state(regs: ApLongModeRegisters) -> ApLongModeState {
    ApLongModeState {
        rsp: regs.rsp,
        cs_selector: regs.cs_selector,
        cs_long: regs.cs_long,
        ss_selector: regs.ss_selector,
        gdt_base: regs.gdt_base,
        gdt_limit: regs.gdt_limit,
        cr0: regs.cr0,
        cr3: regs.cr3,
        cr4: regs.cr4,
        efer: regs.efer,
    }
}

pub fn require_ap_long_mode_state(id: u16, stage: &'static str, regs: ApLongModeRegisters)
    -> (r: Result<ApLongModeState, Error>)
    ensures
        ap_long_mode_valid(regs) ==> r == Ok::<ApLongModeState, Error>(spec_long_mode_state(regs)),
        !ap_long_mode_valid(regs) ==> r == Err::<ApLongModeState, Error>(vcpu_check_error(id, stage)),
{
    let valid = regs.rsp == AP_LONG_MODE_STACK && regs.cs_selector == AP_LONG_MODE_CODE_SELECTOR
        && regs.cs_long == 1 && regs.cs_db == 0 && regs.cs_present == 1
        && regs.ss_selector == AP_LONG_MODE_DATA_SELECTOR && regs.gdt_base == AP_LONG_MODE_GDT
        && regs.gdt_limit == AP_LONG_MODE_GDT_LIMIT
        && regs.cr0 & LONG_MODE_CR0_REQUIRED_BITS == LONG_MODE_CR0_REQUIRED_BITS
        && regs.cr4 & LONG_MODE_CR4_REQUIRED_BITS == LONG_MODE_CR4_REQUIRED_BITS
        && regs.efer & LONG_MODE_EFER_REQUIRED_BITS == LONG_MODE_EFER_REQUIRED_BITS
        && regs.cr3 == LONG_MODE_PML4_ADDR;
    if !valid {
        return Err(check_error(id, stage));
    }
    Ok(ApLongModeState {
        rsp: regs.rsp,
        cs_selector: regs.cs_selector,
        cs_long: regs.cs_long,
        ss_selector: regs.ss_selector,
        gdt_base: regs.gdt_base,
        gdt_limit: regs.gdt_limit,
        cr0: regs.cr0,
        cr3: regs.cr3,
        cr4: regs.cr4,
        efer: regs.efer,
    })
}

} // verus!
