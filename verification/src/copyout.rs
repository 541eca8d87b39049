//! The fault-safe copyout scenario: a user program asks a ring-0 syscall handler to store one
//! byte through a user pointer; a store to an unmapped pointer faults, and the page-fault
//! handler redirects the handler to its fixup, which returns `-EFAULT` instead.
use crate::codec::le_u64_at;
use crate::error::{Error, HostEnvironmentError, HostIoCause, VmExitError};
use crate::long_mode::LONG_MODE_PD_ADDR;
use crate::memory::{spec_read_at, GuestMemory, GuestPhysAddr};
use crate::vcpu::{PortIoExit, VcpuExit, VmExitReport};
use vstd::bytes::{lemma_auto_spec_u64_to_from_le_bytes, spec_u64_to_le_bytes};
use vstd::prelude::*;

verus! {

/// Where the user program is loaded; the boot code enters it with `iretq`.
pub const PRIVILEGE_USER_ENTRY: u64 = 0x1_1000;
/// Where the syscall handler is loaded (`LSTAR` points here).
pub const SYSCALL_KERNEL_ENTRY: u64 = 0x1_2000;
/// The user stack pointer the boot code hands to ring 3.
pub const PRIVILEGE_USER_STACK: u64 = 0x1f_d000;
/// Ring-3 code and stack selectors (RPL 3).
pub const PRIVILEGE_USER_CODE_SELECTOR: u16 = 0x23;
pub const PRIVILEGE_USER_DATA_SELECTOR: u16 = 0x1b;
/// `EFER.SCE`, which enables `syscall` and `sysret`.
pub const EFER_SYSCALL_ENABLE: u64 = 1;

pub const COPYOUT_GOOD_POINTER: u64 = 0xa100;
pub const COPYOUT_RESULT_ADDR: u64 = 0xa180;
pub const COPYOUT_FAULT_OBSERVATION_ADDR: u64 = 0xb000;
pub const COPYOUT_BAD_POINTER: u64 = 0x40_0000;
pub const COPYOUT_PAGE_FAULT_HANDLER: u64 = 0x1_4000;
pub const COPYOUT_PAGE_FAULT_VECTOR: u8 = 14;
pub const COPYOUT_FAULT_RIP: u64 = SYSCALL_KERNEL_ENTRY + 13;
pub const COPYOUT_FIXUP_RIP: u64 = SYSCALL_KERNEL_ENTRY + 26;
pub const COPYOUT_FIRST_RETURN_RIP: u64 = PRIVILEGE_USER_ENTRY + 12;
pub const COPYOUT_SECOND_RETURN_RIP: u64 = PRIVILEGE_USER_ENTRY + 44;
pub const COPYOUT_TERMINAL_RETURN_RIP: u64 = PRIVILEGE_USER_ENTRY + 50;
pub const COPYOUT_VALUE: u8 = 0xa5;
/// `-EFAULT` as the handler returns it in `rax`.
pub const COPYOUT_EFAULT: u64 = 0xffff_ffff_ffff_fff2;
/// "WFD": the store succeeded, the fault was taken, the terminal gate was reached.
pub const COPYOUT_PROOF: [u8; 3] = [0x57, 0x46, 0x44];

pub const KERNEL_CODE_SELECTOR: u16 = 0x08;
pub const X86_PAGE_PRESENT: u64 = 1;
pub const X86_PAGE_WRITE: u64 = 2;
pub const X86_PAGE_USER: u64 = 4;
pub const X86_RFLAGS_RESERVED: u64 = 2;
pub const X86_RFLAGS_IF: u64 = 0x200;
pub const X86_RFLAGS_RF: u64 = 0x1_0000;
pub const COPYOUT_EXIT_BUDGET: u32 = 4;
pub const PRIVILEGE_FRAME_BYTES: u64 = 40;
pub const PAGE_FAULT_OBSERVATION_BYTES: usize = 40;
pub const PAGE_FAULT_GATE_SIZE: u64 = 16;
/// A write to a non-present page, taken in supervisor mode.
pub const PAGE_FAULT_ERROR_CODE: u64 = 2;
pub const PAGE_FAULT_SAVED_RFLAGS: u64 = X86_RFLAGS_RESERVED | X86_RFLAGS_RF;
/// The page-directory slot that would map `COPYOUT_BAD_POINTER`.
pub const BAD_POINTER_PD_INDEX: u64 = 2;

/// Loads the TSS, then enters the user program at ring 3 with interrupts enabled.
pub const KERNEL_BOOT_BYTES: [u8; 41] = [
    0xfa, 0x66, 0xb8, 0x28, 0x00, 0x0f, 0x00, 0xd8, 0x6a, 0x1b, 0x48, 0xb8, 0x00, 0xd0, 0x1f, 0x00, 0x00, 0x00,
    0x00, 0x00, 0x50, 0x68, 0x02, 0x02, 0x00, 0x00, 0x6a, 0x23, 0x48, 0xb8, 0x00, 0x10, 0x01, 0x00, 0x00, 0x00,
    0x00, 0x00, 0x50, 0x48, 0xcf,
];

/// Asks for a copyout to the good pointer, records the return value and reads the byte back,
/// asks for a copyout to the unmapped pointer, records that return value, and leaves through
/// the terminal gate.
pub const USER_BYTES: [u8; 50] = [
    0x48, 0xbf, 0x00, 0xa1, 0x00, 0x00, 0x00, 0x00, 0x00, 0x00, 0x0f, 0x05, 0x48, 0xbb, 0x80, 0xa1, 0x00, 0x00,
    0x00, 0x00, 0x00, 0x00, 0x48, 0x89, 0x03, 0x0f, 0xb6, 0x07, 0x48, 0x89, 0x43, 0x10, 0x48, 0xbf, 0x00, 0x00,
    0x40, 0x00, 0x00, 0x00, 0x00, 0x00, 0x0f, 0x05, 0x48, 0x89, 0x43, 0x08, 0xcd, 0x81,
];

/// The syscall handler: one store through the user pointer (the only fault site), then "W",
/// then the fixup that restores the user stack and returns with `sysretq`.
pub const COPYOUT_HANDLER_BYTES: [u8; 32] = [
    0x49, 0x89, 0xe2, 0x48, 0xbc, 0x00, 0xe0, 0x1f, 0x00, 0x00, 0x00, 0x00, 0x00, 0xc6, 0x07, COPYOUT_VALUE,
    0x45, 0x31, 0xc0, 0xb0, 0x57, 0xe6, 0xe9, 0x4c, 0x89, 0xc0, 0x4c, 0x89, 0xd4, 0x48, 0x0f, 0x07,
];

/// Records CR2 and the exception frame, points the saved RIP at the fixup, returns `-EFAULT`
/// in `rax`, reports "F", drops the error code and returns with `iretq`.
pub const PAGE_FAULT_HANDLER_BYTES: [u8; 86] = [
    0x0f, 0x20, 0xd0, 0x48, 0xba, 0x00, 0xb0, 0x00, 0x00, 0x00, 0x00, 0x00, 0x00, 0x48, 0x89, 0x02, 0x48, 0x8b,
    0x04, 0x24, 0x48, 0x89, 0x42, 0x08, 0x48, 0x8b, 0x44, 0x24, 0x08, 0x48, 0x89, 0x42, 0x10, 0x48, 0x8b, 0x44,
    0x24, 0x10, 0x48, 0x89, 0x42, 0x18, 0x48, 0x8b, 0x44, 0x24, 0x18, 0x48, 0x89, 0x42, 0x20, 0x48, 0xb8, 0x1a,
    0x20, 0x01, 0x00, 0x00, 0x00, 0x00, 0x00, 0x48, 0x89, 0x44, 0x24, 0x08, 0x49, 0xc7, 0xc0, 0xf2, 0xff, 0xff,
    0xff, 0xb0, 0x46, 0xe6, 0xe9, 0x4c, 0x89, 0xc0, 0x48, 0x83, 0xc4, 0x08, 0x48, 0xcf,
];

/// Reports "D" and halts in ring 0.
pub const TERMINAL_HANDLER_BYTES: [u8; 5] = [0xb0, 0x44, 0xe6, 0xe9, 0xf4];

/// What the page-fault handler recorded: CR2 and the five words of its exception frame.
#[derive(Debug, Clone, Copy, PartialEq, Eq)]
pub struct CopyoutPageFaultObservation {
    pub cr2: u64,
    pub error_code: u64,
    pub rip: u64,
    pub cs: u64,
    pub rflags: u64,
}

impl CopyoutPageFaultObservation {
    pub fn cr2(self) -> (r: u64)
        ensures r == self.cr2,
    {
        self.cr2
    }

    pub fn error_code(self) -> (r: u64)
        ensures r == self.error_code,
    {
        self.error_code
    }

    pub fn rip(self) -> (r: u64)
        ensures r == self.rip,
    {
        self.rip
    }

    pub fn cs(self) -> (r: u64)
        ensures r == self.cs,
    {
        self.cs
    }

    pub fn rflags(self) -> (r: u64)
        ensures r == self.rflags,
    {
        self.rflags
    }
}

/// The interrupt frame the terminal gate pushed on the ring-0 stack.
#[derive(Debug, Clone, Copy, PartialEq, Eq)]
pub struct CopyoutTerminalFrame {
    pub rip: u64,
    pub cs: u64,
    pub rflags: u64,
    pub rsp: u64,
    pub ss: u64,
}

impl CopyoutTerminalFrame {
    pub fn rip(self) -> (r: u64)
        ensures r == self.rip,
    {
        self.rip
    }

    pub fn cs(self) -> (r: u64)
        ensures r == self.cs,
    {
        self.cs
    }

    pub fn rflags(self) -> (r: u64)
        ensures r == self.rflags,
    {
        self.rflags
    }

    pub fn rsp(self) -> (r: u64)
        ensures r == self.rsp,
    {
        self.rsp
    }

    pub fn ss(self) -> (r: u64)
        ensures r == self.ss,
    {
        self.ss
    }
}


/// Everything a finished run reports.
#[derive(Debug, Clone, PartialEq, Eq)]
pub struct FaultSafeCopyoutGuestResult {
    pub io_exits: Vec<PortIoExit>,
    pub proof: Vec<u8>,
    pub report: VmExitReport,
    pub good_return: u64,
    pub bad_return: u64,
    pub user_readback: u64,
    pub user_memory_value: u8,
    pub page_fault: CopyoutPageFaultObservation,
    pub terminal_frame: CopyoutTerminalFrame,
    pub terminal_rsp: u64,
    pub terminal_cs: u16,
    pub terminal_rflags: u64,
    pub final_cr2: u64,
    pub efer: u64,
    pub star: u64,
    pub lstar: u64,
    pub sfmask: u64,
    pub good_page_pte: u64,
    pub fault_handler_pte: u64,
    pub fault_observation_pte: u64,
    pub bad_pd_entry: u64,
}

impl FaultSafeCopyoutGuestResult {
    /// The report of a run whose state passed `validate_runtime_state`.
    pub fn from_state(io_exits: Vec<PortIoExit>, proof: Vec<u8>, report: VmExitReport, state: CopyoutRuntimeState)
        -> (r: Self)
        ensures
            r.io_exits@ == io_exits@,
            r.proof@ == proof@,
            r.report == report,
            r.good_return == state.good_return,
            r.bad_return == state.bad_return,
            r.user_readback == state.user_readback,
            r.user_memory_value == state.user_memory_value,
            r.page_fault == state.page_fault,
            r.terminal_frame == state.terminal_frame,
            r.terminal_rsp == state.terminal_rsp,
            r.terminal_cs == state.terminal_cs,
            r.terminal_rflags == state.terminal_rflags,
            r.final_cr2 == state.final_cr2,
            r.efer == state.msrs[0],
            r.star == state.msrs[1],
            r.lstar == state.msrs[2],
            r.sfmask == state.msrs[3],
            r.good_page_pte == state.good_page_pte,
            r.fault_handler_pte == state.fault_handler_pte,
            r.fault_observation_pte == state.fault_observation_pte,
            r.bad_pd_entry == state.bad_pd_entry,
    {
        FaultSafeCopyoutGuestResult {
            io_exits,
            proof,
            report,
            good_return: state.good_return,
            bad_return: state.bad_return,
            user_readback: state.user_readback,
            user_memory_value: state.user_memory_value,
            page_fault: state.page_fault,
            terminal_frame: state.terminal_frame,
            terminal_rsp: state.terminal_rsp,
            terminal_cs: state.terminal_cs,
            terminal_rflags: state.terminal_rflags,
            final_cr2: state.final_cr2,
            efer: state.msrs[0],
            star: state.msrs[1],
            lstar: state.msrs[2],
            sfmask: state.msrs[3],
            good_page_pte: state.good_page_pte,
            fault_handler_pte: state.fault_handler_pte,
            fault_observation_pte: state.fault_observation_pte,
            bad_pd_entry: state.bad_pd_entry,
        }
    }

    pub fn io_exits(&self) -> (r: &[PortIoExit])
        ensures r@ == self.io_exits@,
    {
        self.io_exits.as_slice()
    }

    pub fn proof_bytes(&self) -> (r: &[u8])
        ensures r@ == self.proof@,
    {
        self.proof.as_slice()
    }

    pub fn report(&self) -> (r: VmExitReport)
        ensures r == self.report,
    {
        self.report
    }

    pub fn good_return(&self) -> (r: u64)
        ensures r == self.good_return,
    {
        self.good_return
    }

    pub fn bad_return(&self) -> (r: u64)
        ensures r == self.bad_return,
    {
        self.bad_return
    }

    pub fn user_readback(&self) -> (r: u64)
        ensures r == self.user_readback,
    {
        self.user_readback
    }

    pub fn user_memory_value(&self) -> (r: u8)
        ensures r == self.user_memory_value,
    {
        self.user_memory_value
    }

    pub fn page_fault(&self) -> (r: CopyoutPageFaultObservation)
        ensures r == self.page_fault,
    {
        self.page_fault
    }

    pub fn terminal_frame(&self) -> (r: CopyoutTerminalFrame)
        ensures r == self.terminal_frame,
    {
        self.terminal_frame
    }

    pub fn terminal_rsp(&self) -> (r: u64)
        ensures r == self.terminal_rsp,
    {
        self.terminal_rsp
    }

    pub fn terminal_cs(&self) -> (r: u16)
        ensures r == self.terminal_cs,
    {
        self.terminal_cs
    }

    pub fn terminal_rflags(&self) -> (r: u64)
        ensures r == self.terminal_rflags,
    {
        self.terminal_rflags
    }

    pub fn final_cr2(&self) -> (r: u64)
        ensures r == self.final_cr2,
    {
        self.final_cr2
    }

    pub fn efer(&self) -> (r: u64)
        ensures r == self.efer,
    {
        self.efer
    }

    pub fn star(&self) -> (r: u64)
        ensures r == self.star,
    {
        self.star
    }

    pub fn lstar(&self) -> (r: u64)
        ensures r == self.lstar,
    {
        self.lstar
    }

    pub fn sfmask(&self) -> (r: u64)
        ensures r == self.sfmask,
    {
        self.sfmask
    }

    pub fn good_page_pte(&self) -> (r: u64)
        ensures r == self.good_page_pte,
    {
        self.good_page_pte
    }

    pub fn fault_handler_pte(&self) -> (r: u64)
        ensures r == self.fault_handler_pte,
    {
        self.fault_handler_pte
    }

    pub fn fault_observation_pte(&self) -> (r: u64)
        ensures r == self.fault_observation_pte,
    {
        self.fault_observation_pte
    }

    pub fn bad_pd_entry(&self) -> (r: u64)
        ensures r == self.bad_pd_entry,
    {
        self.bad_pd_entry
    }
}

/// What a finished run left behind, before it is checked.
#[derive(Debug, Clone, Copy)]
pub struct CopyoutRuntimeState {
    pub good_return: u64,
    pub bad_return: u64,
    pub user_readback: u64,
    pub user_memory_value: u8,
    pub page_fault: CopyoutPageFaultObservation,
    pub terminal_frame: CopyoutTerminalFrame,
    pub terminal_rsp: u64,
    pub terminal_cs: u16,
    pub terminal_rflags: u64,
    pub final_cr2: u64,
    /// EFER, STAR, LSTAR and SFMASK as read back from the vCPU.
    pub msrs: [u64; 4],
    pub good_page_pte: u64,
    pub fault_handler_pte: u64,
    pub fault_observation_pte: u64,
    pub bad_pd_entry: u64,
}

/// A check of the run that failed at `stage`.
pub open spec fn copyout_error(stage: &'static str) -> Error {
    Error::HostEnvironment(HostEnvironmentError::VcpuOperation { id: 0, operation: stage, source: HostIoCause::InvalidData })
}

fn verification_error(stage: &'static str) -> (r: Error)
    ensures r == copyout_error(stage),
{
    Error::HostEnvironment(HostEnvironmentError::VcpuOperation { id: 0, operation: stage, source: HostIoCause::InvalidData })
}

/// The 16-byte long-mode interrupt gate for `handler`: ring-0 code selector, present, DPL 0,
/// 64-bit interrupt gate (type byte 0x8e), the handler address split over bytes 0..2, 6..8
/// and 8..12.
pub open spec fn spec_kernel_interrupt_gate(handler: u64) -> Seq<u8> {
    seq![
        handler as u8, (handler >> 8u64) as u8, KERNEL_CODE_SELECTOR as u8, 0u8, 0u8, 0x8eu8,
        (handler >> 16u64) as u8, (handler >> 24u64) as u8, (handler >> 32u64) as u8, (handler >> 40u64) as u8,
        (handler >> 48u64) as u8, (handler >> 56u64) as u8, 0u8, 0u8, 0u8, 0u8,
    ]
}

/// The handler address a gate points at.
pub open spec fn gate_target(gate: Seq<u8>) -> u64 {
    (gate[0] as u64) | ((gate[1] as u64) << 8u64) | ((gate[6] as u64) << 16u64) | ((gate[7] as u64) << 24u64)
        | ((gate[8] as u64) << 32u64) | ((gate[9] as u64) << 40u64) | ((gate[10] as u64) << 48u64)
        | ((gate[11] as u64) << 56u64)
}

pub fn encode_kernel_interrupt_gate(handler: u64) -> (r: [u8; 16])
    ensures r@ == spec_kernel_interrupt_gate(handler),
{
    let mut gate = [0u8; 16];
    gate[0] = handler as u8;
    gate[1] = (handler >> 8u64) as u8;
    gate[2] = KERNEL_CODE_SELECTOR as u8;
    gate[5] = 0x8e;
    gate[6] = (handler >> 16u64) as u8;
    gate[7] = (handler >> 24u64) as u8;
    gate[8] = (handler >> 32u64) as u8;
    gate[9] = (handler >> 40u64) as u8;
    gate[10] = (handler >> 48u64) as u8;
    gate[11] = (handler >> 56u64) as u8;
    assert(gate@ =~= spec_kernel_interrupt_gate(handler));
    gate
}

/// An encoded gate points at exactly the handler it was built for.
pub proof fn lemma_gate_points_at_handler(handler: u64)
    ensures gate_target(spec_kernel_interrupt_gate(handler)) == handler,
{
    let g = spec_kernel_interrupt_gate(handler);
    assert(((handler as u8) as u64) | ((((handler >> 8u64) as u8) as u64) << 8u64)
        | ((((handler >> 16u64) as u8) as u64) << 16u64) | ((((handler >> 24u64) as u8) as u64) << 24u64)
        | ((((handler >> 32u64) as u8) as u64) << 32u64) | ((((handler >> 40u64) as u8) as u64) << 40u64)
        | ((((handler >> 48u64) as u8) as u64) << 48u64) | ((((handler >> 56u64) as u8) as u64) << 56u64)
        == handler) by (bit_vector);
}

/// Where the page-fault gate sits in an IDT based at `idt_base`.
pub open spec fn page_fault_gate_address(idt_base: u64) -> int {
    idt_base + COPYOUT_PAGE_FAULT_VECTOR * PAGE_FAULT_GATE_SIZE
}

/// Writes the ring-0 gate for the page-fault handler into vector 14 of the IDT at `idt_base`.
pub fn install_page_fault_gate(memory: &mut GuestMemory, idt_base: u64) -> (r: Result<(), Error>)
    requires
        old(memory).wf(),
        idt_base + 0x100 <= u64::MAX,
    ensures
        final(memory).wf(),
        final(memory).region == old(memory).region,
        r is Ok <==> old(memory).access_ok(page_fault_gate_address(idt_base) as u64, 16),
        r is Ok ==> final(memory).bytes@ == crate::memory::splice(old(memory).bytes@,
            page_fault_gate_address(idt_base) - old(memory).region.base.0,
            spec_kernel_interrupt_gate(COPYOUT_PAGE_FAULT_HANDLER)),
        r is Err ==> final(memory).bytes@ == old(memory).bytes@,
{
    let gate = encode_kernel_interrupt_gate(COPYOUT_PAGE_FAULT_HANDLER);
    let address = idt_base + (COPYOUT_PAGE_FAULT_VECTOR as u64) * PAGE_FAULT_GATE_SIZE;
    memory.write(GuestPhysAddr::new(address), gate.as_slice())
}

/// Decodes the five words the page-fault handler stored, in the order CR2, error code, RIP,
/// CS, RFLAGS.
pub open spec fn spec_page_fault_observation(bytes: Seq<u8>) -> CopyoutPageFaultObservation {
    CopyoutPageFaultObservation {
        cr2: le_u64_at(bytes, 0),
        error_code: le_u64_at(bytes, 8),
        rip: le_u64_at(bytes, 16),
        cs: le_u64_at(bytes, 24),
        rflags: le_u64_at(bytes, 32),
    }
}

/// Decodes an interrupt frame: RIP, CS, RFLAGS, RSP, SS.
pub open spec fn spec_terminal_frame(bytes: Seq<u8>) -> CopyoutTerminalFrame {
    CopyoutTerminalFrame {
        rip: le_u64_at(bytes, 0),
        cs: le_u64_at(bytes, 8),
        rflags: le_u64_at(bytes, 16),
        rsp: le_u64_at(bytes, 24),
        ss: le_u64_at(bytes, 32),
    }
}

pub fn decode_page_fault_observation(bytes: &[u8]) -> (r: CopyoutPageFaultObservation)
    requires bytes@.len() >= 40,
    ensures r == spec_page_fault_observation(bytes@),
{
    CopyoutPageFaultObservation {
        cr2: crate::codec::read_u64_le(bytes, 0),
        error_code: crate::codec::read_u64_le(bytes, 8),
        rip: crate::codec::read_u64_le(bytes, 16),
        cs: crate::codec::read_u64_le(bytes, 24),
        rflags: crate::codec::read_u64_le(bytes, 32),
    }
}

pub fn decode_terminal_frame(bytes: &[u8]) -> (r: CopyoutTerminalFrame)
    requires bytes@.len() >= 40,
    ensures r == spec_terminal_frame(bytes@),
{
    CopyoutTerminalFrame {
        rip: crate::codec::read_u64_le(bytes, 0),
        cs: crate::codec::read_u64_le(bytes, 8),
        rflags: crate::codec::read_u64_le(bytes, 16),
        rsp: crate::codec::read_u64_le(bytes, 24),
        ss: crate::codec::read_u64_le(bytes, 32),
    }
}

/// Reads what the page-fault handler recorded at `COPYOUT_FAULT_OBSERVATION_ADDR`.
pub fn read_page_fault_observation(memory: &GuestMemory) -> (r: Result<CopyoutPageFaultObservation, Error>)
    requires memory.wf(),
    ensures
        match spec_read_at(memory.region, memory.bytes@, COPYOUT_FAULT_OBSERVATION_ADDR, 40) {
            Ok(s) => r == Ok::<CopyoutPageFaultObservation, Error>(spec_page_fault_observation(s)),
            Err(e) => r == Err::<CopyoutPageFaultObservation, Error>(e),
        },
{
    let mut bytes = [0u8; 40];
    memory.read(GuestPhysAddr::new(COPYOUT_FAULT_OBSERVATION_ADDR), &mut bytes)?;
    Ok(decode_page_fault_observation(bytes.as_slice()))
}

/// Reads the frame the terminal gate pushed just below the ring-0 stack top `tss_rsp0`.
pub fn read_terminal_frame(memory: &GuestMemory, tss_rsp0: u64) -> (r: Result<CopyoutTerminalFrame, Error>)
    requires
        memory.wf(),
        tss_rsp0 >= PRIVILEGE_FRAME_BYTES,
    ensures
        match spec_read_at(memory.region, memory.bytes@, (tss_rsp0 - PRIVILEGE_FRAME_BYTES) as u64, 40) {
            Ok(s) => r == Ok::<CopyoutTerminalFrame, Error>(spec_terminal_frame(s)),
            Err(e) => r == Err::<CopyoutTerminalFrame, Error>(e),
        },
{
    let mut bytes = [0u8; 40];
    memory.read(GuestPhysAddr::new(tss_rsp0 - PRIVILEGE_FRAME_BYTES), &mut bytes)?;
    Ok(decode_terminal_frame(bytes.as_slice()))
}

/// Reads the good return, the bad return and the user readback the user program stored.
pub fn read_results(memory: &GuestMemory) -> (r: Result<(u64, u64, u64), Error>)
    requires memory.wf(),
    ensures
        match spec_read_at(memory.region, memory.bytes@, COPYOUT_RESULT_ADDR, 24) {
            Ok(s) => r == Ok::<(u64, u64, u64), Error>((le_u64_at(s, 0), le_u64_at(s, 8), le_u64_at(s, 16))),
            Err(e) => r == Err::<(u64, u64, u64), Error>(e),
        },
{
    let mut bytes = [0u8; 24];
    memory.read(GuestPhysAddr::new(COPYOUT_RESULT_ADDR), &mut bytes)?;
    Ok((
        crate::codec::read_u64_le(bytes.as_slice(), 0),
        crate::codec::read_u64_le(bytes.as_slice(), 8),
        crate::codec::read_u64_le(bytes.as_slice(), 16),
    ))
}

/// Reads the byte at the good user pointer.
pub fn read_user_value(memory: &GuestMemory) -> (r: Result<u8, Error>)
    requires memory.wf(),
    ensures
        match spec_read_at(memory.region, memory.bytes@, COPYOUT_GOOD_POINTER, 1) {
            Ok(s) => r == Ok::<u8, Error>(s[0]),
            Err(e) => r == Err::<u8, Error>(e),
        },
{
    let mut byte = [0u8; 1];
    memory.read(GuestPhysAddr::new(COPYOUT_GOOD_POINTER), &mut byte)?;
    Ok(byte[0])
}

/// Where the page-table entry that maps `address` sits, in a table based at `pt_base`.
pub open spec fn pte_address(pt_base: u64, address: u64) -> int {
    pt_base + (address / 0x1000) * 8
}

/// Reads the page-table entry that maps `address` from the table at `pt_base`.
pub fn read_pte(memory: &GuestMemory, pt_base: u64, address: u64) -> (r: Result<u64, Error>)
    requires
        memory.wf(),
        pt_base + (address / 0x1000) * 8 + 8 <= u64::MAX,
    ensures
        match spec_read_at(memory.region, memory.bytes@, pte_address(pt_base, address) as u64, 8) {
            Ok(s) => r == Ok::<u64, Error>(vstd::bytes::spec_u64_from_le_bytes(s)),
            Err(e) => r == Err::<u64, Error>(e),
        },
{
    let page = address & !(crate::long_mode::LONG_MODE_PAGE_SIZE - 1);
    let index = page / crate::long_mode::LONG_MODE_PAGE_SIZE;
    assert(address & !0xfffu64 == address - address % 0x1000) by (bit_vector);
    assert(page / 0x1000 == address / 0x1000);
    memory.read_u64(GuestPhysAddr::new(pt_base + index * 8))
}

/// Reads the page-directory entry that would map `COPYOUT_BAD_POINTER`.
pub fn read_bad_pointer_pd_entry(memory: &GuestMemory) -> (r: Result<u64, Error>)
    requires memory.wf(),
    ensures
        match spec_read_at(memory.region, memory.bytes@, (LONG_MODE_PD_ADDR + BAD_POINTER_PD_INDEX * 8) as u64, 8) {
            Ok(s) => r == Ok::<u64, Error>(vstd::bytes::spec_u64_from_le_bytes(s)),
            Err(e) => r == Err::<u64, Error>(e),
        },
{
    memory.read_u64(GuestPhysAddr::new(LONG_MODE_PD_ADDR + BAD_POINTER_PD_INDEX * 8))
}

/// The architectural state a correct run leaves, given the ring-0 stack top `tss_rsp0` and the
/// STAR, LSTAR and SFMASK values the run programmed.
pub open spec fn copyout_state_is_valid(state: CopyoutRuntimeState, tss_rsp0: u64, syscall_msrs: [u64; 3]) -> bool {
    &&& state.good_return == 0
    &&& state.bad_return == COPYOUT_EFAULT
    &&& state.user_readback == COPYOUT_VALUE as u64
    &&& state.user_memory_value == COPYOUT_VALUE
    &&& state.page_fault.cr2 == COPYOUT_BAD_POINTER
    &&& state.page_fault.error_code == PAGE_FAULT_ERROR_CODE
    &&& state.page_fault.rip == COPYOUT_FAULT_RIP
    &&& state.page_fault.cs == KERNEL_CODE_SELECTOR as u64
    &&& state.page_fault.rflags == PAGE_FAULT_SAVED_RFLAGS
    &&& state.terminal_frame == (CopyoutTerminalFrame {
        rip: COPYOUT_TERMINAL_RETURN_RIP,
        cs: PRIVILEGE_USER_CODE_SELECTOR as u64,
        rflags: X86_RFLAGS_RESERVED | X86_RFLAGS_IF,
        rsp: PRIVILEGE_USER_STACK,
        ss: PRIVILEGE_USER_DATA_SELECTOR as u64,
    })
    &&& state.terminal_rsp == tss_rsp0 - PRIVILEGE_FRAME_BYTES
    &&& state.terminal_cs == KERNEL_CODE_SELECTOR
    &&& state.terminal_rflags & X86_RFLAGS_RESERVED == X86_RFLAGS_RESERVED
    &&& state.terminal_rflags & X86_RFLAGS_IF == 0
    &&& state.final_cr2 == COPYOUT_BAD_POINTER
    &&& state.msrs[0] & EFER_SYSCALL_ENABLE == EFER_SYSCALL_ENABLE
    &&& state.msrs[1] == syscall_msrs[0]
    &&& state.msrs[2] == syscall_msrs[1]
    &&& state.msrs[3] == syscall_msrs[2]
    &&& state.good_page_pte & (X86_PAGE_USER | X86_PAGE_WRITE) == (X86_PAGE_USER | X86_PAGE_WRITE)
    &&& state.fault_handler_pte & X86_PAGE_USER == 0
    &&& state.fault_observation_pte & X86_PAGE_USER == 0
    &&& state.bad_pd_entry & X86_PAGE_PRESENT == 0
}

/// Accepts the state of a run exactly when it is the one a correct run leaves.
pub fn validate_runtime_state(state: &CopyoutRuntimeState, tss_rsp0: u64, syscall_msrs: [u64; 3])
    -> (r: Result<(), Error>)
    requires tss_rsp0 >= PRIVILEGE_FRAME_BYTES,
    ensures
        copyout_state_is_valid(*state, tss_rsp0, syscall_msrs) ==> r is Ok,
        !copyout_state_is_valid(*state, tss_rsp0, syscall_msrs)
            ==> r == Err::<(), Error>(copyout_error("fault-safe copyout architectural state")),
{
    let frame = state.terminal_frame;
    let frame_ok = frame.rip == COPYOUT_TERMINAL_RETURN_RIP && frame.cs == PRIVILEGE_USER_CODE_SELECTOR as u64
        && frame.rflags == X86_RFLAGS_RESERVED | X86_RFLAGS_IF && frame.rsp == PRIVILEGE_USER_STACK
        && frame.ss == PRIVILEGE_USER_DATA_SELECTOR as u64;
    let fault = state.page_fault;
    let fault_ok = fault.cr2 == COPYOUT_BAD_POINTER && fault.error_code == PAGE_FAULT_ERROR_CODE
        && fault.rip == COPYOUT_FAULT_RIP && fault.cs == KERNEL_CODE_SELECTOR as u64
        && fault.rflags == PAGE_FAULT_SAVED_RFLAGS;
    let returns_ok = state.good_return == 0 && state.bad_return == COPYOUT_EFAULT
        && state.user_readback == COPYOUT_VALUE as u64 && state.user_memory_value == COPYOUT_VALUE;
    let terminal_ok = state.terminal_rsp == tss_rsp0 - PRIVILEGE_FRAME_BYTES && state.terminal_cs == KERNEL_CODE_SELECTOR
        && state.terminal_rflags & X86_RFLAGS_RESERVED == X86_RFLAGS_RESERVED
        && state.terminal_rflags & X86_RFLAGS_IF == 0 && state.final_cr2 == COPYOUT_BAD_POINTER;
    let msrs_ok = state.msrs[0] & EFER_SYSCALL_ENABLE == EFER_SYSCALL_ENABLE && state.msrs[1] == syscall_msrs[0]
        && state.msrs[2] == syscall_msrs[1] && state.msrs[3] == syscall_msrs[2];
    let tables_ok = state.good_page_pte & (X86_PAGE_USER | X86_PAGE_WRITE) == (X86_PAGE_USER | X86_PAGE_WRITE)
        && state.fault_handler_pte & X86_PAGE_USER == 0 && state.fault_observation_pte & X86_PAGE_USER == 0
        && state.bad_pd_entry & X86_PAGE_PRESENT == 0;
    if !(returns_ok && fault_ok && frame_ok && terminal_ok && msrs_ok && tables_ok) {
        return Err(verification_error("fault-safe copyout architectural state"));
    }
    Ok(())
}

/// The run must end after exactly one debug-port exit per proof byte, and the bytes written
/// to the debug port must be exactly `COPYOUT_PROOF`.
pub fn validate_copyout_proof(io_exit_count: usize, last_exit: VcpuExit, proof: &[u8]) -> (r: Result<(), Error>)
    ensures
        io_exit_count != 3 ==> r == Err::<(), Error>(Error::VmExit(VmExitError::UnexpectedSequence {
            stage: "fault-safe copyout proof output count",
            expected_reason: VcpuExit::Io.spec_reason(),
            actual_reason: last_exit.spec_reason(),
        })),
        io_exit_count == 3 && proof@ != COPYOUT_PROOF@ ==> r == Err::<(), Error>(copyout_error("fault-safe copyout proof")),
        io_exit_count == 3 && proof@ == COPYOUT_PROOF@ ==> r is Ok,
{
    if io_exit_count != 3 {
        return Err(Error::VmExit(VmExitError::UnexpectedSequence {
            stage: "fault-safe copyout proof output count",
            expected_reason: VcpuExit::Io.reason(),
            actual_reason: last_exit.reason(),
        }));
    }
    let expected = COPYOUT_PROOF;
    let same = proof.len() == 3 && proof[0] == expected[0] && proof[1] == expected[1] && proof[2] == expected[2];
    proof {
        if proof@.len() == 3 && proof@[0] == expected@[0] && proof@[1] == expected@[1] && proof@[2] == expected@[2] {
            assert(proof@ =~= COPYOUT_PROOF@);
        }
    }
    if !same {
        return Err(verification_error("fault-safe copyout proof"));
    }
    Ok(())
}

/// The end of a fault-safe copyout run: the debug-port proof is checked first, then the
/// architectural state read back from the guest; a run that passes both is reported.
pub fn fault_safe_copyout_result(
    io_exits: Vec<PortIoExit>,
    proof: Vec<u8>,
    report: VmExitReport,
    state: CopyoutRuntimeState,
    tss_rsp0: u64,
    syscall_msrs: [u64; 3],
) -> (r: Result<FaultSafeCopyoutGuestResult, Error>)
    requires tss_rsp0 >= PRIVILEGE_FRAME_BYTES,
    ensures
        io_exits@.len() != 3 ==> r == Err::<FaultSafeCopyoutGuestResult, Error>(
            Error::VmExit(VmExitError::UnexpectedSequence {
                stage: "fault-safe copyout proof output count",
                expected_reason: VcpuExit::Io.spec_reason(),
                actual_reason: report.exit.spec_reason(),
            }),
        ),
        io_exits@.len() == 3 && proof@ != COPYOUT_PROOF@ ==> r == Err::<FaultSafeCopyoutGuestResult, Error>(
            copyout_error("fault-safe copyout proof"),
        ),
        io_exits@.len() == 3 && proof@ == COPYOUT_PROOF@ && !copyout_state_is_valid(state, tss_rsp0, syscall_msrs)
            ==> r == Err::<FaultSafeCopyoutGuestResult, Error>(copyout_error("fault-safe copyout architectural state")),
        r is Ok <==> (io_exits@.len() == 3 && proof@ == COPYOUT_PROOF@
            && copyout_state_is_valid(state, tss_rsp0, syscall_msrs)),
        r matches Ok(result) ==> {
            &&& result.io_exits@ == io_exits@
            &&& result.proof@ == proof@
            &&& result.report == report
            &&& result.good_return == state.good_return
            &&& result.bad_return == state.bad_return
            &&& result.user_readback == state.user_readback
            &&& result.user_memory_value == state.user_memory_value
            &&& result.page_fault == state.page_fault
            &&& result.terminal_frame == state.terminal_frame
            &&& result.terminal_rsp == state.terminal_rsp
            &&& result.terminal_cs == state.terminal_cs
            &&& result.terminal_rflags == state.terminal_rflags
            &&& result.final_cr2 == state.final_cr2
            &&& result.efer == state.msrs[0]
            &&& result.star == state.msrs[1]
            &&& result.lstar == state.msrs[2]
            &&& result.sfmask == state.msrs[3]
            &&& result.good_page_pte == state.good_page_pte
            &&& result.fault_handler_pte == state.fault_handler_pte
            &&& result.fault_observation_pte == state.fault_observation_pte
            &&& result.bad_pd_entry == state.bad_pd_entry
        },
{
    validate_copyout_proof(io_exits.len(), report.exit, proof.as_slice())?;
    validate_runtime_state(&state, tss_rsp0, syscall_msrs)?;
    Ok(FaultSafeCopyoutGuestResult::from_state(io_exits, proof, report, state))
}

/// The STAR, LSTAR and SFMASK values read back after programming must be the ones written.
pub fn check_copyout_msr_readback(observed: &[u64], expected: [u64; 3]) -> (r: Result<[u64; 3], Error>)
    ensures
        observed@.len() == 3 && observed@ == expected@ ==> r == Ok::<[u64; 3], Error>(expected),
        !(observed@.len() == 3 && observed@ == expected@)
            ==> r == Err::<[u64; 3], Error>(copyout_error("copyout syscall MSR readback")),
{
    if observed.len() != 3 {
        return Err(verification_error("copyout syscall MSR readback"));
    }
    let readback = [observed[0], observed[1], observed[2]];
    if readback[0] != expected[0] || readback[1] != expected[1] || readback[2] != expected[2] {
        proof {
            if observed@ == expected@ {
                assert(observed@[0] == expected@[0]);
                assert(observed@[1] == expected@[1]);
                assert(observed@[2] == expected@[2]);
            }
        }
        return Err(verification_error("copyout syscall MSR readback"));
    }
    assert(observed@ =~= expected@);
    proof {
        assert(readback@ =~= expected@);
        assert(readback =~= expected);
    }
    Ok(readback)
}

/// The 40 bytes of an x86-64 interrupt frame as the CPU pushes it, lowest address first: RIP,
/// CS, RFLAGS, RSP and SS, each a little-endian quadword.
pub open spec fn interrupt_frame_bytes(rip: u64, cs: u64, rflags: u64, rsp: u64, ss: u64) -> Seq<u8> {
    spec_u64_to_le_bytes(rip) + spec_u64_to_le_bytes(cs) + spec_u64_to_le_bytes(rflags)
        + spec_u64_to_le_bytes(rsp) + spec_u64_to_le_bytes(ss)
}

/// Decoding the frame the CPU pushed gives back each of the five values in its own field.
pub proof fn lemma_terminal_frame_decodes_pushed_frame(rip: u64, cs: u64, rflags: u64, rsp: u64, ss: u64)
    ensures
        spec_terminal_frame(interrupt_frame_bytes(rip, cs, rflags, rsp, ss))
            == (CopyoutTerminalFrame { rip, cs, rflags, rsp, ss }),
{
    lemma_auto_spec_u64_to_from_le_bytes();
    let b = interrupt_frame_bytes(rip, cs, rflags, rsp, ss);
    assert(b.subrange(0, 8) =~= spec_u64_to_le_bytes(rip));
    assert(b.subrange(8, 16) =~= spec_u64_to_le_bytes(cs));
    assert(b.subrange(16, 24) =~= spec_u64_to_le_bytes(rflags));
    assert(b.subrange(24, 32) =~= spec_u64_to_le_bytes(rsp));
    assert(b.subrange(32, 40) =~= spec_u64_to_le_bytes(ss));
}

/// Decoding what the page-fault handler stored, quadword by quadword from the lowest address
/// (CR2, error code, faulting RIP, CS, RFLAGS), gives back each value in its own field.
pub proof fn lemma_page_fault_observation_decodes_stored_words(cr2: u64, error_code: u64, rip: u64, cs: u64,
    rflags: u64)
    ensures
        spec_page_fault_observation(spec_u64_to_le_bytes(cr2) + spec_u64_to_le_bytes(error_code)
            + spec_u64_to_le_bytes(rip) + spec_u64_to_le_bytes(cs) + spec_u64_to_le_bytes(rflags))
            == (CopyoutPageFaultObservation { cr2, error_code, rip, cs, rflags }),
{
    lemma_auto_spec_u64_to_from_le_bytes();
    let b = spec_u64_to_le_bytes(cr2) + spec_u64_to_le_bytes(error_code) + spec_u64_to_le_bytes(rip)
        + spec_u64_to_le_bytes(cs) + spec_u64_to_le_bytes(rflags);
    assert(b.subrange(0, 8) =~= spec_u64_to_le_bytes(cr2));
    assert(b.subrange(8, 16) =~= spec_u64_to_le_bytes(error_code));
    assert(b.subrange(16, 24) =~= spec_u64_to_le_bytes(rip));
    assert(b.subrange(24, 32) =~= spec_u64_to_le_bytes(cs));
    assert(b.subrange(32, 40) =~= spec_u64_to_le_bytes(rflags));
}

} // verus!
