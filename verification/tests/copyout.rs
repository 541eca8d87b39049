use mini_hypervisor::copyout::{
    check_copyout_msr_readback, encode_kernel_interrupt_gate, install_page_fault_gate, read_bad_pointer_pd_entry,
    fault_safe_copyout_result, read_page_fault_observation, read_pte, read_results, validate_copyout_proof,
    validate_runtime_state,
    CopyoutPageFaultObservation, CopyoutRuntimeState, CopyoutTerminalFrame, FaultSafeCopyoutGuestResult,
    COPYOUT_BAD_POINTER, COPYOUT_EFAULT, COPYOUT_FAULT_OBSERVATION_ADDR, COPYOUT_FAULT_RIP,
    COPYOUT_FIRST_RETURN_RIP, COPYOUT_FIXUP_RIP, COPYOUT_HANDLER_BYTES, COPYOUT_PAGE_FAULT_HANDLER,
    COPYOUT_PAGE_FAULT_VECTOR, COPYOUT_RESULT_ADDR, COPYOUT_SECOND_RETURN_RIP, COPYOUT_TERMINAL_RETURN_RIP,
    COPYOUT_VALUE, KERNEL_CODE_SELECTOR, PAGE_FAULT_ERROR_CODE, PAGE_FAULT_HANDLER_BYTES, PAGE_FAULT_SAVED_RFLAGS,
    PRIVILEGE_USER_CODE_SELECTOR, PRIVILEGE_USER_DATA_SELECTOR, PRIVILEGE_USER_ENTRY, PRIVILEGE_USER_STACK,
    SYSCALL_KERNEL_ENTRY, USER_BYTES, X86_RFLAGS_IF, X86_RFLAGS_RESERVED,
};
use mini_hypervisor::error::{Error, HostEnvironmentError, HostIoCause, VmExitError};
use mini_hypervisor::long_mode::LONG_MODE_PD_ADDR;
use mini_hypervisor::memory::{GuestMemory, GuestPhysAddr};
use mini_hypervisor::vcpu::{PortIoDirection, PortIoExit, VcpuExit, VmExitReport, KVM_EXIT_HLT, KVM_EXIT_IO};

#[test]
fn user_sequence_records_good_return_readback_bad_return_and_terminal_boundary() {
    assert_eq!(&USER_BYTES[10..12], &[0x0f, 0x05]);
    assert_eq!(COPYOUT_FIRST_RETURN_RIP, PRIVILEGE_USER_ENTRY + 12);
    assert_eq!(&USER_BYTES[25..28], &[0x0f, 0xb6, 0x07]);
    assert_eq!(&USER_BYTES[42..44], &[0x0f, 0x05]);
    assert_eq!(COPYOUT_SECOND_RETURN_RIP, PRIVILEGE_USER_ENTRY + 44);
    assert_eq!(&USER_BYTES[48..50], &[0xcd, 0x81]);
    assert_eq!(COPYOUT_TERMINAL_RETURN_RIP, PRIVILEGE_USER_ENTRY + 50);
}

#[test]
fn copyout_handler_has_one_store_fault_site_and_one_fixup() {
    assert_eq!(&COPYOUT_HANDLER_BYTES[13..16], &[0xc6, 0x07, COPYOUT_VALUE]);
    assert_eq!(COPYOUT_FAULT_RIP, SYSCALL_KERNEL_ENTRY + 13);
    assert_eq!(&COPYOUT_HANDLER_BYTES[26..29], &[0x4c, 0x89, 0xd4]);
    assert_eq!(COPYOUT_FIXUP_RIP, SYSCALL_KERNEL_ENTRY + 26);
    assert_eq!(&COPYOUT_HANDLER_BYTES[29..32], &[0x48, 0x0f, 0x07]);
}

#[test]
fn page_fault_handler_rewrites_saved_rip_discards_error_code_and_iretqs() {
    assert_eq!(&PAGE_FAULT_HANDLER_BYTES[0..3], &[0x0f, 0x20, 0xd0]);
    assert_eq!(
        &PAGE_FAULT_HANDLER_BYTES[51..61],
        &[0x48, 0xb8, 0x1a, 0x20, 0x01, 0x00, 0x00, 0x00, 0x00, 0x00]
    );
    assert_eq!(&PAGE_FAULT_HANDLER_BYTES[80..84], &[0x48, 0x83, 0xc4, 0x08]);
    assert_eq!(&PAGE_FAULT_HANDLER_BYTES[84..86], &[0x48, 0xcf]);
}

#[test]
fn write_fault_contract_requires_nonpresent_supervisor_write_and_resume_flag() {
    assert_eq!(PAGE_FAULT_ERROR_CODE, 0x2);
    assert_eq!(PAGE_FAULT_SAVED_RFLAGS, 0x1_0002);
}

#[test]
fn kernel_gate_splits_the_handler_address_and_is_a_dpl0_interrupt_gate() {
    let gate = encode_kernel_interrupt_gate(0x1122_3344_5566_7788);
    assert_eq!(
        gate,
        [0x88, 0x77, 0x08, 0x00, 0x00, 0x8e, 0x66, 0x55, 0x44, 0x33, 0x22, 0x11, 0, 0, 0, 0]
    );
    let handler_gate = encode_kernel_interrupt_gate(COPYOUT_PAGE_FAULT_HANDLER);
    assert_eq!(handler_gate[0..2], [0x00, 0x40]);
    assert_eq!(handler_gate[6..8], [0x01, 0x00]);
}

#[test]
fn page_fault_gate_lands_in_vector_14_of_the_given_idt() {
    let mut memory = GuestMemory::new(GuestPhysAddr::new(0), 0x20_0000).unwrap();
    install_page_fault_gate(&mut memory, 0x8000).unwrap();
    let mut gate = [0_u8; 16];
    memory
        .read(GuestPhysAddr::new(0x8000 + u64::from(COPYOUT_PAGE_FAULT_VECTOR) * 16), &mut gate)
        .unwrap();
    assert_eq!(gate, encode_kernel_interrupt_gate(COPYOUT_PAGE_FAULT_HANDLER));
    assert_eq!(gate[5], 0x8e);
    let mut small = GuestMemory::new(GuestPhysAddr::new(0), 0x1000).unwrap();
    assert!(install_page_fault_gate(&mut small, 0x1000).is_err());
}

#[test]
fn guest_records_decode_as_little_endian_words() {
    let mut memory = GuestMemory::new(GuestPhysAddr::new(0), 0x20_0000).unwrap();
    for (index, value) in [COPYOUT_BAD_POINTER, 2, COPYOUT_FAULT_RIP, 8, 0x1_0002].iter().enumerate() {
        memory
            .write_u64(GuestPhysAddr::new(COPYOUT_FAULT_OBSERVATION_ADDR + 8 * index as u64), *value)
            .unwrap();
    }
    let observation = read_page_fault_observation(&memory).unwrap();
    assert_eq!(observation.cr2(), COPYOUT_BAD_POINTER);
    assert_eq!(observation.error_code(), 2);
    assert_eq!(observation.rip(), COPYOUT_FAULT_RIP);
    assert_eq!(observation.cs(), 8);
    assert_eq!(observation.rflags(), 0x1_0002);

    memory.write_u64(GuestPhysAddr::new(COPYOUT_RESULT_ADDR + 8), COPYOUT_EFAULT).unwrap();
    memory.write_u64(GuestPhysAddr::new(COPYOUT_RESULT_ADDR + 16), 0xa5).unwrap();
    assert_eq!(read_results(&memory).unwrap(), (0, COPYOUT_EFAULT, 0xa5));

    memory.write_u64(GuestPhysAddr::new(0x5000 + 0xa * 8), 0xa007).unwrap();
    assert_eq!(read_pte(&memory, 0x5000, 0xa100).unwrap(), 0xa007);
    memory.write_u64(GuestPhysAddr::new(LONG_MODE_PD_ADDR + 16), 0x83).unwrap();
    assert_eq!(read_bad_pointer_pd_entry(&memory).unwrap(), 0x83);
}

fn good_state(tss_rsp0: u64, msrs: [u64; 3]) -> CopyoutRuntimeState {
    CopyoutRuntimeState {
        good_return: 0,
        bad_return: COPYOUT_EFAULT,
        user_readback: u64::from(COPYOUT_VALUE),
        user_memory_value: COPYOUT_VALUE,
        page_fault: CopyoutPageFaultObservation {
            cr2: COPYOUT_BAD_POINTER,
            error_code: PAGE_FAULT_ERROR_CODE,
            rip: COPYOUT_FAULT_RIP,
            cs: u64::from(KERNEL_CODE_SELECTOR),
            rflags: PAGE_FAULT_SAVED_RFLAGS,
        },
        terminal_frame: CopyoutTerminalFrame {
            rip: COPYOUT_TERMINAL_RETURN_RIP,
            cs: u64::from(PRIVILEGE_USER_CODE_SELECTOR),
            rflags: X86_RFLAGS_RESERVED | X86_RFLAGS_IF,
            rsp: PRIVILEGE_USER_STACK,
            ss: u64::from(PRIVILEGE_USER_DATA_SELECTOR),
        },
        terminal_rsp: tss_rsp0 - 40,
        terminal_cs: KERNEL_CODE_SELECTOR,
        terminal_rflags: X86_RFLAGS_RESERVED,
        final_cr2: COPYOUT_BAD_POINTER,
        msrs: [0xd01, msrs[0], msrs[1], msrs[2]],
        good_page_pte: 0xa007,
        fault_handler_pte: 0x14003,
        fault_observation_pte: 0xb003,
        bad_pd_entry: 0,
    }
}

fn state_error() -> Error {
    Error::HostEnvironment(HostEnvironmentError::VcpuOperation {
        id: 0,
        operation: "fault-safe copyout architectural state",
        source: HostIoCause::InvalidData,
    })
}

#[test]
fn runtime_state_is_accepted_only_when_every_check_holds() {
    let msrs = [0x0010_0008_0000_0000, SYSCALL_KERNEL_ENTRY, 0x200];
    let state = good_state(0x1f_f000, msrs);
    assert_eq!(validate_runtime_state(&state, 0x1f_f000, msrs), Ok(()));

    let mut wrong_return = state;
    wrong_return.bad_return = 0;
    assert_eq!(validate_runtime_state(&wrong_return, 0x1f_f000, msrs), Err(state_error()));
    let mut user_handler = state;
    user_handler.fault_handler_pte |= 4;
    assert_eq!(validate_runtime_state(&user_handler, 0x1f_f000, msrs), Err(state_error()));
    let mut interrupts_on = state;
    interrupts_on.terminal_rflags |= X86_RFLAGS_IF;
    assert_eq!(validate_runtime_state(&interrupts_on, 0x1f_f000, msrs), Err(state_error()));
    let mut mapped = state;
    mapped.bad_pd_entry = 0x83;
    assert_eq!(validate_runtime_state(&mapped, 0x1f_f000, msrs), Err(state_error()));
    assert_eq!(validate_runtime_state(&state, 0x1f_f000, [0, 0, 0]), Err(state_error()));
    assert_eq!(validate_runtime_state(&state, 0x1f_e000, msrs), Err(state_error()));

    let result = FaultSafeCopyoutGuestResult::from_state(
        Vec::new(),
        b"WFD".to_vec(),
        VmExitReport::new(VcpuExit::Hlt, 0x1_3005, 2),
        state,
    );
    assert_eq!(result.star(), msrs[0]);
    assert_eq!(result.lstar(), msrs[1]);
    assert_eq!(result.sfmask(), msrs[2]);
    assert_eq!(result.efer(), 0xd01);
    assert_eq!(result.bad_return(), COPYOUT_EFAULT);
    assert_eq!(result.proof_bytes(), b"WFD");
}

#[test]
fn proof_and_msr_readback_checks_name_their_stage() {
    assert_eq!(validate_copyout_proof(3, VcpuExit::Hlt, b"WFD"), Ok(()));
    assert!(matches!(
        validate_copyout_proof(2, VcpuExit::Hlt, b"WF"),
        Err(Error::VmExit(VmExitError::UnexpectedSequence { stage: "fault-safe copyout proof output count", .. }))
    ));
    assert!(matches!(
        validate_copyout_proof(3, VcpuExit::Hlt, b"WDF"),
        Err(Error::HostEnvironment(HostEnvironmentError::VcpuOperation { operation: "fault-safe copyout proof", .. }))
    ));
    assert_eq!(check_copyout_msr_readback(&[1, 2, 3], [1, 2, 3]), Ok([1, 2, 3]));
    assert!(check_copyout_msr_readback(&[1, 2], [1, 2, 3]).is_err());
    assert!(check_copyout_msr_readback(&[1, 2, 4], [1, 2, 3]).is_err());
}

#[test]
fn installs_dpl0_page_fault_gate_without_weakening_terminal_user_gate() {
    let idt_base = 0x8000;
    let mut memory = GuestMemory::new(GuestPhysAddr::new(0), 0x20_0000).unwrap();
    let mut user_gate = encode_kernel_interrupt_gate(SYSCALL_KERNEL_ENTRY);
    user_gate[5] = 0xee;
    memory.write(GuestPhysAddr::new(idt_base + 0x81 * 16), &user_gate).unwrap();
    install_page_fault_gate(&mut memory, idt_base).unwrap();

    let gate = memory.read_vec(GuestPhysAddr::new(idt_base + u64::from(COPYOUT_PAGE_FAULT_VECTOR) * 16), 16).unwrap();
    assert_eq!(gate, encode_kernel_interrupt_gate(COPYOUT_PAGE_FAULT_HANDLER).to_vec());
    assert_eq!(gate[5], 0x8e);

    let terminal_gate = memory.read_vec(GuestPhysAddr::new(idt_base + 0x81 * 16), 16).unwrap();
    assert_eq!(terminal_gate[5], 0xee);
}

#[test]
fn good_destination_is_user_writable_and_bad_pointer_stays_unmapped() {
    assert_eq!(COPYOUT_BAD_POINTER, 2 * 0x20_0000);
    let pt_base = 0x5000;
    let mut memory = GuestMemory::new(GuestPhysAddr::new(0), 0x20_0000).unwrap();
    memory.write_u64(GuestPhysAddr::new(pt_base + (0xa100 / 0x1000) * 8), 0xa000 | 0x7).unwrap();
    let pte = read_pte(&memory, pt_base, 0xa100).unwrap();
    assert_eq!(pte & (0x4 | 0x2), 0x4 | 0x2);
    assert_eq!(read_bad_pointer_pd_entry(&memory).unwrap() & 0x1, 0);
}

fn proof_exits() -> Vec<PortIoExit> {
    b"WFD".iter().map(|byte| PortIoExit::new(PortIoDirection::Out, 1, 0xe9, 1, vec![*byte])).collect()
}

#[test]
fn copyout_run_is_reported_only_after_proof_and_state_pass() {
    let msrs = [0x0010_0008_0000_0000, SYSCALL_KERNEL_ENTRY, 0x200];
    let state = good_state(0x1f_f000, msrs);
    let report = VmExitReport::new(VcpuExit::Hlt, 0x1_3005, 2);

    let result = fault_safe_copyout_result(proof_exits(), b"WFD".to_vec(), report, state, 0x1f_f000, msrs).unwrap();
    assert_eq!(result.proof_bytes(), b"WFD");
    assert_eq!(result.io_exits().len(), 3);
    assert_eq!(result.report(), report);
    assert_eq!(result.bad_return(), COPYOUT_EFAULT);

    assert_eq!(
        fault_safe_copyout_result(proof_exits()[..2].to_vec(), b"WF".to_vec(), report, state, 0x1f_f000, msrs),
        Err(Error::VmExit(VmExitError::UnexpectedSequence {
            stage: "fault-safe copyout proof output count",
            expected_reason: KVM_EXIT_IO,
            actual_reason: KVM_EXIT_HLT,
        }))
    );
    assert_eq!(
        fault_safe_copyout_result(proof_exits(), b"WFX".to_vec(), report, state, 0x1f_f000, msrs),
        Err(Error::HostEnvironment(HostEnvironmentError::VcpuOperation {
            id: 0,
            operation: "fault-safe copyout proof",
            source: HostIoCause::InvalidData,
        }))
    );
    let mut wrong = state;
    wrong.good_return = 1;
    assert_eq!(
        fault_safe_copyout_result(proof_exits(), b"WFD".to_vec(), report, wrong, 0x1f_f000, msrs),
        Err(state_error())
    );
}
