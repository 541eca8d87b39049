use mini_hypervisor::error::{Error, HostEnvironmentError, HostIoCause, VmExitError};
use mini_hypervisor::kvm::irqchip::{validate_irqchip_run, IRQCHIP_GSI, IRQCHIP_PROOF, IRQCHIP_TERMINAL_RIP, IRQCHIP_VECTOR};
use mini_hypervisor::vcpu::{PortIoDirection, PortIoExit, VcpuExit, VmExitReport, KVM_EXIT_HLT, KVM_EXIT_SHUTDOWN};
use mini_hypervisor::{check_long_mode_guest_proof, LONG_MODE_GUEST_PROOF};

fn debug_exits(bytes: &[u8]) -> Vec<PortIoExit> {
    bytes
        .iter()
        .map(|byte| PortIoExit::new(PortIoDirection::Out, 1, 0xe9, 1, vec![*byte]))
        .collect()
}

fn halted_at_terminal() -> VmExitReport {
    VmExitReport::new(VcpuExit::Hlt, IRQCHIP_TERMINAL_RIP, 0x202)
}

fn irqchip_error(operation: &'static str) -> Error {
    Error::HostEnvironment(HostEnvironmentError::VcpuOperation { id: 0, operation, source: HostIoCause::InvalidData })
}

#[test]
fn irqchip_run_with_armed_flags_and_full_proof_is_accepted() {
    let result = validate_irqchip_run(0x202, debug_exits(&IRQCHIP_PROOF), IRQCHIP_PROOF.to_vec(), halted_at_terminal())
        .unwrap();

    assert_eq!(result.gsi, IRQCHIP_GSI);
    assert_eq!(result.vector, IRQCHIP_VECTOR);
    assert_eq!(result.armed_rflags, 0x202);
    assert_eq!(result.io_exits.len(), 4);
    assert_eq!(result.proof, b"RAIM".to_vec());
    assert_eq!(result.report, halted_at_terminal());
}

#[test]
fn irqchip_run_with_interrupts_disabled_at_the_barrier_is_refused() {
    let result = validate_irqchip_run(0x2, debug_exits(&IRQCHIP_PROOF), IRQCHIP_PROOF.to_vec(), halted_at_terminal());

    assert_eq!(result, Err(irqchip_error("irqchip armed barrier state")));
}

#[test]
fn irqchip_run_with_the_reserved_flag_clear_is_refused() {
    let result = validate_irqchip_run(0x200, debug_exits(&IRQCHIP_PROOF), IRQCHIP_PROOF.to_vec(), halted_at_terminal());

    assert_eq!(result, Err(irqchip_error("irqchip armed barrier state")));
}

#[test]
fn irqchip_run_without_the_handler_byte_is_refused() {
    let result = validate_irqchip_run(0x202, debug_exits(b"RAM"), b"RAM".to_vec(), halted_at_terminal());

    assert_eq!(result, Err(irqchip_error("irqchip GSI execution proof")));
}

#[test]
fn irqchip_run_halting_elsewhere_is_refused() {
    let report = VmExitReport::new(VcpuExit::Hlt, IRQCHIP_TERMINAL_RIP + 1, 0x202);
    let result = validate_irqchip_run(0x202, debug_exits(&IRQCHIP_PROOF), IRQCHIP_PROOF.to_vec(), report);

    assert_eq!(result, Err(irqchip_error("irqchip GSI execution proof")));
}

#[test]
fn irqchip_run_ending_with_interrupts_disabled_is_refused() {
    let report = VmExitReport::new(VcpuExit::Hlt, IRQCHIP_TERMINAL_RIP, 0x2);
    let result = validate_irqchip_run(0x202, debug_exits(&IRQCHIP_PROOF), IRQCHIP_PROOF.to_vec(), report);

    assert_eq!(result, Err(irqchip_error("irqchip GSI execution proof")));
}

#[test]
fn long_mode_guest_proof_accepts_exactly_its_bytes() {
    assert_eq!(check_long_mode_guest_proof(b"LM64", KVM_EXIT_HLT), Ok(()));
    assert_eq!(LONG_MODE_GUEST_PROOF, *b"LM64");
}

#[test]
fn long_mode_guest_proof_refuses_other_output_naming_the_exit() {
    assert_eq!(
        check_long_mode_guest_proof(b"LM6", KVM_EXIT_SHUTDOWN),
        Err(Error::VmExit(VmExitError::UnexpectedSequence {
            stage: "long-mode guest proof",
            expected_reason: KVM_EXIT_HLT,
            actual_reason: KVM_EXIT_SHUTDOWN,
        }))
    );
}
