use mini_hypervisor::error::{Error, HostEnvironmentError, HostIoCause};
use mini_hypervisor::kvm::host_registration_pair::{two_host_registration_result, two_host_registration_start, TWO_HOST_REGISTRATION_PROOF};
use mini_hypervisor::kvm::ioeventfd_doorbell::{ioeventfd_doorbell_result, ioeventfd_doorbell_start, IOEVENTFD_DOORBELL_PROOF};
use mini_hypervisor::portio::scenario::{
    scenario_step, HostOperation, ScenarioAction, ScenarioEvent, ScenarioRun, StageCheck,
};
use mini_hypervisor::portio::two_vcpu_ap_local_timer_fixture::{ap_local_timer_result, ap_local_timer_start, AP_TIMER_PROOF, BSP_TIMER_PROOF};
use mini_hypervisor::portio::two_vcpu_guest_ipi_fixture::{guest_ipi_result, guest_ipi_start};
use mini_hypervisor::portio::two_vcpu_init_sipi_fixture::{
    ap_long_mode_ipi_startup_result, ap_long_mode_startup_result, real_mode_startup_result, two_vcpu_startup_start,
    ApExecutionMode, AP_LONG_MODE_CODE_SELECTOR, AP_LONG_MODE_DATA_SELECTOR,
    AP_LONG_MODE_GDT, AP_LONG_MODE_GDT_LIMIT, AP_LONG_MODE_IPI_BSP_PROOF, AP_LONG_MODE_IPI_PROOF,
    AP_LONG_MODE_PROOF, AP_LONG_MODE_STACK, SIPI_CS_BASE, SIPI_CS_SELECTOR,
};
use mini_hypervisor::portio::two_vcpu_sipi_work_dispatch_fixture::{
    sipi_ipi_work_dispatch_result, sipi_ipi_work_dispatch_start, AP_COMPOSED_PROOF, BSP_COMPOSED_PROOF,
};
use mini_hypervisor::portio::two_vcpu_targeted_msi_fixture::{targeted_msi_result, targeted_msi_start};
use mini_hypervisor::portio::two_vcpu_tlb_shootdown_fixture::{tlb_shootdown_result, tlb_shootdown_start, AP_TLB_PROOF, BSP_TLB_PROOF};
use mini_hypervisor::portio::vcpu_checks::{ApLongModeRegisters, ApStartupState};
use mini_hypervisor::vcpu::{PortIoDirection, PortIoExit, VcpuExit, VmExitReport};

fn debug_exit(byte: u8) -> ScenarioEvent {
    ScenarioEvent::Exited {
        exit: VcpuExit::Io,
        io: Some(PortIoExit::new_for_test(0xe9, PortIoDirection::Out, 1, 1, vec![byte])),
        output: true,
    }
}

fn long_mode_registers() -> ApLongModeRegisters {
    ApLongModeRegisters {
        rsp: AP_LONG_MODE_STACK,
        cs_selector: AP_LONG_MODE_CODE_SELECTOR,
        cs_long: 1,
        cs_db: 0,
        cs_present: 1,
        ss_selector: AP_LONG_MODE_DATA_SELECTOR,
        gdt_base: AP_LONG_MODE_GDT,
        gdt_limit: AP_LONG_MODE_GDT_LIMIT,
        cr0: 0x8000_0011,
        cr3: 0x1000,
        cr4: 0x20,
        efer: 0x500,
    }
}

/// The event a well-behaved host and guest give for the current stage.
fn expected_event(run: &ScenarioRun) -> ScenarioEvent {
    let stage = run.script()[run.position()];
    match stage.check {
        StageCheck::DebugOutput(byte) => debug_exit(byte),
        StageCheck::Halt => ScenarioEvent::Exited { exit: VcpuExit::Hlt, io: None, output: false },
        StageCheck::InterruptsDisabled => ScenarioEvent::Rflags(0x2),
        StageCheck::InterruptsEnabled => ScenarioEvent::Rflags(0x202),
        StageCheck::MpState(state) => ScenarioEvent::MpState(state),
        StageCheck::SipiStartup => ScenarioEvent::Startup(ApStartupState {
            mp_state: 0,
            rip: 0,
            cs_selector: SIPI_CS_SELECTOR,
            cs_base: SIPI_CS_BASE,
            cr0: 0x10,
        }),
        StageCheck::LongMode => ScenarioEvent::LongModeRegisters(long_mode_registers()),
        StageCheck::Idt { base, limit } => ScenarioEvent::Idt { base, limit },
        StageCheck::GuestByte { expected, .. } => ScenarioEvent::GuestByte(expected),
        StageCheck::GuestQword { expected, .. } => ScenarioEvent::GuestQword(expected),
        StageCheck::HostCount { expected, .. } => ScenarioEvent::Count(expected),
        StageCheck::Host(_) => ScenarioEvent::Performed,
    }
}

/// Drives a run to its end, answering every action as a healthy VM would.
fn drive(start: (ScenarioRun, ScenarioAction)) -> ScenarioRun {
    let (mut run, mut action) = start;
    let mut steps = 0;
    while action != ScenarioAction::Finish {
        assert!(!matches!(action, ScenarioAction::Fail(_)), "unexpected failure {action:?}");
        let event = expected_event(&run);
        let (next, next_action) = scenario_step(run, event);
        run = next;
        action = next_action;
        steps += 1;
        assert!(steps < 200);
    }
    assert!(run.is_finished());
    assert_eq!(run.observations().len(), run.script().len());
    run
}

#[test]
fn targeted_msi_run_prints_both_proofs() {
    let (run, action) = targeted_msi_start();
    assert_eq!(action, ScenarioAction::Run(1));
    let run = drive((run, action));
    assert_eq!(run.debug_output(0), b"0MD".to_vec());
    assert_eq!(run.debug_output(1), b"RI1D".to_vec());
}

#[test]
fn targeted_msi_run_asks_for_one_msi_delivery() {
    let (mut run, mut action) = targeted_msi_start();
    while action != ScenarioAction::Perform(HostOperation::SignalMsi) {
        let event = expected_event(&run);
        let (next, next_action) = scenario_step(run, event);
        run = next;
        action = next_action;
    }
    let (run, action) = scenario_step(run, ScenarioEvent::Count(2));
    assert_eq!(
        action,
        ScenarioAction::Fail(Error::HostEnvironment(HostEnvironmentError::VcpuOperation {
            id: 0,
            operation: "targeted MSI delivery count",
            source: HostIoCause::InvalidData,
        }))
    );
    assert_eq!(run.position(), 4);
}

#[test]
fn guest_ipi_run_prints_both_proofs() {
    let run = drive(guest_ipi_start());
    assert_eq!(run.debug_output(0), b"0SMD".to_vec());
    assert_eq!(run.debug_output(1), b"RI1D".to_vec());
}

#[test]
fn startup_runs_print_each_mode_proof() {
    let real = drive(two_vcpu_startup_start(ApExecutionMode::RealModeMarker));
    assert_eq!(real.debug_output(0), b"0IDSMD".to_vec());
    assert_eq!(real.debug_output(1), b"APD".to_vec());
    let long = drive(two_vcpu_startup_start(ApExecutionMode::GuestLongMode));
    assert_eq!(long.debug_output(1), AP_LONG_MODE_PROOF.to_vec());
    let ipi = drive(two_vcpu_startup_start(ApExecutionMode::GuestLongModeIpi));
    assert_eq!(ipi.debug_output(0), AP_LONG_MODE_IPI_BSP_PROOF.to_vec());
    assert_eq!(ipi.debug_output(1), AP_LONG_MODE_IPI_PROOF.to_vec());
}

#[test]
fn startup_run_first_reads_the_ap_mp_state() {
    let (run, action) = two_vcpu_startup_start(ApExecutionMode::RealModeMarker);
    assert_eq!(action, ScenarioAction::ReadMpState(1));
    let (run, action) = scenario_step(run, ScenarioEvent::MpState(0));
    assert_eq!(run.position(), 0);
    assert_eq!(
        action,
        ScenarioAction::Fail(Error::HostEnvironment(HostEnvironmentError::VcpuOperation {
            id: 1,
            operation: "INIT/SIPI initial AP MP state",
            source: HostIoCause::InvalidData,
        }))
    );
}

#[test]
fn startup_rejects_a_protected_mode_ap() {
    let (mut run, mut action) = two_vcpu_startup_start(ApExecutionMode::GuestLongMode);
    while action != ScenarioAction::ReadStartupState(1) {
        let event = expected_event(&run);
        let (next, next_action) = scenario_step(run, event);
        run = next;
        action = next_action;
    }
    let state = ApStartupState { mp_state: 0, rip: 0, cs_selector: SIPI_CS_SELECTOR, cs_base: SIPI_CS_BASE, cr0: 0x11 };
    let (_, action) = scenario_step(run, ScenarioEvent::Startup(state));
    assert!(matches!(action, ScenarioAction::Fail(_)));
}

#[test]
fn composed_tlb_and_timer_runs_print_their_proofs() {
    let composed = drive(sipi_ipi_work_dispatch_start());
    assert_eq!(composed.debug_output(0), BSP_COMPOSED_PROOF.to_vec());
    assert_eq!(composed.debug_output(1), AP_COMPOSED_PROOF.to_vec());
    let tlb = drive(tlb_shootdown_start());
    assert_eq!(tlb.debug_output(0), BSP_TLB_PROOF.to_vec());
    assert_eq!(tlb.debug_output(1), AP_TLB_PROOF.to_vec());
    let timer = drive(ap_local_timer_start());
    assert_eq!(timer.debug_output(0), BSP_TIMER_PROOF.to_vec());
    assert_eq!(timer.debug_output(1), AP_TIMER_PROOF.to_vec());
}

#[test]
fn doorbell_runs_print_their_proofs() {
    let doorbell = drive(ioeventfd_doorbell_start());
    assert_eq!(doorbell.debug_output(0), IOEVENTFD_DOORBELL_PROOF.to_vec());
    let pair = drive(two_host_registration_start());
    assert_eq!(pair.debug_output(0), TWO_HOST_REGISTRATION_PROOF.to_vec());
    assert_eq!(pair.debug_output(0), b"RA0MB1NCE0PF1QD".to_vec());
}

#[test]
fn doorbell_watchdog_firing_fails_against_the_vm() {
    let (mut run, mut action) = ioeventfd_doorbell_start();
    while action != ScenarioAction::Perform(HostOperation::StopWatchdog) {
        let event = expected_event(&run);
        let (next, next_action) = scenario_step(run, event);
        run = next;
        action = next_action;
    }
    let (_, action) = scenario_step(run, ScenarioEvent::Count(1));
    assert_eq!(
        action,
        ScenarioAction::Fail(Error::HostEnvironment(HostEnvironmentError::VmOperation {
            operation: "ioeventfd doorbell watchdog",
            source: HostIoCause::InvalidData,
        }))
    );
}

#[test]
fn wrong_debug_byte_fails_and_keeps_the_stage() {
    let (run, _) = guest_ipi_start();
    let (run, action) = scenario_step(run, debug_exit(b'X'));
    assert_eq!(run.position(), 0);
    assert_eq!(
        action,
        ScenarioAction::Fail(Error::HostEnvironment(HostEnvironmentError::VcpuOperation {
            id: 1,
            operation: "guest IPI second-vCPU readiness",
            source: HostIoCause::InvalidData,
        }))
    );
}

#[test]
fn finished_runs_build_their_results() {
    let msi = targeted_msi_result(drive(targeted_msi_start()));
    assert_eq!(msi.first_proof, b"0MD".to_vec());
    assert_eq!(msi.second_proof, b"RI1D".to_vec());
    assert_eq!(msi.first_io_exits.len(), 3);
    assert_eq!(msi.second_io_exits[1].output_data(), &[b'I']);
    assert_eq!(msi.first_barrier_rflags, 0x202);
    assert_eq!(msi.second_ready_rflags, 0x2);
    assert_eq!(msi.msi_delivery_count, 1);

    let ipi = guest_ipi_result(drive(guest_ipi_start()), 0);
    assert_eq!(ipi.first_io_exits.len(), 4);
    assert_eq!(ipi.first_io_exits[1].output_data(), &[b'S']);
    assert_eq!(ipi.first_send_rflags, 0x202);
    assert_eq!(ipi.second_mp_state, 0);

    let doorbell = ioeventfd_doorbell_result(drive(ioeventfd_doorbell_start()), 0x1ff, 0x700);
    assert_eq!(doorbell.proof, IOEVENTFD_DOORBELL_PROOF.to_vec());
    assert_eq!(doorbell.io_exits.len(), 5);
    assert_eq!(doorbell.doorbell_event_count, 1);
    assert_eq!(doorbell.lapic_spiv, 0x1ff);

    let pair = two_host_registration_result(drive(two_host_registration_start()));
    assert_eq!(pair.generation_doorbell_events, [[1, 1], [1, 1]]);
    assert_eq!(pair.completion_rflags, 0x202);

    let tlb = tlb_shootdown_result(drive(tlb_shootdown_start()));
    assert_eq!(tlb.bsp_proof, BSP_TLB_PROOF.to_vec());
    assert_eq!(tlb.state.initial_ap_mp_state, 1);
    assert_eq!(tlb.state.startup_cs_base, SIPI_CS_BASE);
    assert_eq!(tlb.state.rsp, AP_LONG_MODE_STACK);
    assert_eq!(tlb.page_b, b'B');

    let timer = ap_local_timer_result(drive(ap_local_timer_start()));
    assert_eq!(timer.ap_proof, AP_TIMER_PROOF.to_vec());
    assert!(!timer.watchdog_fired);
    assert_eq!(timer.ap_state.armed_rflags, 0x2);

    let bsp_report = VmExitReport::new(VcpuExit::Hlt, 0x1_00a0, 0x2);
    let ap_report = VmExitReport::new(VcpuExit::Hlt, 0x8_0000, 0x202);
    let composed = sipi_ipi_work_dispatch_result(drive(sipi_ipi_work_dispatch_start()), bsp_report, ap_report);
    assert_eq!(composed.mailbox.payload, 0x21);
    assert_eq!(composed.mailbox.result, 0x42);
    assert_eq!(composed.bsp_report, bsp_report);

    let real = real_mode_startup_result(drive(two_vcpu_startup_start(ApExecutionMode::RealModeMarker)));
    assert_eq!(real.second_proof, b"APD".to_vec());
    assert_eq!(real.final_mp_state, 0);
    assert_eq!(real.startup_cr0, 0x10);
    let long = ap_long_mode_startup_result(drive(two_vcpu_startup_start(ApExecutionMode::GuestLongMode)));
    assert_eq!(long.long_mode.gdt_base, AP_LONG_MODE_GDT);
    let with_ipi = ap_long_mode_ipi_startup_result(drive(two_vcpu_startup_start(ApExecutionMode::GuestLongModeIpi)));
    assert_eq!(with_ipi.interrupt.idt_base, 0x6000);
    assert_eq!(with_ipi.interrupt.idt_limit, 0x052f);
}
