use mini_hypervisor::error::{Error, VmExitError};
use mini_hypervisor::execution::{ExitBudget, VcpuRunLoop, VmExitDisposition};
use mini_hypervisor::masked_lapic_features_clear;
use mini_hypervisor::vcpu::{PortIoDirection, PortIoExit, VcpuExit, VcpuId, VmExitReport, KVM_EXIT_HLT, KVM_EXIT_IO};
use mini_hypervisor::{CPUID1_TSC_DEADLINE, CPUID1_X2APIC, KVM_FEATURE_PV_UNHALT};

#[test]
fn zero_budget_rejects_before_any_completed_exit() {
    let budget = ExitBudget::new(VcpuId::new(4), 0);

    assert!(matches!(
        budget.ensure_run_allowed(),
        Err(Error::VmExit(VmExitError::ExitBudgetExhausted {
            vcpu_id: 4,
            budget: 0,
            completed: 0,
            last_exit_reason: None,
        }))
    ));
}

#[test]
fn exact_budget_allows_each_reserved_run_then_exhausts() {
    let mut budget = ExitBudget::new(VcpuId::boot(), 2);

    budget.ensure_run_allowed().unwrap();
    budget.record(KVM_EXIT_IO);
    budget.ensure_run_allowed().unwrap();
    budget.record(KVM_EXIT_HLT);

    assert_eq!(budget.completed(), 2);
    assert!(matches!(
        budget.ensure_run_allowed(),
        Err(Error::VmExit(VmExitError::ExitBudgetExhausted {
            vcpu_id: 0,
            budget: 2,
            completed: 2,
            last_exit_reason: Some(KVM_EXIT_HLT),
        }))
    ));
}

#[test]
fn exhausted_budget_preserves_last_serviceable_exit_reason() {
    let mut budget = ExitBudget::new(VcpuId::new(3), 1);

    budget.ensure_run_allowed().unwrap();
    budget.record(KVM_EXIT_IO);

    assert!(matches!(
        budget.ensure_run_allowed(),
        Err(Error::VmExit(VmExitError::ExitBudgetExhausted {
            vcpu_id: 3,
            budget: 1,
            completed: 1,
            last_exit_reason: Some(KVM_EXIT_IO),
        }))
    ));
}

#[test]
fn masked_lapic_feature_check_rejects_any_exposed_feature() {
    assert!(masked_lapic_features_clear(0, 0));
    assert!(!masked_lapic_features_clear(CPUID1_X2APIC, 0));
    assert!(!masked_lapic_features_clear(CPUID1_TSC_DEADLINE, 0));
    assert!(!masked_lapic_features_clear(0, KVM_FEATURE_PV_UNHALT));
}

#[test]
fn run_loop_keeps_serviced_exits_and_stops_with_the_final_report() {
    let mut run = VcpuRunLoop::new(VcpuId::new(0), 3);
    run.before_run().unwrap();
    let io = PortIoExit::new(PortIoDirection::Out, 1, 0xe9, 1, vec![b'K']);
    assert_eq!(run.after_exit(KVM_EXIT_IO, VmExitDisposition::Continue(io.clone())), None);
    run.before_run().unwrap();
    let report = VmExitReport::new(VcpuExit::Hlt, 0x1005, 2);
    let result = run.after_exit(KVM_EXIT_HLT, VmExitDisposition::Stopped(report)).unwrap();
    assert_eq!(result.report(), report);
    assert_eq!(result.io_exits(), &[io][..]);
    assert_eq!(result.completed_exits(), 2);
}

#[test]
fn run_loop_refuses_a_run_beyond_its_budget() {
    let mut run = VcpuRunLoop::new(VcpuId::new(1), 1);
    run.before_run().unwrap();
    let io = PortIoExit::new(PortIoDirection::Out, 1, 0xe9, 1, vec![b'K']);
    assert_eq!(run.after_exit(KVM_EXIT_IO, VmExitDisposition::Continue(io)), None);
    assert_eq!(
        run.before_run(),
        Err(Error::VmExit(VmExitError::ExitBudgetExhausted {
            vcpu_id: 1,
            budget: 1,
            completed: 1,
            last_exit_reason: Some(KVM_EXIT_IO),
        }))
    );
}

#[test]
fn run_loop_with_a_zero_budget_refuses_the_first_run() {
    let mut run = VcpuRunLoop::new(VcpuId::new(2), 0);
    assert_eq!(
        run.before_run(),
        Err(Error::VmExit(VmExitError::ExitBudgetExhausted {
            vcpu_id: 2,
            budget: 0,
            completed: 0,
            last_exit_reason: None,
        }))
    );
}
