use mini_hypervisor::error::{Error, HostEnvironmentError, HostIoCause};
use mini_hypervisor::portio::two_vcpu_init_sipi_fixture::{
    AP_LONG_MODE_CODE_SELECTOR, AP_LONG_MODE_DATA_SELECTOR, AP_LONG_MODE_GDT, AP_LONG_MODE_GDT_LIMIT,
    AP_LONG_MODE_STACK, SIPI_CS_BASE, SIPI_CS_SELECTOR,
};
use mini_hypervisor::portio::vcpu_checks::{
    require_ap_long_mode_state, require_debug_output, require_init_sipi_startup_state,
    require_interrupt_disabled_flags, require_interrupt_enabled_flags, require_io_exit, require_mp_state,
    require_output_service, ApLongModeRegisters, ApStartupState,
};
use mini_hypervisor::portio::two_vcpu_ap_local_timer_fixture::require_ap_local_timer_state;
use mini_hypervisor::portio::PortIoService;
use mini_hypervisor::vcpu::{PortIoDirection, PortIoExit, VcpuExit};

fn check_error(id: u16, stage: &'static str) -> Error {
    Error::HostEnvironment(HostEnvironmentError::VcpuOperation { id, operation: stage, source: HostIoCause::InvalidData })
}

#[test]
fn interrupt_flag_checks_need_bit1_and_the_right_if() {
    assert_eq!(require_interrupt_disabled_flags(1, "s", 0x2), Ok(()));
    assert_eq!(require_interrupt_disabled_flags(1, "s", 0x202), Err(check_error(1, "s")));
    assert_eq!(require_interrupt_disabled_flags(1, "s", 0x0), Err(check_error(1, "s")));
    assert_eq!(require_interrupt_enabled_flags(0, "t", 0x246), Ok(()));
    assert_eq!(require_interrupt_enabled_flags(0, "t", 0x46), Err(check_error(0, "t")));
    assert_eq!(require_interrupt_enabled_flags(0, "t", 0x200), Err(check_error(0, "t")));
}

#[test]
fn exit_checks_accept_only_the_expected_debug_byte_as_output() {
    let exit = PortIoExit::new(PortIoDirection::Out, 1, 0xe9, 1, vec![b'R']);
    assert_eq!(require_io_exit(1, "io", VcpuExit::Io), Ok(()));
    assert_eq!(require_io_exit(1, "io", VcpuExit::Hlt), Err(check_error(1, "io")));
    assert_eq!(require_debug_output(1, "out", &exit, b'R'), Ok(()));
    assert_eq!(require_debug_output(1, "out", &exit, b'D'), Err(check_error(1, "out")));
    let wide = PortIoExit::new(PortIoDirection::Out, 2, 0xe9, 1, vec![b'R', 0]);
    assert_eq!(require_debug_output(1, "out", &wide, b'R'), Err(check_error(1, "out")));
    assert_eq!(require_output_service(1, "svc", &PortIoService::Output), Ok(()));
    assert_eq!(require_output_service(1, "svc", &PortIoService::Input(vec![0])), Err(check_error(1, "svc")));
    assert_eq!(require_mp_state(1, "mp", 0, 0), Ok(0));
    assert_eq!(require_mp_state(1, "mp", 1, 0), Err(check_error(1, "mp")));
}

#[test]
fn ap_state_checks_follow_the_architectural_contract() {
    let startup = ApStartupState { mp_state: 0, rip: 0, cs_selector: SIPI_CS_SELECTOR, cs_base: SIPI_CS_BASE, cr0: 0x10 };
    assert_eq!(require_init_sipi_startup_state(1, "start", startup), Ok(startup));
    let protected = ApStartupState { cr0: 0x11, ..startup };
    assert_eq!(require_init_sipi_startup_state(1, "start", protected), Err(check_error(1, "start")));

    let regs = ApLongModeRegisters {
        rsp: AP_LONG_MODE_STACK,
        cs_selector: AP_LONG_MODE_CODE_SELECTOR,
        cs_long: 1,
        cs_db: 0,
        cs_present: 1,
        ss_selector: AP_LONG_MODE_DATA_SELECTOR,
        gdt_base: AP_LONG_MODE_GDT,
        gdt_limit: AP_LONG_MODE_GDT_LIMIT,
        cr0: 0x8000_0011,
        cr3: 0x1000,
        cr4: 0x20,
        efer: 0x500,
    };
    let state = require_ap_long_mode_state(1, "lm", regs).unwrap();
    assert_eq!(state.rsp, AP_LONG_MODE_STACK);
    assert_eq!(state.cs_long, 1);
    assert_eq!(state.efer, 0x500);
    let compat = ApLongModeRegisters { cs_long: 0, ..regs };
    assert_eq!(require_ap_long_mode_state(1, "lm", compat), Err(check_error(1, "lm")));
    let no_lma = ApLongModeRegisters { efer: 0x100, ..regs };
    assert_eq!(require_ap_long_mode_state(1, "lm", no_lma), Err(check_error(1, "lm")));
}

#[test]
fn ap_local_timer_state_carries_startup_flags_and_long_mode_registers() {
    let startup = ApStartupState { mp_state: 0, rip: 0, cs_selector: SIPI_CS_SELECTOR, cs_base: SIPI_CS_BASE, cr0: 0x10 };
    let regs = ApLongModeRegisters {
        rsp: AP_LONG_MODE_STACK,
        cs_selector: AP_LONG_MODE_CODE_SELECTOR,
        cs_long: 1,
        cs_db: 0,
        cs_present: 1,
        ss_selector: AP_LONG_MODE_DATA_SELECTOR,
        gdt_base: AP_LONG_MODE_GDT,
        gdt_limit: AP_LONG_MODE_GDT_LIMIT,
        cr0: 0x8000_0011,
        cr3: 0x1000,
        cr4: 0x20,
        efer: 0x500,
    };
    let state = require_ap_local_timer_state(1, startup, 0x2, 0x202, 0x202, 0x7100, 0x3ff, regs).unwrap();
    assert_eq!(state.startup_cs_base, SIPI_CS_BASE);
    assert_eq!(state.armed_rflags, 0x202);
    assert_eq!(state.idt_base, 0x7100);
    assert_eq!(state.cr3, 0x1000);
    let wrong_stack = ApLongModeRegisters { rsp: 0x1000, ..regs };
    assert_eq!(
        require_ap_local_timer_state(1, startup, 0x2, 0x202, 0x202, 0x7100, 0x3ff, wrong_stack),
        Err(check_error(1, "AP-local-timer guest-owned long-mode state"))
    );
}
