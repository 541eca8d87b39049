use mini_hypervisor::error::{Error, PortIoError};
use mini_hypervisor::pci::{
    config_selector, PciConfigMechanism1, PciConfigService, SyntheticPciFunction, PCI_CONFIG_ADDRESS_PORT,
    PCI_CONFIG_DATA_PORT, PCI_CONFIG_ENABLE, SYNTHETIC_PCI_CLASS_CODE, SYNTHETIC_PCI_DEVICE_ID,
    SYNTHETIC_PCI_REVISION, SYNTHETIC_PCI_VENDOR_ID,
};
use mini_hypervisor::portio::{PortIoBus, PortIoService, DEBUG_PORT};
use mini_hypervisor::vcpu::{PortIoDirection, PortIoExit};

const BAR0: u32 = 0x1000_0000;

fn output(port: u16, value: u32) -> PortIoExit {
    PortIoExit::new(PortIoDirection::Out, 4, port, 1, value.to_le_bytes().to_vec())
}

fn input(port: u16) -> PortIoExit {
    PortIoExit::new(PortIoDirection::In, 4, port, 1, Vec::new())
}

fn read_config(config: &mut PciConfigMechanism1, offset: u8) -> u32 {
    assert_eq!(
        config.dispatch(&output(PCI_CONFIG_ADDRESS_PORT, config_selector(offset))),
        Ok(PciConfigService::Output)
    );
    match config.dispatch(&input(PCI_CONFIG_DATA_PORT)).unwrap() {
        PciConfigService::Input(bytes) => u32::from_le_bytes(bytes),
        PciConfigService::Output => panic!("config read returned output service"),
    }
}

#[test]
fn exposes_identity_class_and_bar0() {
    let mut config = PciConfigMechanism1::new(SyntheticPciFunction::new(BAR0));

    assert_eq!(
        read_config(&mut config, 0x00),
        (u32::from(SYNTHETIC_PCI_DEVICE_ID) << 16) | u32::from(SYNTHETIC_PCI_VENDOR_ID)
    );
    assert_eq!(
        read_config(&mut config, 0x08),
        (u32::from(SYNTHETIC_PCI_CLASS_CODE) << 24) | u32::from(SYNTHETIC_PCI_REVISION)
    );
    assert_eq!(read_config(&mut config, 0x10), BAR0);
}

#[test]
fn absent_function_reads_all_ones() {
    let mut config = PciConfigMechanism1::new(SyntheticPciFunction::new(BAR0));
    let absent_selector = PCI_CONFIG_ENABLE | (2 << 11);

    config.dispatch(&output(PCI_CONFIG_ADDRESS_PORT, absent_selector)).unwrap();
    assert_eq!(
        config.dispatch(&input(PCI_CONFIG_DATA_PORT)),
        Ok(PciConfigService::Input(u32::MAX.to_le_bytes()))
    );
}

#[test]
fn disabled_config_address_reads_all_ones() {
    let mut config = PciConfigMechanism1::new(SyntheticPciFunction::new(BAR0));
    assert_eq!(
        config.dispatch(&input(PCI_CONFIG_DATA_PORT)),
        Ok(PciConfigService::Input(u32::MAX.to_le_bytes()))
    );
}

#[test]
fn rejects_data_writes_and_non_dword_cycles() {
    let mut config = PciConfigMechanism1::new(SyntheticPciFunction::new(BAR0));
    assert!(matches!(
        config.dispatch(&output(PCI_CONFIG_DATA_PORT, 1)),
        Err(PortIoError::UnhandledPort { .. })
    ));

    let narrow = PortIoExit::new(PortIoDirection::In, 2, PCI_CONFIG_DATA_PORT, 1, Vec::new());
    assert!(matches!(config.dispatch(&narrow), Err(PortIoError::UnhandledPort { .. })));
}

#[test]
fn bar_flag_bits_are_cleared_and_address_latch_reads_back() {
    assert_eq!(SyntheticPciFunction::new(0x1000_000f).bar0(), 0x1000_0000);
    let mut config = PciConfigMechanism1::new(SyntheticPciFunction::new(BAR0));
    config.dispatch(&output(PCI_CONFIG_ADDRESS_PORT, 0x8000_0810)).unwrap();
    assert_eq!(
        config.dispatch(&input(PCI_CONFIG_ADDRESS_PORT)),
        Ok(PciConfigService::Input(0x8000_0810u32.to_le_bytes()))
    );
    assert_eq!(config_selector(0x13), 0x8000_0810);
}

#[test]
fn empty_bus_rejects_unhandled_port() {
    let mut bus = PortIoBus::empty();
    let io = PortIoExit::new_for_test(0x1234, PortIoDirection::Out, 1, 1, vec![0x41]);
    let error = bus.dispatch(&io).unwrap_err();
    assert!(matches!(error, Error::PortIo(PortIoError::UnhandledPort { port: 0x1234, .. })));
}

#[test]
fn debug_port_captures_one_byte_outputs() {
    let mut bus = PortIoBus::with_debug_port();
    for byte in b"KVM" {
        let io = PortIoExit::new_for_test(DEBUG_PORT, PortIoDirection::Out, 1, 1, vec![*byte]);
        assert_eq!(bus.dispatch(&io).unwrap(), PortIoService::Output);
    }
    assert_eq!(bus.debug_output(), Some(&b"KVM"[..]));
}

#[test]
fn debug_port_supplies_configured_one_byte_input() {
    let mut bus = PortIoBus::with_debug_port_input(b'Q');
    let io = PortIoExit::new_for_test(DEBUG_PORT, PortIoDirection::In, 1, 1, Vec::new());
    assert_eq!(bus.dispatch(&io).unwrap(), PortIoService::Input(vec![b'Q']));
}

#[test]
fn debug_port_rejects_wide_access() {
    let mut bus = PortIoBus::with_debug_port();
    let io = PortIoExit::new_for_test(DEBUG_PORT, PortIoDirection::Out, 2, 1, vec![b'K', b'V']);
    let error = bus.dispatch(&io).unwrap_err();
    assert!(matches!(error, Error::PortIo(PortIoError::UnsupportedAccessShape { size: 2, .. })));
}

#[test]
fn bus_routes_pci_configuration_ports() {
    let mut bus = PortIoBus::with_debug_port_and_pci_config(PciConfigMechanism1::new(SyntheticPciFunction::new(BAR0)));
    assert_eq!(bus.dispatch(&output(PCI_CONFIG_ADDRESS_PORT, config_selector(0x10))), Ok(PortIoService::Output));
    assert_eq!(
        bus.dispatch(&input(PCI_CONFIG_DATA_PORT)),
        Ok(PortIoService::Input(BAR0.to_le_bytes().to_vec()))
    );
    let default_input = PortIoExit::new_for_test(DEBUG_PORT, PortIoDirection::In, 1, 1, Vec::new());
    assert_eq!(bus.dispatch(&default_input), Ok(PortIoService::Input(vec![b'R'])));
    assert!(PortIoBus::with_debug_port().dispatch(&input(PCI_CONFIG_DATA_PORT)).is_err());
}
