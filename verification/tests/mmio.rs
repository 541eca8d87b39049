use mini_hypervisor::error::{Error, MmioError};
use mini_hypervisor::memory::{GuestMemory, GuestPhysAddr};
use mini_hypervisor::mmio::{
    MmioBus, MmioDeviceEvent, MmioService, BYTE_DEVICE_ADDRESS, LEVEL_INTERRUPT_ACK_OFFSET,
    LEVEL_INTERRUPT_STATUS_OFFSET, LEVEL_INTERRUPT_STATUS_PENDING,
};
use mini_hypervisor::pci::virtio_blk::VirtioBlkDevice;
use mini_hypervisor::vcpu::{MmioDirection, MmioExit};

fn exit_at(address: u64, direction: MmioDirection, length: u32, write_data: &[u8]) -> MmioExit {
    MmioExit::new_for_test(address, direction, length, write_data.to_vec())
}

fn exit(direction: MmioDirection, length: u32, write_data: &[u8]) -> MmioExit {
    exit_at(BYTE_DEVICE_ADDRESS, direction, length, write_data)
}

#[test]
fn byte_device_captures_one_byte_write() {
    let mut bus = MmioBus::with_byte_device(b'R');
    assert_eq!(bus.dispatch(&exit(MmioDirection::Write, 1, b"W")).unwrap(), MmioService::Write);
    assert_eq!(bus.writes(), Some(&b"W"[..]));
    assert_eq!(bus.take_device_event(), None);
}

#[test]
fn interrupting_byte_device_write_owns_one_consumable_event() {
    let mut bus = MmioBus::with_interrupting_byte_device_at(BYTE_DEVICE_ADDRESS, b'R');
    assert_eq!(bus.dispatch(&exit(MmioDirection::Write, 1, b"W")).unwrap(), MmioService::Write);
    assert_eq!(bus.writes(), Some(&b"W"[..]));
    assert_eq!(bus.take_device_event(), Some(MmioDeviceEvent::InterruptRequested));
    assert_eq!(bus.take_device_event(), None);

    assert_eq!(bus.dispatch(&exit(MmioDirection::Write, 1, b"X")).unwrap(), MmioService::Write);
    assert_eq!(bus.take_device_event(), Some(MmioDeviceEvent::InterruptRequested));
    assert_eq!(bus.take_device_event(), None);
}

#[test]
fn interrupting_byte_device_reads_and_invalid_accesses_do_not_request_interrupts() {
    let mut bus = MmioBus::with_interrupting_byte_device_at(BYTE_DEVICE_ADDRESS, b'R');
    assert_eq!(
        bus.dispatch(&exit(MmioDirection::Read, 1, &[])).unwrap(),
        MmioService::Read(vec![b'R'])
    );
    assert_eq!(bus.take_device_event(), None);

    assert!(bus.dispatch(&exit(MmioDirection::Write, 2, b"W")).is_err());
    assert_eq!(bus.take_device_event(), None);
    assert!(bus.dispatch(&exit(MmioDirection::Write, 1, b"AB")).is_err());
    assert_eq!(bus.take_device_event(), None);
}

#[test]
fn level_interrupt_device_tracks_command_status_ack_and_line_transitions() {
    let base = 0x1000_0000;
    let mut bus = MmioBus::with_level_interrupt_byte_device_at(base);

    assert_eq!(bus.dispatch(&exit_at(base, MmioDirection::Write, 1, b"W")).unwrap(), MmioService::Write);
    assert_eq!(bus.take_device_event(), Some(MmioDeviceEvent::InterruptLineAsserted));
    assert_eq!(bus.take_device_event(), None);
    assert_eq!(
        bus.dispatch(&exit_at(base + LEVEL_INTERRUPT_STATUS_OFFSET, MmioDirection::Read, 1, &[]))
            .unwrap(),
        MmioService::Read(vec![LEVEL_INTERRUPT_STATUS_PENDING])
    );
    assert_eq!(bus.take_device_event(), None);

    assert_eq!(
        bus.dispatch(&exit_at(base + LEVEL_INTERRUPT_ACK_OFFSET, MmioDirection::Write, 1, &[1]))
            .unwrap(),
        MmioService::Write
    );
    assert_eq!(bus.take_device_event(), Some(MmioDeviceEvent::InterruptLineDeasserted));
    assert_eq!(bus.take_device_event(), None);
    assert_eq!(
        bus.dispatch(&exit_at(base + LEVEL_INTERRUPT_STATUS_OFFSET, MmioDirection::Read, 1, &[]))
            .unwrap(),
        MmioService::Read(vec![0])
    );
    assert_eq!(bus.writes(), Some(&[b'W', 1][..]));
}

#[test]
fn level_interrupt_device_coalesces_repeated_commands_until_ack() {
    let base = 0x1000_0000;
    let mut bus = MmioBus::with_level_interrupt_byte_device_at(base);
    for value in [b'W', b'X'] {
        assert_eq!(
            bus.dispatch(&exit_at(base, MmioDirection::Write, 1, &[value])).unwrap(),
            MmioService::Write
        );
    }
    assert_eq!(bus.take_device_event(), Some(MmioDeviceEvent::InterruptLineAsserted));
    assert_eq!(bus.take_device_event(), None);
}

#[test]
fn level_interrupt_device_rejects_wrong_register_directions_and_widths() {
    let base = 0x1000_0000;
    let mut bus = MmioBus::with_level_interrupt_byte_device_at(base);
    assert!(bus.dispatch(&exit_at(base, MmioDirection::Read, 1, &[])).is_err());
    assert!(bus
        .dispatch(&exit_at(base + LEVEL_INTERRUPT_STATUS_OFFSET, MmioDirection::Write, 1, &[1]))
        .is_err());
    assert!(bus
        .dispatch(&exit_at(base + LEVEL_INTERRUPT_ACK_OFFSET, MmioDirection::Read, 1, &[]))
        .is_err());
    assert!(bus.dispatch(&exit_at(base, MmioDirection::Write, 2, b"WW")).is_err());
    assert_eq!(bus.take_device_event(), None);
}

#[test]
fn byte_device_returns_configured_one_byte_read() {
    let mut bus = MmioBus::with_byte_device(b'R');
    assert_eq!(
        bus.dispatch(&exit(MmioDirection::Read, 1, &[])).unwrap(),
        MmioService::Read(vec![b'R'])
    );
}

#[test]
fn configured_byte_device_address_is_exact() {
    let address = 0x1000_0000;
    let mut bus = MmioBus::with_byte_device_at(address, b'R');
    assert_eq!(
        bus.dispatch(&exit_at(address, MmioDirection::Read, 1, &[])).unwrap(),
        MmioService::Read(vec![b'R'])
    );
    assert!(matches!(
        bus.dispatch(&exit_at(BYTE_DEVICE_ADDRESS, MmioDirection::Read, 1, &[])),
        Err(Error::Mmio(MmioError::UnhandledAddress { address: BYTE_DEVICE_ADDRESS, .. }))
    ));
}

#[test]
fn rejects_unknown_address_wide_access_and_bad_write_payload() {
    let mut bus = MmioBus::with_byte_device(b'R');
    let unknown = MmioExit::new_for_test(0x3000, MmioDirection::Write, 1, b"X".to_vec());
    assert!(matches!(
        bus.dispatch(&unknown),
        Err(Error::Mmio(MmioError::UnhandledAddress { address: 0x3000, .. }))
    ));

    assert!(matches!(
        bus.dispatch(&exit(MmioDirection::Read, 2, &[])),
        Err(Error::Mmio(MmioError::UnsupportedByteDeviceAccess { length: 2, .. }))
    ));

    assert!(matches!(
        bus.dispatch(&exit(MmioDirection::Write, 1, b"AB")),
        Err(Error::Mmio(MmioError::InvalidWritePayload { expected: 1, actual: 2, .. }))
    ));
}

#[test]
fn empty_bus_refuses_every_address() {
    let mut bus = MmioBus::empty();
    assert_eq!(
        bus.dispatch(&exit(MmioDirection::Read, 1, &[])),
        Err(Error::Mmio(MmioError::UnhandledAddress { address: BYTE_DEVICE_ADDRESS, direction: 0, length: 1 }))
    );
    assert_eq!(bus.writes(), None);
    assert_eq!(bus.take_device_event(), None);
}

const FIRST_BAR: u64 = 0x1000_0000;
const SECOND_BAR: u64 = 0x1000_1000;

fn two_device_bus() -> MmioBus {
    MmioBus::with_virtio_blk_devices(vec![VirtioBlkDevice::new(FIRST_BAR), VirtioBlkDevice::new(SECOND_BAR)])
}

#[test]
fn virtio_blk_lookup_by_bar_reads_sector_and_range() {
    let bus = two_device_bus();
    assert_eq!(bus.virtio_blk_sector_at(FIRST_BAR).unwrap()[0], 3);
    assert_eq!(bus.virtio_blk_sector_at(0x2000_0000), None);
    assert_eq!(bus.virtio_blk_backing_range_at(SECOND_BAR, 1, 512).unwrap()[0], 44);
    assert_eq!(bus.virtio_blk_backing_range_at(SECOND_BAR, 1, 100), None);
    let mut memory = GuestMemory::new(GuestPhysAddr::new(0), 0x1000).unwrap();
    let mut bus = two_device_bus();
    assert_eq!(bus.process_virtio_blk_notification_atomic(0x2000_0000, &mut memory), Ok(None));
    assert!(bus.process_virtio_blk_notification_atomic(FIRST_BAR, &mut memory).is_err());
}

#[test]
fn virtio_blk_checkpoint_capture_verify_and_restore() {
    let mut bus = two_device_bus();
    let snapshot = bus.capture_virtio_blk_checkpoint_at(FIRST_BAR).unwrap().unwrap();
    assert_eq!(bus.verify_virtio_blk_checkpoint_at(FIRST_BAR, &snapshot), Ok(Some(true)));
    assert!(bus.verify_virtio_blk_checkpoint_at(SECOND_BAR, &snapshot).is_err());

    let mut changed = snapshot;
    changed.backing[5] ^= 0xff;
    assert_eq!(bus.verify_virtio_blk_checkpoint_at(FIRST_BAR, &changed), Ok(Some(false)));
    assert_eq!(bus.restore_virtio_blk_checkpoint_at(FIRST_BAR, &changed), Ok(Some(())));
    assert_eq!(bus.verify_virtio_blk_checkpoint_at(FIRST_BAR, &changed), Ok(Some(true)));

    let mut pending = changed;
    pending.notify_pending = true;
    assert!(bus.restore_virtio_blk_checkpoint_at(FIRST_BAR, &pending).is_err());
    assert_eq!(bus.capture_virtio_blk_checkpoint_at(0x2000_0000), Ok(None));
}

#[test]
fn two_device_restore_is_all_or_nothing() {
    let mut bus = two_device_bus();
    let mut first = bus.capture_virtio_blk_checkpoint_at(FIRST_BAR).unwrap().unwrap();
    let mut second = bus.capture_virtio_blk_checkpoint_at(SECOND_BAR).unwrap().unwrap();
    first.backing[0] = 0xaa;
    second.backing[0] = 0xbb;

    // Out-of-order BARs are refused and nothing changes.
    assert!(bus
        .restore_two_virtio_blk_checkpoints_atomic([(SECOND_BAR, &second), (FIRST_BAR, &first)])
        .is_err());
    assert_eq!(bus.virtio_blk_sector_at(FIRST_BAR).unwrap()[0], 3);

    // A pending second snapshot refuses the whole restore.
    let mut pending = second;
    pending.notify_pending = true;
    assert!(bus
        .restore_two_virtio_blk_checkpoints_atomic([(FIRST_BAR, &first), (SECOND_BAR, &pending)])
        .is_err());
    assert_eq!(bus.virtio_blk_sector_at(FIRST_BAR).unwrap()[0], 3);

    assert_eq!(
        bus.restore_two_virtio_blk_checkpoints_atomic([(FIRST_BAR, &first), (SECOND_BAR, &second)]),
        Ok(())
    );
    assert_eq!(bus.virtio_blk_sector_at(FIRST_BAR).unwrap()[0], 0xaa);
    assert_eq!(bus.virtio_blk_sector_at(SECOND_BAR).unwrap()[0], 0xbb);
}
