use mini_hypervisor::pci::virtio_blk::VirtioBlkQueueCompletion;
use mini_hypervisor::vcpu::{VcpuExit, VmExitReport};
use mini_hypervisor::portio::virtio_blk_multi_sector_fixture::{
    check_multi_sector_result, VirtioBlkMultiSectorGuestResult, multi_sector_barrier_step, multi_sector_barriers_complete, MultiSectorBarrierState, READ_NOTIFY_BARRIER,
    WRITE_NOTIFY_BARRIER,
};
use mini_hypervisor::portio::virtio_blk_multi_sector_fixture::{
    deterministic_multi_sector_payload, VIRTIO_BLK_MULTI_SECTOR_DATA_LEN, VIRTIO_BLK_MULTI_SECTOR_EXIT_BUDGET,
    VIRTIO_BLK_MULTI_SECTOR_PROOF,
};

#[test]
fn payload_contains_stable_cross_sector_signatures() {
    let payload = deterministic_multi_sector_payload();
    assert_eq!(payload.len(), 1024);
    assert_eq!(&payload[..16], b"BLK-MULTI-0001!!");
    assert_eq!(&payload[504..512], b"END1BEG2");
    assert_eq!(&payload[512..520], b"-CROSS!!");
    assert_eq!(&payload[1016..], b"MULTEND!");
}

#[test]
fn payload_pattern_fills_every_byte_outside_the_signatures() {
    let payload = deterministic_multi_sector_payload();
    assert_eq!(payload.len(), VIRTIO_BLK_MULTI_SECTOR_DATA_LEN as usize);
    assert_eq!(payload[16], 16u8.wrapping_mul(37).wrapping_add(11));
    assert_eq!(payload[300], (300usize as u8).wrapping_mul(37).wrapping_add(11));
    assert_eq!(payload[1015], (1015usize as u8).wrapping_mul(37).wrapping_add(11));
    assert_eq!(&VIRTIO_BLK_MULTI_SECTOR_PROOF, b"PBWONRD");
}

#[test]
fn exit_budget_matches_config_mmio_proof_and_hlt() {
    assert_eq!(VIRTIO_BLK_MULTI_SECTOR_EXIT_BUDGET, 14 + 22 + 7 + 1);
}

use mini_hypervisor::error::{Error, HostEnvironmentError, HostIoCause};
use mini_hypervisor::pci::config_selector;
use mini_hypervisor::portio::virtio_blk_multi_sector_fixture::{
    notify_barrier, validate_io_sequence, validate_mmio_sequence, VirtioBlkMmioLayout,
};
use mini_hypervisor::vcpu::{MmioDirection, MmioExit, PortIoDirection, PortIoExit};

fn multi_sector_error() -> Error {
    Error::HostEnvironment(HostEnvironmentError::VcpuOperation {
        id: 0,
        operation: "virtio-blk multi-sector proof",
        source: HostIoCause::InvalidData,
    })
}

fn debug(byte: u8) -> PortIoExit {
    PortIoExit::new(PortIoDirection::Out, 1, 0xe9, 1, vec![byte])
}

fn good_io_sequence() -> Vec<PortIoExit> {
    let mut exits = Vec::new();
    for offset in [0x00, 0x34, 0x40, 0x50, 0x64, 0x74, 0x10] {
        exits.push(PortIoExit::new(
            PortIoDirection::Out,
            4,
            0xcf8,
            1,
            config_selector(offset).to_le_bytes().to_vec(),
        ));
        exits.push(PortIoExit::new(PortIoDirection::In, 4, 0xcfc, 1, Vec::new()));
    }
    for byte in VIRTIO_BLK_MULTI_SECTOR_PROOF {
        exits.push(debug(byte));
    }
    exits
}

#[test]
fn io_sequence_is_seven_config_reads_then_the_proof() {
    let exits = good_io_sequence();
    assert_eq!(validate_io_sequence(&exits), Ok(()));
    assert_eq!(validate_io_sequence(&exits[..20]), Err(multi_sector_error()));
    let mut wrong_selector = exits.clone();
    wrong_selector[4] = PortIoExit::new(PortIoDirection::Out, 4, 0xcf8, 1, config_selector(0x44).to_le_bytes().to_vec());
    assert_eq!(validate_io_sequence(&wrong_selector), Err(multi_sector_error()));
    let mut wrong_proof = exits;
    wrong_proof[20] = debug(b'X');
    assert_eq!(validate_io_sequence(&wrong_proof), Err(multi_sector_error()));
}

#[test]
fn notify_barriers_are_the_w_and_n_debug_bytes() {
    assert_eq!(notify_barrier(&debug(b'W')), Some(b'W'));
    assert_eq!(notify_barrier(&debug(b'N')), Some(b'N'));
    assert_eq!(notify_barrier(&debug(b'P')), None);
    assert_eq!(notify_barrier(&PortIoExit::new(PortIoDirection::Out, 1, 0x80, 1, vec![b'W'])), None);
}

fn mmio(layout: VirtioBlkMmioLayout, offset: u64, direction: MmioDirection, length: u32, data: &[u8]) -> MmioExit {
    MmioExit::new_for_test(layout.bar0 + offset, direction, length, data.to_vec())
}

#[test]
fn mmio_sequence_is_the_driver_handshake_and_two_notifications() {
    let layout = VirtioBlkMmioLayout {
        bar0: 0x1000_0000,
        descriptor_gpa: 0x1_8000,
        avail_gpa: 0x1_8100,
        used_gpa: 0x1_8200,
        isr_offset: 0x200,
    };
    let r = MmioDirection::Read;
    let w = MmioDirection::Write;
    let mut exits = vec![
        mmio(layout, 0x300, r, 8, &[]),
        mmio(layout, 0x14, w, 1, &[1]),
        mmio(layout, 0x14, w, 1, &[3]),
        mmio(layout, 0x00, w, 4, &1_u32.to_le_bytes()),
        mmio(layout, 0x04, r, 4, &[]),
        mmio(layout, 0x08, w, 4, &1_u32.to_le_bytes()),
        mmio(layout, 0x0c, w, 4, &1_u32.to_le_bytes()),
        mmio(layout, 0x14, w, 1, &[11]),
        mmio(layout, 0x16, w, 2, &0_u16.to_le_bytes()),
        mmio(layout, 0x18, w, 2, &4_u16.to_le_bytes()),
        mmio(layout, 0x20, w, 4, &0x1_8000_u32.to_le_bytes()),
        mmio(layout, 0x24, w, 4, &0_u32.to_le_bytes()),
        mmio(layout, 0x28, w, 4, &0x1_8100_u32.to_le_bytes()),
        mmio(layout, 0x2c, w, 4, &0_u32.to_le_bytes()),
        mmio(layout, 0x30, w, 4, &0x1_8200_u32.to_le_bytes()),
        mmio(layout, 0x34, w, 4, &0_u32.to_le_bytes()),
        mmio(layout, 0x1c, w, 2, &1_u16.to_le_bytes()),
        mmio(layout, 0x14, w, 1, &[15]),
        mmio(layout, 0x14, r, 1, &[]),
        mmio(layout, 0x100, w, 2, &0_u16.to_le_bytes()),
        mmio(layout, 0x100, w, 2, &0_u16.to_le_bytes()),
        mmio(layout, 0x200, r, 1, &[]),
    ];
    assert_eq!(validate_mmio_sequence(&exits, layout), Ok(()));
    exits[9] = mmio(layout, 0x18, w, 2, &8_u16.to_le_bytes());
    assert_eq!(validate_mmio_sequence(&exits, layout), Err(multi_sector_error()));
    assert_eq!(validate_mmio_sequence(&exits[..21], layout), Err(multi_sector_error()));
}

use mini_hypervisor::portio::virtio_blk_multi_sector_fixture::VIRTIO_BLK_MULTI_SECTOR_STATUS_GPA;
use mini_hypervisor::portio::virtio_blk_multi_sector_guest::{build_multi_sector_guest, VIRTIO_BLK_DATA_GPA};

#[test]
fn guest_uses_two_sector_descriptor_non_overlapping_status_and_terminal_hlt() {
    let bytes = build_multi_sector_guest();
    assert_eq!(bytes.last(), Some(&0xf4));
    assert!(
        VIRTIO_BLK_DATA_GPA + u64::from(VIRTIO_BLK_MULTI_SECTOR_DATA_LEN)
            <= VIRTIO_BLK_MULTI_SECTOR_STATUS_GPA
    );
    for marker in VIRTIO_BLK_MULTI_SECTOR_PROOF {
        assert!(bytes
            .windows(4)
            .any(|window| window == [0xb0, marker, 0xe6, 0xe9]));
    }
    for signature in [
        b"BLK-MULT" as &[u8],
        b"I-0001!!",
        b"END1BEG2",
        b"-CROSS!!",
        b"MULTEND!",
    ] {
        assert!(bytes.windows(8).any(|window| window == signature));
    }
}

#[test]
fn guest_starts_with_the_pci_id_read_and_programs_the_rings() {
    let bytes = build_multi_sector_guest();
    let selector = config_selector(0x00).to_le_bytes();
    assert_eq!(&bytes[..5], &[0x66, 0xba, 0xf8, 0x0c, 0xb8]);
    assert_eq!(&bytes[5..9], &selector);
    assert_eq!(&bytes[9..15], &[0xef, 0x66, 0xba, 0xfc, 0x0c, 0xed]);
    assert_eq!(bytes[15], 0x3d);
    assert_eq!(&bytes[16..20], &0x1042_1af4_u32.to_le_bytes());
    let descriptor_write = [0xc7, 0x43, 0x20, 0x00, 0x80, 0x01, 0x00];
    assert!(bytes.windows(7).any(|window| window == descriptor_write));
    let mmio_base = [0x48, 0xbb, 0x00, 0x00, 0x50, 0x00, 0x00, 0x00, 0x00, 0x00];
    assert!(bytes.windows(10).any(|window| window == mmio_base));
}

#[test]
fn notify_barriers_must_come_write_first_then_read() {
    let payload = deterministic_multi_sector_payload();
    let write = VirtioBlkQueueCompletion { descriptor_id: 0, length: 1, sector: 1 };
    let read = VirtioBlkQueueCompletion { descriptor_id: 0, length: 1025, sector: 1 };
    let start = MultiSectorBarrierState::new();

    assert!(multi_sector_barrier_step(start, READ_NOTIFY_BARRIER, true, Some(read), &payload).is_err());
    assert!(multi_sector_barrier_step(start, WRITE_NOTIFY_BARRIER, false, Some(write), &payload).is_err());
    assert!(multi_sector_barrier_step(start, WRITE_NOTIFY_BARRIER, true, None, &payload).is_err());
    let mut wrong = payload.clone();
    wrong[0] ^= 1;
    assert!(multi_sector_barrier_step(start, WRITE_NOTIFY_BARRIER, true, Some(write), &wrong).is_err());

    let after_write = multi_sector_barrier_step(start, WRITE_NOTIFY_BARRIER, true, Some(write), &payload).unwrap();
    assert!(multi_sector_barrier_step(after_write, WRITE_NOTIFY_BARRIER, true, Some(write), &payload).is_err());
    assert!(multi_sector_barriers_complete(after_write, false).is_err());
    let after_read = multi_sector_barrier_step(after_write, READ_NOTIFY_BARRIER, true, Some(read), &[]).unwrap();
    assert!(multi_sector_barrier_step(after_read, READ_NOTIFY_BARRIER, true, Some(read), &[]).is_err());
    assert!(multi_sector_barriers_complete(after_read, true).is_err());
    assert_eq!(multi_sector_barriers_complete(after_read, false).unwrap(), (write, read));
}

#[test]
fn final_verification_accepts_only_the_expected_run() {
    let payload = deterministic_multi_sector_payload();
    let result = VirtioBlkMultiSectorGuestResult {
        io_exits: Vec::new(),
        mmio_exits: Vec::new(),
        proof: VIRTIO_BLK_MULTI_SECTOR_PROOF.to_vec(),
        write_completion: VirtioBlkQueueCompletion { descriptor_id: 0, length: 1, sector: 1 },
        read_completion: VirtioBlkQueueCompletion { descriptor_id: 0, length: 1025, sector: 1 },
        backing: payload.clone(),
        readback: payload.clone(),
        request_status: 0,
        used_idx: 2,
        first_used_id: 0,
        first_used_len: 1,
        second_used_id: 0,
        second_used_len: 1025,
        sector0_before: vec![7; 512],
        sector0_after: vec![7; 512],
        sector3_before: vec![9; 512],
        sector3_after: vec![9; 512],
        report: VmExitReport::new(VcpuExit::Hlt, 0x1_2345, 0x2),
    };
    assert!(check_multi_sector_result(&result, 0x1_2345).is_ok());
    assert!(check_multi_sector_result(&result, 0x1_2346).is_err());
    let mut changed = result.clone();
    changed.sector3_after[100] = 0;
    assert!(check_multi_sector_result(&changed, 0x1_2345).is_err());
    let mut failed = result.clone();
    failed.request_status = 1;
    assert!(check_multi_sector_result(&failed, 0x1_2345).is_err());
}
