use mini_hypervisor::error::{Error, HostEnvironmentError, HostIoCause};
use mini_hypervisor::memory::{GuestMemory, GuestPhysAddr};
use mini_hypervisor::pci::virtio_blk::{VirtioBlkDevice, VirtioBlkQueueCompletion, VIRTIO_BLK_T_IN, VIRTIO_BLK_T_OUT, VIRTQ_DESC_F_NEXT, VIRTQ_DESC_F_WRITE};
use mini_hypervisor::pci::virtio_blk_checkpoint::{VirtioBlkCheckpointState, VirtioBlkCheckpointStateError};
use mini_hypervisor::pci::virtio_blk_file_backed::{
    check_identity_pin, check_persisted_sector, check_pinned_sectors, deterministic_file_payload,
    deterministic_identity_payload, prepare_ready_device, prepare_request, validate_file_backing_length,
    VirtioBlkFileBackedProof, VirtioBlkFileIdentity, VirtioBlkFileIdentityPinProof, FILE_BACKED_IDENTITY_PIN_PROOF,
    FILE_BACKED_VIRTIO_BLK_PROOF, PROOF_BAR, PROOF_DATA, PROOF_MEMORY_SIZE, PROOF_STATUS,
};

fn proof_error() -> Error {
    Error::HostEnvironment(HostEnvironmentError::Io {
        operation: "verify file-backed virtio-blk persistence proof",
        source: HostIoCause::InvalidData,
    })
}

#[test]
fn file_backing_length_must_be_exactly_the_disk() {
    assert_eq!(validate_file_backing_length(2048), Ok(()));
    assert_eq!(
        validate_file_backing_length(1),
        Err(Error::HostEnvironment(HostEnvironmentError::Io {
            operation: "validate virtio-blk file backing length",
            source: HostIoCause::InvalidData,
        }))
    );
}

#[test]
fn file_backed_device_keeps_its_identity_and_refuses_checkpoints() {
    let identity = VirtioBlkFileIdentity::new(0x803, 42);
    let device = VirtioBlkDevice::with_file_backing(PROOF_BAR, [7_u8; 2048], identity);
    assert!(device.file_backed());
    assert_eq!(device.file_backing_identity(), Some(identity));
    assert_eq!(device.sector0(), &[7_u8; 512][..]);
    assert_eq!(
        VirtioBlkCheckpointState::capture(&device),
        Err(VirtioBlkCheckpointStateError::ExternalBackingUnsupported)
    );
    let mut memory_backed = VirtioBlkDevice::new(PROOF_BAR);
    prepare_ready_device(&mut memory_backed);
    assert!(!memory_backed.file_backed());
    assert_eq!(memory_backed.file_backing_identity(), None);
    assert!(VirtioBlkCheckpointState::capture(&memory_backed).is_ok());
    let mut ready = device;
    prepare_ready_device(&mut ready);
    assert_eq!(
        VirtioBlkCheckpointState::capture(&ready),
        Err(VirtioBlkCheckpointStateError::ExternalBackingUnsupported)
    );
}

#[test]
fn persisting_a_range_needs_a_file_and_a_matching_in_disk_range() {
    let memory_backed = VirtioBlkDevice::new(PROOF_BAR);
    assert_eq!(memory_backed.persist_backing_range(512, 1024, 512), Ok(None));
    let device = VirtioBlkDevice::with_file_backing(PROOF_BAR, [0; 2048], VirtioBlkFileIdentity::new(1, 2));
    assert_eq!(device.persist_backing_range(512, 1024, 512), Ok(Some(512)));
    let range_error = Err(Error::HostEnvironment(HostEnvironmentError::Io {
        operation: "validate virtio-blk file write range",
        source: HostIoCause::InvalidInput,
    }));
    assert_eq!(device.persist_backing_range(1536, 2560, 1024), range_error);
    assert_eq!(device.persist_backing_range(512, 1024, 511), range_error);
}

#[test]
fn proof_payloads_carry_their_signatures() {
    let file = deterministic_file_payload();
    assert_eq!(&file[..16], b"FILE-BLK-000000!");
    assert_eq!(&file[504..], b"FSYNCED!");
    assert_eq!(file[16], 16_u8.wrapping_mul(43).wrapping_add(9));
    assert_eq!(file[300], 44_u8.wrapping_mul(43).wrapping_add(9));
    let pin = deterministic_identity_payload();
    assert_eq!(&pin[..16], b"FILE-PIN-000000!");
    assert_eq!(&pin[504..], b"PINNED!!");
    assert_eq!(pin[20], 20_u8.wrapping_mul(29).wrapping_add(0x31));
}

#[test]
fn harness_write_then_reopened_read_returns_the_payload() {
    let payload = deterministic_file_payload();
    let mut memory = GuestMemory::new(GuestPhysAddr::new(0), PROOF_MEMORY_SIZE).unwrap();
    let identity = VirtioBlkFileIdentity::new(9, 9);
    let mut device = VirtioBlkDevice::with_file_backing(PROOF_BAR, [0x11; 2048], identity);
    prepare_ready_device(&mut device);
    prepare_request(&mut memory, &mut device, VIRTIO_BLK_T_OUT, VIRTQ_DESC_F_NEXT, 1, &payload).unwrap();
    assert!(device.notify_pending);
    let write = device.process_notified_queue_atomic(&mut memory).unwrap();
    assert_eq!(write.sector, 0);
    assert_eq!(&device.backing[..512], &payload[..]);
    assert_eq!(device.persist_backing_range(0, 512, 512), Ok(Some(0)));

    let mut file = [0x11_u8; 2048];
    file[..512].copy_from_slice(&device.backing[..512]);
    assert_eq!(file, device.backing);

    let mut reopened = VirtioBlkDevice::with_file_backing(PROOF_BAR, file, identity);
    prepare_ready_device(&mut reopened);
    memory.write(GuestPhysAddr::new(PROOF_DATA), &[0x5a; 512]).unwrap();
    prepare_request(
        &mut memory,
        &mut reopened,
        VIRTIO_BLK_T_IN,
        VIRTQ_DESC_F_NEXT | VIRTQ_DESC_F_WRITE,
        1,
        &[0; 512],
    )
    .unwrap();
    let read = reopened.process_notified_queue_atomic(&mut memory).unwrap();
    assert_eq!(read.sector, 0);
    assert_eq!(reopened.sector0(), &payload[..]);
    let mut readback = [0_u8; 512];
    memory.read(GuestPhysAddr::new(PROOF_DATA), &mut readback).unwrap();
    assert_eq!(readback, payload);
    let mut status = [0xff_u8; 1];
    memory.read(GuestPhysAddr::new(PROOF_STATUS), &mut status).unwrap();
    assert_eq!(status, [0]);
}

#[test]
fn harness_refuses_guest_ram_that_misses_the_ring_area() {
    let mut memory = GuestMemory::new(GuestPhysAddr::new(0), 0x1000).unwrap();
    let mut device = VirtioBlkDevice::new(PROOF_BAR);
    prepare_ready_device(&mut device);
    assert!(prepare_request(&mut memory, &mut device, VIRTIO_BLK_T_OUT, VIRTQ_DESC_F_NEXT, 1, &[0; 512]).is_err());
    assert!(!device.notify_pending);
}

#[test]
fn proof_observations_are_checked_exactly() {
    let payload = deterministic_identity_payload();
    let mut raw = vec![0_u8; 2048];
    raw[..512].copy_from_slice(&payload);
    assert_eq!(check_persisted_sector(&raw, &payload), Ok(payload));
    assert_eq!(check_persisted_sector(&raw[..1024], &payload), Err(proof_error()));
    raw[3] ^= 1;
    assert_eq!(check_persisted_sector(&raw, &payload), Err(proof_error()));

    let fresh_device = VirtioBlkDevice::new(PROOF_BAR);
    let mut fresh = [0_u8; 512];
    fresh.copy_from_slice(fresh_device.sector0());
    let mut pinned = vec![0_u8; 2048];
    pinned[..512].copy_from_slice(&payload);
    let replacement = fresh_device.backing.to_vec();
    assert_eq!(check_pinned_sectors(&pinned, &replacement, &payload, &fresh), Ok((payload, fresh)));
    assert_eq!(check_pinned_sectors(&replacement, &replacement, &payload, &fresh), Err(proof_error()));

    let original = VirtioBlkFileIdentity::new(1, 10);
    assert_eq!(check_identity_pin(original, original, VirtioBlkFileIdentity::new(1, 11)), Ok(()));
    assert_eq!(check_identity_pin(original, VirtioBlkFileIdentity::new(1, 12), VirtioBlkFileIdentity::new(1, 11)), Err(proof_error()));
    assert_eq!(check_identity_pin(original, original, original), Err(proof_error()));
}

#[test]
fn proof_reports_expose_their_fields() {
    let payload = deterministic_identity_payload();
    let pin = VirtioBlkFileIdentityPinProof {
        write_completion: VirtioBlkQueueCompletion { descriptor_id: 0, length: 1, sector: 1 },
        payload,
        original_identity: VirtioBlkFileIdentity::new(1, 10),
        replacement_identity: VirtioBlkFileIdentity::new(1, 11),
        pinned_sector: payload,
        replacement_sector: [0; 512],
        checkpoint_rejected: true,
        proof: FILE_BACKED_IDENTITY_PIN_PROOF.to_vec(),
    };
    assert_ne!(pin.original_identity(), pin.replacement_identity());
    assert_eq!(pin.pinned_sector(), pin.payload());
    assert!(pin.checkpoint_rejected());
    assert_eq!(pin.proof_bytes(), b"FPINW");
    let reopen = VirtioBlkFileBackedProof {
        write_completion: VirtioBlkQueueCompletion { descriptor_id: 0, length: 1, sector: 1 },
        read_completion: VirtioBlkQueueCompletion { descriptor_id: 0, length: 1, sector: 1 },
        persisted_sector: payload,
        readback: payload,
        checkpoint_rejected: true,
        proof: FILE_BACKED_VIRTIO_BLK_PROOF.to_vec(),
    };
    assert_eq!(reopen.persisted_sector(), reopen.readback());
    assert_eq!(reopen.proof_bytes(), b"FWSDR");
}
