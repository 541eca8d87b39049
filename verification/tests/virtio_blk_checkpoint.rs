use mini_hypervisor::pci::virtio_blk::{
    VirtioBlkDevice, VIRTIO_F_VERSION_1, VIRTIO_ISR_QUEUE_INTERRUPT, VIRTIO_STATUS_ACKNOWLEDGE,
    VIRTIO_STATUS_DRIVER, VIRTIO_STATUS_DRIVER_OK, VIRTIO_STATUS_FEATURES_OK,
};
use mini_hypervisor::pci::virtio_blk_checkpoint::{VirtioBlkCheckpointState, VirtioBlkCheckpointStateError};

const BAR: u64 = 0x1000_0000;

fn ready_device() -> VirtioBlkDevice {
    let mut device = VirtioBlkDevice::new(BAR);
    device.driver_features = VIRTIO_F_VERSION_1;
    device.status = VIRTIO_STATUS_ACKNOWLEDGE
        | VIRTIO_STATUS_DRIVER
        | VIRTIO_STATUS_FEATURES_OK
        | VIRTIO_STATUS_DRIVER_OK;
    device.queue_size = 4;
    device.queue_enabled = true;
    device.queue_desc = 0x18_000;
    device.queue_driver = 0x18_100;
    device.queue_device = 0x18_200;
    device.last_avail_idx = 7;
    device.last_used_idx = 7;
    device.isr_status = VIRTIO_ISR_QUEUE_INTERRUPT;
    device.backing[700] = 0x5a;
    device
}

#[test]
fn semantic_checkpoint_round_trip_preserves_exact_quiescent_device_state() {
    let device = ready_device();
    let state = VirtioBlkCheckpointState::capture(&device).unwrap();
    let restored = state.materialize().unwrap();
    assert_eq!(restored, device);
    assert!(restored.checkpoint_quiescent());
    assert_eq!(restored.backing_bytes()[700], 0x5a);
}

#[test]
fn pending_notification_is_not_checkpointable() {
    let mut device = ready_device();
    device.notify_pending = true;
    assert_eq!(
        VirtioBlkCheckpointState::capture(&device),
        Err(VirtioBlkCheckpointStateError::NotQuiescent)
    );
}

#[test]
fn invalid_semantic_state_fails_before_materialization() {
    let device = ready_device();
    let mut state = VirtioBlkCheckpointState::capture(&device).unwrap();

    state.queue_size = 3;
    assert!(matches!(
        state.materialize(),
        Err(VirtioBlkCheckpointStateError::InvalidQueueSize { size: 3 })
    ));

    let mut state = VirtioBlkCheckpointState::capture(&device).unwrap();
    state.status |= 0x80;
    assert!(matches!(
        state.materialize(),
        Err(VirtioBlkCheckpointStateError::InvalidStatus { .. })
    ));

    let mut state = VirtioBlkCheckpointState::capture(&device).unwrap();
    state.queue_desc = 0;
    assert_eq!(
        state.materialize(),
        Err(VirtioBlkCheckpointStateError::QueueEnabledWithoutAddresses)
    );
}

#[test]
fn checkpoint_validation_reports_each_broken_rule() {
    let device = ready_device();
    let base = VirtioBlkCheckpointState::capture(&device).unwrap();

    let mut state = base;
    state.bar0 = BAR + 8;
    assert_eq!(state.validate(), Err(VirtioBlkCheckpointStateError::MisalignedBar { bar0: BAR + 8 }));

    let mut state = base;
    state.driver_features |= 1;
    assert_eq!(
        state.validate(),
        Err(VirtioBlkCheckpointStateError::UnsupportedDriverFeatures { features: VIRTIO_F_VERSION_1 | 1 })
    );

    let mut state = base;
    state.queue_enabled = false;
    assert_eq!(state.validate(), Err(VirtioBlkCheckpointStateError::DriverOkWithoutReadyQueue));

    let mut state = base;
    state.isr_status = 2;
    assert_eq!(state.validate(), Err(VirtioBlkCheckpointStateError::InvalidIsrStatus { status: 2 }));

    let mut state = base;
    state.queue_size = 512;
    assert_eq!(state.validate(), Err(VirtioBlkCheckpointStateError::InvalidQueueSize { size: 512 }));
    assert_eq!(base.validate(), Ok(()));
}
