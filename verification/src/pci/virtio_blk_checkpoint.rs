//! The semantic checkpoint of a virtio-blk device: every register, the queue progress and the
//! disk, captured only while no notification is in flight and validated before it becomes a
//! device again.
use crate::pci::virtio_blk::{
    VirtioBlkDevice, VIRTIO_BLK_BAR_SIZE, VIRTIO_BLK_SUPPORTED_FEATURES, VIRTIO_F_VERSION_1,
    VIRTIO_ISR_QUEUE_INTERRUPT, VIRTIO_STATUS_ACKNOWLEDGE, VIRTIO_STATUS_DRIVER, VIRTIO_STATUS_DRIVER_OK,
    VIRTIO_STATUS_FEATURES_OK, VIRTIO_STATUS_KNOWN,
};
use crate::text::{decimal_text, hex_text, push_decimal, push_hex};
use vstd::string::StringExecFns;
use vstd::prelude::*;

verus! {

/// Why a device state cannot be checkpointed or restored.
#[derive(Debug, Clone, Copy, PartialEq, Eq)]
pub enum VirtioBlkCheckpointStateError {
    NotQuiescent,
    MisalignedBar { bar0: u64 },
    UnsupportedDriverFeatures { features: u64 },
    InvalidStatus { status: u8 },
    InvalidQueueSize { size: u16 },
    QueueEnabledWithoutAddresses,
    DriverOkWithoutReadyQueue,
    InvalidIsrStatus { status: u8 },
    /// The device's disk lives in a host file, which a checkpoint cannot carry.
    ExternalBackingUnsupported,
}

/// Everything of a quiescent device that survives a checkpoint.
#[derive(Debug, Clone, Copy, PartialEq, Eq)]
pub struct VirtioBlkCheckpointState {
    pub bar0: u64,
    pub device_feature_select: u32,
    pub driver_feature_select: u32,
    pub driver_features: u64,
    pub status: u8,
    pub queue_select: u16,
    pub queue_size: u16,
    pub queue_enabled: bool,
    pub queue_desc: u64,
    pub queue_driver: u64,
    pub queue_device: u64,
    pub last_avail_idx: u16,
    pub last_used_idx: u16,
    pub isr_status: u8,
    pub backing: [u8; 2048],
}

/// A queue size the device accepts: a power of two from 1 to 256.
pub open spec fn spec_valid_queue_size(size: u16) -> bool {
    size == 1 || size == 2 || size == 4 || size == 8 || size == 16 || size == 32 || size == 64
        || size == 128 || size == 256
}

/// The device status bits are known and were set in the order the virtio handshake allows.
pub open spec fn spec_valid_status(status: u8, driver_features: u64) -> bool {
    &&& status & !VIRTIO_STATUS_KNOWN == 0
    &&& (status & VIRTIO_STATUS_DRIVER != 0 ==> status & VIRTIO_STATUS_ACKNOWLEDGE != 0)
    &&& (status & VIRTIO_STATUS_FEATURES_OK != 0 ==> {
        &&& status & (VIRTIO_STATUS_ACKNOWLEDGE | VIRTIO_STATUS_DRIVER)
            == (VIRTIO_STATUS_ACKNOWLEDGE | VIRTIO_STATUS_DRIVER)
        &&& driver_features & VIRTIO_F_VERSION_1 != 0
    })
}

/// The state a device is captured as.
pub open spec fn spec_state_of(device: VirtioBlkDevice) -> VirtioBlkCheckpointState {
    VirtioBlkCheckpointState {
        bar0: device.bar0,
        device_feature_select: device.device_feature_select,
        driver_feature_select: device.driver_feature_select,
        driver_features: device.driver_features,
        status: device.status,
        queue_select: device.queue_select,
        queue_size: device.queue_size,
        queue_enabled: device.queue_enabled,
        queue_desc: device.queue_desc,
        queue_driver: device.queue_driver,
        queue_device: device.queue_device,
        last_avail_idx: device.last_avail_idx,
        last_used_idx: device.last_used_idx,
        isr_status: device.isr_status,
        backing: device.backing,
    }
}

/// The device a state is materialized as: quiescent, everything else as captured.
pub open spec fn spec_device_of(state: VirtioBlkCheckpointState) -> VirtioBlkDevice {
    VirtioBlkDevice {
        bar0: state.bar0,
        device_feature_select: state.device_feature_select,
        driver_feature_select: state.driver_feature_select,
        driver_features: state.driver_features,
        status: state.status,
        queue_select: state.queue_select,
        queue_size: state.queue_size,
        queue_enabled: state.queue_enabled,
        queue_desc: state.queue_desc,
        queue_driver: state.queue_driver,
        queue_device: state.queue_device,
        notify_pending: false,
        last_avail_idx: state.last_avail_idx,
        last_used_idx: state.last_used_idx,
        isr_status: state.isr_status,
        backing: state.backing,
        file_identity: None,
    }
}

impl VirtioBlkCheckpointState {
    /// The first rule this state breaks, checked in order: BAR alignment, supported features,
    /// status handshake, queue size, queue addresses, DRIVER_OK readiness, ISR bits.
    pub open spec fn spec_validate(self) -> Result<(), VirtioBlkCheckpointStateError> {
        if self.bar0 % (VIRTIO_BLK_BAR_SIZE as u64) != 0 {
            Err(VirtioBlkCheckpointStateError::MisalignedBar { bar0: self.bar0 })
        } else if self.driver_features & !VIRTIO_BLK_SUPPORTED_FEATURES != 0 {
            Err(VirtioBlkCheckpointStateError::UnsupportedDriverFeatures { features: self.driver_features })
        } else if !spec_valid_status(self.status, self.driver_features) {
            Err(VirtioBlkCheckpointStateError::InvalidStatus { status: self.status })
        } else if !spec_valid_queue_size(self.queue_size) {
            Err(VirtioBlkCheckpointStateError::InvalidQueueSize { size: self.queue_size })
        } else if self.queue_enabled && (self.queue_desc == 0 || self.queue_driver == 0 || self.queue_device == 0) {
            Err(VirtioBlkCheckpointStateError::QueueEnabledWithoutAddresses)
        } else if self.status & VIRTIO_STATUS_DRIVER_OK != 0 && (self.status & VIRTIO_STATUS_FEATURES_OK == 0
            || !self.queue_enabled || self.driver_features & VIRTIO_F_VERSION_1 == 0) {
            Err(VirtioBlkCheckpointStateError::DriverOkWithoutReadyQueue)
        } else if self.isr_status & !VIRTIO_ISR_QUEUE_INTERRUPT != 0 {
            Err(VirtioBlkCheckpointStateError::InvalidIsrStatus { status: self.isr_status })
        } else {
            Ok(())
        }
    }

    /// Checks the state (see `spec_validate`).
    pub fn validate(&self) -> (r: Result<(), VirtioBlkCheckpointStateError>)
        ensures r == self.spec_validate(),
    {
        if self.bar0 % (VIRTIO_BLK_BAR_SIZE as u64) != 0 {
            return Err(VirtioBlkCheckpointStateError::MisalignedBar { bar0: self.bar0 });
        }
        if self.driver_features & !VIRTIO_BLK_SUPPORTED_FEATURES != 0 {
            return Err(VirtioBlkCheckpointStateError::UnsupportedDriverFeatures { features: self.driver_features });
        }
        let status = self.status;
        if status & !VIRTIO_STATUS_KNOWN != 0
            || (status & VIRTIO_STATUS_DRIVER != 0 && status & VIRTIO_STATUS_ACKNOWLEDGE == 0)
            || (status & VIRTIO_STATUS_FEATURES_OK != 0
                && (status & (VIRTIO_STATUS_ACKNOWLEDGE | VIRTIO_STATUS_DRIVER)
                    != (VIRTIO_STATUS_ACKNOWLEDGE | VIRTIO_STATUS_DRIVER)
                    || self.driver_features & VIRTIO_F_VERSION_1 == 0)) {
            return Err(VirtioBlkCheckpointStateError::InvalidStatus { status });
        }
        let size = self.queue_size;
        if !(size == 1 || size == 2 || size == 4 || size == 8 || size == 16 || size == 32 || size == 64
            || size == 128 || size == 256) {
            return Err(VirtioBlkCheckpointStateError::InvalidQueueSize { size });
        }
        if self.queue_enabled && (self.queue_desc == 0 || self.queue_driver == 0 || self.queue_device == 0) {
            return Err(VirtioBlkCheckpointStateError::QueueEnabledWithoutAddresses);
        }
        if status & VIRTIO_STATUS_DRIVER_OK != 0 && (status & VIRTIO_STATUS_FEATURES_OK == 0
            || !self.queue_enabled || self.driver_features & VIRTIO_F_VERSION_1 == 0) {
            return Err(VirtioBlkCheckpointStateError::DriverOkWithoutReadyQueue);
        }
        if self.isr_status & !VIRTIO_ISR_QUEUE_INTERRUPT != 0 {
            return Err(VirtioBlkCheckpointStateError::InvalidIsrStatus { status: self.isr_status });
        }
        Ok(())
    }

    /// Captures a device: refused while a notification is pending, and for a state that fails
    /// validation.
    pub fn capture(device: &VirtioBlkDevice) -> (r: Result<Self, VirtioBlkCheckpointStateError>)
        ensures
            device.notify_pending ==> r == Err::<Self, VirtioBlkCheckpointStateError>(
                VirtioBlkCheckpointStateError::NotQuiescent),
            !device.notify_pending && device.file_identity is Some ==> r == Err::<Self, VirtioBlkCheckpointStateError>(
                VirtioBlkCheckpointStateError::ExternalBackingUnsupported),
            !device.notify_pending && device.file_identity is None ==> match spec_state_of(*device).spec_validate() {
                Ok(()) => r == Ok::<Self, VirtioBlkCheckpointStateError>(spec_state_of(*device)),
                Err(e) => r == Err::<Self, VirtioBlkCheckpointStateError>(e),
            },
    {
        if !device.checkpoint_quiescent() {
            return Err(VirtioBlkCheckpointStateError::NotQuiescent);
        }
        if device.file_identity.is_some() {
            return Err(VirtioBlkCheckpointStateError::ExternalBackingUnsupported);
        }
        let state = VirtioBlkCheckpointState {
            bar0: device.bar0,
            device_feature_select: device.device_feature_select,
            driver_feature_select: device.driver_feature_select,
            driver_features: device.driver_features,
            status: device.status,
            queue_select: device.queue_select,
            queue_size: device.queue_size,
            queue_enabled: device.queue_enabled,
            queue_desc: device.queue_desc,
            queue_driver: device.queue_driver,
            queue_device: device.queue_device,
            last_avail_idx: device.last_avail_idx,
            last_used_idx: device.last_used_idx,
            isr_status: device.isr_status,
            backing: device.backing,
        };
        state.validate()?;
        Ok(state)
    }

    /// Turns a valid state back into a quiescent device.
    pub fn materialize(&self) -> (r: Result<VirtioBlkDevice, VirtioBlkCheckpointStateError>)
        ensures
            match self.spec_validate() {
                Ok(()) => r == Ok::<VirtioBlkDevice, VirtioBlkCheckpointStateError>(spec_device_of(*self)),
                Err(e) => r == Err::<VirtioBlkDevice, VirtioBlkCheckpointStateError>(e),
            },
    {
        self.validate()?;
        Ok(VirtioBlkDevice {
            bar0: self.bar0,
            device_feature_select: self.device_feature_select,
            driver_feature_select: self.driver_feature_select,
            driver_features: self.driver_features,
            status: self.status,
            queue_select: self.queue_select,
            queue_size: self.queue_size,
            queue_enabled: self.queue_enabled,
            queue_desc: self.queue_desc,
            queue_driver: self.queue_driver,
            queue_device: self.queue_device,
            notify_pending: false,
            last_avail_idx: self.last_avail_idx,
            last_used_idx: self.last_used_idx,
            isr_status: self.isr_status,
            backing: self.backing,
            file_identity: None,
        })
    }
}

/// Restoring a captured quiescent device gives back exactly that device, and capturing it again
/// gives back exactly the same state.
pub proof fn lemma_checkpoint_round_trip(device: VirtioBlkDevice)
    requires
        !device.notify_pending,
        device.file_identity is None,
    ensures
        spec_device_of(spec_state_of(device)) == device,
        spec_state_of(spec_device_of(spec_state_of(device))) == spec_state_of(device),
{
}


impl VirtioBlkCheckpointStateError {
    /// The text that describes the refusal.
    pub open spec fn spec_message(self) -> Seq<char> {
        match self {
            VirtioBlkCheckpointStateError::NotQuiescent => Seq::<char>::empty() + "virtio-blk checkpoint state is not quiescent"@,
            VirtioBlkCheckpointStateError::MisalignedBar { bar0 } => Seq::<char>::empty() + "virtio-blk BAR "@ + hex_text(bar0 as nat) + " is not "@ + hex_text(VIRTIO_BLK_BAR_SIZE as nat) + "-aligned"@,
            VirtioBlkCheckpointStateError::UnsupportedDriverFeatures { features } => Seq::<char>::empty() + "virtio-blk checkpoint contains unsupported driver features "@ + hex_text(features as nat),
            VirtioBlkCheckpointStateError::InvalidStatus { status } => Seq::<char>::empty() + "virtio-blk checkpoint contains invalid device status "@ + hex_text(status as nat),
            VirtioBlkCheckpointStateError::InvalidQueueSize { size } => Seq::<char>::empty() + "virtio-blk checkpoint queue size "@ + decimal_text(size as nat) + " is not a bounded non-zero power of two"@,
            VirtioBlkCheckpointStateError::QueueEnabledWithoutAddresses => Seq::<char>::empty() + "virtio-blk checkpoint enables the queue without complete descriptor/driver/device addresses"@,
            VirtioBlkCheckpointStateError::DriverOkWithoutReadyQueue => Seq::<char>::empty() + "virtio-blk checkpoint reports DRIVER_OK without a negotiated ready queue"@,
            VirtioBlkCheckpointStateError::InvalidIsrStatus { status } => Seq::<char>::empty() + "virtio-blk checkpoint contains unsupported ISR status bits "@ + hex_text(status as nat),
            VirtioBlkCheckpointStateError::ExternalBackingUnsupported => Seq::<char>::empty() + "virtio-blk checkpoint cannot carry a disk that lives in a host file"@,
        }
    }

    pub fn message(&self) -> (r: String)
        ensures r@ == self.spec_message(),
    {
        match self {
            VirtioBlkCheckpointStateError::NotQuiescent => {
                let mut s = String::new();
                s.append("virtio-blk checkpoint state is not quiescent");
                s
            },
            VirtioBlkCheckpointStateError::MisalignedBar { bar0 } => {
                let mut s = String::new();
                s.append("virtio-blk BAR ");
                push_hex(&mut s, *bar0 as u64);
                s.append(" is not ");
                push_hex(&mut s, VIRTIO_BLK_BAR_SIZE as u64);
                s.append("-aligned");
                s
            },
            VirtioBlkCheckpointStateError::UnsupportedDriverFeatures { features } => {
                let mut s = String::new();
                s.append("virtio-blk checkpoint contains unsupported driver features ");
                push_hex(&mut s, *features as u64);
                s
            },
            VirtioBlkCheckpointStateError::InvalidStatus { status } => {
                let mut s = String::new();
                s.append("virtio-blk checkpoint contains invalid device status ");
                push_hex(&mut s, *status as u64);
                s
            },
            VirtioBlkCheckpointStateError::InvalidQueueSize { size } => {
                let mut s = String::new();
                s.append("virtio-blk checkpoint queue size ");
                push_decimal(&mut s, *size as u64);
                s.append(" is not a bounded non-zero power of two");
                s
            },
            VirtioBlkCheckpointStateError::QueueEnabledWithoutAddresses => {
                let mut s = String::new();
                s.append("virtio-blk checkpoint enables the queue without complete descriptor/driver/device addresses");
                s
            },
            VirtioBlkCheckpointStateError::DriverOkWithoutReadyQueue => {
                let mut s = String::new();
                s.append("virtio-blk checkpoint reports DRIVER_OK without a negotiated ready queue");
                s
            },
            VirtioBlkCheckpointStateError::InvalidIsrStatus { status } => {
                let mut s = String::new();
                s.append("virtio-blk checkpoint contains unsupported ISR status bits ");
                push_hex(&mut s, *status as u64);
                s
            },
            VirtioBlkCheckpointStateError::ExternalBackingUnsupported => {
                let mut s = String::new();
                s.append("virtio-blk checkpoint cannot carry a disk that lives in a host file");
                s
            },
        }
    }
}

} // verus!
