//! Virtio-blk devices on the MMIO bus: notifications, disk inspection, and checkpoint capture,
//! comparison and restore, including an all-or-nothing restore of two devices.
use crate::error::{Error, HostEnvironmentError, HostIoCause};
use crate::memory::GuestMemory;
use crate::mmio::MmioBus;
use crate::pci::virtio_blk::{spec_backing_range, VirtioBlkDevice, VirtioBlkProcessError, VirtioBlkQueueCompletion,
    VIRTIO_BLK_BACKING_SIZE, VIRTIO_BLK_SECTOR_SIZE};
use vstd::prelude::*;

verus! {

/// Device `i` is the first one on the bus whose BAR is `address`.
pub open spec fn is_first_device(devices: Seq<VirtioBlkDevice>, address: u64, i: int) -> bool {
    &&& 0 <= i < devices.len()
    &&& devices[i].bar0 == address
    &&& forall|j: int| 0 <= j < i ==> devices[j].bar0 != address
}

/// The index of the device a BAR address selects, if any device has that BAR.
pub open spec fn spec_device_index(devices: Seq<VirtioBlkDevice>, address: u64) -> Option<int> {
    if exists|i: int| is_first_device(devices, address, i) {
        Some(choose|i: int| is_first_device(devices, address, i))
    } else {
        None
    }
}

/// The refusal of a checkpoint operation, named by the operation.
pub open spec fn checkpoint_error(operation: &'static str) -> Error {
    Error::HostEnvironment(HostEnvironmentError::Io { operation, source: HostIoCause::InvalidData })
}

proof fn lemma_first_device_unique(devices: Seq<VirtioBlkDevice>, address: u64, i: int)
    requires is_first_device(devices, address, i),
    ensures spec_device_index(devices, address) == Some(i),
{
    let k = choose|k: int| is_first_device(devices, address, k);
    assert(is_first_device(devices, address, k));
    if k < i {
        assert(devices[k].bar0 != address);
    }
    if k > i {
        assert(devices[i].bar0 != address);
    }
}

fn find_device(devices: &Vec<VirtioBlkDevice>, address: u64) -> (r: Option<usize>)
    ensures
        match r {
            Some(i) => spec_device_index(devices@, address) == Some(i as int) && i < devices@.len(),
            None => spec_device_index(devices@, address) is None,
        },
{
    let mut i: usize = 0;
    while i < devices.len()
        invariant
            0 <= i <= devices@.len(),
            forall|j: int| 0 <= j < i ==> devices@[j].bar0 != address,
        decreases devices@.len() - i,
    {
        if devices[i].bar0 == address {
            proof { lemma_first_device_unique(devices@, address, i as int); }
            return Some(i);
        }
        i = i + 1;
    }
    assert(!exists|k: int| is_first_device(devices@, address, k));
    None
}

/// Whether two devices hold exactly the same state.
fn same_device(a: &VirtioBlkDevice, b: &VirtioBlkDevice) -> (r: bool)
    ensures r == (*a == *b),
{
    if a.bar0 != b.bar0 || a.device_feature_select != b.device_feature_select
        || a.driver_feature_select != b.driver_feature_select || a.driver_features != b.driver_features
        || a.status != b.status || a.queue_select != b.queue_select || a.queue_size != b.queue_size
        || a.queue_enabled != b.queue_enabled || a.queue_desc != b.queue_desc || a.queue_driver != b.queue_driver
        || a.queue_device != b.queue_device || a.notify_pending != b.notify_pending
        || a.last_avail_idx != b.last_avail_idx || a.last_used_idx != b.last_used_idx
        || a.isr_status != b.isr_status {
        return false;
    }
    let same_file = match (a.file_identity, b.file_identity) {
        (None, None) => true,
        (Some(x), Some(y)) => x.same_file(y),
        _ => false,
    };
    if !same_file {
        return false;
    }
    let mut i: usize = 0;
    while i < VIRTIO_BLK_BACKING_SIZE
        invariant
            0 <= i <= VIRTIO_BLK_BACKING_SIZE,
            a.backing@.len() == VIRTIO_BLK_BACKING_SIZE,
            b.backing@.len() == VIRTIO_BLK_BACKING_SIZE,
            forall|j: int| 0 <= j < i ==> a.backing@[j] == b.backing@[j],
        decreases VIRTIO_BLK_BACKING_SIZE - i,
    {
        if a.backing[i] != b.backing[i] {
            return false;
        }
        i = i + 1;
    }
    proof {
        assert(a.backing@ =~= b.backing@);
        assert(a.backing =~= b.backing);
    }
    true
}

impl MmioBus {
    /// Processes a notification for the device whose BAR is `address`; `Ok(None)` when no device
    /// has that BAR. The device's processing is all-or-nothing (see
    /// `VirtioBlkDevice::process_notified_queue_atomic`); every other device is left alone.
    pub fn process_virtio_blk_notification_atomic(&mut self, address: u64, memory: &mut GuestMemory)
        -> (r: Result<Option<VirtioBlkQueueCompletion>, VirtioBlkProcessError>)
        requires old(memory).wf(),
        ensures
            final(memory).wf(),
            final(memory).region == old(memory).region,
            final(self).byte_device == old(self).byte_device,
            final(self).virtio_blk_devices@.len() == old(self).virtio_blk_devices@.len(),
            match spec_device_index(old(self).virtio_blk_devices@, address) {
                None => {
                    &&& r == Ok::<Option<VirtioBlkQueueCompletion>, VirtioBlkProcessError>(None)
                    &&& final(self).virtio_blk_devices@ == old(self).virtio_blk_devices@
                    &&& final(memory).bytes@ == old(memory).bytes@
                },
                Some(i) => {
                    let device = old(self).virtio_blk_devices@[i];
                    &&& forall|j: int| 0 <= j < old(self).virtio_blk_devices@.len() && j != i
                        ==> final(self).virtio_blk_devices@[j] == old(self).virtio_blk_devices@[j]
                    &&& match device.spec_plan(*old(memory)) {
                        Err(e) => {
                            &&& r == Err::<Option<VirtioBlkQueueCompletion>, VirtioBlkProcessError>(e)
                            &&& final(self).virtio_blk_devices@ == old(self).virtio_blk_devices@
                            &&& final(memory).bytes@ == old(memory).bytes@
                        },
                        Ok(plan) => {
                            &&& r == Ok::<Option<VirtioBlkQueueCompletion>, VirtioBlkProcessError>(
                                Some(VirtioBlkDevice::spec_completion(plan)))
                            &&& final(memory).bytes@ == device.spec_completed_ram(*old(memory), plan)
                            &&& device.spec_completed_device(final(self).virtio_blk_devices@[i], *old(memory), plan)
                        },
                    }
                },
            },
    {
        match find_device(&self.virtio_blk_devices, address) {
            Some(i) => {
                let mut device = self.virtio_blk_devices[i];
                let r = device.process_notified_queue_atomic(memory);
                self.virtio_blk_devices.set(i, device);
                proof {
                    if r is Err {
                        assert(self.virtio_blk_devices@ =~= old(self).virtio_blk_devices@);
                    }
                }
                match r {
                    Ok(completion) => Ok(Some(completion)),
                    Err(e) => Err(e),
                }
            },
            None => Ok(None),
        }
    }

    /// The first sector of the device whose BAR is `address`.
    pub fn virtio_blk_sector_at(&self, address: u64) -> (r: Option<&[u8]>)
        ensures
            match spec_device_index(self.virtio_blk_devices@, address) {
                Some(i) => r matches Some(s)
                    && s@ == self.virtio_blk_devices@[i].backing@.subrange(0, VIRTIO_BLK_SECTOR_SIZE as int),
                None => r is None,
            },
    {
        match find_device(&self.virtio_blk_devices, address) {
            Some(i) => Some(self.virtio_blk_devices[i].sector0()),
            None => None,
        }
    }

    /// The disk bytes of the device whose BAR is `address` that a request of `data_length`
    /// bytes from `sector` covers.
    pub fn virtio_blk_backing_range_at(&self, address: u64, sector: u64, data_length: u32) -> (r: Option<&[u8]>)
        ensures
            match (spec_device_index(self.virtio_blk_devices@, address), spec_backing_range(sector, data_length)) {
                (Some(i), Ok((start, end))) => r matches Some(s)
                    && s@ == self.virtio_blk_devices@[i].backing@.subrange(start as int, end as int),
                _ => r is None,
            },
    {
        match find_device(&self.virtio_blk_devices, address) {
            Some(i) => self.virtio_blk_devices[i].backing_range(sector, data_length),
            None => None,
        }
    }

    /// A copy of the device whose BAR is `address`, refused while it has a notification in flight.
    pub fn capture_virtio_blk_checkpoint_at(&self, address: u64) -> (r: Result<Option<VirtioBlkDevice>, Error>)
        ensures
            match spec_device_index(self.virtio_blk_devices@, address) {
                None => r == Ok::<Option<VirtioBlkDevice>, Error>(None),
                Some(i) => if self.virtio_blk_devices@[i].notify_pending {
                    r == Err::<Option<VirtioBlkDevice>, Error>(checkpoint_error("capture virtio-blk checkpoint state"))
                } else {
                    r == Ok::<Option<VirtioBlkDevice>, Error>(Some(self.virtio_blk_devices@[i]))
                },
            },
    {
        match find_device(&self.virtio_blk_devices, address) {
            None => Ok(None),
            Some(i) => {
                let device = self.virtio_blk_devices[i];
                if !device.checkpoint_quiescent() {
                    return Err(Error::HostEnvironment(HostEnvironmentError::Io {
                        operation: "capture virtio-blk checkpoint state",
                        source: HostIoCause::InvalidData,
                    }));
                }
                Ok(Some(device))
            },
        }
    }

    /// Whether the device whose BAR is `address` holds exactly `snapshot`; a snapshot of
    /// another BAR is refused.
    pub fn verify_virtio_blk_checkpoint_at(&self, address: u64, snapshot: &VirtioBlkDevice)
        -> (r: Result<Option<bool>, Error>)
        ensures
            snapshot.bar0 != address ==> r == Err::<Option<bool>, Error>(
                checkpoint_error("verify virtio-blk checkpoint state")),
            snapshot.bar0 == address ==> match spec_device_index(self.virtio_blk_devices@, address) {
                None => r == Ok::<Option<bool>, Error>(None),
                Some(i) => r == Ok::<Option<bool>, Error>(Some(self.virtio_blk_devices@[i] == *snapshot)),
            },
    {
        if snapshot.bar0() != address {
            return Err(Error::HostEnvironment(HostEnvironmentError::Io {
                operation: "verify virtio-blk checkpoint state",
                source: HostIoCause::InvalidData,
            }));
        }
        match find_device(&self.virtio_blk_devices, address) {
            None => Ok(None),
            Some(i) => Ok(Some(same_device(&self.virtio_blk_devices[i], snapshot))),
        }
    }

    /// Replaces the device whose BAR is `address` by `snapshot`. Refused, changing nothing, when
    /// the snapshot belongs to another BAR or is not quiescent, or the live device has a
    /// notification in flight; `Ok(None)` when no device has that BAR.
    pub fn restore_virtio_blk_checkpoint_at(&mut self, address: u64, snapshot: &VirtioBlkDevice)
        -> (r: Result<Option<()>, Error>)
        ensures
            final(self).byte_device == old(self).byte_device,
            ({
                let devices = old(self).virtio_blk_devices@;
                let refused = checkpoint_error("restore virtio-blk checkpoint state");
                if snapshot.bar0 != address || snapshot.notify_pending {
                    r == Err::<Option<()>, Error>(refused) && final(self).virtio_blk_devices@ == devices
                } else {
                    match spec_device_index(devices, address) {
                        None => r == Ok::<Option<()>, Error>(None) && final(self).virtio_blk_devices@ == devices,
                        Some(i) => if devices[i].notify_pending {
                            r == Err::<Option<()>, Error>(refused) && final(self).virtio_blk_devices@ == devices
                        } else {
                            r == Ok::<Option<()>, Error>(Some(()))
                                && final(self).virtio_blk_devices@ == devices.update(i, *snapshot)
                        },
                    }
                }
            }),
    {
        if snapshot.bar0() != address || !snapshot.checkpoint_quiescent() {
            return Err(Error::HostEnvironment(HostEnvironmentError::Io {
                operation: "restore virtio-blk checkpoint state",
                source: HostIoCause::InvalidData,
            }));
        }
        match find_device(&self.virtio_blk_devices, address) {
            None => Ok(None),
            Some(i) => {
                if !self.virtio_blk_devices[i].checkpoint_quiescent() {
                    return Err(Error::HostEnvironment(HostEnvironmentError::Io {
                        operation: "restore virtio-blk checkpoint state",
                        source: HostIoCause::InvalidData,
                    }));
                }
                self.virtio_blk_devices.set(i, *snapshot);
                Ok(Some(()))
            },
        }
    }

    /// Restores two devices from two snapshots, both or neither. The BARs must be strictly
    /// increasing, each snapshot must carry its BAR and be quiescent, both devices must be on
    /// the bus and quiescent; otherwise nothing changes.
    pub fn restore_two_virtio_blk_checkpoints_atomic(&mut self, checkpoints: [(u64, &VirtioBlkDevice); 2])
        -> (r: Result<(), Error>)
        ensures
            final(self).byte_device == old(self).byte_device,
            ({
                let devices = old(self).virtio_blk_devices@;
                let (first_address, first) = checkpoints@[0];
                let (second_address, second) = checkpoints@[1];
                let accepted = {
                    &&& first_address < second_address
                    &&& first.bar0 == first_address && !first.notify_pending
                    &&& second.bar0 == second_address && !second.notify_pending
                    &&& spec_device_index(devices, first_address) is Some
                    &&& spec_device_index(devices, second_address) is Some
                    &&& !devices[spec_device_index(devices, first_address)->Some_0].notify_pending
                    &&& !devices[spec_device_index(devices, second_address)->Some_0].notify_pending
                };
                if accepted {
                    &&& r is Ok
                    &&& final(self).virtio_blk_devices@ == devices
                        .update(spec_device_index(devices, first_address)->Some_0, *first)
                        .update(spec_device_index(devices, second_address)->Some_0, *second)
                } else {
                    &&& r == Err::<(), Error>(checkpoint_error("restore two virtio-blk checkpoint states"))
                    &&& final(self).virtio_blk_devices@ == devices
                }
            }),
    {
        let (first_address, first_snapshot) = checkpoints[0];
        let (second_address, second_snapshot) = checkpoints[1];
        if first_address >= second_address {
            return Err(Error::HostEnvironment(HostEnvironmentError::Io {
                operation: "restore two virtio-blk checkpoint states",
                source: HostIoCause::InvalidData,
            }));
        }
        if first_snapshot.bar0() != first_address || !first_snapshot.checkpoint_quiescent()
            || second_snapshot.bar0() != second_address || !second_snapshot.checkpoint_quiescent() {
            return Err(Error::HostEnvironment(HostEnvironmentError::Io {
                operation: "restore two virtio-blk checkpoint states",
                source: HostIoCause::InvalidData,
            }));
        }
        let first_index = match find_device(&self.virtio_blk_devices, first_address) {
            Some(i) => i,
            None => return Err(Error::HostEnvironment(HostEnvironmentError::Io {
                operation: "restore two virtio-blk checkpoint states",
                source: HostIoCause::InvalidData,
            })),
        };
        let second_index = match find_device(&self.virtio_blk_devices, second_address) {
            Some(i) => i,
            None => return Err(Error::HostEnvironment(HostEnvironmentError::Io {
                operation: "restore two virtio-blk checkpoint states",
                source: HostIoCause::InvalidData,
            })),
        };
        if !self.virtio_blk_devices[first_index].checkpoint_quiescent()
            || !self.virtio_blk_devices[second_index].checkpoint_quiescent() {
            return Err(Error::HostEnvironment(HostEnvironmentError::Io {
                operation: "restore two virtio-blk checkpoint states",
                source: HostIoCause::InvalidData,
            }));
        }
        self.virtio_blk_devices.set(first_index, *first_snapshot);
        self.virtio_blk_devices.set(second_index, *second_snapshot);
        Ok(())
    }
}

/// Restoring two devices from snapshots of themselves changes no device.
pub proof fn lemma_restore_own_snapshots_changes_nothing(devices: Seq<VirtioBlkDevice>, first: u64, second: u64)
    requires
        spec_device_index(devices, first) is Some,
        spec_device_index(devices, second) is Some,
    ensures
        devices.update(spec_device_index(devices, first)->Some_0, devices[spec_device_index(devices, first)->Some_0])
            .update(spec_device_index(devices, second)->Some_0, devices[spec_device_index(devices, second)->Some_0])
            == devices,
{
    let i = spec_device_index(devices, first)->Some_0;
    let j = spec_device_index(devices, second)->Some_0;
    let k = choose|k: int| is_first_device(devices, first, k);
    let l = choose|l: int| is_first_device(devices, second, l);
    assert(devices.update(i, devices[i]) =~= devices);
    assert(devices.update(i, devices[i]).update(j, devices[j]) =~= devices);
}


/// No two devices on the bus share a BAR.
pub open spec fn bars_unique(devices: Seq<VirtioBlkDevice>) -> bool {
    forall|i: int, j: int| 0 <= i < j < devices.len() ==> (#[trigger] devices[i]).bar0 != (#[trigger] devices[j]).bar0
}

/// A BAR selects a device exactly when some live device has that BAR, and the one it selects
/// has it.
pub proof fn lemma_device_index_finds_any_device_with_bar(devices: Seq<VirtioBlkDevice>, address: u64)
    ensures
        spec_device_index(devices, address) is Some <==> exists|i: int| 0 <= i < devices.len() && devices[i].bar0 == address,
        spec_device_index(devices, address) matches Some(i) ==> 0 <= i < devices.len() && devices[i].bar0 == address,
{
    if exists|i: int| 0 <= i < devices.len() && devices[i].bar0 == address {
        let i = choose|i: int| 0 <= i < devices.len() && devices[i].bar0 == address;
        lemma_first_device_exists(devices, address, i);
    }
    if spec_device_index(devices, address) is Some {
        let k = choose|k: int| is_first_device(devices, address, k);
        assert(is_first_device(devices, address, k));
    }
}

proof fn lemma_first_device_exists(devices: Seq<VirtioBlkDevice>, address: u64, i: int)
    requires 0 <= i < devices.len(), devices[i].bar0 == address,
    ensures spec_device_index(devices, address) is Some,
    decreases i,
{
    if exists|j: int| 0 <= j < i && devices[j].bar0 == address {
        let j = choose|j: int| 0 <= j < i && devices[j].bar0 == address;
        lemma_first_device_exists(devices, address, j);
    } else {
        assert(is_first_device(devices, address, i));
    }
}

/// On a bus whose devices have distinct BARs, an accepted two-device restore leaves the device
/// with the first BAR equal to the first snapshot and the device with the second BAR equal to
/// the second, and every other device, the order and the count as they were.
pub proof fn lemma_restore_two_replaces_exactly_the_two_devices(devices: Seq<VirtioBlkDevice>, first_address: u64,
    first: VirtioBlkDevice, second_address: u64, second: VirtioBlkDevice)
    requires
        bars_unique(devices),
        first_address < second_address,
        spec_device_index(devices, first_address) is Some,
        spec_device_index(devices, second_address) is Some,
    ensures
        ({
            let after = devices.update(spec_device_index(devices, first_address)->Some_0, first)
                .update(spec_device_index(devices, second_address)->Some_0, second);
            &&& after.len() == devices.len()
            &&& forall|k: int| 0 <= k < devices.len() ==> #[trigger] after[k] == if devices[k].bar0 == first_address {
                first
            } else if devices[k].bar0 == second_address {
                second
            } else {
                devices[k]
            }
        }),
{
    lemma_device_index_finds_any_device_with_bar(devices, first_address);
    lemma_device_index_finds_any_device_with_bar(devices, second_address);
    let i1 = spec_device_index(devices, first_address)->Some_0;
    let i2 = spec_device_index(devices, second_address)->Some_0;
    assert forall|k: int| 0 <= k < devices.len() && devices[k].bar0 == first_address implies k == i1 by {
        if k < i1 { assert(devices[k].bar0 != devices[i1].bar0); }
        if k > i1 { assert(devices[i1].bar0 != devices[k].bar0); }
    }
    assert forall|k: int| 0 <= k < devices.len() && devices[k].bar0 == second_address implies k == i2 by {
        if k < i2 { assert(devices[k].bar0 != devices[i2].bar0); }
        if k > i2 { assert(devices[i2].bar0 != devices[k].bar0); }
    }
}

} // verus!
