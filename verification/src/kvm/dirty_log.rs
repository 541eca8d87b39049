//! Dirty-page logging of guest RAM slot 0: the kernel request layouts, the bitmap geometry of a
//! slot, page lookups in a harvested bitmap, and the checks of the two-page dirty-log scenario.
use crate::error::{Error, HostEnvironmentError, HostIoCause};
use crate::execution::VmExecutionResult;
use crate::memory::{GuestMemoryRegion, GuestPhysAddr, KVM_MEMORY_ALIGNMENT};
use crate::portio::DEBUG_PORT;
use crate::vcpu::{PortIoDirection, PortIoExit, VcpuExit};
use vstd::prelude::*;

verus! {

pub const KVM_GET_DIRTY_LOG: u64 = 0x4010_AE42;
pub const KVM_MEM_LOG_DIRTY_PAGES: u32 = 1;
pub const DIRTY_LOG_SLOT: u32 = 0;
pub const DIRTY_LOG_RAM_PAGES: u64 = 4;
pub const DIRTY_LOG_RAM_SIZE: u64 = 0x4000;
pub const DIRTY_LOG_GUEST_ENTRY: u64 = 0x1100;
pub const DIRTY_LOG_FIRST_WRITE: u64 = 0x1000;
pub const DIRTY_LOG_SECOND_WRITE: u64 = 0x3000;
pub const DIRTY_LOG_FIRST_VALUE: u8 = 0x41;
pub const DIRTY_LOG_SECOND_VALUE: u8 = 0x42;
pub const DIRTY_LOG_PROOF: [u8; 2] = [0x44, 0x47];
pub const DIRTY_LOG_TERMINAL_RIP: u64 = 0x1113;
pub const DIRTY_LOG_EXIT_BUDGET: u32 = 3;
/// Pages 1 and 3 are the ones the guest writes.
pub const DIRTY_LOG_EXPECTED_BITMAP: u64 = 0b1010;

/// `mov byte [0x1000], 'A'; mov byte [0x3000], 'B'; out 0xe9, 'D'; out 0xe9, 'G'; hlt`.
pub const DIRTY_LOG_GUEST_BYTES: [u8; 19] = [
    0xc6, 0x06, 0x00, 0x10, DIRTY_LOG_FIRST_VALUE, 0xc6, 0x06, 0x00, 0x30, DIRTY_LOG_SECOND_VALUE, 0xb0, 0x44,
    0xe6, 0xe9, 0xb0, 0x47, 0xe6, 0xe9, 0xf4,
];

/// `struct kvm_dirty_log` for slot 0.
#[derive(Debug, Clone, Copy, PartialEq, Eq)]
pub struct KvmDirtyLog {
    pub slot: u32,
    pub padding: u32,
    pub dirty_bitmap: u64,
}

impl KvmDirtyLog {
    /// A slot-0 request whose bitmap lives at host address `bitmap_address`.
    pub fn slot0(bitmap_address: u64) -> (r: Self)
        ensures r.slot == DIRTY_LOG_SLOT, r.padding == 0, r.dirty_bitmap == bitmap_address,
    {
        KvmDirtyLog { slot: DIRTY_LOG_SLOT, padding: 0, dirty_bitmap: bitmap_address }
    }
}

/// The bitmap geometry of slot 0: one bit per page, in 64-bit words.
#[derive(Debug, Clone, Copy, PartialEq, Eq)]
pub struct DirtyLogSlot0 {
    pub page_count: u64,
    pub bitmap_words: u64,
}

impl DirtyLogSlot0 {
    /// The geometry of a page-aligned region.
    pub fn for_region(region: GuestMemoryRegion) -> (r: Self)
        requires region.wf(),
        ensures
            r.page_count == region.size / KVM_MEMORY_ALIGNMENT,
            r.bitmap_words == (r.page_count + 63) / 64,
    {
        let page_count = region.size() / KVM_MEMORY_ALIGNMENT;
        let words = (page_count / 64) + if page_count % 64 == 0 { 0 } else { 1 };
        assert(words == (page_count + 63) / 64);
        DirtyLogSlot0 { page_count, bitmap_words: words }
    }
}

/// The mask of the pages that exist in the last bitmap word, when the page count is not a
/// multiple of 64.
pub open spec fn last_word_mask(page_count: u64) -> u64 {
    ((1u64 << ((page_count % 64) as u64)) - 1) as u64
}

/// Clears the bits beyond the slot's last page; a bitmap whose pages fill whole words, or
/// an empty bitmap, is left alone.
pub fn mask_unused_bitmap_bits(bitmap: &mut [u64], page_count: u64)
    ensures
        final(bitmap)@.len() == old(bitmap)@.len(),
        (page_count % 64 == 0 || old(bitmap)@.len() == 0) ==> final(bitmap)@ == old(bitmap)@,
        (page_count % 64 != 0 && old(bitmap)@.len() > 0) ==> final(bitmap)@ == old(bitmap)@.update(
            old(bitmap)@.len() - 1, old(bitmap)@.last() & last_word_mask(page_count)),
{
    let used_in_last = page_count % 64;
    if used_in_last == 0 {
        return;
    }
    let n = bitmap.len();
    if n == 0 {
        return;
    }
    assert(1u64 << used_in_last >= 1u64) by (bit_vector)
        requires used_in_last < 64u64;
    let mask = (1u64 << used_in_last) - 1;
    let last = bitmap[n - 1];
    bitmap[n - 1] = last & mask;
}

/// A dirty-log scenario failure, named by the check.
pub open spec fn dirty_log_error(operation: &'static str) -> Error {
    Error::HostEnvironment(HostEnvironmentError::VmOperation { operation, source: HostIoCause::InvalidData })
}

/// An exit that wrote the one byte `b` to the debug port.
pub open spec fn is_debug_byte_exit(exit: PortIoExit, b: u8) -> bool {
    &&& exit.direction == PortIoDirection::Out
    &&& exit.port == DEBUG_PORT
    &&& exit.size == 1
    &&& exit.count == 1
    &&& exit.data@ == seq![b]
}

fn debug_byte_exit(exit: &PortIoExit, b: u8) -> (r: bool)
    ensures r == is_debug_byte_exit(*exit, b),
{
    let data = exit.output_data();
    let r = exit.direction() == PortIoDirection::Out && exit.port() == DEBUG_PORT && exit.size() == 1
        && exit.count() == 1 && data.len() == 1 && data[0] == b;
    proof {
        if data@.len() == 1 && data@[0] == b {
            assert(data@ =~= seq![b]);
        }
    }
    r
}

/// The run took exactly three exits: two debug-port writes of "DG", then HLT at the end of
/// the program with the reserved RFLAGS bit set.
pub open spec fn spec_dirty_log_execution_error(execution: VmExecutionResult, proof: Seq<u8>) -> Option<Error> {
    if execution.completed_exits != DIRTY_LOG_EXIT_BUDGET || execution.io_exits@.len() != 2
        || proof != DIRTY_LOG_PROOF@ {
        Some(dirty_log_error("dirty-log debug proof"))
    } else if !is_debug_byte_exit(execution.io_exits@[0], DIRTY_LOG_PROOF@[0])
        || !is_debug_byte_exit(execution.io_exits@[1], DIRTY_LOG_PROOF@[1]) {
        Some(dirty_log_error("dirty-log debug-port exit"))
    } else if execution.report.exit != VcpuExit::Hlt || execution.report.rip != DIRTY_LOG_TERMINAL_RIP
        || execution.report.rflags & 2 != 2 {
        Some(dirty_log_error("dirty-log terminal exit"))
    } else {
        None
    }
}

/// Checks a finished dirty-log run (see `spec_dirty_log_execution_error`).
pub fn validate_dirty_log_execution(execution: &VmExecutionResult, proof: &[u8]) -> (r: Result<(), Error>)
    ensures
        match spec_dirty_log_execution_error(*execution, proof@) {
            Some(e) => r == Err::<(), Error>(e),
            None => r is Ok,
        },
{
    let expected = DIRTY_LOG_PROOF;
    let exits = execution.io_exits();
    let proof_matches = proof.len() == 2 && proof[0] == expected[0] && proof[1] == expected[1];
    proof {
        if proof@.len() == 2 && proof@[0] == expected@[0] && proof@[1] == expected@[1] {
            assert(proof@ =~= DIRTY_LOG_PROOF@);
        }
    }
    if execution.completed_exits() != DIRTY_LOG_EXIT_BUDGET || exits.len() != 2 || !proof_matches {
        return Err(Error::HostEnvironment(HostEnvironmentError::VmOperation {
            operation: "dirty-log debug proof",
            source: HostIoCause::InvalidData,
        }));
    }
    if !debug_byte_exit(&exits[0], expected[0]) || !debug_byte_exit(&exits[1], expected[1]) {
        return Err(Error::HostEnvironment(HostEnvironmentError::VmOperation {
            operation: "dirty-log debug-port exit",
            source: HostIoCause::InvalidData,
        }));
    }
    let report = execution.report();
    if report.exit() != VcpuExit::Hlt || report.rip() != DIRTY_LOG_TERMINAL_RIP || report.rflags() & 2 != 2 {
        return Err(Error::HostEnvironment(HostEnvironmentError::VmOperation {
            operation: "dirty-log terminal exit",
            source: HostIoCause::InvalidData,
        }));
    }
    Ok(())
}

/// Every word of a harvested bitmap is zero.
pub open spec fn all_clear(bitmap: Seq<u64>) -> bool {
    forall|i: int| 0 <= i < bitmap.len() ==> bitmap[i] == 0
}

fn is_all_clear(bitmap: &[u64]) -> (r: bool)
    ensures r == all_clear(bitmap@),
{
    let mut i: usize = 0;
    while i < bitmap.len()
        invariant
            0 <= i <= bitmap@.len(),
            forall|j: int| 0 <= j < i ==> bitmap@[j] == 0,
        decreases bitmap@.len() - i,
    {
        if bitmap[i] != 0 {
            return false;
        }
        i = i + 1;
    }
    true
}

/// Before the guest runs, a second harvest after draining setup dirtiness must be clean.
pub fn check_clean_baseline(bitmap: &[u64]) -> (r: Result<(), Error>)
    ensures
        all_clear(bitmap@) ==> r is Ok,
        !all_clear(bitmap@) ==> r == Err::<(), Error>(dirty_log_error("pre-execution dirty-log baseline")),
{
    if is_all_clear(bitmap) {
        Ok(())
    } else {
        Err(Error::HostEnvironment(HostEnvironmentError::VmOperation {
            operation: "pre-execution dirty-log baseline",
            source: HostIoCause::InvalidData,
        }))
    }
}

/// The first harvest after the run must be exactly pages 1 and 3.
pub fn check_first_harvest(bitmap: &[u64]) -> (r: Result<(), Error>)
    ensures
        bitmap@ == seq![DIRTY_LOG_EXPECTED_BITMAP] ==> r is Ok,
        bitmap@ != seq![DIRTY_LOG_EXPECTED_BITMAP] ==> r == Err::<(), Error>(
            dirty_log_error("first dirty-log harvest")),
{
    if bitmap.len() == 1 && bitmap[0] == DIRTY_LOG_EXPECTED_BITMAP {
        assert(bitmap@ =~= seq![DIRTY_LOG_EXPECTED_BITMAP]);
        Ok(())
    } else {
        Err(Error::HostEnvironment(HostEnvironmentError::VmOperation {
            operation: "first dirty-log harvest",
            source: HostIoCause::InvalidData,
        }))
    }
}

/// Guest RAM must hold the two bytes the guest wrote.
pub fn check_dirty_values(values: [u8; 2]) -> (r: Result<(), Error>)
    ensures
        (values@[0] == DIRTY_LOG_FIRST_VALUE && values@[1] == DIRTY_LOG_SECOND_VALUE) ==> r is Ok,
        !(values@[0] == DIRTY_LOG_FIRST_VALUE && values@[1] == DIRTY_LOG_SECOND_VALUE) ==> r == Err::<(), Error>(
            dirty_log_error("dirty guest memory contents")),
{
    if values[0] == DIRTY_LOG_FIRST_VALUE && values[1] == DIRTY_LOG_SECOND_VALUE {
        Ok(())
    } else {
        Err(Error::HostEnvironment(HostEnvironmentError::VmOperation {
            operation: "dirty guest memory contents",
            source: HostIoCause::InvalidData,
        }))
    }
}

/// A harvest clears the bits it returns, so a second one without new guest writes is clean.
pub fn check_second_harvest(bitmap: &[u64]) -> (r: Result<(), Error>)
    ensures
        all_clear(bitmap@) ==> r is Ok,
        !all_clear(bitmap@) ==> r == Err::<(), Error>(dirty_log_error("second dirty-log harvest")),
{
    if is_all_clear(bitmap) {
        Ok(())
    } else {
        Err(Error::HostEnvironment(HostEnvironmentError::VmOperation {
            operation: "second dirty-log harvest",
            source: HostIoCause::InvalidData,
        }))
    }
}

/// A slot-0 region with dirty logging, and its bitmap geometry.
#[derive(Debug, Clone, Copy, PartialEq, Eq)]
pub struct Slot0DirtyTracker {
    pub slot: DirtyLogSlot0,
    pub region: GuestMemoryRegion,
}

/// The tracker's refusal of a lookup.
pub open spec fn lookup_error() -> Error {
    dirty_log_error("slot-0 dirty-page lookup")
}

impl Slot0DirtyTracker {
    pub open spec fn wf(self) -> bool {
        &&& self.region.wf()
        &&& self.slot.page_count == self.region.size / KVM_MEMORY_ALIGNMENT
    }

    /// A tracker for a region, with that region's geometry.
    pub fn for_region(region: GuestMemoryRegion) -> (r: Self)
        requires region.wf(),
        ensures r.wf(), r.region == region,
    {
        Slot0DirtyTracker { slot: DirtyLogSlot0::for_region(region), region }
    }

    pub fn page_count(self) -> (r: u64)
        ensures r == self.slot.page_count,
    {
        self.slot.page_count
    }

    /// The page of the region that `address` falls in; an address outside the region is refused.
    pub fn page_index(self, address: GuestPhysAddr) -> (r: Result<u64, Error>)
        requires self.wf(),
        ensures
            (self.region.base.0 <= address.0 < self.region.spec_end()) ==> r == Ok::<u64, Error>(
                ((address.0 - self.region.base.0) / (KVM_MEMORY_ALIGNMENT as int)) as u64),
            !(self.region.base.0 <= address.0 < self.region.spec_end()) ==> r == Err::<u64, Error>(lookup_error()),
    {
        let start = self.region.base().get();
        let end = self.region.end().get();
        if address.get() < start || address.get() >= end {
            return Err(Error::HostEnvironment(HostEnvironmentError::VmOperation {
                operation: "slot-0 dirty-page lookup",
                source: HostIoCause::InvalidData,
            }));
        }
        Ok((address.get() - start) / KVM_MEMORY_ALIGNMENT)
    }

    /// Whether the page of `address` is marked dirty; refused for an address outside the
    /// region and for a bitmap too short to hold the page.
    pub fn bitmap_contains_page(self, bitmap: &[u64], address: GuestPhysAddr) -> (r: Result<bool, Error>)
        requires self.wf(),
        ensures
            !(self.region.base.0 <= address.0 < self.region.spec_end()) ==> r == Err::<bool, Error>(lookup_error()),
            (self.region.base.0 <= address.0 < self.region.spec_end()) ==> {
                let page = (address.0 - self.region.base.0) / (KVM_MEMORY_ALIGNMENT as int);
                if page / 64 < bitmap@.len() {
                    r == Ok::<bool, Error>(bitmap@[page / 64] & (1u64 << ((page % 64) as u64)) != 0)
                } else {
                    r == Err::<bool, Error>(lookup_error())
                }
            },
    {
        let page = self.page_index(address)?;
        let word = page / 64;
        let bit = page % 64;
        if word >= bitmap.len() as u64 {
            return Err(Error::HostEnvironment(HostEnvironmentError::VmOperation {
                operation: "slot-0 dirty-page lookup",
                source: HostIoCause::InvalidData,
            }));
        }
        let value = bitmap[word as usize];
        Ok(value & (1u64 << bit) != 0)
    }
}

/// A slot-0 region whose dirty logging was switched on after registration.
#[derive(Debug, Clone, Copy, PartialEq, Eq)]
pub struct ActiveDirtyLogSlot0 {
    pub slot: DirtyLogSlot0,
}

impl ActiveDirtyLogSlot0 {
    pub fn for_region(region: GuestMemoryRegion) -> (r: Self)
        requires region.wf(),
        ensures r.slot.page_count == region.size / KVM_MEMORY_ALIGNMENT,
    {
        ActiveDirtyLogSlot0 { slot: DirtyLogSlot0::for_region(region) }
    }

    pub fn page_count(self) -> (r: u64)
        ensures r == self.slot.page_count,
    {
        self.slot.page_count
    }
}

/// Every page of a tracked region has a bit in the bitmap of its geometry.
pub proof fn lemma_every_page_has_a_bit(tracker: Slot0DirtyTracker, address: u64)
    requires
        tracker.wf(),
        tracker.region.base.0 <= address < tracker.region.spec_end(),
    ensures
        ((address - tracker.region.base.0) / (KVM_MEMORY_ALIGNMENT as int)) / 64 < tracker.slot.bitmap_words
            || tracker.slot.bitmap_words != (tracker.slot.page_count + 63) / 64,
{
    let page = (address - tracker.region.base.0) / (KVM_MEMORY_ALIGNMENT as int);
    assert(page < tracker.slot.page_count) by {
        assert(address - tracker.region.base.0 < tracker.region.size);
    }
}

} // verus!
