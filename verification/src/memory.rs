//! Guest-physical addresses, page-aligned RAM regions, and the byte store that backs guest RAM.
//!
//! `GuestMemory` holds the guest's RAM as an owned byte vector. Every access names a
//! guest-physical address and a length, and succeeds exactly when the whole range lies inside the
//! region; a failed access changes nothing.
use crate::error::{Error, GuestMemoryError};
use vstd::prelude::*;

verus! {

/// Alignment, in bytes, that KVM requires of a RAM slot's base and size.
pub const KVM_MEMORY_ALIGNMENT: u64 = 0x1000;

/// An address in the guest's physical address space.
#[derive(Debug, Clone, Copy, PartialEq, Eq, Hash)]
pub struct GuestPhysAddr(pub u64);

impl GuestPhysAddr {
    pub fn new(value: u64) -> (r: Self)
        ensures r.0 == value,
    {
        GuestPhysAddr(value)
    }

    pub fn get(self) -> (r: u64)
        ensures r == self.0,
    {
        self.0
    }
}

/// A non-empty, page-aligned range of guest-physical addresses that does not wrap.
#[derive(Debug, Clone, Copy, PartialEq, Eq)]
pub struct GuestMemoryRegion {
    pub base: GuestPhysAddr,
    pub size: u64,
}

/// Whether `[address, address + length)` lies inside `[base, base + size)`.
pub open spec fn range_inside(base: int, size: int, address: int, length: int) -> bool {
    base <= address && address + length <= base + size
}

/// `s` with the bytes at `[offset, offset + data.len())` replaced by `data`.
pub open spec fn splice(s: Seq<u8>, offset: int, data: Seq<u8>) -> Seq<u8> {
    s.subrange(0, offset) + data + s.subrange(offset + data.len(), s.len() as int)
}

/// Whether an access of `length` bytes at `address` lies inside `region`.
pub open spec fn region_access_ok(region: GuestMemoryRegion, address: u64, length: int) -> bool {
    range_inside(region.base.0 as int, region.size as int, address as int, length)
}

/// The error an access of `length` bytes at `address` produces when `region` refuses it.
pub open spec fn region_access_error(region: GuestMemoryRegion, address: u64, length: usize) -> Error {
    if address + length > u64::MAX {
        Error::GuestMemory(GuestMemoryError::AccessOverflow { address, length })
    } else {
        Error::GuestMemory(GuestMemoryError::AccessOutOfBounds {
            address,
            length,
            region_base: region.base.0,
            region_size: region.size,
        })
    }
}

/// The bytes of RAM over `region` after writing `data` at `address`, or the refusal.
pub open spec fn spec_write(region: GuestMemoryRegion, bytes: Seq<u8>, address: u64, data: Seq<u8>)
    -> Result<Seq<u8>, Error>
{
    if region_access_ok(region, address, data.len() as int) {
        Ok(splice(bytes, address - region.base.0, data))
    } else {
        Err(region_access_error(region, address, data.len() as usize))
    }
}

/// The bytes at `[address, address + length)` of RAM over `region`, or the refusal.
pub open spec fn spec_read_at(region: GuestMemoryRegion, bytes: Seq<u8>, address: u64, length: int)
    -> Result<Seq<u8>, Error>
{
    if region_access_ok(region, address, length) {
        Ok(bytes.subrange(address - region.base.0, address - region.base.0 + length))
    } else {
        Err(region_access_error(region, address, length as usize))
    }
}

impl GuestMemoryRegion {
    pub open spec fn wf(self) -> bool {
        &&& self.size > 0
        &&& self.base.0 % KVM_MEMORY_ALIGNMENT == 0
        &&& self.size % KVM_MEMORY_ALIGNMENT == 0
        &&& self.base.0 + self.size <= u64::MAX
    }

    pub open spec fn spec_end(self) -> int {
        self.base.0 + self.size
    }

    /// The error, if any, that validating a region with this base and size produces: the region
    /// must be non-empty, have a page-aligned base and size, and not wrap past the top of the
    /// 64-bit physical address space. The checks run in that order.
    pub open spec fn spec_error(base: GuestPhysAddr, size: u64) -> Option<Error> {
        if size == 0 {
            Some(Error::GuestMemory(GuestMemoryError::ZeroSizedRegion))
        } else if base.0 % KVM_MEMORY_ALIGNMENT != 0 {
            Some(Error::GuestMemory(GuestMemoryError::MisalignedRegion {
                field: "base",
                value: base.0,
                alignment: KVM_MEMORY_ALIGNMENT,
            }))
        } else if size % KVM_MEMORY_ALIGNMENT != 0 {
            Some(Error::GuestMemory(GuestMemoryError::MisalignedRegion {
                field: "size",
                value: size,
                alignment: KVM_MEMORY_ALIGNMENT,
            }))
        } else if base.0 + size > u64::MAX {
            Some(Error::GuestMemory(GuestMemoryError::AddressSpaceOverflow { base: base.0, size }))
        } else {
            None
        }
    }

    /// Validates a region (see `spec_error`).
    pub fn new(base: GuestPhysAddr, size: u64) -> (r: Result<Self, Error>)
        ensures
            match Self::spec_error(base, size) {
                None => r == Ok::<Self, Error>(GuestMemoryRegion { base, size }),
                Some(e) => r == Err::<Self, Error>(e),
            },
            r is Ok ==> r->Ok_0.wf(),
    {
        if size == 0 {
            return Err(Error::GuestMemory(GuestMemoryError::ZeroSizedRegion));
        }
        if base.0 % KVM_MEMORY_ALIGNMENT != 0 {
            return Err(Error::GuestMemory(GuestMemoryError::MisalignedRegion {
                field: "base",
                value: base.0,
                alignment: KVM_MEMORY_ALIGNMENT,
            }));
        }
        if size % KVM_MEMORY_ALIGNMENT != 0 {
            return Err(Error::GuestMemory(GuestMemoryError::MisalignedRegion {
                field: "size",
                value: size,
                alignment: KVM_MEMORY_ALIGNMENT,
            }));
        }
        match base.0.checked_add(size) {
            Some(_) => Ok(GuestMemoryRegion { base, size }),
            None => Err(Error::GuestMemory(GuestMemoryError::AddressSpaceOverflow { base: base.0, size })),
        }
    }

    pub fn base(&self) -> (r: GuestPhysAddr)
        ensures r == self.base,
    {
        self.base
    }

    pub fn size(&self) -> (r: u64)
        ensures r == self.size,
    {
        self.size
    }

    /// The first address past the region.
    pub fn end(&self) -> (r: GuestPhysAddr)
        requires self.wf(),
        ensures r.0 == self.spec_end(),
    {
        GuestPhysAddr(self.base.0 + self.size)
    }

    pub open spec fn spec_overlaps(self, other: GuestMemoryRegion) -> bool {
        self.base.0 < other.spec_end() && other.base.0 < self.spec_end()
    }

    /// Whether the two regions share at least one address.
    pub fn overlaps(&self, other: GuestMemoryRegion) -> (r: bool)
        requires self.wf(), other.wf(),
        ensures r == self.spec_overlaps(other),
    {
        self.base.0 < other.base.0 + other.size && other.base.0 < self.base.0 + self.size
    }
}

/// Guest RAM: a region together with the bytes it currently holds.
#[derive(Debug, Clone, PartialEq, Eq)]
pub struct GuestMemory {
    pub region: GuestMemoryRegion,
    pub bytes: Vec<u8>,
}

impl GuestMemory {
    pub open spec fn wf(self) -> bool {
        &&& self.region.wf()
        &&& self.bytes@.len() == self.region.size
    }

    /// Whether an access of `length` bytes at `address` lies inside this memory.
    pub open spec fn access_ok(self, address: u64, length: int) -> bool {
        region_access_ok(self.region, address, length)
    }

    /// The error an access of `length` bytes at `address` produces when it is refused.
    pub open spec fn access_error(self, address: u64, length: usize) -> Error {
        region_access_error(self.region, address, length)
    }

    /// The bytes currently stored at `[address, address + length)`.
    pub open spec fn spec_read(self, address: u64, length: int) -> Seq<u8> {
        let offset = address - self.region.base.0;
        self.bytes@.subrange(offset, offset + length)
    }

    /// Zero-filled guest RAM over a validated region.
    pub fn new(base: GuestPhysAddr, size: u64) -> (r: Result<Self, Error>)
        ensures
            match r {
                Ok(memory) => {
                    &&& memory.wf()
                    &&& memory.region.base == base
                    &&& memory.region.size == size
                    &&& forall|i: int| 0 <= i < memory.bytes@.len() ==> memory.bytes@[i] == 0
                },
                Err(e) => match GuestMemoryRegion::spec_error(base, size) {
                    Some(region_error) => e == region_error,
                    None => e == Error::GuestMemory(GuestMemoryError::HostSizeOverflow { size }),
                },
            },
            r is Ok <==> (GuestMemoryRegion::spec_error(base, size) is None && size <= usize::MAX),
    {
        let region = GuestMemoryRegion::new(base, size)?;
        if size > usize::MAX as u64 {
            return Err(Error::GuestMemory(GuestMemoryError::HostSizeOverflow { size }));
        }
        let length = size as usize;
        let bytes: Vec<u8> = vec![0u8; length];
        Ok(GuestMemory { region, bytes })
    }

    pub fn region(&self) -> (r: GuestMemoryRegion)
        ensures r == self.region,
    {
        self.region
    }

    /// Checks an access of `length` bytes at `address` and, when it fits, returns the offset of
    /// its first byte within the backing store.
    fn check_access(&self, address: u64, length: usize) -> (r: Result<usize, Error>)
        requires self.wf(),
        ensures
            r is Ok <==> self.access_ok(address, length as int),
            match r {
                Ok(offset) => offset == address - self.region.base.0,
                Err(e) => e == self.access_error(address, length),
            },
    {
        let length64 = length as u64;
        let end = match address.checked_add(length64) {
            Some(end) => end,
            None => return Err(Error::GuestMemory(GuestMemoryError::AccessOverflow { address, length })),
        };
        if address < self.region.base.0 || end > self.region.base.0 + self.region.size {
            return Err(Error::GuestMemory(GuestMemoryError::AccessOutOfBounds {
                address,
                length,
                region_base: self.region.base.0,
                region_size: self.region.size,
            }));
        }
        let stored = self.bytes.len();
        assert(stored as int == self.region.size);
        Ok((address - self.region.base.0) as usize)
    }

    /// Copies `buffer.len()` bytes starting at `address` into `buffer`. Succeeds exactly when the
    /// whole range lies inside guest RAM; on failure `buffer` is left as it was.
    pub fn read(&self, address: GuestPhysAddr, buffer: &mut [u8]) -> (r: Result<(), Error>)
        requires self.wf(),
        ensures
            final(buffer)@.len() == old(buffer)@.len(),
            r is Ok <==> self.access_ok(address.0, old(buffer)@.len() as int),
            match r {
                Ok(()) => final(buffer)@ == self.spec_read(address.0, old(buffer)@.len() as int),
                Err(e) => e == self.access_error(address.0, old(buffer)@.len() as usize)
                    && final(buffer)@ == old(buffer)@,
            },
    {
        let length = buffer.len();
        let offset = self.check_access(address.0, length)?;
        let _stored = self.bytes.len();
        let mut i: usize = 0;
        while i < length
            invariant
                self.wf(),
                length == buffer@.len(),
                offset + length <= self.bytes@.len(),
                self.bytes@.len() <= usize::MAX,
                0 <= i <= length,
                forall|j: int| 0 <= j < i ==> buffer@[j] == self.bytes@[offset + j],
            decreases length - i,
        {
            buffer[i] = self.bytes[offset + i];
            i = i + 1;
        }
        assert(buffer@ =~= self.spec_read(address.0, length as int));
        Ok(())
    }

    /// Reads `length` bytes at `address` into a fresh vector.
    pub fn read_vec(&self, address: GuestPhysAddr, length: usize) -> (r: Result<Vec<u8>, Error>)
        requires self.wf(),
        ensures
            r is Ok <==> self.access_ok(address.0, length as int),
            match r {
                Ok(bytes) => bytes@ == self.spec_read(address.0, length as int),
                Err(e) => e == self.access_error(address.0, length),
            },
    {
        let offset = self.check_access(address.0, length)?;
        let _stored = self.bytes.len();
        let mut out: Vec<u8> = Vec::new();
        let mut i: usize = 0;
        while i < length
            invariant
                self.wf(),
                offset + length <= self.bytes@.len(),
                self.bytes@.len() <= usize::MAX,
                0 <= i <= length,
                out@.len() == i,
                forall|j: int| 0 <= j < i ==> out@[j] == self.bytes@[offset + j],
            decreases length - i,
        {
            out.push(self.bytes[offset + i]);
            i = i + 1;
        }
        assert(out@ =~= self.spec_read(address.0, length as int));
        Ok(out)
    }

    /// Reads a little-endian `u16` at `address`.
    pub fn read_u16(&self, address: GuestPhysAddr) -> (r: Result<u16, Error>)
        requires self.wf(),
        ensures
            match spec_read_at(self.region, self.bytes@, address.0, 2) {
                Ok(s) => r == Ok::<u16, Error>(vstd::bytes::spec_u16_from_le_bytes(s)),
                Err(e) => r == Err::<u16, Error>(e),
            },
    {
        let mut buffer = [0u8; 2];
        match self.read(address, &mut buffer) {
            Ok(()) => Ok(vstd::bytes::u16_from_le_bytes(&buffer)),
            Err(e) => Err(e),
        }
    }

    /// Reads a little-endian `u32` at `address`.
    pub fn read_u32(&self, address: GuestPhysAddr) -> (r: Result<u32, Error>)
        requires self.wf(),
        ensures
            match spec_read_at(self.region, self.bytes@, address.0, 4) {
                Ok(s) => r == Ok::<u32, Error>(vstd::bytes::spec_u32_from_le_bytes(s)),
                Err(e) => r == Err::<u32, Error>(e),
            },
    {
        let mut buffer = [0u8; 4];
        match self.read(address, &mut buffer) {
            Ok(()) => Ok(vstd::bytes::u32_from_le_bytes(&buffer)),
            Err(e) => Err(e),
        }
    }

    /// Reads a little-endian `u64` at `address`.
    pub fn read_u64(&self, address: GuestPhysAddr) -> (r: Result<u64, Error>)
        requires self.wf(),
        ensures
            match spec_read_at(self.region, self.bytes@, address.0, 8) {
                Ok(s) => r == Ok::<u64, Error>(vstd::bytes::spec_u64_from_le_bytes(s)),
                Err(e) => r == Err::<u64, Error>(e),
            },
    {
        let mut buffer = [0u8; 8];
        match self.read(address, &mut buffer) {
            Ok(()) => Ok(vstd::bytes::u64_from_le_bytes(&buffer)),
            Err(e) => Err(e),
        }
    }

    /// Stores `data` at `address`. Succeeds exactly when the whole range lies inside guest RAM;
    /// a refused write changes nothing.
    pub fn write(&mut self, address: GuestPhysAddr, data: &[u8]) -> (r: Result<(), Error>)
        requires old(self).wf(),
        ensures
            final(self).wf(),
            final(self).region == old(self).region,
            r is Ok <==> old(self).access_ok(address.0, data@.len() as int),
            match spec_write(old(self).region, old(self).bytes@, address.0, data@) {
                Ok(bytes) => r is Ok && final(self).bytes@ == bytes,
                Err(e) => r == Err::<(), Error>(e) && final(self).bytes@ == old(self).bytes@,
            },
    {
        let length = data.len();
        let offset = self.check_access(address.0, length)?;
        let _stored = self.bytes.len();
        let ghost before = self.bytes@;
        let mut i: usize = 0;
        while i < length
            invariant
                self.wf(),
                self.region == old(self).region,
                before == old(self).bytes@,
                length == data@.len(),
                offset + length <= self.bytes@.len(),
                self.bytes@.len() <= usize::MAX,
                self.bytes@.len() == before.len(),
                0 <= i <= length,
                forall|j: int| 0 <= j < i ==> self.bytes@[offset + j] == data@[j],
                forall|j: int| 0 <= j < self.bytes@.len() && !(offset <= j < offset + i) ==> self.bytes@[j] == before[j],
            decreases length - i,
        {
            self.bytes.set(offset + i, data[i]);
            i = i + 1;
        }
        assert(self.bytes@ =~= splice(before, offset as int, data@));
        Ok(())
    }

    /// Writes `value` as eight little-endian bytes at `address`.
    pub fn write_u64(&mut self, address: GuestPhysAddr, value: u64) -> (r: Result<(), Error>)
        requires old(self).wf(),
        ensures
            final(self).wf(),
            final(self).region == old(self).region,
            r is Ok <==> old(self).access_ok(address.0, 8),
            match r {
                Ok(()) => final(self).bytes@ == splice(old(self).bytes@, address.0 - old(self).region.base.0,
                    vstd::bytes::spec_u64_to_le_bytes(value)),
                Err(e) => e == old(self).access_error(address.0, 8) && final(self).bytes@ == old(self).bytes@,
            },
    {
        proof { vstd::bytes::lemma_auto_spec_u64_to_from_le_bytes(); }
        let bytes = vstd::bytes::u64_to_le_bytes(value);
        self.write(address, bytes.as_slice())
    }
}

/// Reading back a range just written yields exactly the bytes that were written.
pub proof fn lemma_read_after_write(bytes: Seq<u8>, offset: int, data: Seq<u8>)
    requires
        0 <= offset,
        offset + data.len() <= bytes.len(),
    ensures
        splice(bytes, offset, data).len() == bytes.len(),
        splice(bytes, offset, data).subrange(offset, offset + data.len()) == data,
{
    assert(splice(bytes, offset, data).subrange(offset, offset + data.len()) =~= data);
}

/// A write leaves every byte outside the written range as it was.
pub proof fn lemma_write_preserves_other_bytes(bytes: Seq<u8>, offset: int, data: Seq<u8>, i: int)
    requires
        0 <= offset,
        offset + data.len() <= bytes.len(),
        0 <= i < bytes.len(),
        !(offset <= i < offset + data.len()),
    ensures
        splice(bytes, offset, data)[i] == bytes[i],
{
}

/// A write leaves every range it does not overlap as it was.
pub proof fn lemma_write_keeps_disjoint_range(bytes: Seq<u8>, offset: int, data: Seq<u8>, start: int, length: int)
    requires
        0 <= offset,
        offset + data.len() <= bytes.len(),
        0 <= start,
        0 <= length,
        start + length <= bytes.len(),
        start + length <= offset || offset + data.len() <= start,
    ensures
        splice(bytes, offset, data).len() == bytes.len(),
        splice(bytes, offset, data).subrange(start, start + length) == bytes.subrange(start, start + length),
{
    assert(splice(bytes, offset, data).subrange(start, start + length) =~= bytes.subrange(start, start + length));
}

} // verus!
