//! The fixed identity-mapped 64-bit boot layout: where the bootstrap page tables live, which
//! entry points and stack pointers it admits, and the page-table image it installs.
use crate::codec::{le_u64_at, put_u64_le};
use crate::error::Error;
use crate::memory::{splice, GuestMemory, GuestMemoryRegion, GuestPhysAddr};
use crate::text::{hex_text, push_hex};
use vstd::string::StringExecFns;
use vstd::prelude::*;

verus! {

pub const LONG_MODE_IDENTITY_MAP_SIZE: u64 = 2 * 1024 * 1024;
pub const LONG_MODE_PAGE_SIZE: u64 = 0x1000;
pub const LONG_MODE_PML4_ADDR: u64 = 0x1000;
pub const LONG_MODE_PDPT_ADDR: u64 = 0x2000;
pub const LONG_MODE_PD_ADDR: u64 = 0x3000;
/// The page table that maps the 4 KiB alias pages above the identity map.
pub const LONG_MODE_ALIAS_PT_ADDR: u64 = 0x4000;
pub const LONG_MODE_PAGE_TABLE_END: u64 = 0x4000;
pub const LONG_MODE_CR0_REQUIRED_BITS: u64 = 0x8000_0001;
pub const LONG_MODE_CR4_REQUIRED_BITS: u64 = 0x20;
pub const LONG_MODE_EFER_REQUIRED_BITS: u64 = 0x500;

pub const PAGE_PRESENT: u64 = 1;
pub const PAGE_WRITABLE: u64 = 2;
pub const PAGE_SIZE_2_MIB: u64 = 0x80;
/// Flags of an entry that points at the next table level: present and writable.
pub const PAGE_TABLE_ENTRY_FLAGS: u64 = 3;
/// Flags of the single 2 MiB leaf entry: present, writable, page size.
pub const LARGE_PAGE_ENTRY_FLAGS: u64 = 0x83;

#[derive(Debug, Clone, PartialEq, Eq)]
pub enum LongModeConfigurationError {
    RamMustStartAtZero { base: u64 },
    RamTooSmall { size: u64, minimum: u64 },
    EntryOutsideIdentityMap { entry: u64, mapped_size: u64 },
    EntryOverlapsPageTables { entry: u64 },
    StackPointerOutsideIdentityMap { stack_pointer: u64, mapped_size: u64 },
    StackPointerOverlapsPageTables { stack_pointer: u64 },
}

/// Whether `address` lies in one of the three reserved page-table pages.
pub open spec fn spec_is_page_table_address(address: u64) -> bool {
    LONG_MODE_PML4_ADDR <= address < LONG_MODE_PAGE_TABLE_END
}

pub fn is_page_table_address(address: u64) -> (r: bool)
    ensures r == spec_is_page_table_address(address),
{
    address >= LONG_MODE_PML4_ADDR && address < LONG_MODE_PAGE_TABLE_END
}

/// One 4 KiB table page whose first entry is `entry` and whose other entries are empty.
pub open spec fn table_page(entry: u64) -> Seq<u8> {
    vstd::bytes::spec_u64_to_le_bytes(entry) + Seq::new(4088, |i: int| 0u8)
}

/// The 12 KiB image of the PML4, PDPT and PD pages, in address order: the PML4 points at the
/// PDPT, the PDPT at the PD, and the PD maps one 2 MiB page at physical address 0.
pub open spec fn page_table_image() -> Seq<u8> {
    table_page(LONG_MODE_PDPT_ADDR | PAGE_TABLE_ENTRY_FLAGS)
        + table_page(LONG_MODE_PD_ADDR | PAGE_TABLE_ENTRY_FLAGS)
        + table_page(LARGE_PAGE_ENTRY_FLAGS)
}

#[derive(Debug, Clone, Copy, PartialEq, Eq)]
pub struct LongModeBootLayout {
    pub memory: GuestMemoryRegion,
    pub entry: GuestPhysAddr,
    pub stack_pointer: u64,
}

impl LongModeBootLayout {
    /// The error, if any, that a layout over `memory` with this entry and stack pointer produces.
    pub open spec fn spec_error(memory: GuestMemoryRegion, entry: GuestPhysAddr, stack_pointer: u64)
        -> Option<LongModeConfigurationError>
    {
        if memory.base.0 != 0 {
            Some(LongModeConfigurationError::RamMustStartAtZero { base: memory.base.0 })
        } else if memory.size < LONG_MODE_IDENTITY_MAP_SIZE {
            Some(LongModeConfigurationError::RamTooSmall { size: memory.size, minimum: LONG_MODE_IDENTITY_MAP_SIZE })
        } else if entry.0 >= LONG_MODE_IDENTITY_MAP_SIZE {
            Some(LongModeConfigurationError::EntryOutsideIdentityMap {
                entry: entry.0,
                mapped_size: LONG_MODE_IDENTITY_MAP_SIZE,
            })
        } else if spec_is_page_table_address(entry.0) {
            Some(LongModeConfigurationError::EntryOverlapsPageTables { entry: entry.0 })
        } else if stack_pointer == 0 || stack_pointer > LONG_MODE_IDENTITY_MAP_SIZE {
            Some(LongModeConfigurationError::StackPointerOutsideIdentityMap {
                stack_pointer,
                mapped_size: LONG_MODE_IDENTITY_MAP_SIZE,
            })
        } else if LONG_MODE_PML4_ADDR < stack_pointer <= LONG_MODE_PAGE_TABLE_END {
            Some(LongModeConfigurationError::StackPointerOverlapsPageTables { stack_pointer })
        } else {
            None
        }
    }

    pub open spec fn wf(self) -> bool {
        &&& self.memory.wf()
        &&& Self::spec_error(self.memory, self.entry, self.stack_pointer) is None
    }

    /// Validates a long-mode boot layout: RAM starts at 0 and covers the 2 MiB identity map, the
    /// entry lies inside the map and outside the page-table pages, and the initial stack pointer
    /// is non-zero, at most the top of the map, and does not grow down into the page tables.
    pub fn new(memory: GuestMemoryRegion, entry: GuestPhysAddr, stack_pointer: u64)
        -> (r: Result<Self, LongModeConfigurationError>)
        ensures
            match Self::spec_error(memory, entry, stack_pointer) {
                None => r == Ok::<Self, LongModeConfigurationError>(LongModeBootLayout { memory, entry, stack_pointer }),
                Some(e) => r == Err::<Self, LongModeConfigurationError>(e),
            },
    {
        if memory.base.0 != 0 {
            return Err(LongModeConfigurationError::RamMustStartAtZero { base: memory.base.0 });
        }
        if memory.size < LONG_MODE_IDENTITY_MAP_SIZE {
            return Err(LongModeConfigurationError::RamTooSmall {
                size: memory.size,
                minimum: LONG_MODE_IDENTITY_MAP_SIZE,
            });
        }
        if entry.0 >= LONG_MODE_IDENTITY_MAP_SIZE {
            return Err(LongModeConfigurationError::EntryOutsideIdentityMap {
                entry: entry.0,
                mapped_size: LONG_MODE_IDENTITY_MAP_SIZE,
            });
        }
        if is_page_table_address(entry.0) {
            return Err(LongModeConfigurationError::EntryOverlapsPageTables { entry: entry.0 });
        }
        if stack_pointer == 0 || stack_pointer > LONG_MODE_IDENTITY_MAP_SIZE {
            return Err(LongModeConfigurationError::StackPointerOutsideIdentityMap {
                stack_pointer,
                mapped_size: LONG_MODE_IDENTITY_MAP_SIZE,
            });
        }
        if stack_pointer > LONG_MODE_PML4_ADDR && stack_pointer <= LONG_MODE_PAGE_TABLE_END {
            return Err(LongModeConfigurationError::StackPointerOverlapsPageTables { stack_pointer });
        }
        Ok(LongModeBootLayout { memory, entry, stack_pointer })
    }

    pub fn memory(&self) -> (r: GuestMemoryRegion)
        ensures r == self.memory,
    {
        self.memory
    }

    pub fn entry(&self) -> (r: GuestPhysAddr)
        ensures r == self.entry,
    {
        self.entry
    }

    pub fn stack_pointer(&self) -> (r: u64)
        ensures r == self.stack_pointer,
    {
        self.stack_pointer
    }

    pub fn pml4_address(&self) -> (r: GuestPhysAddr)
        ensures r.0 == LONG_MODE_PML4_ADDR,
    {
        GuestPhysAddr(LONG_MODE_PML4_ADDR)
    }

    pub fn pdpt_address(&self) -> (r: GuestPhysAddr)
        ensures r.0 == LONG_MODE_PDPT_ADDR,
    {
        GuestPhysAddr(LONG_MODE_PDPT_ADDR)
    }

    pub fn pd_address(&self) -> (r: GuestPhysAddr)
        ensures r.0 == LONG_MODE_PD_ADDR,
    {
        GuestPhysAddr(LONG_MODE_PD_ADDR)
    }

    pub fn identity_map_size(&self) -> (r: u64)
        ensures r == LONG_MODE_IDENTITY_MAP_SIZE,
    {
        LONG_MODE_IDENTITY_MAP_SIZE
    }

    /// Installs the bootstrap page tables: the three table pages are overwritten with
    /// `page_table_image()`, and no other byte of guest RAM changes.
    pub fn install_page_tables(&self, memory: &mut GuestMemory) -> (r: Result<(), Error>)
        requires
            self.wf(),
            old(memory).wf(),
            old(memory).region == self.memory,
        ensures
            r is Ok,
            final(memory).wf(),
            final(memory).region == old(memory).region,
            final(memory).bytes@ == splice(old(memory).bytes@, LONG_MODE_PML4_ADDR as int, page_table_image()),
            le_u64_at(final(memory).bytes@, LONG_MODE_PML4_ADDR as int) == LONG_MODE_PDPT_ADDR | PAGE_TABLE_ENTRY_FLAGS,
            le_u64_at(final(memory).bytes@, LONG_MODE_PDPT_ADDR as int) == LONG_MODE_PD_ADDR | PAGE_TABLE_ENTRY_FLAGS,
            le_u64_at(final(memory).bytes@, LONG_MODE_PD_ADDR as int) == LARGE_PAGE_ENTRY_FLAGS,
    {
        let mut image: Vec<u8> = vec![0u8; 0x3000];
        let ghost zeros = image@;
        put_u64_le(image.as_mut_slice(), 0, LONG_MODE_PDPT_ADDR | PAGE_TABLE_ENTRY_FLAGS);
        put_u64_le(image.as_mut_slice(), 0x1000, LONG_MODE_PD_ADDR | PAGE_TABLE_ENTRY_FLAGS);
        put_u64_le(image.as_mut_slice(), 0x2000, LARGE_PAGE_ENTRY_FLAGS);
        proof {
            vstd::bytes::lemma_auto_spec_u64_to_from_le_bytes();
            assert(image@ =~= page_table_image());
        }
        let r = memory.write(GuestPhysAddr(LONG_MODE_PML4_ADDR), image.as_slice());
        proof {
            crate::memory::lemma_read_after_write(old(memory).bytes@, LONG_MODE_PML4_ADDR as int, image@);
            let written = final(memory).bytes@.subrange(0x1000, 0x4000);
            assert(written =~= image@);
            assert(final(memory).bytes@.subrange(0x1000, 0x1008) =~= image@.subrange(0, 8));
            assert(final(memory).bytes@.subrange(0x2000, 0x2008) =~= image@.subrange(0x1000, 0x1008));
            assert(final(memory).bytes@.subrange(0x3000, 0x3008) =~= image@.subrange(0x2000, 0x2008));
            assert(image@.subrange(0, 8) =~= vstd::bytes::spec_u64_to_le_bytes(LONG_MODE_PDPT_ADDR | PAGE_TABLE_ENTRY_FLAGS));
            assert(image@.subrange(0x1000, 0x1008) =~= vstd::bytes::spec_u64_to_le_bytes(LONG_MODE_PD_ADDR | PAGE_TABLE_ENTRY_FLAGS));
            assert(image@.subrange(0x2000, 0x2008) =~= vstd::bytes::spec_u64_to_le_bytes(LARGE_PAGE_ENTRY_FLAGS));
        }
        r
    }
}


impl LongModeConfigurationError {
    /// The text that describes the refusal.
    pub open spec fn spec_message(self) -> Seq<char> {
        match self {
            LongModeConfigurationError::RamMustStartAtZero { base } => Seq::<char>::empty() + "long-mode bootstrap requires guest RAM to start at physical address 0, got "@ + hex_text(base as nat),
            LongModeConfigurationError::RamTooSmall { size, minimum } => Seq::<char>::empty() + "long-mode bootstrap requires at least "@ + hex_text(minimum as nat) + " bytes of guest RAM, got "@ + hex_text(size as nat),
            LongModeConfigurationError::EntryOutsideIdentityMap { entry, mapped_size } => Seq::<char>::empty() + "long-mode entry "@ + hex_text(entry as nat) + " is outside the identity-mapped range 0.."@ + hex_text(mapped_size as nat),
            LongModeConfigurationError::EntryOverlapsPageTables { entry } => Seq::<char>::empty() + "long-mode entry "@ + hex_text(entry as nat) + " overlaps the reserved bootstrap page-table pages"@,
            LongModeConfigurationError::StackPointerOutsideIdentityMap { stack_pointer, mapped_size } => Seq::<char>::empty() + "long-mode stack pointer "@ + hex_text(stack_pointer as nat) + " is outside the identity-mapped range 0.."@ + hex_text(mapped_size as nat),
            LongModeConfigurationError::StackPointerOverlapsPageTables { stack_pointer } => Seq::<char>::empty() + "long-mode stack pointer "@ + hex_text(stack_pointer as nat) + " overlaps the reserved bootstrap page-table pages"@,
        }
    }

    pub fn message(&self) -> (r: String)
        ensures r@ == self.spec_message(),
    {
        match self {
            LongModeConfigurationError::RamMustStartAtZero { base } => {
                let mut s = String::new();
                s.append("long-mode bootstrap requires guest RAM to start at physical address 0, got ");
                push_hex(&mut s, *base as u64);
                s
            },
            LongModeConfigurationError::RamTooSmall { size, minimum } => {
                let mut s = String::new();
                s.append("long-mode bootstrap requires at least ");
                push_hex(&mut s, *minimum as u64);
                s.append(" bytes of guest RAM, got ");
                push_hex(&mut s, *size as u64);
                s
            },
            LongModeConfigurationError::EntryOutsideIdentityMap { entry, mapped_size } => {
                let mut s = String::new();
                s.append("long-mode entry ");
                push_hex(&mut s, *entry as u64);
                s.append(" is outside the identity-mapped range 0..");
                push_hex(&mut s, *mapped_size as u64);
                s
            },
            LongModeConfigurationError::EntryOverlapsPageTables { entry } => {
                let mut s = String::new();
                s.append("long-mode entry ");
                push_hex(&mut s, *entry as u64);
                s.append(" overlaps the reserved bootstrap page-table pages");
                s
            },
            LongModeConfigurationError::StackPointerOutsideIdentityMap { stack_pointer, mapped_size } => {
                let mut s = String::new();
                s.append("long-mode stack pointer ");
                push_hex(&mut s, *stack_pointer as u64);
                s.append(" is outside the identity-mapped range 0..");
                push_hex(&mut s, *mapped_size as u64);
                s
            },
            LongModeConfigurationError::StackPointerOverlapsPageTables { stack_pointer } => {
                let mut s = String::new();
                s.append("long-mode stack pointer ");
                push_hex(&mut s, *stack_pointer as u64);
                s.append(" overlaps the reserved bootstrap page-table pages");
                s
            },
        }
    }
}

/// With RAM at 0 covering the 2 MiB identity map and an entry inside the map but outside the
/// page-table pages 0x1000..0x4000, the layout accepts exactly the stack pointers in
/// `1..=0x1000` and `0x4001..=0x20_0000`: the top of the map itself is a valid stack pointer,
/// anything above it is outside the map, and a stack growing down into the page tables is
/// refused.
pub proof fn lemma_accepted_stack_pointers(memory: GuestMemoryRegion, entry: GuestPhysAddr, stack_pointer: u64)
    requires
        memory.base.0 == 0,
        memory.size >= 0x20_0000,
        entry.0 < 0x20_0000,
        !(0x1000 <= entry.0 < 0x4000),
    ensures
        LongModeBootLayout::spec_error(memory, entry, stack_pointer) is None
            <==> (1 <= stack_pointer <= 0x1000 || 0x4000 < stack_pointer <= 0x20_0000),
        stack_pointer > 0x20_0000 ==> LongModeBootLayout::spec_error(memory, entry, stack_pointer)
            == Some(LongModeConfigurationError::StackPointerOutsideIdentityMap {
                stack_pointer,
                mapped_size: 0x20_0000,
            }),
{
}

/// A layout is accepted exactly when RAM starts at 0 and covers the 2 MiB identity map, the
/// entry lies inside the map and outside the page-table pages 0x1000..0x4000, and the stack
/// pointer is in `1..=0x1000` or `0x4001..=0x20_0000`.
pub proof fn lemma_layout_accepted_exactly(memory: GuestMemoryRegion, entry: GuestPhysAddr, stack_pointer: u64)
    ensures
        LongModeBootLayout::spec_error(memory, entry, stack_pointer) is None <==> {
            &&& memory.base.0 == 0
            &&& memory.size >= 0x20_0000
            &&& entry.0 < 0x20_0000
            &&& !(0x1000 <= entry.0 < 0x4000)
            &&& (1 <= stack_pointer <= 0x1000 || 0x4000 < stack_pointer <= 0x20_0000)
        },
{
}

} // verus!
