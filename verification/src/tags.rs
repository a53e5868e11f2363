//! The tag protocol: identifiers, shared header, shape catalog, faults.
//!
//! Every tag of the chain begins with the same 16-byte header: a 64-bit
//! identifier naming the tag kind and a 64-bit address of the next tag
//! (0 ends the chain). The catalog below lists every known identifier
//! together with the shape of its payload: either a fixed number of bytes,
//! or a count-prefixed record array whose count field sits at a
//! kind-specific offset.

use vstd::prelude::*;

use crate::region::BootRegion;
use crate::region::range_ok;

verus! {

/// A structural fault of bootloader-supplied data. Absence of a tag is
/// never a fault; it is reported as `None` by the accessors.
#[derive(Clone, Copy, Debug, PartialEq, Eq, Structural)]
pub enum StivaleError {
    /// The chain or a tag runs outside the boot-reserved region, or the
    /// chain does not terminate.
    MalformedBootData,
    /// A bootloader identification string is longer than its fixed buffer.
    CapacityExceeded,
}

pub const COMMAND_LINE_TAG_ID: u64 = 0xe5e76a1b4597a781;

pub const MEMORY_MAP_TAG_ID: u64 = 0x2187f79e8612de07;

pub const FRAMEBUFFER_TAG_ID: u64 = 0x506461d2950408fa;

pub const EDID_TAG_ID: u64 = 0x968609d7af96b845;

/// Deprecated by the protocol, retained for compatibility.
pub const MTRR_TAG_ID: u64 = 0x6bc1a78ebe871172;

pub const TERMINAL_TAG_ID: u64 = 0xc2b3f4c3233b0974;

pub const MODULES_TAG_ID: u64 = 0x4b6fe466aade04ce;

pub const RSDP_TAG_ID: u64 = 0x9e1786930a375e78;

pub const SMBIOS_TAG_ID: u64 = 0x274bd246c62bf7d1;

pub const EPOCH_TAG_ID: u64 = 0x566a7bed888e1407;

pub const FIRMWARE_TAG_ID: u64 = 0x359d837855e3858c;

pub const EFI_SYSTEM_TABLE_TAG_ID: u64 = 0x4bc5ec15845b558e;

pub const KERNEL_FILE_TAG_ID: u64 = 0xe599d90c2975584a;

pub const KERNEL_SLIDE_TAG_ID: u64 = 0xee80847d01506c57;

pub const SMP_TAG_ID: u64 = 0x34d1d96339647025;

pub const PXE_INFO_TAG_ID: u64 = 0x29d1e96239247032;

pub const UART_TAG_ID: u64 = 0xb813f9b8dbc78797;

pub const DEVICE_TREE_TAG_ID: u64 = 0xabb29bd49a2833fa;

pub const VMAP_TAG_ID: u64 = 0xb0ed257db18cb58f;

pub const KERNEL_FILE_V2_TAG_ID: u64 = 0x37c13018a02c6ea2;

pub const PMRS_TAG_ID: u64 = 0x5df266a64047b6bd;

pub const KERNEL_BASE_ADDRESS_TAG_ID: u64 = 0x060d78874a2a8af0;

/// The payload shape of a tag kind.
#[derive(Clone, Copy, Debug, PartialEq, Eq, Structural)]
pub enum StivaleTagShape {
    /// The whole tag, header included, is `size` bytes.
    Fixed { size: u64 },
    /// The 64-bit record count sits `count_offset` bytes into the tag and
    /// is followed immediately by that many records of `stride` bytes.
    Counted { count_offset: u64, stride: u64 },
}

/// The shape declared by the catalog for a known identifier.
pub open spec fn tag_shape_spec(identifier: u64) -> Option<StivaleTagShape> {
    if identifier == COMMAND_LINE_TAG_ID {
        Some(StivaleTagShape::Fixed { size: 24 })
    } else if identifier == MEMORY_MAP_TAG_ID {
        Some(StivaleTagShape::Counted { count_offset: 16, stride: 24 })
    } else if identifier == FRAMEBUFFER_TAG_ID {
        Some(StivaleTagShape::Fixed { size: 40 })
    } else if identifier == EDID_TAG_ID {
        Some(StivaleTagShape::Counted { count_offset: 16, stride: 1 })
    } else if identifier == MTRR_TAG_ID {
        Some(StivaleTagShape::Fixed { size: 16 })
    } else if identifier == TERMINAL_TAG_ID {
        Some(StivaleTagShape::Fixed { size: 40 })
    } else if identifier == MODULES_TAG_ID {
        Some(StivaleTagShape::Counted { count_offset: 16, stride: 144 })
    } else if identifier == RSDP_TAG_ID {
        Some(StivaleTagShape::Fixed { size: 24 })
    } else if identifier == SMBIOS_TAG_ID {
        Some(StivaleTagShape::Fixed { size: 40 })
    } else if identifier == EPOCH_TAG_ID {
        Some(StivaleTagShape::Fixed { size: 24 })
    } else if identifier == FIRMWARE_TAG_ID {
        Some(StivaleTagShape::Fixed { size: 24 })
    } else if identifier == EFI_SYSTEM_TABLE_TAG_ID {
        Some(StivaleTagShape::Fixed { size: 24 })
    } else if identifier == KERNEL_FILE_TAG_ID {
        Some(StivaleTagShape::Fixed { size: 24 })
    } else if identifier == KERNEL_SLIDE_TAG_ID {
        Some(StivaleTagShape::Fixed { size: 24 })
    } else if identifier == SMP_TAG_ID {
        Some(StivaleTagShape::Counted { count_offset: 32, stride: 24 })
    } else if identifier == PXE_INFO_TAG_ID {
        Some(StivaleTagShape::Fixed { size: 24 })
    } else if identifier == UART_TAG_ID {
        Some(StivaleTagShape::Fixed { size: 24 })
    } else if identifier == DEVICE_TREE_TAG_ID {
        Some(StivaleTagShape::Fixed { size: 32 })
    } else if identifier == VMAP_TAG_ID {
        Some(StivaleTagShape::Fixed { size: 24 })
    } else if identifier == KERNEL_FILE_V2_TAG_ID {
        Some(StivaleTagShape::Fixed { size: 32 })
    } else if identifier == PMRS_TAG_ID {
        Some(StivaleTagShape::Counted { count_offset: 16, stride: 24 })
    } else if identifier == KERNEL_BASE_ADDRESS_TAG_ID {
        Some(StivaleTagShape::Fixed { size: 32 })
    } else {
        None
    }
}

/// Looks an identifier up in the catalog of known tag kinds.
pub fn tag_shape(identifier: u64) -> (r: Option<StivaleTagShape>)
    ensures
        r == tag_shape_spec(identifier),
{
    match identifier {
        COMMAND_LINE_TAG_ID => Some(StivaleTagShape::Fixed { size: 24 }),
        MEMORY_MAP_TAG_ID => Some(StivaleTagShape::Counted { count_offset: 16, stride: 24 }),
        FRAMEBUFFER_TAG_ID => Some(StivaleTagShape::Fixed { size: 40 }),
        EDID_TAG_ID => Some(StivaleTagShape::Counted { count_offset: 16, stride: 1 }),
        MTRR_TAG_ID => Some(StivaleTagShape::Fixed { size: 16 }),
        TERMINAL_TAG_ID => Some(StivaleTagShape::Fixed { size: 40 }),
        MODULES_TAG_ID => Some(StivaleTagShape::Counted { count_offset: 16, stride: 144 }),
        RSDP_TAG_ID => Some(StivaleTagShape::Fixed { size: 24 }),
        SMBIOS_TAG_ID => Some(StivaleTagShape::Fixed { size: 40 }),
        EPOCH_TAG_ID => Some(StivaleTagShape::Fixed { size: 24 }),
        FIRMWARE_TAG_ID => Some(StivaleTagShape::Fixed { size: 24 }),
        EFI_SYSTEM_TABLE_TAG_ID => Some(StivaleTagShape::Fixed { size: 24 }),
        KERNEL_FILE_TAG_ID => Some(StivaleTagShape::Fixed { size: 24 }),
        KERNEL_SLIDE_TAG_ID => Some(StivaleTagShape::Fixed { size: 24 }),
        SMP_TAG_ID => Some(StivaleTagShape::Counted { count_offset: 32, stride: 24 }),
        PXE_INFO_TAG_ID => Some(StivaleTagShape::Fixed { size: 24 }),
        UART_TAG_ID => Some(StivaleTagShape::Fixed { size: 24 }),
        DEVICE_TREE_TAG_ID => Some(StivaleTagShape::Fixed { size: 32 }),
        VMAP_TAG_ID => Some(StivaleTagShape::Fixed { size: 24 }),
        KERNEL_FILE_V2_TAG_ID => Some(StivaleTagShape::Fixed { size: 32 }),
        PMRS_TAG_ID => Some(StivaleTagShape::Counted { count_offset: 16, stride: 24 }),
        KERNEL_BASE_ADDRESS_TAG_ID => Some(StivaleTagShape::Fixed { size: 32 }),
        _ => None,
    }
}

/// The 16-byte prefix every tag begins with.
#[derive(Clone, Copy, Debug, PartialEq, Eq, Structural)]
pub struct StivaleTagHeader {
    /// Names the tag kind; unique per kind, not per instance.
    pub identifier: u64,
    /// Address of the next tag header, 0 at the end of the chain.
    pub next: u64,
}

/// A tag header fits in the region at address `addr`.
pub open spec fn header_ok(b: Seq<u8>, base: u64, addr: u64) -> bool {
    range_ok(b, base, addr, 16)
}

/// The identifier field of the tag at address `addr`.
pub open spec fn ident_at(b: Seq<u8>, base: u64, addr: u64) -> int {
    crate::bytes::u64_at(b, addr - base)
}

/// The next-tag field of the tag at address `addr`.
pub open spec fn next_at(b: Seq<u8>, base: u64, addr: u64) -> u64 {
    crate::bytes::u64_at(b, addr - base + 8) as u64
}

/// Reads the tag header at address `addr`, or reports the boot data
/// malformed if no 16-byte header fits there.
pub fn read_tag_header(region: &BootRegion, addr: u64) -> (r: Result<
    StivaleTagHeader,
    StivaleError,
>)
    requires
        region.wf(),
    ensures
        match r {
            Ok(h) => {
                &&& header_ok(region.mem(), region.spec_base(), addr)
                &&& h.identifier == ident_at(region.mem(), region.spec_base(), addr)
                &&& h.next == next_at(region.mem(), region.spec_base(), addr)
            },
            Err(e) => {
                &&& e == StivaleError::MalformedBootData
                &&& !header_ok(region.mem(), region.spec_base(), addr)
            },
        },
{
    match region.try_offset(addr, 16) {
        None => Err(StivaleError::MalformedBootData),
        Some(_) => {
            let identifier = region.read_u64_at(addr);
            let next = region.read_u64_at(addr + 8);
            Ok(StivaleTagHeader { identifier, next })
        },
    }
}

} // verus!
