//! Fixed-shape tags and their typed accessors.
//!
//! A fixed-shape tag is the shared header followed by a statically sized
//! payload. Each accessor here is one instance of the same operation:
//! look the identifier up in the chain, check that the size the catalog
//! declares fits inside the boot region, and decode the payload fields.
//! Absence of the tag is a normal outcome reported as `None`; a tag that
//! would run past the region is a malformed-data fault.

use vstd::prelude::*;

use crate::boot::StivaleStruct;
use crate::bytes::u16_at;
use crate::bytes::u32_at;
use crate::bytes::u64_at;
use crate::chain::FindResult;
use crate::chain::find_spec;
use crate::chain::find_tag;
use crate::region::BootRegion;
use crate::region::range_ok;
use crate::tags::StivaleError;
use crate::tags::COMMAND_LINE_TAG_ID;
use crate::tags::FRAMEBUFFER_TAG_ID;
use crate::tags::MTRR_TAG_ID;
use crate::tags::TERMINAL_TAG_ID;
use crate::tags::RSDP_TAG_ID;
use crate::tags::SMBIOS_TAG_ID;
use crate::tags::EPOCH_TAG_ID;
use crate::tags::FIRMWARE_TAG_ID;
use crate::tags::EFI_SYSTEM_TABLE_TAG_ID;
use crate::tags::KERNEL_FILE_TAG_ID;
use crate::tags::KERNEL_SLIDE_TAG_ID;
use crate::tags::PXE_INFO_TAG_ID;
use crate::tags::UART_TAG_ID;
use crate::tags::DEVICE_TREE_TAG_ID;
use crate::tags::VMAP_TAG_ID;
use crate::tags::KERNEL_FILE_V2_TAG_ID;
use crate::tags::KERNEL_BASE_ADDRESS_TAG_ID;

verus! {

/// Looks `identifier` up in the chain from `first` and checks that the
/// `size` bytes its fixed shape declares lie inside the region.
pub fn locate_fixed_tag(region: &BootRegion, first: u64, identifier: u64, size: u64) -> (r: Result<
    Option<u64>,
    StivaleError,
>)
    requires
        region.wf(),
    ensures
        match find_spec(region.mem(), region.spec_base(), first, identifier) {
            FindResult::Found(a) => (match r {
                Ok(Some(x)) => x == a && range_ok(region.mem(), region.spec_base(), a, size as int),
                Ok(None) => false,
                Err(e) => e == StivaleError::MalformedBootData && !range_ok(
                    region.mem(),
                    region.spec_base(),
                    a,
                    size as int,
                ),
            }),
            FindResult::Absent => r == Ok::<Option<u64>, StivaleError>(None),
            FindResult::Malformed => r == Err::<Option<u64>, StivaleError>(
                StivaleError::MalformedBootData,
            ),
        },
{
    match find_tag(region, first, identifier) {
        Err(e) => Err(e),
        Ok(None) => Ok(None),
        Ok(Some(a)) => match region.try_offset(a, size) {
            None => Err(StivaleError::MalformedBootData),
            Some(_) => Ok(Some(a)),
        },
    }
}

/// Kernel command line tag.
#[derive(Clone, Copy, Debug, PartialEq, Eq, Structural)]
pub struct StivaleCommandLineTag {
    pub command_line: u64,
}

/// Graphical framebuffer tag.
#[derive(Clone, Copy, Debug, PartialEq, Eq, Structural)]
pub struct StivaleFramebufferTag {
    pub framebuffer_addr: u64,
    pub framebuffer_width: u16,
    pub framebuffer_height: u16,
    pub framebuffer_pitch: u16,
    pub framebuffer_bpp: u16,
    pub memory_model: u8,
    pub red_mask_size: u8,
    pub red_mask_shift: u8,
    pub green_mask_size: u8,
    pub green_mask_shift: u8,
    pub blue_mask_size: u8,
    pub blue_mask_shift: u8,
    pub unused: u8,
}

/// Memory type range registers tag, deprecated by the protocol; kept as
/// a catalog entry, its payload is not decoded.
#[derive(Clone, Copy, Debug, PartialEq, Eq, Structural)]
pub struct StivaleMtrrTag {}

/// Bootloader terminal tag.
#[derive(Clone, Copy, Debug, PartialEq, Eq, Structural)]
pub struct StivaleTerminalTag {
    pub flags: u32,
    pub cols: u16,
    pub rows: u16,
    pub term_write: u64,
    pub max_length: u64,
}

/// ACPI RSDP structure pointer tag.
#[derive(Clone, Copy, Debug, PartialEq, Eq, Structural)]
pub struct StivaleRsdpTag {
    pub rsdp: u64,
}

/// SMBIOS entry point tag.
#[derive(Clone, Copy, Debug, PartialEq, Eq, Structural)]
pub struct StivaleSmbiosTag {
    pub flags: u64,
    pub smbios_entry_32: u64,
    pub smbios_entry_64: u64,
}

/// UNIX epoch at boot tag.
#[derive(Clone, Copy, Debug, PartialEq, Eq, Structural)]
pub struct StivaleEpochTag {
    pub epoch: u64,
}

/// Firmware information tag.
#[derive(Clone, Copy, Debug, PartialEq, Eq, Structural)]
pub struct StivaleFirmwareTag {
    pub flags: u64,
}

/// EFI system table pointer tag.
#[derive(Clone, Copy, Debug, PartialEq, Eq, Structural)]
pub struct StivaleEfiSystemTableTag {
    pub system_table: u64,
}

/// Address of the raw kernel file tag.
#[derive(Clone, Copy, Debug, PartialEq, Eq, Structural)]
pub struct StivaleKernelFileTag {
    pub kernel_file: u64,
}

/// Kernel load slide tag.
#[derive(Clone, Copy, Debug, PartialEq, Eq, Structural)]
pub struct StivaleKernelSlideTag {
    pub kernel_slide: u64,
}

/// PXE boot server information tag.
#[derive(Clone, Copy, Debug, PartialEq, Eq, Structural)]
pub struct StivalePxeInfoTag {
    pub server_ip: u32,
}

/// Memory-mapped UART tag.
#[derive(Clone, Copy, Debug, PartialEq, Eq, Structural)]
pub struct StivaleUartTag {
    pub addr: u64,
}

/// Device tree blob tag.
#[derive(Clone, Copy, Debug, PartialEq, Eq, Structural)]
pub struct StivaleDeviceTreeTag {
    pub addr: u64,
    pub size: u64,
}

/// Higher-half direct map address tag.
#[derive(Clone, Copy, Debug, PartialEq, Eq, Structural)]
pub struct StivaleVMapTag {
    pub addr: u64,
}

/// Address and size of the raw kernel file tag.
#[derive(Clone, Copy, Debug, PartialEq, Eq, Structural)]
pub struct StivaleKernelFileV2Tag {
    pub kernel_file: u64,
    pub kernel_size: u64,
}

/// Physical and virtual kernel base address tag.
#[derive(Clone, Copy, Debug, PartialEq, Eq, Structural)]
pub struct StivaleKernelBaseAddressTag {
    pub physical_base_address: u64,
    pub virtual_base_address: u64,
}

/// The `StivaleCommandLineTag` stored at address `addr` of the region.
pub open spec fn command_line_tag_at(b: Seq<u8>, base: u64, addr: u64) -> StivaleCommandLineTag {
    StivaleCommandLineTag {
        command_line: u64_at(b, addr - base + 16) as u64,
    }
}

/// The `StivaleFramebufferTag` stored at address `addr` of the region.
pub open spec fn framebuffer_tag_at(b: Seq<u8>, base: u64, addr: u64) -> StivaleFramebufferTag {
    StivaleFramebufferTag {
        framebuffer_addr: u64_at(b, addr - base + 16) as u64,
        framebuffer_width: u16_at(b, addr - base + 24) as u16,
        framebuffer_height: u16_at(b, addr - base + 26) as u16,
        framebuffer_pitch: u16_at(b, addr - base + 28) as u16,
        framebuffer_bpp: u16_at(b, addr - base + 30) as u16,
        memory_model: b[addr - base + 32],
        red_mask_size: b[addr - base + 33],
        red_mask_shift: b[addr - base + 34],
        green_mask_size: b[addr - base + 35],
        green_mask_shift: b[addr - base + 36],
        blue_mask_size: b[addr - base + 37],
        blue_mask_shift: b[addr - base + 38],
        unused: b[addr - base + 39],
    }
}

/// The `StivaleTerminalTag` stored at address `addr` of the region.
pub open spec fn terminal_tag_at(b: Seq<u8>, base: u64, addr: u64) -> StivaleTerminalTag {
    StivaleTerminalTag {
        flags: u32_at(b, addr - base + 16) as u32,
        cols: u16_at(b, addr - base + 20) as u16,
        rows: u16_at(b, addr - base + 22) as u16,
        term_write: u64_at(b, addr - base + 24) as u64,
        max_length: u64_at(b, addr - base + 32) as u64,
    }
}

/// The `StivaleRsdpTag` stored at address `addr` of the region.
pub open spec fn rsdp_tag_at(b: Seq<u8>, base: u64, addr: u64) -> StivaleRsdpTag {
    StivaleRsdpTag {
        rsdp: u64_at(b, addr - base + 16) as u64,
    }
}

/// The `StivaleSmbiosTag` stored at address `addr` of the region.
pub open spec fn smbios_tag_at(b: Seq<u8>, base: u64, addr: u64) -> StivaleSmbiosTag {
    StivaleSmbiosTag {
        flags: u64_at(b, addr - base + 16) as u64,
        smbios_entry_32: u64_at(b, addr - base + 24) as u64,
        smbios_entry_64: u64_at(b, addr - base + 32) as u64,
    }
}

/// The `StivaleEpochTag` stored at address `addr` of the region.
pub open spec fn epoch_tag_at(b: Seq<u8>, base: u64, addr: u64) -> StivaleEpochTag {
    StivaleEpochTag {
        epoch: u64_at(b, addr - base + 16) as u64,
    }
}

/// The `StivaleFirmwareTag` stored at address `addr` of the region.
pub open spec fn firmware_tag_at(b: Seq<u8>, base: u64, addr: u64) -> StivaleFirmwareTag {
    StivaleFirmwareTag {
        flags: u64_at(b, addr - base + 16) as u64,
    }
}

/// The `StivaleEfiSystemTableTag` stored at address `addr` of the region.
pub open spec fn efi_system_table_tag_at(b: Seq<u8>, base: u64, addr: u64) -> StivaleEfiSystemTableTag {
    StivaleEfiSystemTableTag {
        system_table: u64_at(b, addr - base + 16) as u64,
    }
}

/// The `StivaleKernelFileTag` stored at address `addr` of the region.
pub open spec fn kernel_file_tag_at(b: Seq<u8>, base: u64, addr: u64) -> StivaleKernelFileTag {
    StivaleKernelFileTag {
        kernel_file: u64_at(b, addr - base + 16) as u64,
    }
}

/// The `StivaleKernelSlideTag` stored at address `addr` of the region.
pub open spec fn kernel_slide_tag_at(b: Seq<u8>, base: u64, addr: u64) -> StivaleKernelSlideTag {
    StivaleKernelSlideTag {
        kernel_slide: u64_at(b, addr - base + 16) as u64,
    }
}

/// The `StivalePxeInfoTag` stored at address `addr` of the region.
pub open spec fn pxe_info_tag_at(b: Seq<u8>, base: u64, addr: u64) -> StivalePxeInfoTag {
    StivalePxeInfoTag {
        server_ip: u32_at(b, addr - base + 16) as u32,
    }
}

/// The `StivaleUartTag` stored at address `addr` of the region.
pub open spec fn uart_tag_at(b: Seq<u8>, base: u64, addr: u64) -> StivaleUartTag {
    StivaleUartTag {
        addr: u64_at(b, addr - base + 16) as u64,
    }
}

/// The `StivaleDeviceTreeTag` stored at address `addr` of the region.
pub open spec fn dev_tree_tag_at(b: Seq<u8>, base: u64, addr: u64) -> StivaleDeviceTreeTag {
    StivaleDeviceTreeTag {
        addr: u64_at(b, addr - base + 16) as u64,
        size: u64_at(b, addr - base + 24) as u64,
    }
}

/// The `StivaleVMapTag` stored at address `addr` of the region.
pub open spec fn vmap_tag_at(b: Seq<u8>, base: u64, addr: u64) -> StivaleVMapTag {
    StivaleVMapTag {
        addr: u64_at(b, addr - base + 16) as u64,
    }
}

/// The `StivaleKernelFileV2Tag` stored at address `addr` of the region.
pub open spec fn kernel_file_v2_tag_at(b: Seq<u8>, base: u64, addr: u64) -> StivaleKernelFileV2Tag {
    StivaleKernelFileV2Tag {
        kernel_file: u64_at(b, addr - base + 16) as u64,
        kernel_size: u64_at(b, addr - base + 24) as u64,
    }
}

/// The `StivaleKernelBaseAddressTag` stored at address `addr` of the region.
pub open spec fn kernel_base_addr_tag_at(b: Seq<u8>, base: u64, addr: u64) -> StivaleKernelBaseAddressTag {
    StivaleKernelBaseAddressTag {
        physical_base_address: u64_at(b, addr - base + 16) as u64,
        virtual_base_address: u64_at(b, addr - base + 24) as u64,
    }
}

impl StivaleStruct {
    /// Kernel command line tag. Absent means the bootloader supplied none.
    pub fn command_line(&self, region: &BootRegion) -> (r: Result<Option<StivaleCommandLineTag>, StivaleError>)
        requires
            region.wf(),
        ensures
            match find_spec(region.mem(), region.spec_base(), self.first_tag(), COMMAND_LINE_TAG_ID) {
                FindResult::Found(a) => (match r {
                    Ok(Some(t)) => range_ok(region.mem(), region.spec_base(), a, 24) && t == command_line_tag_at(
                        region.mem(),
                        region.spec_base(),
                        a,
                    ),
                    Ok(None) => false,
                    Err(e) => e == StivaleError::MalformedBootData && !range_ok(
                        region.mem(),
                        region.spec_base(),
                        a,
                        24,
                    ),
                }),
                FindResult::Absent => r == Ok::<Option<StivaleCommandLineTag>, StivaleError>(None),
                FindResult::Malformed => r == Err::<Option<StivaleCommandLineTag>, StivaleError>(
                    StivaleError::MalformedBootData,
                ),
            },
    {
        match locate_fixed_tag(region, self.first_tag_address(), COMMAND_LINE_TAG_ID, 24) {
            Err(e) => Err(e),
            Ok(None) => Ok(None),
            Ok(Some(a)) => Ok(Some(StivaleCommandLineTag {
                command_line: region.read_u64_at(a + 16),
            })),
        }
    }

    /// Graphical framebuffer tag. Absent means the bootloader supplied none.
    pub fn framebuffer(&self, region: &BootRegion) -> (r: Result<Option<StivaleFramebufferTag>, StivaleError>)
        requires
            region.wf(),
        ensures
            match find_spec(region.mem(), region.spec_base(), self.first_tag(), FRAMEBUFFER_TAG_ID) {
                FindResult::Found(a) => (match r {
                    Ok(Some(t)) => range_ok(region.mem(), region.spec_base(), a, 40) && t == framebuffer_tag_at(
                        region.mem(),
                        region.spec_base(),
                        a,
                    ),
                    Ok(None) => false,
                    Err(e) => e == StivaleError::MalformedBootData && !range_ok(
                        region.mem(),
                        region.spec_base(),
                        a,
                        40,
                    ),
                }),
                FindResult::Absent => r == Ok::<Option<StivaleFramebufferTag>, StivaleError>(None),
                FindResult::Malformed => r == Err::<Option<StivaleFramebufferTag>, StivaleError>(
                    StivaleError::MalformedBootData,
                ),
            },
    {
        match locate_fixed_tag(region, self.first_tag_address(), FRAMEBUFFER_TAG_ID, 40) {
            Err(e) => Err(e),
            Ok(None) => Ok(None),
            Ok(Some(a)) => Ok(Some(StivaleFramebufferTag {
                framebuffer_addr: region.read_u64_at(a + 16),
                framebuffer_width: region.read_u16_at(a + 24),
                framebuffer_height: region.read_u16_at(a + 26),
                framebuffer_pitch: region.read_u16_at(a + 28),
                framebuffer_bpp: region.read_u16_at(a + 30),
                memory_model: region.read_u8_at(a + 32),
                red_mask_size: region.read_u8_at(a + 33),
                red_mask_shift: region.read_u8_at(a + 34),
                green_mask_size: region.read_u8_at(a + 35),
                green_mask_shift: region.read_u8_at(a + 36),
                blue_mask_size: region.read_u8_at(a + 37),
                blue_mask_shift: region.read_u8_at(a + 38),
                unused: region.read_u8_at(a + 39),
            })),
        }
    }

    /// Memory type range registers tag, deprecated by the protocol; kept as
/// a catalog entry, its payload is not decoded. Absent means the bootloader supplied none.
    pub fn mtrr(&self, region: &BootRegion) -> (r: Result<Option<StivaleMtrrTag>, StivaleError>)
        requires
            region.wf(),
        ensures
            match find_spec(region.mem(), region.spec_base(), self.first_tag(), MTRR_TAG_ID) {
                FindResult::Found(a) => (match r {
                    Ok(Some(_)) => range_ok(region.mem(), region.spec_base(), a, 16),
                    Ok(None) => false,
                    Err(e) => e == StivaleError::MalformedBootData && !range_ok(
                        region.mem(),
                        region.spec_base(),
                        a,
                        16,
                    ),
                }),
                FindResult::Absent => r == Ok::<Option<StivaleMtrrTag>, StivaleError>(None),
                FindResult::Malformed => r == Err::<Option<StivaleMtrrTag>, StivaleError>(
                    StivaleError::MalformedBootData,
                ),
            },
    {
        match locate_fixed_tag(region, self.first_tag_address(), MTRR_TAG_ID, 16) {
            Err(e) => Err(e),
            Ok(None) => Ok(None),
            Ok(Some(a)) => Ok(Some(StivaleMtrrTag {
            })),
        }
    }

    /// Bootloader terminal tag. Absent means the bootloader supplied none.
    pub fn terminal(&self, region: &BootRegion) -> (r: Result<Option<StivaleTerminalTag>, StivaleError>)
        requires
            region.wf(),
        ensures
            match find_spec(region.mem(), region.spec_base(), self.first_tag(), TERMINAL_TAG_ID) {
                FindResult::Found(a) => (match r {
                    Ok(Some(t)) => range_ok(region.mem(), region.spec_base(), a, 40) && t == terminal_tag_at(
                        region.mem(),
                        region.spec_base(),
                        a,
                    ),
                    Ok(None) => false,
                    Err(e) => e == StivaleError::MalformedBootData && !range_ok(
                        region.mem(),
                        region.spec_base(),
                        a,
                        40,
                    ),
                }),
                FindResult::Absent => r == Ok::<Option<StivaleTerminalTag>, StivaleError>(None),
                FindResult::Malformed => r == Err::<Option<StivaleTerminalTag>, StivaleError>(
                    StivaleError::MalformedBootData,
                ),
            },
    {
        match locate_fixed_tag(region, self.first_tag_address(), TERMINAL_TAG_ID, 40) {
            Err(e) => Err(e),
            Ok(None) => Ok(None),
            Ok(Some(a)) => Ok(Some(StivaleTerminalTag {
                flags: region.read_u32_at(a + 16),
                cols: region.read_u16_at(a + 20),
                rows: region.read_u16_at(a + 22),
                term_write: region.read_u64_at(a + 24),
                max_length: region.read_u64_at(a + 32),
            })),
        }
    }

    /// ACPI RSDP structure pointer tag. Absent means the bootloader supplied none.
    pub fn rsdp(&self, region: &BootRegion) -> (r: Result<Option<StivaleRsdpTag>, StivaleError>)
        requires
            region.wf(),
        ensures
            match find_spec(region.mem(), region.spec_base(), self.first_tag(), RSDP_TAG_ID) {
                FindResult::Found(a) => (match r {
                    Ok(Some(t)) => range_ok(region.mem(), region.spec_base(), a, 24) && t == rsdp_tag_at(
                        region.mem(),
                        region.spec_base(),
                        a,
                    ),
                    Ok(None) => false,
                    Err(e) => e == StivaleError::MalformedBootData && !range_ok(
                        region.mem(),
                        region.spec_base(),
                        a,
                        24,
                    ),
                }),
                FindResult::Absent => r == Ok::<Option<StivaleRsdpTag>, StivaleError>(None),
                FindResult::Malformed => r == Err::<Option<StivaleRsdpTag>, StivaleError>(
                    StivaleError::MalformedBootData,
                ),
            },
    {
        match locate_fixed_tag(region, self.first_tag_address(), RSDP_TAG_ID, 24) {
            Err(e) => Err(e),
            Ok(None) => Ok(None),
            Ok(Some(a)) => Ok(Some(StivaleRsdpTag {
                rsdp: region.read_u64_at(a + 16),
            })),
        }
    }

    /// SMBIOS entry point tag. Absent means the bootloader supplied none.
    pub fn smbios(&self, region: &BootRegion) -> (r: Result<Option<StivaleSmbiosTag>, StivaleError>)
        requires
            region.wf(),
        ensures
            match find_spec(region.mem(), region.spec_base(), self.first_tag(), SMBIOS_TAG_ID) {
                FindResult::Found(a) => (match r {
                    Ok(Some(t)) => range_ok(region.mem(), region.spec_base(), a, 40) && t == smbios_tag_at(
                        region.mem(),
                        region.spec_base(),
                        a,
                    ),
                    Ok(None) => false,
                    Err(e) => e == StivaleError::MalformedBootData && !range_ok(
                        region.mem(),
                        region.spec_base(),
                        a,
                        40,
                    ),
                }),
                FindResult::Absent => r == Ok::<Option<StivaleSmbiosTag>, StivaleError>(None),
                FindResult::Malformed => r == Err::<Option<StivaleSmbiosTag>, StivaleError>(
                    StivaleError::MalformedBootData,
                ),
            },
    {
        match locate_fixed_tag(region, self.first_tag_address(), SMBIOS_TAG_ID, 40) {
            Err(e) => Err(e),
            Ok(None) => Ok(None),
            Ok(Some(a)) => Ok(Some(StivaleSmbiosTag {
                flags: region.read_u64_at(a + 16),
                smbios_entry_32: region.read_u64_at(a + 24),
                smbios_entry_64: region.read_u64_at(a + 32),
            })),
        }
    }

    /// UNIX epoch at boot tag. Absent means the bootloader supplied none.
    pub fn epoch(&self, region: &BootRegion) -> (r: Result<Option<StivaleEpochTag>, StivaleError>)
        requires
            region.wf(),
        ensures
            match find_spec(region.mem(), region.spec_base(), self.first_tag(), EPOCH_TAG_ID) {
                FindResult::Found(a) => (match r {
                    Ok(Some(t)) => range_ok(region.mem(), region.spec_base(), a, 24) && t == epoch_tag_at(
                        region.mem(),
                        region.spec_base(),
                        a,
                    ),
                    Ok(None) => false,
                    Err(e) => e == StivaleError::MalformedBootData && !range_ok(
                        region.mem(),
                        region.spec_base(),
                        a,
                        24,
                    ),
                }),
                FindResult::Absent => r == Ok::<Option<StivaleEpochTag>, StivaleError>(None),
                FindResult::Malformed => r == Err::<Option<StivaleEpochTag>, StivaleError>(
                    StivaleError::MalformedBootData,
                ),
            },
    {
        match locate_fixed_tag(region, self.first_tag_address(), EPOCH_TAG_ID, 24) {
            Err(e) => Err(e),
            Ok(None) => Ok(None),
            Ok(Some(a)) => Ok(Some(StivaleEpochTag {
                epoch: region.read_u64_at(a + 16),
            })),
        }
    }

    /// Firmware information tag. Absent means the bootloader supplied none.
    pub fn firmware(&self, region: &BootRegion) -> (r: Result<Option<StivaleFirmwareTag>, StivaleError>)
        requires
            region.wf(),
        ensures
            match find_spec(region.mem(), region.spec_base(), self.first_tag(), FIRMWARE_TAG_ID) {
                FindResult::Found(a) => (match r {
                    Ok(Some(t)) => range_ok(region.mem(), region.spec_base(), a, 24) && t == firmware_tag_at(
                        region.mem(),
                        region.spec_base(),
                        a,
                    ),
                    Ok(None) => false,
                    Err(e) => e == StivaleError::MalformedBootData && !range_ok(
                        region.mem(),
                        region.spec_base(),
                        a,
                        24,
                    ),
                }),
                FindResult::Absent => r == Ok::<Option<StivaleFirmwareTag>, StivaleError>(None),
                FindResult::Malformed => r == Err::<Option<StivaleFirmwareTag>, StivaleError>(
                    StivaleError::MalformedBootData,
                ),
            },
    {
        match locate_fixed_tag(region, self.first_tag_address(), FIRMWARE_TAG_ID, 24) {
            Err(e) => Err(e),
            Ok(None) => Ok(None),
            Ok(Some(a)) => Ok(Some(StivaleFirmwareTag {
                flags: region.read_u64_at(a + 16),
            })),
        }
    }

    /// EFI system table pointer tag. Absent means the bootloader supplied none.
    pub fn efi_system_table(&self, region: &BootRegion) -> (r: Result<Option<StivaleEfiSystemTableTag>, StivaleError>)
        requires
            region.wf(),
        ensures
            match find_spec(region.mem(), region.spec_base(), self.first_tag(), EFI_SYSTEM_TABLE_TAG_ID) {
                FindResult::Found(a) => (match r {
                    Ok(Some(t)) => range_ok(region.mem(), region.spec_base(), a, 24) && t == efi_system_table_tag_at(
                        region.mem(),
                        region.spec_base(),
                        a,
                    ),
                    Ok(None) => false,
                    Err(e) => e == StivaleError::MalformedBootData && !range_ok(
                        region.mem(),
                        region.spec_base(),
                        a,
                        24,
                    ),
                }),
                FindResult::Absent => r == Ok::<Option<StivaleEfiSystemTableTag>, StivaleError>(None),
                FindResult::Malformed => r == Err::<Option<StivaleEfiSystemTableTag>, StivaleError>(
                    StivaleError::MalformedBootData,
                ),
            },
    {
        match locate_fixed_tag(region, self.first_tag_address(), EFI_SYSTEM_TABLE_TAG_ID, 24) {
            Err(e) => Err(e),
            Ok(None) => Ok(None),
            Ok(Some(a)) => Ok(Some(StivaleEfiSystemTableTag {
                system_table: region.read_u64_at(a + 16),
            })),
        }
    }

    /// Address of the raw kernel file tag. Absent means the bootloader supplied none.
    pub fn kernel_file(&self, region: &BootRegion) -> (r: Result<Option<StivaleKernelFileTag>, StivaleError>)
        requires
            region.wf(),
        ensures
            match find_spec(region.mem(), region.spec_base(), self.first_tag(), KERNEL_FILE_TAG_ID) {
                FindResult::Found(a) => (match r {
                    Ok(Some(t)) => range_ok(region.mem(), region.spec_base(), a, 24) && t == kernel_file_tag_at(
                        region.mem(),
                        region.spec_base(),
                        a,
                    ),
                    Ok(None) => false,
                    Err(e) => e == StivaleError::MalformedBootData && !range_ok(
                        region.mem(),
                        region.spec_base(),
                        a,
                        24,
                    ),
                }),
                FindResult::Absent => r == Ok::<Option<StivaleKernelFileTag>, StivaleError>(None),
                FindResult::Malformed => r == Err::<Option<StivaleKernelFileTag>, StivaleError>(
                    StivaleError::MalformedBootData,
                ),
            },
    {
        match locate_fixed_tag(region, self.first_tag_address(), KERNEL_FILE_TAG_ID, 24) {
            Err(e) => Err(e),
            Ok(None) => Ok(None),
            Ok(Some(a)) => Ok(Some(StivaleKernelFileTag {
                kernel_file: region.read_u64_at(a + 16),
            })),
        }
    }

    /// Kernel load slide tag. Absent means the bootloader supplied none.
    pub fn kernel_slide(&self, region: &BootRegion) -> (r: Result<Option<StivaleKernelSlideTag>, StivaleError>)
        requires
            region.wf(),
        ensures
            match find_spec(region.mem(), region.spec_base(), self.first_tag(), KERNEL_SLIDE_TAG_ID) {
                FindResult::Found(a) => (match r {
                    Ok(Some(t)) => range_ok(region.mem(), region.spec_base(), a, 24) && t == kernel_slide_tag_at(
                        region.mem(),
                        region.spec_base(),
                        a,
                    ),
                    Ok(None) => false,
                    Err(e) => e == StivaleError::MalformedBootData && !range_ok(
                        region.mem(),
                        region.spec_base(),
                        a,
                        24,
                    ),
                }),
                FindResult::Absent => r == Ok::<Option<StivaleKernelSlideTag>, StivaleError>(None),
                FindResult::Malformed => r == Err::<Option<StivaleKernelSlideTag>, StivaleError>(
                    StivaleError::MalformedBootData,
                ),
            },
    {
        match locate_fixed_tag(region, self.first_tag_address(), KERNEL_SLIDE_TAG_ID, 24) {
            Err(e) => Err(e),
            Ok(None) => Ok(None),
            Ok(Some(a)) => Ok(Some(StivaleKernelSlideTag {
                kernel_slide: region.read_u64_at(a + 16),
            })),
        }
    }

    /// PXE boot server information tag. Absent means the bootloader supplied none.
    pub fn pxe_info(&self, region: &BootRegion) -> (r: Result<Option<StivalePxeInfoTag>, StivaleError>)
        requires
            region.wf(),
        ensures
            match find_spec(region.mem(), region.spec_base(), self.first_tag(), PXE_INFO_TAG_ID) {
                FindResult::Found(a) => (match r {
                    Ok(Some(t)) => range_ok(region.mem(), region.spec_base(), a, 24) && t == pxe_info_tag_at(
                        region.mem(),
                        region.spec_base(),
                        a,
                    ),
                    Ok(None) => false,
                    Err(e) => e == StivaleError::MalformedBootData && !range_ok(
                        region.mem(),
                        region.spec_base(),
                        a,
                        24,
                    ),
                }),
                FindResult::Absent => r == Ok::<Option<StivalePxeInfoTag>, StivaleError>(None),
                FindResult::Malformed => r == Err::<Option<StivalePxeInfoTag>, StivaleError>(
                    StivaleError::MalformedBootData,
                ),
            },
    {
        match locate_fixed_tag(region, self.first_tag_address(), PXE_INFO_TAG_ID, 24) {
            Err(e) => Err(e),
            Ok(None) => Ok(None),
            Ok(Some(a)) => Ok(Some(StivalePxeInfoTag {
                server_ip: region.read_u32_at(a + 16),
            })),
        }
    }

    /// Memory-mapped UART tag. Absent means the bootloader supplied none.
    pub fn uart(&self, region: &BootRegion) -> (r: Result<Option<StivaleUartTag>, StivaleError>)
        requires
            region.wf(),
        ensures
            match find_spec(region.mem(), region.spec_base(), self.first_tag(), UART_TAG_ID) {
                FindResult::Found(a) => (match r {
                    Ok(Some(t)) => range_ok(region.mem(), region.spec_base(), a, 24) && t == uart_tag_at(
                        region.mem(),
                        region.spec_base(),
                        a,
                    ),
                    Ok(None) => false,
                    Err(e) => e == StivaleError::MalformedBootData && !range_ok(
                        region.mem(),
                        region.spec_base(),
                        a,
                        24,
                    ),
                }),
                FindResult::Absent => r == Ok::<Option<StivaleUartTag>, StivaleError>(None),
                FindResult::Malformed => r == Err::<Option<StivaleUartTag>, StivaleError>(
                    StivaleError::MalformedBootData,
                ),
            },
    {
        match locate_fixed_tag(region, self.first_tag_address(), UART_TAG_ID, 24) {
            Err(e) => Err(e),
            Ok(None) => Ok(None),
            Ok(Some(a)) => Ok(Some(StivaleUartTag {
                addr: region.read_u64_at(a + 16),
            })),
        }
    }

    /// Device tree blob tag. Absent means the bootloader supplied none.
    pub fn dev_tree(&self, region: &BootRegion) -> (r: Result<Option<StivaleDeviceTreeTag>, StivaleError>)
        requires
            region.wf(),
        ensures
            match find_spec(region.mem(), region.spec_base(), self.first_tag(), DEVICE_TREE_TAG_ID) {
                FindResult::Found(a) => (match r {
                    Ok(Some(t)) => range_ok(region.mem(), region.spec_base(), a, 32) && t == dev_tree_tag_at(
                        region.mem(),
                        region.spec_base(),
                        a,
                    ),
                    Ok(None) => false,
                    Err(e) => e == StivaleError::MalformedBootData && !range_ok(
                        region.mem(),
                        region.spec_base(),
                        a,
                        32,
                    ),
                }),
                FindResult::Absent => r == Ok::<Option<StivaleDeviceTreeTag>, StivaleError>(None),
                FindResult::Malformed => r == Err::<Option<StivaleDeviceTreeTag>, StivaleError>(
                    StivaleError::MalformedBootData,
                ),
            },
    {
        match locate_fixed_tag(region, self.first_tag_address(), DEVICE_TREE_TAG_ID, 32) {
            Err(e) => Err(e),
            Ok(None) => Ok(None),
            Ok(Some(a)) => Ok(Some(StivaleDeviceTreeTag {
                addr: region.read_u64_at(a + 16),
                size: region.read_u64_at(a + 24),
            })),
        }
    }

    /// Higher-half direct map address tag. Absent means the bootloader supplied none.
    pub fn vmap(&self, region: &BootRegion) -> (r: Result<Option<StivaleVMapTag>, StivaleError>)
        requires
            region.wf(),
        ensures
            match find_spec(region.mem(), region.spec_base(), self.first_tag(), VMAP_TAG_ID) {
                FindResult::Found(a) => (match r {
                    Ok(Some(t)) => range_ok(region.mem(), region.spec_base(), a, 24) && t == vmap_tag_at(
                        region.mem(),
                        region.spec_base(),
                        a,
                    ),
                    Ok(None) => false,
                    Err(e) => e == StivaleError::MalformedBootData && !range_ok(
                        region.mem(),
                        region.spec_base(),
                        a,
                        24,
                    ),
                }),
                FindResult::Absent => r == Ok::<Option<StivaleVMapTag>, StivaleError>(None),
                FindResult::Malformed => r == Err::<Option<StivaleVMapTag>, StivaleError>(
                    StivaleError::MalformedBootData,
                ),
            },
    {
        match locate_fixed_tag(region, self.first_tag_address(), VMAP_TAG_ID, 24) {
            Err(e) => Err(e),
            Ok(None) => Ok(None),
            Ok(Some(a)) => Ok(Some(StivaleVMapTag {
                addr: region.read_u64_at(a + 16),
            })),
        }
    }

    /// Address and size of the raw kernel file tag. Absent means the bootloader supplied none.
    pub fn kernel_file_v2(&self, region: &BootRegion) -> (r: Result<Option<StivaleKernelFileV2Tag>, StivaleError>)
        requires
            region.wf(),
        ensures
            match find_spec(region.mem(), region.spec_base(), self.first_tag(), KERNEL_FILE_V2_TAG_ID) {
                FindResult::Found(a) => (match r {
                    Ok(Some(t)) => range_ok(region.mem(), region.spec_base(), a, 32) && t == kernel_file_v2_tag_at(
                        region.mem(),
                        region.spec_base(),
                        a,
                    ),
                    Ok(None) => false,
                    Err(e) => e == StivaleError::MalformedBootData && !range_ok(
                        region.mem(),
                        region.spec_base(),
                        a,
                        32,
                    ),
                }),
                FindResult::Absent => r == Ok::<Option<StivaleKernelFileV2Tag>, StivaleError>(None),
                FindResult::Malformed => r == Err::<Option<StivaleKernelFileV2Tag>, StivaleError>(
                    StivaleError::MalformedBootData,
                ),
            },
    {
        match locate_fixed_tag(region, self.first_tag_address(), KERNEL_FILE_V2_TAG_ID, 32) {
            Err(e) => Err(e),
            Ok(None) => Ok(None),
            Ok(Some(a)) => Ok(Some(StivaleKernelFileV2Tag {
                kernel_file: region.read_u64_at(a + 16),
                kernel_size: region.read_u64_at(a + 24),
            })),
        }
    }

    /// Physical and virtual kernel base address tag. Absent means the bootloader supplied none.
    pub fn kernel_base_addr(&self, region: &BootRegion) -> (r: Result<Option<StivaleKernelBaseAddressTag>, StivaleError>)
        requires
            region.wf(),
        ensures
            match find_spec(region.mem(), region.spec_base(), self.first_tag(), KERNEL_BASE_ADDRESS_TAG_ID) {
                FindResult::Found(a) => (match r {
                    Ok(Some(t)) => range_ok(region.mem(), region.spec_base(), a, 32) && t == kernel_base_addr_tag_at(
                        region.mem(),
                        region.spec_base(),
                        a,
                    ),
                    Ok(None) => false,
                    Err(e) => e == StivaleError::MalformedBootData && !range_ok(
                        region.mem(),
                        region.spec_base(),
                        a,
                        32,
                    ),
                }),
                FindResult::Absent => r == Ok::<Option<StivaleKernelBaseAddressTag>, StivaleError>(None),
                FindResult::Malformed => r == Err::<Option<StivaleKernelBaseAddressTag>, StivaleError>(
                    StivaleError::MalformedBootData,
                ),
            },
    {
        match locate_fixed_tag(region, self.first_tag_address(), KERNEL_BASE_ADDRESS_TAG_ID, 32) {
            Err(e) => Err(e),
            Ok(None) => Ok(None),
            Ok(Some(a)) => Ok(Some(StivaleKernelBaseAddressTag {
                physical_base_address: region.read_u64_at(a + 16),
                virtual_base_address: region.read_u64_at(a + 24),
            })),
        }
    }

}

} // verus!
