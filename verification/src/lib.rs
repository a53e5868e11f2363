//! Reader for the stivale2 boot information block.
//!
//! A bootloader hands the kernel a fixed-size block followed by a singly
//! linked chain of tags, each tag advertising one system fact (memory map,
//! framebuffer, ACPI pointer, CPU list, ...). This crate models the
//! boot-reserved memory as an explicit byte region and verifies the three
//! core mechanisms: walking the chain, looking a tag up by identifier, and
//! decoding count-prefixed variable-length tags, together with one typed
//! accessor per known tag kind.

mod boot;
mod bytes;
mod chain;
mod fixed;
mod laws;
mod region;
mod tags;
mod varlen;

pub use boot::STRING_CAPACITY;
pub use boot::StivaleStruct;
pub use boot::first_nul;
pub use boot::lemma_first_nul_is;
pub use boot::pad64;
pub use boot::trim_nul;

pub use bytes::read_u16;
pub use bytes::read_u32;
pub use bytes::read_u64;
pub use bytes::u16_at;
pub use bytes::u32_at;
pub use bytes::u64_at;

pub use chain::FindResult;
pub use chain::chain_at;
pub use chain::chain_spec;
pub use chain::find_at;
pub use chain::find_spec;
pub use chain::find_tag;
pub use chain::tag_addresses;

pub use fixed::StivaleCommandLineTag;
pub use fixed::StivaleDeviceTreeTag;
pub use fixed::StivaleEfiSystemTableTag;
pub use fixed::StivaleEpochTag;
pub use fixed::StivaleFirmwareTag;
pub use fixed::StivaleFramebufferTag;
pub use fixed::StivaleKernelBaseAddressTag;
pub use fixed::StivaleKernelFileTag;
pub use fixed::StivaleKernelFileV2Tag;
pub use fixed::StivaleKernelSlideTag;
pub use fixed::StivaleMtrrTag;
pub use fixed::StivalePxeInfoTag;
pub use fixed::StivaleRsdpTag;
pub use fixed::StivaleSmbiosTag;
pub use fixed::StivaleTerminalTag;
pub use fixed::StivaleUartTag;
pub use fixed::StivaleVMapTag;
pub use fixed::command_line_tag_at;
pub use fixed::dev_tree_tag_at;
pub use fixed::efi_system_table_tag_at;
pub use fixed::epoch_tag_at;
pub use fixed::firmware_tag_at;
pub use fixed::framebuffer_tag_at;
pub use fixed::kernel_base_addr_tag_at;
pub use fixed::kernel_file_tag_at;
pub use fixed::kernel_file_v2_tag_at;
pub use fixed::kernel_slide_tag_at;
pub use fixed::locate_fixed_tag;
pub use fixed::pxe_info_tag_at;
pub use fixed::rsdp_tag_at;
pub use fixed::smbios_tag_at;
pub use fixed::terminal_tag_at;
pub use fixed::uart_tag_at;
pub use fixed::vmap_tag_at;

pub use laws::chain_has_no_match;
pub use laws::first_match_of_chain;
pub use laws::lemma_find_returns_first_match;
pub use laws::lemma_decode_zero_count;
pub use laws::lemma_decode_reads_only_declared_bytes;
pub use laws::lemma_memory_map_reads_only_declared_bytes;
pub use laws::lemma_smp_reads_only_declared_bytes;
pub use laws::lemma_string_round_trip;
pub use laws::lemma_target_stack_write_read_back;

pub use region::BootRegion;
pub use region::range_ok;

pub use varlen::StivaleCountedView;
pub use varlen::StivaleSmpHandle;
pub use varlen::smp_handle_ok;
pub use varlen::StivaleEdidInfoTag;
pub use varlen::StivaleMemoryMapEntry;
pub use varlen::StivaleMemoryMapTag;
pub use varlen::StivaleModule;
pub use varlen::StivaleModuleTag;
pub use varlen::StivalePmr;
pub use varlen::StivalePmrsTag;
pub use varlen::StivaleSmpInfo;
pub use varlen::StivaleSmpTag;
pub use varlen::counted_count;
pub use varlen::counted_ok;
pub use varlen::decode_counted;
pub use varlen::memory_map_entry_at;
pub use varlen::module_matches;
pub use varlen::pmr_at;
pub use varlen::smp_info_at;

pub use tags::StivaleError;
pub use tags::StivaleTagHeader;
pub use tags::StivaleTagShape;
pub use tags::header_ok;
pub use tags::ident_at;
pub use tags::next_at;
pub use tags::read_tag_header;
pub use tags::tag_shape;
pub use tags::tag_shape_spec;
pub use tags::COMMAND_LINE_TAG_ID;
pub use tags::MEMORY_MAP_TAG_ID;
pub use tags::FRAMEBUFFER_TAG_ID;
pub use tags::EDID_TAG_ID;
pub use tags::MTRR_TAG_ID;
pub use tags::TERMINAL_TAG_ID;
pub use tags::MODULES_TAG_ID;
pub use tags::RSDP_TAG_ID;
pub use tags::SMBIOS_TAG_ID;
pub use tags::EPOCH_TAG_ID;
pub use tags::FIRMWARE_TAG_ID;
pub use tags::EFI_SYSTEM_TABLE_TAG_ID;
pub use tags::KERNEL_FILE_TAG_ID;
pub use tags::KERNEL_SLIDE_TAG_ID;
pub use tags::SMP_TAG_ID;
pub use tags::PXE_INFO_TAG_ID;
pub use tags::UART_TAG_ID;
pub use tags::DEVICE_TREE_TAG_ID;
pub use tags::VMAP_TAG_ID;
pub use tags::KERNEL_FILE_V2_TAG_ID;
pub use tags::PMRS_TAG_ID;
pub use tags::KERNEL_BASE_ADDRESS_TAG_ID;
