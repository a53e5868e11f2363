use stivale2::BootRegion;
use stivale2::StivaleError;
use stivale2::StivaleStruct;

fn push_u64(v: &mut Vec<u8>, x: u64) {
    v.extend_from_slice(&x.to_le_bytes());
}

fn push_u32(v: &mut Vec<u8>, x: u32) {
    v.extend_from_slice(&x.to_le_bytes());
}

fn push_u16(v: &mut Vec<u8>, x: u16) {
    v.extend_from_slice(&x.to_le_bytes());
}

#[test]
fn new_block_is_empty() {
    let info = StivaleStruct::new();
    assert_eq!(info.bootloader_brand(), Vec::<u8>::new());
    assert_eq!(info.bootloader_version(), Vec::<u8>::new());
    assert_eq!(info.first_tag_address(), 0);
}

#[test]
fn brand_round_trip() {
    let mut info = StivaleStruct::new();
    assert_eq!(info.set_bootloader_brand(b"mybootloader"), Ok(()));
    assert_eq!(info.bootloader_brand(), b"mybootloader".to_vec());
}

#[test]
fn version_round_trip() {
    let mut info = StivaleStruct::new();
    assert_eq!(info.set_bootloader_version(b"1.2.3"), Ok(()));
    assert_eq!(info.bootloader_version(), b"1.2.3".to_vec());
}

#[test]
fn brand_round_trip_at_capacity() {
    let brand = [b'x'; 64];
    let mut info = StivaleStruct::new();
    assert_eq!(info.set_bootloader_brand(&brand), Ok(()));
    assert_eq!(info.bootloader_brand(), brand.to_vec());
}

#[test]
fn brand_longer_than_capacity_is_refused() {
    let brand = [b'x'; 65];
    let mut info = StivaleStruct::new();
    info.set_bootloader_brand(b"keep").unwrap();
    assert_eq!(
        info.set_bootloader_brand(&brand),
        Err(StivaleError::CapacityExceeded)
    );
    assert_eq!(info.bootloader_brand(), b"keep".to_vec());
}

#[test]
fn shorter_brand_replaces_longer_without_remnants() {
    let mut info = StivaleStruct::new();
    info.set_bootloader_brand(b"a-rather-long-brand").unwrap();
    info.set_bootloader_brand(b"tiny").unwrap();
    assert_eq!(info.bootloader_brand(), b"tiny".to_vec());
}

#[test]
fn add_tag_sets_chain_head() {
    let mut info = StivaleStruct::new();
    info.add_tag(0x1234);
    assert_eq!(info.first_tag_address(), 0x1234);
}

#[test]
fn empty_chain_every_accessor_absent() {
    let region = BootRegion::new(0x1000, vec![0u8; 64]);
    let info = StivaleStruct::new();
    assert_eq!(info.command_line(&region), Ok(None));
    assert_eq!(info.memory_map(&region), Ok(None));
    assert_eq!(info.framebuffer(&region), Ok(None));
    assert_eq!(info.edid_info(&region), Ok(None));
    assert_eq!(info.mtrr(&region), Ok(None));
    assert_eq!(info.terminal(&region), Ok(None));
    assert_eq!(info.modules(&region), Ok(None));
    assert_eq!(info.rsdp(&region), Ok(None));
    assert_eq!(info.smbios(&region), Ok(None));
    assert_eq!(info.epoch(&region), Ok(None));
    assert_eq!(info.firmware(&region), Ok(None));
    assert_eq!(info.efi_system_table(&region), Ok(None));
    assert_eq!(info.kernel_file(&region), Ok(None));
    assert_eq!(info.kernel_slide(&region), Ok(None));
    assert_eq!(info.smp(&region), Ok(None));
    assert_eq!(info.smp_mut(&region), Ok(None));
    assert_eq!(info.pxe_info(&region), Ok(None));
    assert_eq!(info.uart(&region), Ok(None));
    assert_eq!(info.dev_tree(&region), Ok(None));
    assert_eq!(info.vmap(&region), Ok(None));
    assert_eq!(info.kernel_file_v2(&region), Ok(None));
    assert_eq!(info.pmrs(&region), Ok(None));
    assert_eq!(info.kernel_base_addr(&region), Ok(None));
    assert_eq!(info.get_tag(&region, stivale2::RSDP_TAG_ID), Ok(None));
}

/// One chain holding several fixed tags with known payloads.
fn fixed_chain(base: u64) -> BootRegion {
    let mut bytes = Vec::new();
    // rsdp tag at base, 24 bytes
    push_u64(&mut bytes, stivale2::RSDP_TAG_ID);
    push_u64(&mut bytes, base + 24);
    push_u64(&mut bytes, 0xf0f0_1234);
    // kernel base address tag at base + 24, 32 bytes
    push_u64(&mut bytes, stivale2::KERNEL_BASE_ADDRESS_TAG_ID);
    push_u64(&mut bytes, base + 56);
    push_u64(&mut bytes, 0x20_0000);
    push_u64(&mut bytes, 0xffff_ffff_8020_0000);
    // framebuffer tag at base + 56, 40 bytes
    push_u64(&mut bytes, stivale2::FRAMEBUFFER_TAG_ID);
    push_u64(&mut bytes, base + 96);
    push_u64(&mut bytes, 0xfd00_0000); // framebuffer_addr
    push_u16(&mut bytes, 1024);
    push_u16(&mut bytes, 768);
    push_u16(&mut bytes, 4096);
    push_u16(&mut bytes, 32);
    bytes.push(1); // memory_model
    bytes.push(8); // red_mask_size
    bytes.push(16); // red_mask_shift
    bytes.push(8); // green_mask_size
    bytes.push(8); // green_mask_shift
    bytes.push(8); // blue_mask_size
    bytes.push(0); // blue_mask_shift
    bytes.push(0); // unused
    // terminal tag at base + 96, 40 bytes
    push_u64(&mut bytes, stivale2::TERMINAL_TAG_ID);
    push_u64(&mut bytes, base + 136);
    push_u32(&mut bytes, 0b11); // flags
    push_u16(&mut bytes, 80); // cols
    push_u16(&mut bytes, 25); // rows
    push_u64(&mut bytes, 0xffff_8000_1111_2222); // term_write
    push_u64(&mut bytes, 4096); // max_length
    // epoch tag at base + 136, 24 bytes
    push_u64(&mut bytes, stivale2::EPOCH_TAG_ID);
    push_u64(&mut bytes, base + 160);
    push_u64(&mut bytes, 1_700_000_000);
    // mtrr tag at base + 160, 16 bytes, end of chain
    push_u64(&mut bytes, stivale2::MTRR_TAG_ID);
    push_u64(&mut bytes, 0);
    BootRegion::new(base, bytes)
}

#[test]
fn fixed_accessors_decode_exact_fields() {
    let base = 0x7000;
    let region = fixed_chain(base);
    let mut info = StivaleStruct::new();
    info.add_tag(base);

    let rsdp = info.rsdp(&region).unwrap().unwrap();
    assert_eq!(rsdp.rsdp, 0xf0f0_1234);

    let kba = info.kernel_base_addr(&region).unwrap().unwrap();
    assert_eq!(kba.physical_base_address, 0x20_0000);
    assert_eq!(kba.virtual_base_address, 0xffff_ffff_8020_0000);

    let fb = info.framebuffer(&region).unwrap().unwrap();
    assert_eq!(fb.framebuffer_addr, 0xfd00_0000);
    assert_eq!(fb.framebuffer_width, 1024);
    assert_eq!(fb.framebuffer_height, 768);
    assert_eq!(fb.framebuffer_pitch, 4096);
    assert_eq!(fb.framebuffer_bpp, 32);
    assert_eq!(fb.memory_model, 1);
    assert_eq!(fb.red_mask_size, 8);
    assert_eq!(fb.red_mask_shift, 16);
    assert_eq!(fb.green_mask_size, 8);
    assert_eq!(fb.green_mask_shift, 8);
    assert_eq!(fb.blue_mask_size, 8);
    assert_eq!(fb.blue_mask_shift, 0);
    assert_eq!(fb.unused, 0);

    let term = info.terminal(&region).unwrap().unwrap();
    assert_eq!(term.flags, 0b11);
    assert_eq!(term.cols, 80);
    assert_eq!(term.rows, 25);
    assert_eq!(term.term_write, 0xffff_8000_1111_2222);
    assert_eq!(term.max_length, 4096);

    let epoch = info.epoch(&region).unwrap().unwrap();
    assert_eq!(epoch.epoch, 1_700_000_000);

    // the deprecated tag is still found
    assert!(info.mtrr(&region).unwrap().is_some());

    // a kind not in the chain is absent
    assert_eq!(info.uart(&region), Ok(None));
}

#[test]
fn truncated_fixed_tag_is_malformed() {
    let base = 0x7000;
    let mut bytes = Vec::new();
    push_u64(&mut bytes, stivale2::RSDP_TAG_ID);
    push_u64(&mut bytes, 0);
    bytes.extend_from_slice(&[1, 2, 3]); // payload cut off
    let region = BootRegion::new(base, bytes);
    let mut info = StivaleStruct::new();
    info.add_tag(base);
    assert_eq!(info.rsdp(&region), Err(StivaleError::MalformedBootData));
    // the header itself is still a findable tag
    assert_eq!(info.get_tag(&region, stivale2::RSDP_TAG_ID), Ok(Some(base)));
}

#[test]
fn remaining_fixed_accessors_decode_exact_fields() {
    let base = 0x5000;
    let mut bytes = Vec::new();
    push_u64(&mut bytes, stivale2::COMMAND_LINE_TAG_ID);
    push_u64(&mut bytes, base + 24);
    push_u64(&mut bytes, 0x6000); // command_line pointer
    push_u64(&mut bytes, stivale2::SMBIOS_TAG_ID);
    push_u64(&mut bytes, base + 64);
    push_u64(&mut bytes, 0); // flags
    push_u64(&mut bytes, 0xe_0000); // smbios_entry_32
    push_u64(&mut bytes, 0xf_0000); // smbios_entry_64
    push_u64(&mut bytes, stivale2::FIRMWARE_TAG_ID);
    push_u64(&mut bytes, base + 88);
    push_u64(&mut bytes, 1); // flags: BIOS boot
    push_u64(&mut bytes, stivale2::EFI_SYSTEM_TABLE_TAG_ID);
    push_u64(&mut bytes, base + 112);
    push_u64(&mut bytes, 0xdf00_0000);
    push_u64(&mut bytes, stivale2::KERNEL_FILE_TAG_ID);
    push_u64(&mut bytes, base + 136);
    push_u64(&mut bytes, 0x30_0000);
    push_u64(&mut bytes, stivale2::KERNEL_FILE_V2_TAG_ID);
    push_u64(&mut bytes, base + 168);
    push_u64(&mut bytes, 0x30_0000);
    push_u64(&mut bytes, 0x8_0000); // kernel_size
    push_u64(&mut bytes, stivale2::KERNEL_SLIDE_TAG_ID);
    push_u64(&mut bytes, base + 192);
    push_u64(&mut bytes, 0x1_0000);
    push_u64(&mut bytes, stivale2::PXE_INFO_TAG_ID);
    push_u64(&mut bytes, base + 216);
    push_u32(&mut bytes, 0x0a00_0001); // server_ip
    push_u32(&mut bytes, 0);
    push_u64(&mut bytes, stivale2::UART_TAG_ID);
    push_u64(&mut bytes, base + 240);
    push_u64(&mut bytes, 0x9000_0000);
    push_u64(&mut bytes, stivale2::DEVICE_TREE_TAG_ID);
    push_u64(&mut bytes, base + 272);
    push_u64(&mut bytes, 0x4000_0000);
    push_u64(&mut bytes, 0x1_0000); // size
    push_u64(&mut bytes, stivale2::VMAP_TAG_ID);
    push_u64(&mut bytes, 0);
    push_u64(&mut bytes, 0xffff_8000_0000_0000);
    let region = BootRegion::new(base, bytes);
    let mut info = StivaleStruct::new();
    info.add_tag(base);

    assert_eq!(info.command_line(&region).unwrap().unwrap().command_line, 0x6000);
    let smbios = info.smbios(&region).unwrap().unwrap();
    assert_eq!(smbios.flags, 0);
    assert_eq!(smbios.smbios_entry_32, 0xe_0000);
    assert_eq!(smbios.smbios_entry_64, 0xf_0000);
    assert_eq!(info.firmware(&region).unwrap().unwrap().flags, 1);
    assert_eq!(
        info.efi_system_table(&region).unwrap().unwrap().system_table,
        0xdf00_0000
    );
    assert_eq!(info.kernel_file(&region).unwrap().unwrap().kernel_file, 0x30_0000);
    let kf2 = info.kernel_file_v2(&region).unwrap().unwrap();
    assert_eq!(kf2.kernel_file, 0x30_0000);
    assert_eq!(kf2.kernel_size, 0x8_0000);
    assert_eq!(info.kernel_slide(&region).unwrap().unwrap().kernel_slide, 0x1_0000);
    assert_eq!(info.pxe_info(&region).unwrap().unwrap().server_ip, 0x0a00_0001);
    assert_eq!(info.uart(&region).unwrap().unwrap().addr, 0x9000_0000);
    let dt = info.dev_tree(&region).unwrap().unwrap();
    assert_eq!(dt.addr, 0x4000_0000);
    assert_eq!(dt.size, 0x1_0000);
    assert_eq!(info.vmap(&region).unwrap().unwrap().addr, 0xffff_8000_0000_0000);
}
