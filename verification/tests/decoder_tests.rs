use stivale2::BootRegion;
use stivale2::MEMORY_MAP_TAG_ID;
use stivale2::MODULES_TAG_ID;
use stivale2::PMRS_TAG_ID;
use stivale2::EDID_TAG_ID;
use stivale2::SMP_TAG_ID;
use stivale2::StivaleError;
use stivale2::StivaleStruct;
use stivale2::StivaleTagShape;
use stivale2::decode_counted;
use stivale2::tag_shape;

fn push_u64(v: &mut Vec<u8>, x: u64) {
    v.extend_from_slice(&x.to_le_bytes());
}

fn push_u32(v: &mut Vec<u8>, x: u32) {
    v.extend_from_slice(&x.to_le_bytes());
}

#[test]
fn decode_count_zero_needs_nothing_past_count_field() {
    let base = 0x1000;
    let mut bytes = Vec::new();
    push_u64(&mut bytes, MEMORY_MAP_TAG_ID);
    push_u64(&mut bytes, 0);
    push_u64(&mut bytes, 0); // count = 0, and the region ends right here
    let region = BootRegion::new(base, bytes);
    let view = decode_counted(&region, base, 16, 24).unwrap();
    assert_eq!(view.count, 0);
    assert_eq!(view.record_base, base + 24);
    assert_eq!(view.stride, 24);
    assert_eq!(view.tag_base, base);
}

#[test]
fn decode_count_k_records_end_exactly_at_region_end() {
    let base = 0x1000;
    let k = 3u64;
    let stride = 24u64;
    let mut bytes = Vec::new();
    push_u64(&mut bytes, MEMORY_MAP_TAG_ID);
    push_u64(&mut bytes, 0);
    push_u64(&mut bytes, k);
    for _ in 0..(k * stride) {
        bytes.push(0xaa);
    }
    // the region ends exactly at record_base + k * stride
    let region = BootRegion::new(base, bytes.clone(), );
    let view = decode_counted(&region, base, 16, stride).unwrap();
    assert_eq!(view.count, k);
    // the third record starts at record_base + 2 strides
    assert_eq!(view.record_base + (k - 1) * stride, base + 24 + 48);

    // one byte short of the declared array: malformed
    bytes.pop();
    let short = BootRegion::new(base, bytes);
    assert_eq!(
        decode_counted(&short, base, 16, stride),
        Err(StivaleError::MalformedBootData)
    );
}

#[test]
fn decode_truncated_count_field_is_malformed() {
    let base = 0x1000;
    let mut bytes = Vec::new();
    push_u64(&mut bytes, MEMORY_MAP_TAG_ID);
    push_u64(&mut bytes, 0);
    bytes.extend_from_slice(&[1, 0, 0]); // count field cut off
    let region = BootRegion::new(base, bytes);
    assert_eq!(
        decode_counted(&region, base, 16, 24),
        Err(StivaleError::MalformedBootData)
    );
}

#[test]
fn decode_huge_count_is_malformed() {
    let base = 0x1000;
    let mut bytes = Vec::new();
    push_u64(&mut bytes, MEMORY_MAP_TAG_ID);
    push_u64(&mut bytes, 0);
    push_u64(&mut bytes, u64::MAX); // count * stride overflows
    let region = BootRegion::new(base, bytes);
    assert_eq!(
        decode_counted(&region, base, 16, 24),
        Err(StivaleError::MalformedBootData)
    );
}

#[test]
fn decode_address_below_region_is_malformed() {
    let base = 0x1000;
    let mut bytes = Vec::new();
    push_u64(&mut bytes, MEMORY_MAP_TAG_ID);
    push_u64(&mut bytes, 0);
    push_u64(&mut bytes, 0);
    let region = BootRegion::new(base, bytes);
    assert_eq!(
        decode_counted(&region, base - 8, 16, 24),
        Err(StivaleError::MalformedBootData)
    );
}

#[test]
fn memory_map_three_records_verbatim() {
    let base = 0x8000;
    let records = [
        (0x0000_0000u64, 0x0009_fc00u64, 1u32, 0u32),
        (0x0009_fc00u64, 0x0000_0400u64, 2u32, 0u32),
        (0x0010_0000u64, 0x7fee_0000u64, 1u32, 7u32),
    ];
    let mut bytes = Vec::new();
    push_u64(&mut bytes, MEMORY_MAP_TAG_ID);
    push_u64(&mut bytes, 0);
    push_u64(&mut bytes, records.len() as u64);
    for (b, l, t, u) in records {
        push_u64(&mut bytes, b);
        push_u64(&mut bytes, l);
        push_u32(&mut bytes, t);
        push_u32(&mut bytes, u);
    }
    let region = BootRegion::new(base, bytes);
    let mut info = StivaleStruct::new();
    info.add_tag(base);
    let tag = info.memory_map(&region).unwrap().unwrap();
    assert_eq!(tag.entries.len(), 3);
    for (i, (b, l, t, u)) in records.iter().enumerate() {
        assert_eq!(tag.entries[i].base, *b);
        assert_eq!(tag.entries[i].length, *l);
        assert_eq!(tag.entries[i].entry_type, *t);
        assert_eq!(tag.entries[i].unused, *u);
    }
}

#[test]
fn memory_map_truncated_records_is_malformed() {
    let base = 0x8000;
    let mut bytes = Vec::new();
    push_u64(&mut bytes, MEMORY_MAP_TAG_ID);
    push_u64(&mut bytes, 0);
    push_u64(&mut bytes, 2); // two records declared, none stored
    let region = BootRegion::new(base, bytes);
    let mut info = StivaleStruct::new();
    info.add_tag(base);
    assert_eq!(
        info.memory_map(&region),
        Err(StivaleError::MalformedBootData)
    );
}

#[test]
fn edid_info_bytes_verbatim() {
    let base = 0x9000;
    let edid = [0x00u8, 0xff, 0xff, 0xff, 0x5a];
    let mut bytes = Vec::new();
    push_u64(&mut bytes, EDID_TAG_ID);
    push_u64(&mut bytes, 0);
    push_u64(&mut bytes, edid.len() as u64);
    bytes.extend_from_slice(&edid);
    let region = BootRegion::new(base, bytes);
    let mut info = StivaleStruct::new();
    info.add_tag(base);
    let tag = info.edid_info(&region).unwrap().unwrap();
    assert_eq!(tag.info, edid.to_vec());
}

#[test]
fn modules_record_with_padded_name() {
    let base = 0xa000;
    let mut name = [0u8; 128];
    name[..9].copy_from_slice(b"initramfs");
    let mut bytes = Vec::new();
    push_u64(&mut bytes, MODULES_TAG_ID);
    push_u64(&mut bytes, 0);
    push_u64(&mut bytes, 1);
    push_u64(&mut bytes, 0x10_0000);
    push_u64(&mut bytes, 0x20_0000);
    bytes.extend_from_slice(&name);
    let region = BootRegion::new(base, bytes);
    let mut info = StivaleStruct::new();
    info.add_tag(base);
    let tag = info.modules(&region).unwrap().unwrap();
    assert_eq!(tag.modules.len(), 1);
    assert_eq!(tag.modules[0].begin, 0x10_0000);
    assert_eq!(tag.modules[0].end, 0x20_0000);
    assert_eq!(tag.modules[0].name, name.to_vec());
}

#[test]
fn pmrs_records_verbatim() {
    let base = 0xb000;
    let mut bytes = Vec::new();
    push_u64(&mut bytes, PMRS_TAG_ID);
    push_u64(&mut bytes, 0);
    push_u64(&mut bytes, 2);
    push_u64(&mut bytes, 0x1000);
    push_u64(&mut bytes, 0x2000);
    push_u64(&mut bytes, 0b101);
    push_u64(&mut bytes, 0x8000);
    push_u64(&mut bytes, 0x1000);
    push_u64(&mut bytes, 0b110);
    let region = BootRegion::new(base, bytes);
    let mut info = StivaleStruct::new();
    info.add_tag(base);
    let tag = info.pmrs(&region).unwrap().unwrap();
    assert_eq!(tag.pmrs.len(), 2);
    assert_eq!(tag.pmrs[0].base, 0x1000);
    assert_eq!(tag.pmrs[0].length, 0x2000);
    assert_eq!(tag.pmrs[0].permissions, 0b101);
    assert_eq!(tag.pmrs[1].base, 0x8000);
    assert_eq!(tag.pmrs[1].length, 0x1000);
    assert_eq!(tag.pmrs[1].permissions, 0b110);
}

fn smp_region(base: u64, stacks: &[u64]) -> BootRegion {
    let mut bytes = Vec::new();
    push_u64(&mut bytes, SMP_TAG_ID);
    push_u64(&mut bytes, 0);
    push_u64(&mut bytes, 1); // flags
    push_u32(&mut bytes, 0); // bsp_lapic_id
    push_u32(&mut bytes, 0); // unused
    push_u64(&mut bytes, stacks.len() as u64); // cpu_count at offset 32
    for (i, s) in stacks.iter().enumerate() {
        push_u32(&mut bytes, i as u32); // processor_id
        push_u32(&mut bytes, 10 + i as u32); // lapic_id
        push_u64(&mut bytes, *s); // target_stack
        push_u64(&mut bytes, 0xdead_0000 + i as u64); // extra_argument
    }
    BootRegion::new(base, bytes)
}

#[test]
fn smp_read_records() {
    let base = 0xc000;
    let region = smp_region(base, &[0, 0x100, 0x200, 0x300]);
    let mut info = StivaleStruct::new();
    info.add_tag(base);
    let tag = info.smp(&region).unwrap().unwrap();
    assert_eq!(tag.flags, 1);
    assert_eq!(tag.bsp_lapic_id, 0);
    assert_eq!(tag.smp_info.len(), 4);
    assert_eq!(tag.smp_info[2].processor_id, 2);
    assert_eq!(tag.smp_info[2].lapic_id, 12);
    assert_eq!(tag.smp_info[2].target_stack, 0x200);
    assert_eq!(tag.smp_info[2].extra_argument, 0xdead_0002);
}

#[test]
fn smp_write_target_stack_updates_one_record() {
    let base = 0xc000;
    let mut region = smp_region(base, &[0x10, 0x20, 0x30, 0x40]);
    let mut info = StivaleStruct::new();
    info.add_tag(base);
    let before = info.smp(&region).unwrap().unwrap();
    let handle = info.smp_mut(&region).unwrap().unwrap();
    assert_eq!(handle.cpu_count, 4);
    handle.set_target_stack(&mut region, 1, 0xffff_8000_0000_7000);
    let after = info.smp(&region).unwrap().unwrap();
    assert_eq!(after.smp_info[1].target_stack, 0xffff_8000_0000_7000);
    // every other field of record 1 and the records 0, 2, 3 are unchanged
    assert_eq!(after.smp_info[1].processor_id, before.smp_info[1].processor_id);
    assert_eq!(after.smp_info[1].lapic_id, before.smp_info[1].lapic_id);
    assert_eq!(after.smp_info[1].extra_argument, before.smp_info[1].extra_argument);
    assert_eq!(after.smp_info[0], before.smp_info[0]);
    assert_eq!(after.smp_info[2], before.smp_info[2]);
    assert_eq!(after.smp_info[3], before.smp_info[3]);
    assert_eq!(after.flags, before.flags);
    assert_eq!(after.bsp_lapic_id, before.bsp_lapic_id);
}

#[test]
fn catalog_declares_shapes() {
    assert_eq!(
        tag_shape(MEMORY_MAP_TAG_ID),
        Some(StivaleTagShape::Counted { count_offset: 16, stride: 24 })
    );
    assert_eq!(
        tag_shape(SMP_TAG_ID),
        Some(StivaleTagShape::Counted { count_offset: 32, stride: 24 })
    );
    assert_eq!(
        tag_shape(stivale2::RSDP_TAG_ID),
        Some(StivaleTagShape::Fixed { size: 24 })
    );
    assert_eq!(
        tag_shape(stivale2::FRAMEBUFFER_TAG_ID),
        Some(StivaleTagShape::Fixed { size: 40 })
    );
    assert_eq!(tag_shape(0x1234), None);
}
