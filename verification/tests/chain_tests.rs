use stivale2::BootRegion;
use stivale2::StivaleError;
use stivale2::StivaleStruct;
use stivale2::read_tag_header;
use stivale2::tag_addresses;

fn push_u64(v: &mut Vec<u8>, x: u64) {
    v.extend_from_slice(&x.to_le_bytes());
}

/// A region at `base` holding a chain of headers with the given
/// identifiers, each tag 16 bytes, laid out back to back and linked in
/// order. Returns the region and the tag addresses.
fn chain_region(base: u64, ids: &[u64]) -> (BootRegion, Vec<u64>) {
    let mut bytes = Vec::new();
    let mut addrs = Vec::new();
    for (i, id) in ids.iter().enumerate() {
        let addr = base + 16 * i as u64;
        addrs.push(addr);
        push_u64(&mut bytes, *id);
        let next = if i + 1 < ids.len() { addr + 16 } else { 0 };
        push_u64(&mut bytes, next);
    }
    (BootRegion::new(base, bytes), addrs)
}

#[test]
fn find_present_identifiers() {
    let (region, addrs) = chain_region(0x1000, &[10, 20, 30]);
    let mut info = StivaleStruct::new();
    info.add_tag(addrs[0]);
    assert_eq!(info.get_tag(&region, 10), Ok(Some(addrs[0])));
    assert_eq!(info.get_tag(&region, 20), Ok(Some(addrs[1])));
    assert_eq!(info.get_tag(&region, 30), Ok(Some(addrs[2])));
}

#[test]
fn find_absent_identifier() {
    let (region, addrs) = chain_region(0x1000, &[10, 20, 30]);
    let mut info = StivaleStruct::new();
    info.add_tag(addrs[0]);
    assert_eq!(info.get_tag(&region, 40), Ok(None));
}

#[test]
fn find_on_empty_chain() {
    let (region, _) = chain_region(0x1000, &[]);
    let info = StivaleStruct::new();
    assert_eq!(info.get_tag(&region, 10), Ok(None));
}

#[test]
fn find_duplicate_identifier_returns_first() {
    let (region, addrs) = chain_region(0x2000, &[7, 9, 7]);
    let mut info = StivaleStruct::new();
    info.add_tag(addrs[0]);
    assert_eq!(info.get_tag(&region, 7), Ok(Some(addrs[0])));
    let mut info2 = StivaleStruct::new();
    info2.add_tag(addrs[1]);
    assert_eq!(info2.get_tag(&region, 7), Ok(Some(addrs[2])));
}

#[test]
fn tag_addresses_lists_chain_in_order() {
    let (region, addrs) = chain_region(0x3000, &[1, 2, 3, 4]);
    assert_eq!(tag_addresses(&region, addrs[0]), Ok(addrs));
}

#[test]
fn tag_addresses_of_empty_chain() {
    let (region, _) = chain_region(0x3000, &[1]);
    assert_eq!(tag_addresses(&region, 0), Ok(Vec::new()));
}

#[test]
fn dangling_next_is_malformed() {
    let base = 0x1000;
    let mut bytes = Vec::new();
    push_u64(&mut bytes, 5);
    push_u64(&mut bytes, 0x9999_9999); // outside the region
    let region = BootRegion::new(base, bytes);
    let mut info = StivaleStruct::new();
    info.add_tag(base);
    assert_eq!(info.get_tag(&region, 77), Err(StivaleError::MalformedBootData));
    assert_eq!(tag_addresses(&region, base), Err(StivaleError::MalformedBootData));
    // but the tag before the dangling link is still found
    assert_eq!(info.get_tag(&region, 5), Ok(Some(base)));
}

#[test]
fn cyclic_chain_is_malformed() {
    let base = 0x1000;
    let mut bytes = Vec::new();
    push_u64(&mut bytes, 5);
    push_u64(&mut bytes, base + 16);
    push_u64(&mut bytes, 6);
    push_u64(&mut bytes, base); // back to the first tag
    let region = BootRegion::new(base, bytes);
    let mut info = StivaleStruct::new();
    info.add_tag(base);
    assert_eq!(info.get_tag(&region, 77), Err(StivaleError::MalformedBootData));
    assert_eq!(tag_addresses(&region, base), Err(StivaleError::MalformedBootData));
}

#[test]
fn first_tag_outside_region_is_malformed() {
    let region = BootRegion::new(0x1000, Vec::new());
    let mut info = StivaleStruct::new();
    info.add_tag(0x1000);
    assert_eq!(info.get_tag(&region, 1), Err(StivaleError::MalformedBootData));
}

#[test]
fn read_tag_header_fields() {
    let base = 0x4000;
    let mut bytes = Vec::new();
    push_u64(&mut bytes, 0xabcd_ef01_2345_6789);
    push_u64(&mut bytes, 0x4141);
    let region = BootRegion::new(base, bytes);
    let header = read_tag_header(&region, base).unwrap();
    assert_eq!(header.identifier, 0xabcd_ef01_2345_6789);
    assert_eq!(header.next, 0x4141);
    assert_eq!(
        read_tag_header(&region, base + 1),
        Err(StivaleError::MalformedBootData)
    );
}
