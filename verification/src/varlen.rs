//! Count-prefixed variable-length tags and their typed accessors.
//!
//! A variable-shape tag stores a 64-bit record count at a kind-specific
//! offset (for most kinds right after the shared header, for the CPU-list
//! tag at offset 32 because two fixed fields precede it), followed
//! immediately by that many records of a fixed stride. `decode_counted`
//! is the one generic decoding step: it reads the count and checks that
//! the whole record array lies inside the boot region, so no later record
//! read can touch memory past it. With a count of zero nothing beyond the
//! count field itself is required.
//!
//! The CPU-list tag is the one kind the kernel may write through: the
//! mutable accessor hands out a handle whose only operation replaces the
//! target-stack field of one record and provably leaves every other byte
//! of the region unchanged.

use vstd::prelude::*;

use crate::boot::StivaleStruct;
use crate::bytes::lemma_u64_at_agree;
use crate::bytes::u32_at;
use crate::bytes::u64_at;
use crate::chain::FindResult;
use crate::chain::find_spec;
use crate::chain::find_tag;
use crate::region::BootRegion;
use crate::region::range_ok;
use crate::tags::EDID_TAG_ID;
use crate::tags::MEMORY_MAP_TAG_ID;
use crate::tags::MODULES_TAG_ID;
use crate::tags::PMRS_TAG_ID;
use crate::tags::SMP_TAG_ID;
use crate::tags::StivaleError;

verus! {

/// The record count a tag stores `count_offset` bytes into itself.
pub open spec fn counted_count(b: Seq<u8>, base: u64, addr: u64, count_offset: u64) -> int {
    u64_at(b, addr - base + count_offset)
}

/// The count field and the whole record array of the tag at `addr` lie
/// inside the region.
pub open spec fn counted_ok(b: Seq<u8>, base: u64, addr: u64, count_offset: u64, stride: u64) -> bool {
    &&& range_ok(b, base, addr, count_offset + 8)
    &&& range_ok(
        b,
        base,
        addr,
        count_offset + 8 + counted_count(b, base, addr, count_offset) * stride,
    )
}

/// The decoded view of a count-prefixed tag: no copy of the records, just
/// where they are and how many.
#[derive(Clone, Copy, Debug, PartialEq, Eq, Structural)]
pub struct StivaleCountedView {
    /// Address of the tag header.
    pub tag_base: u64,
    /// Number of records.
    pub count: u64,
    /// Address of the first record; record `i` starts `i` strides later.
    pub record_base: u64,
    /// Size of one record in bytes.
    pub stride: u64,
}

/// Decodes the count-prefixed tag at `addr`: reads the 64-bit count at
/// `count_offset` and checks that `count` records of `stride` bytes,
/// starting right after the count field, lie inside the region. A count
/// of zero asks for nothing past the count field.
pub fn decode_counted(region: &BootRegion, addr: u64, count_offset: u64, stride: u64) -> (r: Result<
    StivaleCountedView,
    StivaleError,
>)
    requires
        region.wf(),
    ensures
        match r {
            Ok(v) => {
                &&& counted_ok(region.mem(), region.spec_base(), addr, count_offset, stride)
                &&& v.tag_base == addr
                &&& v.count == counted_count(region.mem(), region.spec_base(), addr, count_offset)
                &&& v.record_base == addr + count_offset + 8
                &&& v.stride == stride
            },
            Err(e) => {
                &&& e == StivaleError::MalformedBootData
                &&& !counted_ok(region.mem(), region.spec_base(), addr, count_offset, stride)
            },
        },
{
    let len = region.len();
    let cend = match count_offset.checked_add(8) {
        Some(x) => x,
        None => {
            return Err(StivaleError::MalformedBootData);
        },
    };
    match region.try_offset(addr, cend) {
        None => Err(StivaleError::MalformedBootData),
        Some(off) => {
            let count = region.read_u64_at(addr + count_offset);
            let avail = len as u64 - (off as u64 + cend);
            match count.checked_mul(stride) {
                None => Err(StivaleError::MalformedBootData),
                Some(total) => {
                    if total > avail {
                        Err(StivaleError::MalformedBootData)
                    } else {
                        Ok(
                            StivaleCountedView {
                                tag_base: addr,
                                count,
                                record_base: addr + cend,
                                stride,
                            },
                        )
                    }
                },
            }
        },
    }
}

/// A memory map record: one physical range and its kind.
#[derive(Clone, Copy, Debug, PartialEq, Eq, Structural)]
pub struct StivaleMemoryMapEntry {
    pub base: u64,
    pub length: u64,
    pub entry_type: u32,
    pub unused: u32,
}

/// Physical memory map tag.
#[derive(Clone, Debug, PartialEq, Eq)]
pub struct StivaleMemoryMapTag {
    pub entries: Vec<StivaleMemoryMapEntry>,
}

/// Memory map record `i` of the tag at `addr`.
pub open spec fn memory_map_entry_at(b: Seq<u8>, base: u64, addr: u64, i: int) -> StivaleMemoryMapEntry {
    StivaleMemoryMapEntry {
        base: u64_at(b, addr - base + 24 + 24 * i) as u64,
        length: u64_at(b, addr - base + 24 + 24 * i + 8) as u64,
        entry_type: u32_at(b, addr - base + 24 + 24 * i + 16) as u32,
        unused: u32_at(b, addr - base + 24 + 24 * i + 20) as u32,
    }
}

/// A loaded module record: the range it occupies and its 128-byte
/// NUL-padded name.
#[derive(Clone, Debug, PartialEq, Eq)]
pub struct StivaleModule {
    pub begin: u64,
    pub end: u64,
    pub name: Vec<u8>,
}

/// Loaded modules tag.
#[derive(Clone, Debug, PartialEq, Eq)]
pub struct StivaleModuleTag {
    pub modules: Vec<StivaleModule>,
}

/// `m` is module record `i` of the tag at `addr`.
pub open spec fn module_matches(b: Seq<u8>, base: u64, addr: u64, i: int, m: StivaleModule) -> bool {
    &&& m.begin == u64_at(b, addr - base + 24 + 144 * i)
    &&& m.end == u64_at(b, addr - base + 24 + 144 * i + 8)
    &&& m.name@ == b.subrange(addr - base + 24 + 144 * i + 16, addr - base + 24 + 144 * i + 144)
}

/// EDID display information tag; the records are the raw EDID bytes.
#[derive(Clone, Debug, PartialEq, Eq)]
pub struct StivaleEdidInfoTag {
    pub info: Vec<u8>,
}

/// One CPU of the CPU-list tag.
#[derive(Clone, Copy, Debug, PartialEq, Eq, Structural)]
pub struct StivaleSmpInfo {
    pub processor_id: u32,
    pub lapic_id: u32,
    pub target_stack: u64,
    pub extra_argument: u64,
}

/// CPU-list tag.
#[derive(Clone, Debug, PartialEq, Eq)]
pub struct StivaleSmpTag {
    pub flags: u64,
    pub bsp_lapic_id: u32,
    pub unused: u32,
    pub smp_info: Vec<StivaleSmpInfo>,
}

/// CPU record `i` of the CPU-list tag at `addr`.
pub open spec fn smp_info_at(b: Seq<u8>, base: u64, addr: u64, i: int) -> StivaleSmpInfo {
    StivaleSmpInfo {
        processor_id: u32_at(b, addr - base + 40 + 24 * i) as u32,
        lapic_id: u32_at(b, addr - base + 40 + 24 * i + 4) as u32,
        target_stack: u64_at(b, addr - base + 40 + 24 * i + 8) as u64,
        extra_argument: u64_at(b, addr - base + 40 + 24 * i + 16) as u64,
    }
}

/// A protected memory range record.
#[derive(Clone, Copy, Debug, PartialEq, Eq, Structural)]
pub struct StivalePmr {
    pub base: u64,
    pub length: u64,
    pub permissions: u64,
}

/// Protected memory ranges tag.
#[derive(Clone, Debug, PartialEq, Eq)]
pub struct StivalePmrsTag {
    pub pmrs: Vec<StivalePmr>,
}

/// Protected memory range record `i` of the tag at `addr`.
pub open spec fn pmr_at(b: Seq<u8>, base: u64, addr: u64, i: int) -> StivalePmr {
    StivalePmr {
        base: u64_at(b, addr - base + 24 + 24 * i) as u64,
        length: u64_at(b, addr - base + 24 + 24 * i + 8) as u64,
        permissions: u64_at(b, addr - base + 24 + 24 * i + 16) as u64,
    }
}

impl StivaleStruct {
    /// Physical memory map tag: its records, decoded in order. Absent
    /// means the bootloader supplied none.
    pub fn memory_map(&self, region: &BootRegion) -> (r: Result<
        Option<StivaleMemoryMapTag>,
        StivaleError,
    >)
        requires
            region.wf(),
        ensures
            match find_spec(region.mem(), region.spec_base(), self.first_tag(), MEMORY_MAP_TAG_ID) {
                FindResult::Found(a) => (match r {
                    Ok(Some(t)) => {
                        &&& counted_ok(region.mem(), region.spec_base(), a, 16, 24)
                        &&& t.entries@.len() == counted_count(region.mem(), region.spec_base(), a, 16)
                        &&& forall|i: int|
                            0 <= i < t.entries@.len() ==> t.entries@[i] == memory_map_entry_at(
                                region.mem(),
                                region.spec_base(),
                                a,
                                i,
                            )
                    },
                    Ok(None) => false,
                    Err(e) => e == StivaleError::MalformedBootData && !counted_ok(
                        region.mem(),
                        region.spec_base(),
                        a,
                        16,
                        24,
                    ),
                }),
                FindResult::Absent => r == Ok::<Option<StivaleMemoryMapTag>, StivaleError>(None),
                FindResult::Malformed => r == Err::<Option<StivaleMemoryMapTag>, StivaleError>(
                    StivaleError::MalformedBootData,
                ),
            },
    {
        let ghost b = region.mem();
        let ghost base = region.spec_base();
        match find_tag(region, self.first_tag_address(), MEMORY_MAP_TAG_ID) {
            Err(e) => Err(e),
            Ok(None) => Ok(None),
            Ok(Some(a)) => match decode_counted(region, a, 16, 24) {
                Err(e) => Err(e),
                Ok(view) => {
                    let mut entries: Vec<StivaleMemoryMapEntry> = Vec::new();
                    let mut i: u64 = 0;
                    while i < view.count
                        invariant
                            region.wf(),
                            b == region.mem(),
                            base == region.spec_base(),
                            counted_ok(b, base, a, 16, 24),
                            view.count == counted_count(b, base, a, 16),
                            view.record_base == a + 24,
                            i <= view.count,
                            entries@.len() == i,
                            forall|j: int|
                                0 <= j < i ==> entries@[j] == memory_map_entry_at(b, base, a, j),
                        decreases view.count - i,
                    {
                        let rec = view.record_base + 24 * i;
                        entries.push(
                            StivaleMemoryMapEntry {
                                base: region.read_u64_at(rec),
                                length: region.read_u64_at(rec + 8),
                                entry_type: region.read_u32_at(rec + 16),
                                unused: region.read_u32_at(rec + 20),
                            },
                        );
                        i = i + 1;
                    }
                    Ok(Some(StivaleMemoryMapTag { entries }))
                },
            },
        }
    }

    /// Protected memory ranges tag: its records, decoded in order.
    /// Absent means the bootloader supplied none.
    pub fn pmrs(&self, region: &BootRegion) -> (r: Result<Option<StivalePmrsTag>, StivaleError>)
        requires
            region.wf(),
        ensures
            match find_spec(region.mem(), region.spec_base(), self.first_tag(), PMRS_TAG_ID) {
                FindResult::Found(a) => (match r {
                    Ok(Some(t)) => {
                        &&& counted_ok(region.mem(), region.spec_base(), a, 16, 24)
                        &&& t.pmrs@.len() == counted_count(region.mem(), region.spec_base(), a, 16)
                        &&& forall|i: int|
                            0 <= i < t.pmrs@.len() ==> t.pmrs@[i] == pmr_at(
                                region.mem(),
                                region.spec_base(),
                                a,
                                i,
                            )
                    },
                    Ok(None) => false,
                    Err(e) => e == StivaleError::MalformedBootData && !counted_ok(
                        region.mem(),
                        region.spec_base(),
                        a,
                        16,
                        24,
                    ),
                }),
                FindResult::Absent => r == Ok::<Option<StivalePmrsTag>, StivaleError>(None),
                FindResult::Malformed => r == Err::<Option<StivalePmrsTag>, StivaleError>(
                    StivaleError::MalformedBootData,
                ),
            },
    {
        let ghost b = region.mem();
        let ghost base = region.spec_base();
        match find_tag(region, self.first_tag_address(), PMRS_TAG_ID) {
            Err(e) => Err(e),
            Ok(None) => Ok(None),
            Ok(Some(a)) => match decode_counted(region, a, 16, 24) {
                Err(e) => Err(e),
                Ok(view) => {
                    let mut pmrs: Vec<StivalePmr> = Vec::new();
                    let mut i: u64 = 0;
                    while i < view.count
                        invariant
                            region.wf(),
                            b == region.mem(),
                            base == region.spec_base(),
                            counted_ok(b, base, a, 16, 24),
                            view.count == counted_count(b, base, a, 16),
                            view.record_base == a + 24,
                            i <= view.count,
                            pmrs@.len() == i,
                            forall|j: int| 0 <= j < i ==> pmrs@[j] == pmr_at(b, base, a, j),
                        decreases view.count - i,
                    {
                        let rec = view.record_base + 24 * i;
                        pmrs.push(
                            StivalePmr {
                                base: region.read_u64_at(rec),
                                length: region.read_u64_at(rec + 8),
                                permissions: region.read_u64_at(rec + 16),
                            },
                        );
                        i = i + 1;
                    }
                    Ok(Some(StivalePmrsTag { pmrs }))
                },
            },
        }
    }

    /// EDID display information tag: the raw EDID bytes. Absent means
    /// the bootloader supplied none.
    pub fn edid_info(&self, region: &BootRegion) -> (r: Result<
        Option<StivaleEdidInfoTag>,
        StivaleError,
    >)
        requires
            region.wf(),
        ensures
            match find_spec(region.mem(), region.spec_base(), self.first_tag(), EDID_TAG_ID) {
                FindResult::Found(a) => (match r {
                    Ok(Some(t)) => {
                        &&& counted_ok(region.mem(), region.spec_base(), a, 16, 1)
                        &&& t.info@ == region.mem().subrange(
                            a - region.spec_base() + 24,
                            a - region.spec_base() + 24 + counted_count(
                                region.mem(),
                                region.spec_base(),
                                a,
                                16,
                            ),
                        )
                    },
                    Ok(None) => false,
                    Err(e) => e == StivaleError::MalformedBootData && !counted_ok(
                        region.mem(),
                        region.spec_base(),
                        a,
                        16,
                        1,
                    ),
                }),
                FindResult::Absent => r == Ok::<Option<StivaleEdidInfoTag>, StivaleError>(None),
                FindResult::Malformed => r == Err::<Option<StivaleEdidInfoTag>, StivaleError>(
                    StivaleError::MalformedBootData,
                ),
            },
    {
        let ghost b = region.mem();
        let ghost base = region.spec_base();
        match find_tag(region, self.first_tag_address(), EDID_TAG_ID) {
            Err(e) => Err(e),
            Ok(None) => Ok(None),
            Ok(Some(a)) => match decode_counted(region, a, 16, 1) {
                Err(e) => Err(e),
                Ok(view) => {
                    let mut info: Vec<u8> = Vec::new();
                    let mut i: u64 = 0;
                    while i < view.count
                        invariant
                            region.wf(),
                            b == region.mem(),
                            base == region.spec_base(),
                            counted_ok(b, base, a, 16, 1),
                            view.count == counted_count(b, base, a, 16),
                            view.record_base == a + 24,
                            i <= view.count,
                            info@ =~= b.subrange(a - base + 24, a - base + 24 + i),
                        decreases view.count - i,
                    {
                        info.push(region.read_u8_at(view.record_base + i));
                        i = i + 1;
                    }
                    proof {
                        assert(info@ =~= b.subrange(
                            a - base + 24,
                            a - base + 24 + counted_count(b, base, a, 16),
                        ));
                    }
                    Ok(Some(StivaleEdidInfoTag { info }))
                },
            },
        }
    }

    /// Loaded modules tag: its records, decoded in order. Absent means
    /// the bootloader supplied none.
    pub fn modules(&self, region: &BootRegion) -> (r: Result<Option<StivaleModuleTag>, StivaleError>)
        requires
            region.wf(),
        ensures
            match find_spec(region.mem(), region.spec_base(), self.first_tag(), MODULES_TAG_ID) {
                FindResult::Found(a) => (match r {
                    Ok(Some(t)) => {
                        &&& counted_ok(region.mem(), region.spec_base(), a, 16, 144)
                        &&& t.modules@.len() == counted_count(
                            region.mem(),
                            region.spec_base(),
                            a,
                            16,
                        )
                        &&& forall|i: int|
                            0 <= i < t.modules@.len() ==> module_matches(
                                region.mem(),
                                region.spec_base(),
                                a,
                                i,
                                t.modules@[i],
                            )
                    },
                    Ok(None) => false,
                    Err(e) => e == StivaleError::MalformedBootData && !counted_ok(
                        region.mem(),
                        region.spec_base(),
                        a,
                        16,
                        144,
                    ),
                }),
                FindResult::Absent => r == Ok::<Option<StivaleModuleTag>, StivaleError>(None),
                FindResult::Malformed => r == Err::<Option<StivaleModuleTag>, StivaleError>(
                    StivaleError::MalformedBootData,
                ),
            },
    {
        let ghost b = region.mem();
        let ghost base = region.spec_base();
        match find_tag(region, self.first_tag_address(), MODULES_TAG_ID) {
            Err(e) => Err(e),
            Ok(None) => Ok(None),
            Ok(Some(a)) => match decode_counted(region, a, 16, 144) {
                Err(e) => Err(e),
                Ok(view) => {
                    let mut modules: Vec<StivaleModule> = Vec::new();
                    let mut i: u64 = 0;
                    while i < view.count
                        invariant
                            region.wf(),
                            b == region.mem(),
                            base == region.spec_base(),
                            counted_ok(b, base, a, 16, 144),
                            view.count == counted_count(b, base, a, 16),
                            view.record_base == a + 24,
                            i <= view.count,
                            modules@.len() == i,
                            forall|j: int| 0 <= j < i ==> module_matches(b, base, a, j, modules@[j]),
                        decreases view.count - i,
                    {
                        let rec = view.record_base + 144 * i;
                        let begin = region.read_u64_at(rec);
                        let end = region.read_u64_at(rec + 8);
                        let mut name: Vec<u8> = Vec::new();
                        let mut k: u64 = 0;
                        while k < 128
                            invariant
                                region.wf(),
                                b == region.mem(),
                                base == region.spec_base(),
                                counted_ok(b, base, a, 16, 144),
                                view.count == counted_count(b, base, a, 16),
                                i < view.count,
                                rec == a + 24 + 144 * i,
                                k <= 128,
                                name@ =~= b.subrange(rec - base + 16, rec - base + 16 + k),
                            decreases 128 - k,
                        {
                            name.push(region.read_u8_at(rec + 16 + k));
                            k = k + 1;
                        }
                        proof {
                            assert(name@ =~= b.subrange(
                                a - base + 24 + 144 * i + 16,
                                a - base + 24 + 144 * i + 144,
                            ));
                        }
                        modules.push(StivaleModule { begin, end, name });
                        i = i + 1;
                    }
                    Ok(Some(StivaleModuleTag { modules }))
                },
            },
        }
    }

    /// CPU-list tag: the boot processor's data and one record per started
    /// CPU, decoded in order. Absent means the bootloader supplied none.
    pub fn smp(&self, region: &BootRegion) -> (r: Result<Option<StivaleSmpTag>, StivaleError>)
        requires
            region.wf(),
        ensures
            match find_spec(region.mem(), region.spec_base(), self.first_tag(), SMP_TAG_ID) {
                FindResult::Found(a) => (match r {
                    Ok(Some(t)) => {
                        &&& counted_ok(region.mem(), region.spec_base(), a, 32, 24)
                        &&& t.flags == u64_at(region.mem(), a - region.spec_base() + 16)
                        &&& t.bsp_lapic_id == u32_at(region.mem(), a - region.spec_base() + 24)
                        &&& t.unused == u32_at(region.mem(), a - region.spec_base() + 28)
                        &&& t.smp_info@.len() == counted_count(
                            region.mem(),
                            region.spec_base(),
                            a,
                            32,
                        )
                        &&& forall|i: int|
                            0 <= i < t.smp_info@.len() ==> t.smp_info@[i] == smp_info_at(
                                region.mem(),
                                region.spec_base(),
                                a,
                                i,
                            )
                    },
                    Ok(None) => false,
                    Err(e) => e == StivaleError::MalformedBootData && !counted_ok(
                        region.mem(),
                        region.spec_base(),
                        a,
                        32,
                        24,
                    ),
                }),
                FindResult::Absent => r == Ok::<Option<StivaleSmpTag>, StivaleError>(None),
                FindResult::Malformed => r == Err::<Option<StivaleSmpTag>, StivaleError>(
                    StivaleError::MalformedBootData,
                ),
            },
    {
        let ghost b = region.mem();
        let ghost base = region.spec_base();
        match find_tag(region, self.first_tag_address(), SMP_TAG_ID) {
            Err(e) => Err(e),
            Ok(None) => Ok(None),
            Ok(Some(a)) => match decode_counted(region, a, 32, 24) {
                Err(e) => Err(e),
                Ok(view) => {
                    let flags = region.read_u64_at(a + 16);
                    let bsp_lapic_id = region.read_u32_at(a + 24);
                    let unused = region.read_u32_at(a + 28);
                    let mut smp_info: Vec<StivaleSmpInfo> = Vec::new();
                    let mut i: u64 = 0;
                    while i < view.count
                        invariant
                            region.wf(),
                            b == region.mem(),
                            base == region.spec_base(),
                            counted_ok(b, base, a, 32, 24),
                            view.count == counted_count(b, base, a, 32),
                            view.record_base == a + 40,
                            i <= view.count,
                            smp_info@.len() == i,
                            forall|j: int| 0 <= j < i ==> smp_info@[j] == smp_info_at(b, base, a, j),
                        decreases view.count - i,
                    {
                        let rec = view.record_base + 24 * i;
                        smp_info.push(
                            StivaleSmpInfo {
                                processor_id: region.read_u32_at(rec),
                                lapic_id: region.read_u32_at(rec + 4),
                                target_stack: region.read_u64_at(rec + 8),
                                extra_argument: region.read_u64_at(rec + 16),
                            },
                        );
                        i = i + 1;
                    }
                    Ok(Some(StivaleSmpTag { flags, bsp_lapic_id, unused, smp_info }))
                },
            },
        }
    }

    /// Mutable access to the CPU-list tag: a handle for writing a target
    /// stack into a CPU record, the one write the boot protocol sanctions.
    /// Absent means the bootloader supplied none.
    pub fn smp_mut(&self, region: &BootRegion) -> (r: Result<Option<StivaleSmpHandle>, StivaleError>)
        requires
            region.wf(),
        ensures
            match find_spec(region.mem(), region.spec_base(), self.first_tag(), SMP_TAG_ID) {
                FindResult::Found(a) => (match r {
                    Ok(Some(h)) => h.tag_base == a && smp_handle_ok(
                        region.mem(),
                        region.spec_base(),
                        h,
                    ),
                    Ok(None) => false,
                    Err(e) => e == StivaleError::MalformedBootData && !counted_ok(
                        region.mem(),
                        region.spec_base(),
                        a,
                        32,
                        24,
                    ),
                }),
                FindResult::Absent => r == Ok::<Option<StivaleSmpHandle>, StivaleError>(None),
                FindResult::Malformed => r == Err::<Option<StivaleSmpHandle>, StivaleError>(
                    StivaleError::MalformedBootData,
                ),
            },
    {
        match find_tag(region, self.first_tag_address(), SMP_TAG_ID) {
            Err(e) => Err(e),
            Ok(None) => Ok(None),
            Ok(Some(a)) => match decode_counted(region, a, 32, 24) {
                Err(e) => Err(e),
                Ok(view) => Ok(Some(StivaleSmpHandle { tag_base: a, cpu_count: view.count })),
            },
        }
    }
}

/// A capability to write CPU records of the CPU-list tag at `tag_base`.
#[derive(Clone, Copy, Debug, PartialEq, Eq, Structural)]
pub struct StivaleSmpHandle {
    /// Address of the CPU-list tag header.
    pub tag_base: u64,
    /// Number of CPU records.
    pub cpu_count: u64,
}

/// The handle matches the region: the CPU-list tag at its address is
/// decodable and the record count is what the handle says.
pub open spec fn smp_handle_ok(b: Seq<u8>, base: u64, h: StivaleSmpHandle) -> bool {
    &&& counted_ok(b, base, h.tag_base, 32, 24)
    &&& h.cpu_count == counted_count(b, base, h.tag_base, 32)
}

impl StivaleSmpHandle {
    /// Writes `stack` into the target-stack field of CPU record `index`,
    /// leaving every other byte of the region unchanged; the handle
    /// stays valid for further writes.
    pub fn set_target_stack(&self, region: &mut BootRegion, index: u64, stack: u64)
        requires
            old(region).wf(),
            smp_handle_ok(old(region).mem(), old(region).spec_base(), *self),
            index < self.cpu_count,
        ensures
            final(region).wf(),
            final(region).spec_base() == old(region).spec_base(),
            final(region).mem().len() == old(region).mem().len(),
            smp_handle_ok(final(region).mem(), final(region).spec_base(), *self),
            u64_at(
                final(region).mem(),
                self.tag_base - old(region).spec_base() + 40 + 24 * index + 8,
            ) == stack,
            forall|k: int|
                0 <= k < old(region).mem().len() && !(self.tag_base - old(region).spec_base() + 40
                    + 24 * index + 8 <= k < self.tag_base - old(region).spec_base() + 40 + 24
                    * index + 16) ==> final(region).mem()[k] == old(region).mem()[k],
    {
        let ghost base = region.spec_base();
        let rec = self.tag_base + 40 + 24 * index;
        region.write_u64_at(rec + 8, stack);
        proof {
            lemma_u64_at_agree(
                final(region).mem(),
                old(region).mem(),
                self.tag_base - base + 32,
            );
        }
    }
}

} // verus!
