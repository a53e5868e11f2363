//! The boot information block: identification strings and the chain head.
//!
//! The block the bootloader hands over is two fixed 64-byte identification
//! buffers (brand and version, NUL-padded) followed by the address of the
//! first tag, 0 meaning an empty chain. The bootloader side fills the
//! buffers and links tags before control transfers; the kernel side reads
//! the strings back and looks tags up.

use vstd::prelude::*;

use crate::chain::FindResult;
use crate::chain::find_spec;
use crate::chain::find_tag;
use crate::region::BootRegion;
use crate::tags::StivaleError;

verus! {

/// Capacity of each identification buffer, in bytes.
pub const STRING_CAPACITY: usize = 64;

/// `s` padded with NUL bytes to the 64-byte buffer capacity.
pub open spec fn pad64(s: Seq<u8>) -> Seq<u8> {
    s + Seq::new((STRING_CAPACITY - s.len()) as nat, |i: int| 0u8)
}

/// Index of the first NUL byte of `s`, or `s.len()` if there is none.
pub open spec fn first_nul(s: Seq<u8>) -> int
    decreases s.len(),
{
    if s.len() == 0 {
        0
    } else if s[0] == 0 {
        0
    } else {
        1 + first_nul(s.drop_first())
    }
}

/// The prefix of `s` before its first NUL byte: the readable text of a
/// NUL-padded buffer.
pub open spec fn trim_nul(s: Seq<u8>) -> Seq<u8> {
    s.take(first_nul(s))
}

/// `first_nul` is the position it claims to be: every byte before it is
/// non-NUL, and it carries a NUL unless it is the whole length.
pub proof fn lemma_first_nul_is(s: Seq<u8>, n: int)
    requires
        0 <= n <= s.len(),
        forall|i: int| 0 <= i < n ==> s[i] != 0,
        n == s.len() || s[n] == 0,
    ensures
        first_nul(s) == n,
    decreases s.len(),
{
    if n == 0 {
    } else {
        assert(s[0] != 0);
        let t = s.drop_first();
        assert forall|i: int| 0 <= i < n - 1 implies t[i] != 0 by {
            assert(t[i] == s[i + 1]);
        }
        if n - 1 < t.len() {
            assert(t[n - 1] == s[n]);
        }
        lemma_first_nul_is(t, n - 1);
    }
}

/// The boot information block.
pub struct StivaleStruct {
    pub(crate) bootloader_brand: Vec<u8>,
    pub(crate) bootloader_version: Vec<u8>,
    pub(crate) tags: u64,
}

impl StivaleStruct {
    /// The 64 bytes of the brand buffer.
    pub closed spec fn brand_bytes(&self) -> Seq<u8> {
        self.bootloader_brand@
    }

    /// The 64 bytes of the version buffer.
    pub closed spec fn version_bytes(&self) -> Seq<u8> {
        self.bootloader_version@
    }

    /// Address of the first tag of the chain, 0 for an empty chain.
    pub closed spec fn first_tag(&self) -> u64 {
        self.tags
    }

    /// Both identification buffers are at their fixed capacity.
    pub open spec fn wf(&self) -> bool {
        &&& self.brand_bytes().len() == STRING_CAPACITY
        &&& self.version_bytes().len() == STRING_CAPACITY
    }

    /// A fresh block: both buffers all NUL, no tags.
    pub fn new() -> (r: StivaleStruct)
        ensures
            r.wf(),
            r.brand_bytes() == pad64(Seq::<u8>::empty()),
            r.version_bytes() == pad64(Seq::<u8>::empty()),
            r.first_tag() == 0,
    {
        let brand = zeroed_buffer();
        let version = zeroed_buffer();
        proof {
            assert(brand@ =~= pad64(Seq::<u8>::empty()));
            assert(version@ =~= pad64(Seq::<u8>::empty()));
        }
        StivaleStruct { bootloader_brand: brand, bootloader_version: version, tags: 0 }
    }

    /// Links the tag at `address` in as the new chain head. The tag's own
    /// next field decides what the rest of the chain is; this is the
    /// bootloader-side operation for building the structure.
    pub fn add_tag(&mut self, address: u64)
        ensures
            final(self).first_tag() == address,
            final(self).brand_bytes() == old(self).brand_bytes(),
            final(self).version_bytes() == old(self).version_bytes(),
    {
        self.tags = address;
    }

    /// Stores `brand` in the brand buffer, NUL-padded, or reports the
    /// capacity exceeded (leaving the block unchanged) when it is longer
    /// than 64 bytes.
    pub fn set_bootloader_brand(&mut self, brand: &[u8]) -> (r: Result<(), StivaleError>)
        ensures
            final(self).version_bytes() == old(self).version_bytes(),
            final(self).first_tag() == old(self).first_tag(),
            brand@.len() <= STRING_CAPACITY ==> r == Ok::<(), StivaleError>(())
                && final(self).brand_bytes() == pad64(brand@),
            brand@.len() > STRING_CAPACITY ==> r == Err::<(), StivaleError>(
                StivaleError::CapacityExceeded,
            ) && final(self).brand_bytes() == old(self).brand_bytes(),
    {
        match padded_buffer(brand) {
            Some(buf) => {
                self.bootloader_brand = buf;
                Ok(())
            },
            None => Err(StivaleError::CapacityExceeded),
        }
    }

    /// Stores `version` in the version buffer, NUL-padded, or reports the
    /// capacity exceeded (leaving the block unchanged) when it is longer
    /// than 64 bytes.
    pub fn set_bootloader_version(&mut self, version: &[u8]) -> (r: Result<(), StivaleError>)
        ensures
            final(self).brand_bytes() == old(self).brand_bytes(),
            final(self).first_tag() == old(self).first_tag(),
            version@.len() <= STRING_CAPACITY ==> r == Ok::<(), StivaleError>(())
                && final(self).version_bytes() == pad64(version@),
            version@.len() > STRING_CAPACITY ==> r == Err::<(), StivaleError>(
                StivaleError::CapacityExceeded,
            ) && final(self).version_bytes() == old(self).version_bytes(),
    {
        match padded_buffer(version) {
            Some(buf) => {
                self.bootloader_version = buf;
                Ok(())
            },
            None => Err(StivaleError::CapacityExceeded),
        }
    }

    /// The brand text: the bytes of the brand buffer before its padding.
    pub fn bootloader_brand(&self) -> (r: Vec<u8>)
        ensures
            r@ == trim_nul(self.brand_bytes()),
    {
        trimmed_buffer(&self.bootloader_brand)
    }

    /// The version text: the bytes of the version buffer before its
    /// padding.
    pub fn bootloader_version(&self) -> (r: Vec<u8>)
        ensures
            r@ == trim_nul(self.version_bytes()),
    {
        trimmed_buffer(&self.bootloader_version)
    }

    /// Address of the first tag of the chain, 0 for an empty chain.
    pub fn first_tag_address(&self) -> (r: u64)
        ensures
            r == self.first_tag(),
    {
        self.tags
    }

    /// Scans the chain for the first tag whose identifier equals
    /// `identifier`, in chain order; absence is `Ok(None)`, a chain that
    /// leaves the region or does not terminate is a fault.
    pub fn get_tag(&self, region: &BootRegion, identifier: u64) -> (r: Result<
        Option<u64>,
        StivaleError,
    >)
        requires
            region.wf(),
        ensures
            match find_spec(region.mem(), region.spec_base(), self.first_tag(), identifier) {
                FindResult::Found(a) => r == Ok::<Option<u64>, StivaleError>(Some(a)),
                FindResult::Absent => r == Ok::<Option<u64>, StivaleError>(None),
                FindResult::Malformed => r == Err::<Option<u64>, StivaleError>(
                    StivaleError::MalformedBootData,
                ),
            },
    {
        find_tag(region, self.tags, identifier)
    }
}

/// A buffer of 64 NUL bytes.
fn zeroed_buffer() -> (r: Vec<u8>)
    ensures
        r@ == Seq::new(STRING_CAPACITY as nat, |i: int| 0u8),
{
    let mut buf: Vec<u8> = Vec::new();
    let mut i: usize = 0;
    while i < STRING_CAPACITY
        invariant
            i <= STRING_CAPACITY,
            buf@ =~= Seq::new(i as nat, |j: int| 0u8),
        decreases STRING_CAPACITY - i,
    {
        buf.push(0);
        i = i + 1;
    }
    proof {
        assert(buf@ =~= Seq::new(STRING_CAPACITY as nat, |j: int| 0u8));
    }
    buf
}

/// `s` copied into a fresh 64-byte buffer and NUL-padded, or `None` when
/// it does not fit.
fn padded_buffer(s: &[u8]) -> (r: Option<Vec<u8>>)
    ensures
        s@.len() <= STRING_CAPACITY ==> (r matches Some(buf) && buf@ == pad64(s@)),
        s@.len() > STRING_CAPACITY ==> r is None,
{
    if s.len() > STRING_CAPACITY {
        return None;
    }
    let mut buf: Vec<u8> = Vec::new();
    let mut i: usize = 0;
    while i < s.len()
        invariant
            i <= s@.len() <= STRING_CAPACITY,
            buf@ =~= s@.take(i as int),
        decreases s@.len() - i,
    {
        buf.push(s[i]);
        i = i + 1;
    }
    while buf.len() < STRING_CAPACITY
        invariant
            s@.len() <= buf@.len() <= STRING_CAPACITY,
            forall|j: int| 0 <= j < s@.len() ==> buf@[j] == s@[j],
            forall|j: int| s@.len() <= j < buf@.len() ==> buf@[j] == 0,
        decreases STRING_CAPACITY - buf@.len(),
    {
        buf.push(0);
    }
    proof {
        assert(buf@ =~= pad64(s@));
    }
    Some(buf)
}

/// The bytes of `buf` before its first NUL.
fn trimmed_buffer(buf: &Vec<u8>) -> (r: Vec<u8>)
    ensures
        r@ == trim_nul(buf@),
{
    let mut n: usize = 0;
    while n < buf.len() && buf[n] != 0
        invariant
            n <= buf@.len(),
            forall|j: int| 0 <= j < n ==> buf@[j] != 0,
        decreases buf@.len() - n,
    {
        n = n + 1;
    }
    proof {
        lemma_first_nul_is(buf@, n as int);
    }
    let mut out: Vec<u8> = Vec::new();
    let mut i: usize = 0;
    while i < n
        invariant
            i <= n <= buf@.len(),
            out@ =~= buf@.take(i as int),
        decreases n - i,
    {
        out.push(buf[i]);
        i = i + 1;
    }
    out
}

} // verus!
