//! Laws of the library, proved once and for all inputs.
//!
//! Each proof function here states a guarantee that relates several
//! operations, over the same spec functions their contracts use: what
//! lookup returns on a well-formed chain, which bytes the variable-length
//! decoder depends on, and that the identification strings round-trip.

use vstd::prelude::*;

use crate::boot::STRING_CAPACITY;
use crate::boot::first_nul;
use crate::boot::lemma_first_nul_is;
use crate::boot::pad64;
use crate::boot::trim_nul;
use crate::bytes::lemma_u32_at_agree;
use crate::bytes::u32_at;
use crate::bytes::u64_at;
use crate::bytes::lemma_u64_at_agree;
use crate::chain::FindResult;
use crate::chain::chain_at;
use crate::chain::chain_spec;
use crate::chain::find_at;
use crate::chain::find_spec;
use crate::region::range_ok;
use crate::tags::ident_at;
use crate::tags::next_at;
use crate::varlen::counted_count;
use crate::varlen::counted_ok;
use crate::varlen::StivaleSmpHandle;
use crate::varlen::memory_map_entry_at;
use crate::varlen::smp_handle_ok;
use crate::varlen::smp_info_at;

verus! {

/// No tag of chain `s` carries the identifier `id`.
pub open spec fn chain_has_no_match(b: Seq<u8>, base: u64, s: Seq<u64>, id: u64) -> bool {
    forall|i: int| 0 <= i < s.len() ==> ident_at(b, base, #[trigger] s[i]) != id
}

/// `a` is a tag of chain `s` carrying the identifier `id`, and no tag
/// before it in chain order carries it.
pub open spec fn first_match_of_chain(b: Seq<u8>, base: u64, s: Seq<u64>, id: u64, a: u64) -> bool {
    exists|i: int|
        {
            &&& 0 <= i < s.len()
            &&& s[i] == a
            &&& ident_at(b, base, #[trigger] s[i]) == id
            &&& chain_has_no_match(b, base, s.take(i), id)
        }
}

proof fn lemma_find_at_first_match(b: Seq<u8>, base: u64, addr: u64, id: u64, fuel: nat)
    requires
        chain_at(b, base, addr, fuel) is Some,
    ensures
        match find_at(b, base, addr, id, fuel) {
            FindResult::Absent => chain_has_no_match(
                b,
                base,
                chain_at(b, base, addr, fuel).unwrap(),
                id,
            ),
            FindResult::Found(a) => first_match_of_chain(
                b,
                base,
                chain_at(b, base, addr, fuel).unwrap(),
                id,
                a,
            ),
            FindResult::Malformed => false,
        },
    decreases fuel,
{
    let s = chain_at(b, base, addr, fuel).unwrap();
    if addr == 0 {
    } else {
        let next = next_at(b, base, addr);
        let rest = chain_at(b, base, next, (fuel - 1) as nat).unwrap();
        assert(s =~= seq![addr] + rest);
        assert(s[0] == addr);
        if ident_at(b, base, addr) == id {
            assert(find_at(b, base, addr, id, fuel) == FindResult::Found(addr));
            assert(s.take(0) =~= Seq::<u64>::empty());
            assert(first_match_of_chain(b, base, s, id, addr)) by {
                assert(s[0] == addr && ident_at(b, base, s[0]) == id && chain_has_no_match(
                    b,
                    base,
                    s.take(0),
                    id,
                ));
            }
        } else {
            lemma_find_at_first_match(b, base, next, id, (fuel - 1) as nat);
            match find_at(b, base, next, id, (fuel - 1) as nat) {
                FindResult::Absent => {
                    assert forall|i: int| 0 <= i < s.len() implies ident_at(b, base, s[i])
                        != id by {
                        if i > 0 {
                            assert(s[i] == rest[i - 1]);
                        }
                    }
                },
                FindResult::Found(a) => {
                    let i = choose|i: int|
                        {
                            &&& 0 <= i < rest.len()
                            &&& rest[i] == a
                            &&& ident_at(b, base, #[trigger] rest[i]) == id
                            &&& chain_has_no_match(b, base, rest.take(i), id)
                        };
                    assert(s[i + 1] == rest[i]);
                    assert forall|k: int| 0 <= k < i + 1 implies ident_at(
                        b,
                        base,
                        #[trigger] s.take(i + 1)[k],
                    ) != id by {
                        if k > 0 {
                            assert(s.take(i + 1)[k] == rest[k - 1]);
                            assert(rest.take(i)[k - 1] == rest[k - 1]);
                        } else {
                            assert(s.take(i + 1)[0] == addr);
                        }
                    }
                    assert(0 <= i + 1 < s.len() && s[i + 1] == a && ident_at(b, base, s[i + 1])
                        == id && chain_has_no_match(b, base, s.take(i + 1), id));
                },
                FindResult::Malformed => {
                    assert(false);
                },
            }
        }
    }
}

/// Law of the registry: on a well-formed chain, lookup never reports a
/// fault; it returns the address of the first tag in chain order whose
/// identifier matches, and reports the identifier absent exactly when no
/// tag of the chain carries it. In particular, of two tags sharing an
/// identifier only the earlier one is ever returned, and on an empty
/// chain every identifier is absent.
pub proof fn lemma_find_returns_first_match(b: Seq<u8>, base: u64, first: u64, id: u64)
    requires
        chain_spec(b, base, first) is Some,
    ensures
        match find_spec(b, base, first, id) {
            FindResult::Absent => chain_has_no_match(
                b,
                base,
                chain_spec(b, base, first).unwrap(),
                id,
            ),
            FindResult::Found(a) => first_match_of_chain(
                b,
                base,
                chain_spec(b, base, first).unwrap(),
                id,
                a,
            ),
            FindResult::Malformed => false,
        },
{
    lemma_find_at_first_match(b, base, first, id, b.len());
}

/// Law of the decoder, count zero: a count-prefixed tag whose count
/// field reads zero decodes as soon as the count field itself lies in
/// the region; no byte past the count field is required.
pub proof fn lemma_decode_zero_count(b: Seq<u8>, base: u64, addr: u64, count_offset: u64, stride: u64)
    requires
        range_ok(b, base, addr, count_offset + 8),
        counted_count(b, base, addr, count_offset) == 0,
    ensures
        counted_ok(b, base, addr, count_offset, stride),
{
}

/// Law of the decoder, framing: the decoded count depends only on the
/// bytes from the tag header up to the end of the declared record array;
/// bytes at `record_base + count * stride` and beyond do not matter.
pub proof fn lemma_decode_reads_only_declared_bytes(
    b1: Seq<u8>,
    b2: Seq<u8>,
    base: u64,
    addr: u64,
    count_offset: u64,
    stride: u64,
)
    requires
        b1.len() == b2.len(),
        counted_ok(b1, base, addr, count_offset, stride),
        forall|k: int|
            addr - base <= k < addr - base + count_offset + 8 + counted_count(
                b1,
                base,
                addr,
                count_offset,
            ) * stride ==> b1[k] == b2[k],
    ensures
        counted_ok(b2, base, addr, count_offset, stride),
        counted_count(b2, base, addr, count_offset) == counted_count(b1, base, addr, count_offset),
{
    assert(counted_count(b1, base, addr, count_offset) * stride >= 0) by (nonlinear_arith)
        requires
            counted_count(b1, base, addr, count_offset) >= 0,
            stride >= 0,
    ;
    lemma_u64_at_agree(b1, b2, addr - base + count_offset);
}

/// Law of the memory map decoder, framing: every decoded memory map
/// record depends only on the bytes of the declared record array; the
/// decoder touches nothing at `record_base + count * stride` or beyond.
pub proof fn lemma_memory_map_reads_only_declared_bytes(
    b1: Seq<u8>,
    b2: Seq<u8>,
    base: u64,
    addr: u64,
)
    requires
        b1.len() == b2.len(),
        counted_ok(b1, base, addr, 16, 24),
        forall|k: int|
            addr - base <= k < addr - base + 24 + counted_count(b1, base, addr, 16) * 24 ==> b1[k]
                == b2[k],
    ensures
        counted_ok(b2, base, addr, 16, 24),
        counted_count(b2, base, addr, 16) == counted_count(b1, base, addr, 16),
        forall|i: int|
            0 <= i < counted_count(b1, base, addr, 16) ==> memory_map_entry_at(b2, base, addr, i)
                == memory_map_entry_at(b1, base, addr, i),
{
    lemma_decode_reads_only_declared_bytes(b1, b2, base, addr, 16, 24);
    let count = counted_count(b1, base, addr, 16);
    assert forall|i: int| 0 <= i < count implies memory_map_entry_at(b2, base, addr, i)
        == memory_map_entry_at(b1, base, addr, i) by {
        assert(24 * (i + 1) <= 24 * count) by (nonlinear_arith)
            requires
                i + 1 <= count,
        ;
        lemma_u64_at_agree(b1, b2, addr - base + 24 + 24 * i);
        lemma_u64_at_agree(b1, b2, addr - base + 24 + 24 * i + 8);
        lemma_u32_at_agree(b1, b2, addr - base + 24 + 24 * i + 16);
        lemma_u32_at_agree(b1, b2, addr - base + 24 + 24 * i + 20);
    }
}

/// Law of the CPU-list decoder, framing: the fixed fields and every
/// decoded CPU record depend only on the bytes of the tag and its
/// declared record array.
pub proof fn lemma_smp_reads_only_declared_bytes(b1: Seq<u8>, b2: Seq<u8>, base: u64, addr: u64)
    requires
        b1.len() == b2.len(),
        counted_ok(b1, base, addr, 32, 24),
        forall|k: int|
            addr - base <= k < addr - base + 40 + counted_count(b1, base, addr, 32) * 24 ==> b1[k]
                == b2[k],
    ensures
        counted_ok(b2, base, addr, 32, 24),
        counted_count(b2, base, addr, 32) == counted_count(b1, base, addr, 32),
        u64_at(b2, addr - base + 16) == u64_at(b1, addr - base + 16),
        u32_at(b2, addr - base + 24) == u32_at(b1, addr - base + 24),
        u32_at(b2, addr - base + 28) == u32_at(b1, addr - base + 28),
        forall|i: int|
            0 <= i < counted_count(b1, base, addr, 32) ==> smp_info_at(b2, base, addr, i)
                == smp_info_at(b1, base, addr, i),
{
    lemma_decode_reads_only_declared_bytes(b1, b2, base, addr, 32, 24);
    lemma_u64_at_agree(b1, b2, addr - base + 16);
    lemma_u32_at_agree(b1, b2, addr - base + 24);
    lemma_u32_at_agree(b1, b2, addr - base + 28);
    let count = counted_count(b1, base, addr, 32);
    assert forall|i: int| 0 <= i < count implies smp_info_at(b2, base, addr, i) == smp_info_at(
        b1,
        base,
        addr,
        i,
    ) by {
        assert(24 * (i + 1) <= 24 * count) by (nonlinear_arith)
            requires
                i + 1 <= count,
        ;
        lemma_u32_at_agree(b1, b2, addr - base + 40 + 24 * i);
        lemma_u32_at_agree(b1, b2, addr - base + 40 + 24 * i + 4);
        lemma_u64_at_agree(b1, b2, addr - base + 40 + 24 * i + 8);
        lemma_u64_at_agree(b1, b2, addr - base + 40 + 24 * i + 16);
    }
}

/// Law of the sanctioned CPU-list write: after writing a target stack
/// into record `index`, reading the CPU list back shows exactly that
/// record with exactly its target-stack field changed; every other
/// record, the other fields of record `index`, and the tag's own fields
/// are as before.
pub proof fn lemma_target_stack_write_read_back(
    b1: Seq<u8>,
    b2: Seq<u8>,
    base: u64,
    h: StivaleSmpHandle,
    index: u64,
    stack: u64,
)
    requires
        b1.len() == b2.len(),
        smp_handle_ok(b1, base, h),
        index < h.cpu_count,
        u64_at(b2, h.tag_base - base + 40 + 24 * index + 8) == stack,
        forall|k: int|
            0 <= k < b1.len() && !(h.tag_base - base + 40 + 24 * index + 8 <= k < h.tag_base - base
                + 40 + 24 * index + 16) ==> b2[k] == b1[k],
    ensures
        smp_handle_ok(b2, base, h),
        smp_info_at(b2, base, h.tag_base, index as int).target_stack == stack,
        smp_info_at(b2, base, h.tag_base, index as int).processor_id == smp_info_at(
            b1,
            base,
            h.tag_base,
            index as int,
        ).processor_id,
        smp_info_at(b2, base, h.tag_base, index as int).lapic_id == smp_info_at(
            b1,
            base,
            h.tag_base,
            index as int,
        ).lapic_id,
        smp_info_at(b2, base, h.tag_base, index as int).extra_argument == smp_info_at(
            b1,
            base,
            h.tag_base,
            index as int,
        ).extra_argument,
        forall|j: int|
            0 <= j < h.cpu_count && j != index ==> smp_info_at(b2, base, h.tag_base, j)
                == smp_info_at(b1, base, h.tag_base, j),
        u64_at(b2, h.tag_base - base + 16) == u64_at(b1, h.tag_base - base + 16),
        u32_at(b2, h.tag_base - base + 24) == u32_at(b1, h.tag_base - base + 24),
        u32_at(b2, h.tag_base - base + 28) == u32_at(b1, h.tag_base - base + 28),
{
    let addr = h.tag_base;
    let count = counted_count(b1, base, addr, 32);
    let w = addr - base + 40 + 24 * index + 8;
    assert(24 * (index + 1) <= 24 * count) by (nonlinear_arith)
        requires
            index + 1 <= count,
    ;
    lemma_u64_at_agree(b2, b1, addr - base + 32);
    lemma_u64_at_agree(b2, b1, addr - base + 16);
    lemma_u32_at_agree(b2, b1, addr - base + 24);
    lemma_u32_at_agree(b2, b1, addr - base + 28);
    lemma_u32_at_agree(b2, b1, addr - base + 40 + 24 * index);
    lemma_u32_at_agree(b2, b1, addr - base + 40 + 24 * index + 4);
    lemma_u64_at_agree(b2, b1, addr - base + 40 + 24 * index + 16);
    assert forall|j: int| 0 <= j < h.cpu_count && j != index implies smp_info_at(b2, base, addr, j)
        == smp_info_at(b1, base, addr, j) by {
        assert(24 * (j + 1) <= 24 * count) by (nonlinear_arith)
            requires
                j + 1 <= count,
        ;
        if j < index {
            assert(24 * j + 24 <= 24 * index) by (nonlinear_arith)
                requires
                    j + 1 <= index,
            ;
        } else {
            assert(24 * index + 24 <= 24 * j) by (nonlinear_arith)
                requires
                    index + 1 <= j,
            ;
        }
        lemma_u32_at_agree(b2, b1, addr - base + 40 + 24 * j);
        lemma_u32_at_agree(b2, b1, addr - base + 40 + 24 * j + 4);
        lemma_u64_at_agree(b2, b1, addr - base + 40 + 24 * j + 8);
        lemma_u64_at_agree(b2, b1, addr - base + 40 + 24 * j + 16);
    }
}

/// Law of the identification strings: storing a brand or version of at
/// most 64 bytes with no NUL byte and reading it back yields exactly the
/// stored bytes, with none of the buffer padding visible.
pub proof fn lemma_string_round_trip(s: Seq<u8>)
    requires
        s.len() <= STRING_CAPACITY,
        forall|i: int| 0 <= i < s.len() ==> s[i] != 0,
    ensures
        trim_nul(pad64(s)) == s,
{
    let p = pad64(s);
    assert(forall|i: int| 0 <= i < s.len() ==> p[i] == s[i]);
    if s.len() < STRING_CAPACITY {
        assert(p[s.len() as int] == 0);
    }
    lemma_first_nul_is(p, s.len() as int);
    assert(first_nul(p) == s.len());
    assert(p.take(s.len() as int) =~= s);
}

} // verus!
