//! Walking the tag chain and looking tags up by identifier.
//!
//! The chain is a singly linked list of tag headers inside the boot
//! region. The bootloader promises that it is finite, acyclic and that
//! every link points at a readable header; since a kernel cannot afford to
//! trust that blindly, the walk here checks every link against the region
//! and bounds the number of hops, so a dangling link or a cycle surfaces
//! as a distinct "malformed boot data" fault instead of a wild read or an
//! endless loop. A missing tag is no fault: it is reported as absent.
//!
//! The walk is specified by two recursive functions over the region's
//! bytes: `chain_at` lists the tag addresses, `find_at` returns the first
//! tag carrying a wanted identifier. Both run on a fuel of one hop per
//! region byte; a well-formed chain needs fewer hops than that (each
//! header takes 16 bytes of the region and an address repeats only in a
//! cycle), so running out of fuel proves the chain malformed.

use vstd::prelude::*;

use crate::region::BootRegion;
use crate::tags::StivaleError;
use crate::tags::header_ok;
use crate::tags::ident_at;
use crate::tags::next_at;

verus! {

/// What looking an identifier up in the chain yields.
#[derive(Clone, Copy, Debug, PartialEq, Eq, Structural)]
pub enum FindResult {
    /// The chain is structurally broken before any match.
    Malformed,
    /// The chain ends without a tag carrying the identifier.
    Absent,
    /// Address of the first tag in chain order carrying the identifier.
    Found(u64),
}

/// Looks `id` up in the chain starting at `addr`, spending one unit of
/// fuel per hop.
pub open spec fn find_at(b: Seq<u8>, base: u64, addr: u64, id: u64, fuel: nat) -> FindResult
    decreases fuel,
{
    if addr == 0 {
        FindResult::Absent
    } else if !header_ok(b, base, addr) {
        FindResult::Malformed
    } else if fuel == 0 {
        FindResult::Malformed
    } else if ident_at(b, base, addr) == id {
        FindResult::Found(addr)
    } else {
        find_at(b, base, next_at(b, base, addr), id, (fuel - 1) as nat)
    }
}

/// Looks `id` up in the chain starting at `first`, with enough fuel for
/// any chain a region of these bytes can hold.
pub open spec fn find_spec(b: Seq<u8>, base: u64, first: u64, id: u64) -> FindResult {
    find_at(b, base, first, id, b.len())
}

/// The addresses of the chain starting at `addr`, spending one unit of
/// fuel per hop; `None` when the chain is malformed.
pub open spec fn chain_at(b: Seq<u8>, base: u64, addr: u64, fuel: nat) -> Option<Seq<u64>>
    decreases fuel,
{
    if addr == 0 {
        Some(Seq::empty())
    } else if !header_ok(b, base, addr) {
        None
    } else if fuel == 0 {
        None
    } else {
        match chain_at(b, base, next_at(b, base, addr), (fuel - 1) as nat) {
            Some(rest) => Some(seq![addr] + rest),
            None => None,
        }
    }
}

/// The addresses of the chain starting at `first`, with enough fuel for
/// any chain a region of these bytes can hold.
pub open spec fn chain_spec(b: Seq<u8>, base: u64, first: u64) -> Option<Seq<u64>> {
    chain_at(b, base, first, b.len())
}

/// Scans the chain from `first` for the first tag whose identifier equals
/// `identifier`, in chain order.
pub fn find_tag(region: &BootRegion, first: u64, identifier: u64) -> (r: Result<
    Option<u64>,
    StivaleError,
>)
    requires
        region.wf(),
    ensures
        match find_spec(region.mem(), region.spec_base(), first, identifier) {
            FindResult::Found(a) => r == Ok::<Option<u64>, StivaleError>(Some(a)),
            FindResult::Absent => r == Ok::<Option<u64>, StivaleError>(None),
            FindResult::Malformed => r == Err::<Option<u64>, StivaleError>(
                StivaleError::MalformedBootData,
            ),
        },
{
    let ghost b = region.mem();
    let ghost base = region.spec_base();
    let len = region.len();
    let mut current = first;
    let mut steps: usize = 0;
    while current != 0
        invariant
            region.wf(),
            b == region.mem(),
            base == region.spec_base(),
            len == b.len(),
            steps <= len,
            find_at(b, base, current, identifier, (len - steps) as nat) == find_spec(
                b,
                base,
                first,
                identifier,
            ),
        decreases len - steps,
    {
        if steps >= len {
            return Err(StivaleError::MalformedBootData);
        }
        match region.try_offset(current, 16) {
            None => {
                return Err(StivaleError::MalformedBootData);
            },
            Some(_) => {
                let ident = region.read_u64_at(current);
                if ident == identifier {
                    return Ok(Some(current));
                }
                current = region.read_u64_at(current + 8);
                steps = steps + 1;
            },
        }
    }
    Ok(None)
}

/// Lists the addresses of every tag of the chain starting at `first`, in
/// chain order, or reports the boot data malformed if a link leaves the
/// region or the chain does not terminate.
pub fn tag_addresses(region: &BootRegion, first: u64) -> (r: Result<Vec<u64>, StivaleError>)
    requires
        region.wf(),
    ensures
        match chain_spec(region.mem(), region.spec_base(), first) {
            Some(s) => r matches Ok(v) && v@ == s,
            None => r == Err::<Vec<u64>, StivaleError>(StivaleError::MalformedBootData),
        },
{
    let ghost b = region.mem();
    let ghost base = region.spec_base();
    let len = region.len();
    let mut current = first;
    let mut steps: usize = 0;
    let mut addrs: Vec<u64> = Vec::new();
    while current != 0
        invariant
            region.wf(),
            b == region.mem(),
            base == region.spec_base(),
            len == b.len(),
            steps <= len,
            match chain_at(b, base, current, (len - steps) as nat) {
                Some(rest) => chain_spec(b, base, first) == Some(addrs@ + rest),
                None => chain_spec(b, base, first) is None,
            },
        decreases len - steps,
    {
        if steps >= len {
            return Err(StivaleError::MalformedBootData);
        }
        match region.try_offset(current, 16) {
            None => {
                return Err(StivaleError::MalformedBootData);
            },
            Some(_) => {
                let ghost prev = addrs@;
                let ghost cur = current;
                let ghost fuel = (len - steps) as nat;
                addrs.push(current);
                current = region.read_u64_at(current + 8);
                steps = steps + 1;
                proof {
                    assert(addrs@ == prev.push(cur));
                    if chain_at(b, base, current, (fuel - 1) as nat) is Some {
                        let rest = chain_at(b, base, current, (fuel - 1) as nat).unwrap();
                        assert(chain_at(b, base, cur, fuel) == Some(seq![cur] + rest));
                        assert(prev + (seq![cur] + rest) =~= prev.push(cur) + rest);
                    } else {
                        assert(chain_at(b, base, cur, fuel) is None);
                    }
                }
            },
        }
    }
    proof {
        assert(addrs@ + Seq::<u64>::empty() =~= addrs@);
    }
    Ok(addrs)
}

} // verus!
