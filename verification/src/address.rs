//! The monotonic IPv4 address allocator.
//!
//! Addresses are 32-bit unsigned integers. The allocator owns a cursor over
//! the address space; each request returns the current candidate and advances
//! the cursor by the caller's stride, so a candidate is never examined twice.
//! A candidate in a reserved class (broadcast, loopback, multicast,
//! link-local) is rejected for that single request without an internal retry;
//! the cursor still advances, so the rejected value is skipped rather than
//! re-tested. When advancing the cursor would overflow the 32-bit space the
//! request reports exhaustion and the cursor stays put.

use vstd::prelude::*;

verus! {

/// The seed of a freshly constructed allocator: `1.0.0.1`, a base chosen to
/// avoid externally meaningful ranges.
pub const ALLOCATOR_SEED: u32 = 0x0100_0001;

/// An IPv4 address held as its 32-bit big-endian integer value.
#[derive(Clone, Copy, PartialEq, Eq, Structural, Debug)]
pub struct Addr {
    pub bits: u32,
}

/// Why the allocator failed to produce an address.
#[derive(Clone, Copy, PartialEq, Eq, Structural, Debug)]
pub enum AllocError {
    /// Advancing the cursor would overflow the 32-bit address space.
    Exhausted,
    /// The candidate address falls into a reserved class.
    Invalid,
}

/// `255.255.255.255`, the limited broadcast address.
pub open spec fn addr_is_broadcast(bits: u32) -> bool {
    bits == 0xFFFF_FFFFu32
}

/// The loopback block `127.0.0.0/8`.
pub open spec fn addr_is_loopback(bits: u32) -> bool {
    bits >> 24 == 127u32
}

/// The multicast block `224.0.0.0/4`.
pub open spec fn addr_is_multicast(bits: u32) -> bool {
    224 <= (bits >> 24) && (bits >> 24) <= 239
}

/// The link-local block `169.254.0.0/16`.
pub open spec fn addr_is_link_local(bits: u32) -> bool {
    bits >> 16 == 0xA9FEu32
}

/// An address the allocator must never hand out.
pub open spec fn addr_reserved(bits: u32) -> bool {
    addr_is_broadcast(bits) || addr_is_loopback(bits) || addr_is_multicast(bits)
        || addr_is_link_local(bits)
}

impl Addr {
    /// Whether this address lies in one of the reserved classes.
    pub fn is_reserved(&self) -> (r: bool)
        ensures
            r == addr_reserved(self.bits),
    {
        let hi8 = self.bits >> 24;
        let hi16 = self.bits >> 16;
        self.bits == 0xFFFF_FFFFu32 || hi8 == 127 || (224 <= hi8 && hi8 <= 239) || hi16 == 0xA9FE
    }
}

/// The allocator: a cursor naming the next candidate address. One instance is
/// shared by the interface and route generators of a run so that addresses
/// never collide across the two; it is passed by mutable reference and never
/// copied, and must be freshly constructed for each independent run.
pub struct AddressAllocator {
    pub cursor: u32,
}

/// What one allocation request returns, as a function of the allocator state.
pub open spec fn next_result(s: AddressAllocator, stride: u32) -> Result<Addr, AllocError> {
    if s.cursor + stride > u32::MAX {
        Err(AllocError::Exhausted)
    } else if addr_reserved(s.cursor) {
        Err(AllocError::Invalid)
    } else {
        Ok(Addr { bits: s.cursor })
    }
}

/// The allocator state after one request: the cursor advances by the stride
/// even when the candidate is rejected, and stays put only on overflow.
pub open spec fn next_state(s: AddressAllocator, stride: u32) -> AddressAllocator {
    if s.cursor + stride > u32::MAX {
        s
    } else {
        AddressAllocator { cursor: (s.cursor + stride) as u32 }
    }
}

impl AddressAllocator {
    /// A fresh allocator, seeded at `1.0.0.1`.
    pub fn new() -> (r: Self)
        ensures
            r.cursor == ALLOCATOR_SEED,
    {
        AddressAllocator { cursor: ALLOCATOR_SEED }
    }

    /// An allocator whose cursor starts at an arbitrary position, for callers
    /// that resume or probe a specific region of the address space.
    pub fn from_cursor(cursor: u32) -> (r: Self)
        ensures
            r.cursor == cursor,
    {
        AddressAllocator { cursor }
    }

    /// Hand out the current candidate address, advancing the cursor by
    /// `stride`. Fails with `Exhausted` when the advance would overflow (the
    /// cursor then stays put) and with `Invalid` when the candidate is in a
    /// reserved class (the cursor still advances, so the candidate is
    /// skipped, never re-tested). No returned address is reserved, and the
    /// cursor never moves backwards.
    pub fn next(&mut self, stride: u32) -> (r: Result<Addr, AllocError>)
        requires
            stride >= 1,
        ensures
            r == next_result(*old(self), stride),
            *final(self) == next_state(*old(self), stride),
            r matches Ok(a) ==> !addr_reserved(a.bits),
            final(self).cursor >= old(self).cursor,
    {
        let candidate = Addr { bits: self.cursor };
        if self.cursor > u32::MAX - stride {
            return Err(AllocError::Exhausted);
        }
        self.cursor = self.cursor + stride;
        if candidate.is_reserved() {
            Err(AllocError::Invalid)
        } else {
            Ok(candidate)
        }
    }
}

/// Monotonicity law: across two consecutive requests that both succeed, the
/// second address is strictly greater (in the 32-bit unsigned ordering) than
/// the first, whatever the strides; so no address is ever issued twice.
pub proof fn lemma_next_monotonic(
    s0: AddressAllocator,
    stride0: u32,
    stride1: u32,
    a0: Addr,
    a1: Addr,
)
    requires
        stride0 >= 1,
        stride1 >= 1,
        next_result(s0, stride0) == Ok::<Addr, AllocError>(a0),
        next_result(next_state(s0, stride0), stride1) == Ok::<Addr, AllocError>(a1),
    ensures
        a1.bits > a0.bits,
{
}

} // verus!
