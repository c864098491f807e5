//! The degenerate memory region: one guest linear memory whose size, growth
//! and addressing queries all give the "always valid, never bounded" answer,
//! so a guest address is numerically a host address.

use vstd::prelude::*;

verus! {

/// Span claimed by every pseudo region, in bytes, and the bound from which
/// the guest module's page minimum is taken. It leaves a small margin below
/// the full 64-bit range for the hosting runtime's own bookkeeping.
pub const MAX_PAGES: u64 = 281474976710656;

/// Returned by a growth request that was refused. No pseudo region ever
/// produces one: growth always succeeds as a no-op. The type exists so that
/// the region keeps the `Result` shape of a general memory provider.
pub struct GrowError {}

/// A guest memory region that is an identity window onto host memory.
///
/// It owns no storage at all: its base address is zero, so no relocation
/// offset is ever applied, and its reported extent covers the whole
/// addressable range, so no bounds check ever fails. Every query is a pure,
/// stateless constant.
pub struct PseudoMemoryRegion {}

impl PseudoMemoryRegion {
    /// The byte size every pseudo region reports, at any point of its life.
    pub open spec fn spec_byte_size(self) -> u64 {
        MAX_PAGES
    }

    /// The maximum byte size every pseudo region reports: the same value as
    /// `spec_byte_size`, for there is no growth headroom.
    pub open spec fn spec_maximum_byte_size(self) -> Option<u64> {
        Some(MAX_PAGES)
    }

    pub fn new() -> (r: PseudoMemoryRegion)
        ensures
            r == (PseudoMemoryRegion {}),
    {
        PseudoMemoryRegion {}
    }

    /// Current size in bytes: always the configured maximal span.
    pub fn byte_size(&self) -> (r: u64)
        ensures
            r == self.spec_byte_size(),
    {
        MAX_PAGES
    }

    /// Maximum size in bytes: always equal to the current size.
    pub fn maximum_byte_size(&self) -> (r: Option<u64>)
        ensures
            r == self.spec_maximum_byte_size(),
            r == Some(self.spec_byte_size()),
    {
        Some(MAX_PAGES)
    }

    /// Grow the region to `new_size` bytes: succeeds for every requested
    /// size, moves and copies nothing, and leaves the region as it was.
    pub fn grow_to(&mut self, new_size: u64) -> (r: Result<(), GrowError>)
        ensures
            r is Ok,
            *final(self) == *old(self),
    {
        let _ = new_size;
        Ok(())
    }

    /// The base address of the region: always zero, so the effective host
    /// address of a guest address is the guest address itself.
    pub fn base_address(&self) -> (r: u64)
        ensures
            r == 0,
    {
        0
    }

    /// The range of guest addresses the region reports as accessible:
    /// the entire representable range, which disables the hosting runtime's
    /// own bounds enforcement.
    pub fn wasm_accessible(&self) -> (r: (u64, u64))
        ensures
            r.0 == 0,
            r.1 == u64::MAX,
    {
        (0, u64::MAX)
    }
}

/// The reported size and maximum size of a pseudo region are equal, and the
/// same for every region value. Together with `grow_to`, which leaves its
/// region unchanged, this makes both quantities constant for the whole
/// lifetime of any instance.
pub proof fn lemma_sizes_equal_and_constant(r1: PseudoMemoryRegion, r2: PseudoMemoryRegion)
    ensures
        r1.spec_maximum_byte_size() == Some(r1.spec_byte_size()),
        r1.spec_byte_size() == r2.spec_byte_size(),
        r1.spec_maximum_byte_size() == r2.spec_maximum_byte_size(),
{
}

} // verus!
