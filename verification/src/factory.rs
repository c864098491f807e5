//! The memory factory: answers every memory-instantiation request with one
//! fresh pseudo region, ignoring the requested shape entirely.

use vstd::prelude::*;
use crate::region::PseudoMemoryRegion;
use crate::region::MAX_PAGES;

verus! {

/// What a module declares about the memory it wants: index width, page
/// bounds and sharing. The factory receives one of these per instantiation
/// and ignores it.
pub struct MemoryDescriptor {
    /// Minimum size, in pages.
    pub minimum_pages: u64,
    /// Maximum size, in pages, where one is declared.
    pub maximum_pages: Option<u64>,
    /// Whether the memory is 64-bit indexed.
    pub memory64: bool,
    /// Whether the memory is shared.
    pub shared: bool,
}

/// Manufactures `PseudoMemoryRegion` instances on demand, standing in for
/// the runtime's normal memory allocator.
pub struct MemoryFactory {}

impl MemoryFactory {
    pub fn new() -> (r: MemoryFactory)
        ensures
            r == (MemoryFactory {}),
    {
        MemoryFactory {}
    }

    /// Produce the memory for one instantiation request. Every parameter —
    /// the declared descriptor, the size bounds in bytes, the reservation
    /// and the guard size — is ignored: the result is always one fresh
    /// pseudo region, with its constant size answers.
    pub fn new_memory(
        &self,
        ty: MemoryDescriptor,
        minimum: u64,
        maximum: Option<u64>,
        reserved_size_in_bytes: Option<u64>,
        guard_size_in_bytes: u64,
    ) -> (r: PseudoMemoryRegion)
        ensures
            r == (PseudoMemoryRegion {}),
            r.spec_byte_size() == MAX_PAGES,
            r.spec_maximum_byte_size() == Some(MAX_PAGES),
    {
        let _ = ty;
        let _ = minimum;
        let _ = maximum;
        let _ = reserved_size_in_bytes;
        let _ = guard_size_in_bytes;
        PseudoMemoryRegion {}
    }
}

} // verus!
