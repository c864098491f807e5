//! The engine settings under which a hosting runtime honours the identity
//! mapping: 64-bit addressing, a static non-relocating memory layout sized to
//! the full range, no guard regions, and the custom memory factory installed.

use vstd::prelude::*;

verus! {

/// An immutable engine configuration value. Each switch is named after what
/// it asks of the hosting runtime; an embedding applies them all to the
/// runtime's own configuration object before building the engine.
pub struct EngineSettings {
    /// Enable 64-bit memory addressing, so guest offsets are not truncated
    /// to 32 bits.
    pub memory64: bool,
    /// Force a static memory layout that the runtime never relocates.
    pub static_memory_forced: bool,
    /// The static memory's maximum size.
    pub static_memory_maximum_size: u64,
    /// Allow several memory instances per module.
    pub multi_memory: bool,
    /// Guard bytes after a static memory region.
    pub static_memory_guard_size: u64,
    /// Guard bytes after a dynamic memory region.
    pub dynamic_memory_guard_size: u64,
    /// Whether a guard region is placed before linear memory as well.
    pub guard_before_linear_memory: bool,
    /// Route every memory-instantiation request through the pseudo-region
    /// factory instead of the runtime's default allocator.
    pub custom_memory_factory: bool,
}

/// The one configuration under which the pseudo linear memory works:
/// 64-bit addressing on, static layout forced and sized to the full 64-bit
/// range, multiple memories allowed, both guard sizes zero, no guard before
/// the region, and the custom factory installed.
pub fn pseudo_memory_engine_settings() -> (s: EngineSettings)
    ensures
        s.memory64,
        s.static_memory_forced,
        s.static_memory_maximum_size == u64::MAX,
        s.multi_memory,
        s.static_memory_guard_size == 0,
        s.dynamic_memory_guard_size == 0,
        !s.guard_before_linear_memory,
        s.custom_memory_factory,
{
    EngineSettings {
        memory64: true,
        static_memory_forced: true,
        static_memory_maximum_size: u64::MAX,
        multi_memory: true,
        static_memory_guard_size: 0,
        dynamic_memory_guard_size: 0,
        guard_before_linear_memory: false,
        custom_memory_factory: true,
    }
}

} // verus!
