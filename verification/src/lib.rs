//! Identity-mapped pseudo linear memory for a 64-bit wasm guest.
//!
//! The crate provides the pieces a host embedding needs to hand a guest a
//! linear memory that is an identity window onto the host's own address
//! space: a degenerate memory region whose every query is the "always valid,
//! never bounded" answer, a factory that manufactures such regions, the
//! engine settings under which a runtime honours them, a builder for the
//! minimal guest module (one fetch-and-increment function over a 64-bit
//! indexed memory), and a model of that function's semantics.

pub mod builder;
pub mod codec;
pub mod config;
pub mod factory;
pub mod harness;
pub mod region;
pub mod structure;
