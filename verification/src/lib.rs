//! Aligned memory on top of the UEFI pool allocator.
//!
//! `AllocatePool()` hands out blocks that are aligned to eight bytes and knows
//! nothing of stricter alignments. This crate turns a request of any alignment
//! into one that the pool can serve, and finds the pool's own block again when
//! the memory is released.

pub mod allocator;
pub mod global;
pub mod layout;
pub mod marker;
pub mod pool;
pub mod raw;
