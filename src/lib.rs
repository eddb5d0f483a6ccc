//! Export of a finalized rank-1 constraint system and its wire assignment
//! into the binary constraint-system (`.r1cs`) and witness (`.wtns`) formats.
//!
//! Field elements are handled as canonical little-endian byte strings and are
//! written at the single width `codec::FIELD_SIZE`.

pub mod codec;
pub mod model;
pub mod r1cs;
pub mod witness;
pub mod export;
