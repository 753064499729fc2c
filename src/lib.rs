//! Lossless widening ("upcasting") between primitive integer kinds.
//!
//! The kinds form two chains, each widening towards its 64-bit end:
//!
//! ```text
//! u8 -> u16 -> u32 -> u64
//! i8 -> i16 -> i32 -> i64
//! ```
//!
//! Signed and unsigned kinds never widen into each other. In the relation
//! both 64-bit kinds go on to the 32-bit float and from there to the 64-bit
//! float; those two kinds are modelled but carry no values here.
//!
//! `kinds` holds the relation, `upcast` the generic conversion, and `laws`
//! what is proved of both.
mod kinds;
mod laws;
mod upcast;

pub use kinds::{
    direct_fact, height, in_range, is_float, is_integer, is_signed, is_unsigned, max_value,
    min_value, successor, widens, width, Kind, Numeric,
};
pub use laws::{
    is_path, lemma_cast_lossless, lemma_cast_reflexive, lemma_cast_transitive,
    lemma_direct_fact_widens, lemma_float32_predecessors, lemma_float_widens_to_float,
    lemma_no_path_examples, lemma_path_unique, lemma_widens_antisymmetric, lemma_widens_has_path,
    lemma_widens_height, lemma_widens_keeps_range, lemma_widens_reflexive,
    lemma_widens_transitive,
};
pub use upcast::{cast, upcast_of, UpCastAs};
