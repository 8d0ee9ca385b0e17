//! A small, fast, non-cryptographic pseudo-random number generator.
//!
//! The generator keeps a single 64-bit state word and produces output with a
//! Wyrand-style step: add an odd constant to the state, then multiply-fold the
//! state into 64 bits. Bounded values are drawn without modulo bias by
//! widening multiplication and rejection (Lemire's method).
//!
//! Every operation is deterministic in the state word: each method's contract
//! pins the result and the successor state exactly, so two generators holding
//! equal state words produce bit-identical output.

pub mod bounds;
pub mod chars;
pub mod float_bits;
pub mod ints;
pub mod laws;
pub mod model;
pub mod rng;
pub mod sample;
pub mod shuffle;

pub use bounds::Bound;
pub use bounds::Error;
pub use model::next_state;
pub use model::output;
pub use rng::Rng;
