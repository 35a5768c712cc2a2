//! Decoding of priority operations — deposits and forced exits — from the
//! event logs a rollup contract emits: the fixed-width big-endian pubdata
//! codec for each operation kind, the dispatcher over the discriminant byte,
//! and the decoder of the outer event envelope.

pub mod be_bytes;
pub mod envelope;
pub mod errors;
pub mod params;
pub mod priority_ops;
