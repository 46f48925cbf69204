//! Settlement logic for a single-instruction coin-flip wager.
//!
//! An invocation carries a fixed-layout byte buffer: a little-endian 64-bit
//! bet amount followed by a one-byte choice (heads or tails). The handler
//! decodes the buffer, draws one outcome from a randomness source, and on a
//! win decides a payout of twice the bet. Decoding, validation, overflow
//! checking and the settlement decision are verified; the host runtime that
//! delivers the buffer and performs the value transfer sits outside.

pub mod codec;
pub mod handler;
pub mod laws;
pub mod wager;
