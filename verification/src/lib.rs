//! Reward accounting for a shared staking pool.
//!
//! Participants stake tokens into a pool. A funding spreads reward tokens
//! over a window of fixed length, and every participant accrues a share of
//! what is emitted in proportion to their stake, for as long as they are
//! staked. This crate holds the arithmetic and the rules of that accounting;
//! it moves no tokens and reads no clock. Every function is specified and
//! proved against its specification.
//!
//! - [`pool`]: the pool, a position, and how reward accrues to them.
//! - [`instructions`]: the operations, each on the accounts it is given.
//! - [`laws`]: what holds of the accounting whatever the inputs.
//! - [`wide`]: the 192-bit integer that carries the intermediate products.

pub mod instructions;
pub mod laws;
pub mod pool;
pub mod wide;
