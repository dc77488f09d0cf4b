//! Deterministic pseudorandom unit gradients for lattice corners.
//!
//! A corner is an ordered sequence of 32-bit coordinate bit patterns. Its
//! gradient is a vector of the same dimension whose components are all
//! `+k` or `-k`, with `k = 1 / sqrt(n - 1)`, except for exactly one
//! component that is exactly zero; such a vector has unit Euclidean
//! length. This crate works on the integer signs `+1`, `-1` and `0`; a
//! caller scales them by `k` to obtain the floating-point vector.
//!
//! The same corner always yields the same gradient: the corner is hashed
//! to a 64-bit digest, the digest seeds a deterministic generator, and
//! the generator's byte stream fixes every sign and the zeroed axis.

pub mod digest;
pub mod gradient;
pub mod rng;
